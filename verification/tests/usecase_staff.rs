use std::sync::Arc;

use rust_clean_architecture_v1::entities::items::Items as ItemsEntity;
use rust_clean_architecture_v1::models::error::{APIError, DatabaseError, IntoErrorResponse};
use rust_clean_architecture_v1::models::item::{Category, StaffAdding};
use rust_clean_architecture_v1::time_helper::{IntoTimerHelper, TimerHelper};
use rust_clean_architecture_v1::usecases::staff::{
    AddingAction, AddingState, RepositoryReply, StaffUsecase,
};

fn row_not_found() -> DatabaseError {
    DatabaseError { detail: "RowNotFound".to_string() }
}

#[test]
fn adding_test() {
    let timer_helper = TimerHelper::Mock.creation();
    let req = StaffAdding { name: "wooden staff".to_string() };
    let staff_usecase = StaffUsecase::creation(Arc::clone(&timer_helper));

    let (state, action) = staff_usecase.adding(req.clone());
    match action {
        AddingAction::FindByName(name) => assert_eq!(name, req.name),
        _ => panic!("expected a lookup by name"),
    }

    let (state, action) =
        staff_usecase.adding_step(state, RepositoryReply::FoundByName(Err(row_not_found())));
    match action {
        AddingAction::Insert(row) => {
            assert_eq!(
                row,
                ItemsEntity::new(req.name.clone(), Category::Staff.to_string(), &timer_helper)
            );
        }
        _ => panic!("expected an insert"),
    }

    let (state, action) = staff_usecase.adding_step(state, RepositoryReply::Inserted(Ok(1)));
    match action {
        AddingAction::FindById(id) => assert_eq!(id, 1),
        _ => panic!("expected a lookup by id"),
    }

    let t = TimerHelper::Mock.creation();
    let stored = ItemsEntity {
        id: Some(1),
        name: "wooden staff".to_string(),
        category: Category::Staff.to_string(),
        created_at: t.now(),
        updated_at: t.now(),
    };
    let (state, action) = staff_usecase.adding_step(state, RepositoryReply::FoundById(Ok(stored)));
    assert!(matches!(state, AddingState::Finished));
    let result = match action {
        AddingAction::Finish(Ok(r)) => r,
        _ => panic!("adding error"),
    };

    let id = match Some(result.id) {
        Some(i) => i,
        None => panic!("id is None"),
    };

    assert_eq!(result.id, id);
    assert_eq!(result.name, "wooden staff");
    assert_eq!(result.category, Category::Staff);
}

#[test]
fn adding_refuses_an_existing_name() {
    let usecase = StaffUsecase::creation(TimerHelper::Mock);
    let (state, _) = usecase.adding(StaffAdding { name: "oak staff".to_string() });
    let t = TimerHelper::Mock;
    let existing = ItemsEntity::new("oak staff".to_string(), "Staff".to_string(), &t);
    let (state, action) = usecase.adding_step(state, RepositoryReply::FoundByName(Ok(existing)));
    assert!(matches!(state, AddingState::Finished));
    match action {
        AddingAction::Finish(Err(e)) => {
            assert_eq!(e, APIError::ItemAlreadyExists("oak staff".to_string()));
            let response = e.error();
            assert_eq!(response.status_code, 500);
            assert_eq!(response.error, "Item is already exists: oak staff");
        }
        _ => panic!("expected a refusal"),
    }
}

#[test]
fn adding_reports_a_failed_insert() {
    let usecase = StaffUsecase::creation(TimerHelper::Mock);
    let (state, _) = usecase.adding(StaffAdding { name: "ash staff".to_string() });
    let (state, _) = usecase.adding_step(state, RepositoryReply::FoundByName(Err(row_not_found())));
    let failure = DatabaseError { detail: "PoolTimedOut".to_string() };
    let (state, action) = usecase.adding_step(state, RepositoryReply::Inserted(Err(failure.clone())));
    assert!(matches!(state, AddingState::Finished));
    match action {
        AddingAction::Finish(Err(e)) => {
            assert_eq!(e, APIError::AddingItemError(failure));
            assert_eq!(e.error().error, "Failed to add item: PoolTimedOut");
        }
        _ => panic!("expected an insert failure"),
    }
}

#[test]
fn adding_reports_a_row_that_cannot_be_read_back() {
    let usecase = StaffUsecase::creation(TimerHelper::Mock);
    let (state, _) = usecase.adding(StaffAdding { name: "elm staff".to_string() });
    let (state, _) = usecase.adding_step(state, RepositoryReply::FoundByName(Err(row_not_found())));
    let (state, _) = usecase.adding_step(state, RepositoryReply::Inserted(Ok(-42)));
    let (state, action) = usecase.adding_step(state, RepositoryReply::FoundById(Err(row_not_found())));
    assert!(matches!(state, AddingState::Finished));
    match action {
        AddingAction::Finish(Err(e)) => {
            assert_eq!(e, APIError::ItemNotFound(-42));
            assert_eq!(e.error().error, "Item not found: -42");
        }
        _ => panic!("expected ItemNotFound"),
    }
}

#[test]
fn adding_reports_a_row_of_an_unknown_category() {
    let usecase = StaffUsecase::creation(TimerHelper::Mock);
    let (state, _) = usecase.adding(StaffAdding { name: "yew staff".to_string() });
    let (state, _) = usecase.adding_step(state, RepositoryReply::FoundByName(Err(row_not_found())));
    let (state, _) = usecase.adding_step(state, RepositoryReply::Inserted(Ok(7)));
    let t = TimerHelper::Mock;
    let mut odd = ItemsEntity::new("yew staff".to_string(), "Wand".to_string(), &t);
    odd.id = Some(7);
    let (_, action) = usecase.adding_step(state, RepositoryReply::FoundById(Ok(odd)));
    match action {
        AddingAction::Finish(Err(e)) => {
            assert_eq!(e, APIError::InvalidCategory("Wand".to_string()));
            assert_eq!(e.error().error, "Invalid category: Wand");
        }
        _ => panic!("expected InvalidCategory"),
    }
}
