use rust_clean_architecture_v1::entities::items::Items;
use rust_clean_architecture_v1::models::error::{
    health_check, not_found, push_decimal, APIError, IntoErrorResponse,
};
use rust_clean_architecture_v1::models::item::{Category, Item};
use rust_clean_architecture_v1::time_helper::{IntoTimerHelper, Timestamp, TimerHelper};
use rust_clean_architecture_v1::tracer::{span_status, SpanStatus};

fn epoch() -> Timestamp {
    Timestamp { secs: 0, nanos: 0 }
}

#[test]
fn category_names() {
    assert_eq!(Category::Staff.to_string(), "Staff");
    assert_eq!(Category::Sword.to_string(), "Sword");
}

#[test]
fn get_category_reads_known_names_only() {
    let t = TimerHelper::Mock;
    let row = |c: &str| Items::new("x".to_string(), c.to_string(), &t);
    assert_eq!(row("Staff").get_category(), Some(Category::Staff));
    assert_eq!(row("Sword").get_category(), Some(Category::Sword));
    assert_eq!(row("staff").get_category(), None);
    assert_eq!(row("Staff ").get_category(), None);
    assert_eq!(row("").get_category(), None);
}

#[test]
fn category_round_trip() {
    let t = TimerHelper::Mock;
    for c in [Category::Staff, Category::Sword] {
        let row = Items::new("x".to_string(), c.to_string(), &t);
        assert_eq!(row.get_category(), Some(c));
    }
}

#[test]
fn entity_round_trip() {
    let t = TimerHelper::Mock;
    for item in [
        Item { id: 3, name: "wooden staff".to_string(), category: Category::Staff },
        Item { id: -1, name: "iron sword".to_string(), category: Category::Sword },
    ] {
        let mut row = item.to_entity(&t);
        assert_eq!(row.id, None);
        assert_eq!(row.name, item.name);
        assert_eq!(row.category, item.category.to_string());
        row.id = Some(item.id);
        match row.to_model() {
            Ok(back) => assert_eq!(back, item),
            Err(_) => panic!("round trip failed"),
        }
    }
}

#[test]
fn to_model_rejects_an_unknown_category() {
    let t = TimerHelper::Mock;
    let row = Items::new("x".to_string(), "Bow".to_string(), &t);
    match row.to_model() {
        Err(e) => assert_eq!(e, APIError::InvalidCategory("Bow".to_string())),
        Ok(_) => panic!("unknown category accepted"),
    }
}

#[test]
fn new_row_from_the_fixed_clock() {
    let t = TimerHelper::Mock;
    let row = Items::new("wooden staff".to_string(), "Staff".to_string(), &t);
    assert_eq!(row.id, None);
    assert_eq!(row.name, "wooden staff");
    assert_eq!(row.category, "Staff");
    assert_eq!(row.created_at, epoch());
    assert_eq!(row.updated_at, epoch());
}

#[test]
fn mock_clock_is_the_unix_epoch() {
    assert_eq!(TimerHelper::Mock.now(), epoch());
    assert_eq!(TimerHelper::Mock.creation().now(), epoch());
}

#[test]
fn system_clock_is_after_2020() {
    let now = TimerHelper::Directly.now();
    assert!(now.secs > 1_577_836_800);
    assert!(now.nanos < 1_000_000_000);
}

#[test]
fn creation_keeps_the_clock() {
    assert_eq!(*TimerHelper::Directly.creation(), TimerHelper::Directly);
    assert_eq!(*TimerHelper::Mock.creation(), TimerHelper::Mock);
}

#[test]
fn error_messages_and_status() {
    let cases = [
        (APIError::InvalidCategory("Bow".to_string()), "Invalid category: Bow"),
        (APIError::ItemAlreadyExists("oak staff".to_string()), "Item is already exists: oak staff"),
        (
            APIError::AddingItemError(rust_clean_architecture_v1::models::error::DatabaseError {
                detail: "RowNotFound".to_string(),
            }),
            "Failed to add item: RowNotFound",
        ),
        (APIError::ItemNotFound(1), "Item not found: 1"),
    ];
    for (e, message) in cases {
        let r = e.error();
        assert_eq!(r.status_code, 500);
        assert_eq!(r.error, message);
    }
}

#[test]
fn decimal_text_of_integers() {
    for n in [0, 7, 10, 42, 1000, -5, -120, i32::MAX, i32::MIN] {
        let mut s = "id ".to_string();
        push_decimal(n, &mut s);
        assert_eq!(s, format!("id {}", n));
    }
}

#[test]
fn endpoint_not_found_and_health() {
    let r = not_found();
    assert_eq!(r.status_code, 404);
    assert_eq!(r.error, "Endpoint not found");
    let (status, body) = health_check();
    assert_eq!(status, 200);
    assert_eq!(body, "OK");
}

#[test]
fn span_status_follows_the_error() {
    assert_eq!(span_status(None), SpanStatus::Succeeded);
    assert_eq!(span_status(Some("boom".to_string())), SpanStatus::Failed("boom".to_string()));
}
