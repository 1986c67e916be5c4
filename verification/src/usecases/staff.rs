use std::sync::Arc;
use vstd::prelude::*;

use crate::entities::items::{convertible, model_outcome, Items as ItemsEntity};
use crate::models::error::{APIError, DatabaseError};
use crate::models::item::{staff_text, Category, Item, ItemView, StaffAdding};
use crate::time_helper::IntoTimerHelper;

verus! {

/// Adds items of the category `Staff`, stamping them with its clock.
pub struct StaffUsecase<T: IntoTimerHelper> {
    timer_helper: T,
}

/// Where adding a staff stands between two answers of the item store.
pub enum AddingState {
    /// The store was asked whether it holds an item under the name.
    AwaitingNameLookup { name: String },
    /// The store was asked to insert the new item.
    AwaitingInsert { name: String },
    /// The store was asked for the row it numbered `id`.
    AwaitingFetch { id: i32 },
    /// The answer has been given.
    Finished,
}

/// What adding a staff asks of the item store next, or its answer.
pub enum AddingAction {
    FindByName(String),
    Insert(ItemsEntity),
    FindById(i32),
    Finish(Result<Item, APIError>),
}

/// What the item store answered.
pub enum RepositoryReply {
    FoundByName(Result<ItemsEntity, DatabaseError>),
    Inserted(Result<i32, DatabaseError>),
    FoundById(Result<ItemsEntity, DatabaseError>),
}

/// How many answers of the store, at most, adding still waits for.
pub open spec fn stage(state: AddingState) -> nat {
    match state {
        AddingState::AwaitingNameLookup { .. } => 3,
        AddingState::AwaitingInsert { .. } => 2,
        AddingState::AwaitingFetch { .. } => 1,
        AddingState::Finished => 0,
    }
}

/// `reply` answers the question that `state` waits on; a row read back by id
/// that names a known category carries its id.
pub open spec fn reply_fits(state: AddingState, reply: RepositoryReply) -> bool {
    match state {
        AddingState::AwaitingNameLookup { .. } => reply is FoundByName,
        AddingState::AwaitingInsert { .. } => reply is Inserted,
        AddingState::AwaitingFetch { .. } => reply matches RepositoryReply::FoundById(r)
            && (r matches Ok(e) ==> convertible(&e)),
        AddingState::Finished => false,
    }
}

/// The rules of adding a staff: a name the store already holds is refused; else
/// a new `Staff` row under the name is inserted; a failed insert is reported; the
/// inserted row is read back by the id the store gave it, and the item it holds
/// is the answer, or `ItemNotFound` with that id where it cannot be read.
pub open spec fn adding_transition(
    state: AddingState,
    reply: RepositoryReply,
    next: AddingState,
    action: AddingAction,
) -> bool {
    match (state, reply) {
        (AddingState::AwaitingNameLookup { name }, RepositoryReply::FoundByName(Ok(_))) => {
            &&& next is Finished
            &&& action matches AddingAction::Finish(Err(APIError::ItemAlreadyExists(n)))
            &&& n@ == name@
        },
        (AddingState::AwaitingNameLookup { name }, RepositoryReply::FoundByName(Err(_))) => {
            &&& next matches AddingState::AwaitingInsert { name: n } && n@ == name@
            &&& action matches AddingAction::Insert(e)
            &&& e.id is None
            &&& e.name@ == name@
            &&& e.category@ == staff_text()
        },
        (AddingState::AwaitingInsert { .. }, RepositoryReply::Inserted(Ok(id))) => {
            &&& next == AddingState::AwaitingFetch { id }
            &&& action == AddingAction::FindById(id)
        },
        (AddingState::AwaitingInsert { .. }, RepositoryReply::Inserted(Err(d))) => {
            &&& next is Finished
            &&& action matches AddingAction::Finish(Err(APIError::AddingItemError(d2)))
            &&& d2.detail@ == d.detail@
        },
        (AddingState::AwaitingFetch { id }, RepositoryReply::FoundById(Err(_))) => {
            &&& next is Finished
            &&& action matches AddingAction::Finish(Err(APIError::ItemNotFound(i)))
            &&& i == id
        },
        (AddingState::AwaitingFetch { .. }, RepositoryReply::FoundById(Ok(e))) => {
            &&& next is Finished
            &&& action matches AddingAction::Finish(r) && model_outcome(e, r)
        },
        _ => false,
    }
}

impl<T: IntoTimerHelper> StaffUsecase<T> {
    /// The clock that stamps new rows.
    pub closed spec fn timer(&self) -> T {
        self.timer_helper
    }

    /// A shared use case that stamps new rows with `timer_helper`.
    pub fn creation(timer_helper: T) -> (u: Arc<Self>)
        ensures
            u.timer() == timer_helper,
    {
        Arc::new(StaffUsecase { timer_helper })
    }

    /// The first question of adding a staff: does the store hold its name?
    pub fn adding(&self, staff: StaffAdding) -> (r: (AddingState, AddingAction))
        ensures
            r.0 matches AddingState::AwaitingNameLookup { name } && name@ == staff.name@,
            r.1 matches AddingAction::FindByName(n) && n@ == staff.name@,
    {
        let name = staff.name;
        let asked = name.clone();
        (AddingState::AwaitingNameLookup { name }, AddingAction::FindByName(asked))
    }

    /// The next step of adding a staff, given the store's answer to the last
    /// question; it moves towards the answer with each step.
    pub fn adding_step(&self, state: AddingState, reply: RepositoryReply) -> (r: (AddingState, AddingAction))
        requires
            reply_fits(state, reply),
        ensures
            adding_transition(state, reply, r.0, r.1),
            stage(r.0) < stage(state),
            r.0 is Finished <==> r.1 is Finish,
            r.1 matches AddingAction::Insert(e) ==> self.timer().can_read(e.created_at)
                && self.timer().can_read(e.updated_at),
            r.1 matches AddingAction::Insert(e) ==> e.created_at.nanos < 2_000_000_000
                && e.updated_at.nanos < 2_000_000_000,
    {
        match state {
            AddingState::AwaitingNameLookup { name } => {
                match reply {
                    RepositoryReply::FoundByName(Ok(_)) => {
                        (AddingState::Finished, AddingAction::Finish(Err(APIError::ItemAlreadyExists(name))))
                    },
                    _ => {
                        let row = ItemsEntity::new(name.clone(), Category::Staff.to_string(), &self.timer_helper);
                        (AddingState::AwaitingInsert { name }, AddingAction::Insert(row))
                    },
                }
            },
            AddingState::AwaitingInsert { .. } => {
                match reply {
                    RepositoryReply::Inserted(Ok(id)) => {
                        (AddingState::AwaitingFetch { id }, AddingAction::FindById(id))
                    },
                    RepositoryReply::Inserted(Err(e)) => {
                        (AddingState::Finished, AddingAction::Finish(Err(APIError::AddingItemError(e))))
                    },
                    _ => vstd::pervasive::unreached(),
                }
            },
            AddingState::AwaitingFetch { id } => {
                match reply {
                    RepositoryReply::FoundById(Ok(row)) => {
                        (AddingState::Finished, AddingAction::Finish(row.to_model()))
                    },
                    _ => {
                        (AddingState::Finished, AddingAction::Finish(Err(APIError::ItemNotFound(id))))
                    },
                }
            },
            AddingState::Finished => vstd::pervasive::unreached(),
        }
    }
}

/// Each answer of the store moves adding a staff closer to its end, and it has
/// ended exactly when it answers; so it answers after at most three replies.
pub proof fn lemma_adding_progresses(
    state: AddingState,
    reply: RepositoryReply,
    next: AddingState,
    action: AddingAction,
)
    requires
        adding_transition(state, reply, next, action),
    ensures
        stage(next) < stage(state),
        next is Finished <==> action is Finish,
{
}

/// A name that the store already holds is refused with `ItemAlreadyExists` under
/// that name, and nothing is inserted.
pub proof fn lemma_existing_name_is_refused(
    name: String,
    found: ItemsEntity,
    next: AddingState,
    action: AddingAction,
)
    requires
        adding_transition(
            AddingState::AwaitingNameLookup { name },
            RepositoryReply::FoundByName(Ok(found)),
            next,
            action,
        ),
    ensures
        next is Finished,
        !(action is Insert),
        action matches AddingAction::Finish(Err(APIError::ItemAlreadyExists(n))) && n@ == name@,
{
}

/// The row just inserted is the one read back: whatever id the store numbers the
/// inserted row with, adding next asks the store for exactly that row and waits
/// for it.
pub proof fn lemma_inserted_row_is_read_back_by_its_id(
    name: String,
    id: i32,
    next: AddingState,
    action: AddingAction,
)
    requires
        adding_transition(
            AddingState::AwaitingInsert { name },
            RepositoryReply::Inserted(Ok(id)),
            next,
            action,
        ),
    ensures
        action == AddingAction::FindById(id),
        next == (AddingState::AwaitingFetch { id }),
{
}

/// Adding a staff under a name the store does not hold, where the store numbers
/// the inserted row `id` but cannot give a row back when asked, asks for row `id`
/// and answers `ItemNotFound` with that same id.
pub proof fn lemma_missing_row_is_reported_by_its_id(
    s0: AddingState,
    miss: DatabaseError,
    s1: AddingState,
    a1: AddingAction,
    id: i32,
    s2: AddingState,
    a2: AddingAction,
    lost: DatabaseError,
    s3: AddingState,
    a3: AddingAction,
)
    requires
        s0 is AwaitingNameLookup,
        adding_transition(s0, RepositoryReply::FoundByName(Err(miss)), s1, a1),
        adding_transition(s1, RepositoryReply::Inserted(Ok(id)), s2, a2),
        adding_transition(s2, RepositoryReply::FoundById(Err(lost)), s3, a3),
    ensures
        a1 is Insert,
        a2 == AddingAction::FindById(id),
        s3 is Finished,
        a3 matches AddingAction::Finish(Err(APIError::ItemNotFound(i))) && i == id,
{
}

/// Adding a staff under a name the store does not hold, where the store numbers
/// the inserted row `id`, is asked for row `id` and gives that row back, answers the
/// item with that id, the requested name and the category `Staff`.
pub proof fn lemma_adding_answers_the_stored_item(
    s0: AddingState,
    miss: DatabaseError,
    s1: AddingState,
    a1: AddingAction,
    id: i32,
    s2: AddingState,
    a2: AddingAction,
    stored: ItemsEntity,
    s3: AddingState,
    a3: AddingAction,
)
    requires
        s0 is AwaitingNameLookup,
        adding_transition(s0, RepositoryReply::FoundByName(Err(miss)), s1, a1),
        adding_transition(s1, RepositoryReply::Inserted(Ok(id)), s2, a2),
        a1 matches AddingAction::Insert(e) && stored.name@ == e.name@ && stored.category@ == e.category@,
        stored.id == Some(id),
        adding_transition(s2, RepositoryReply::FoundById(Ok(stored)), s3, a3),
    ensures
        a2 == AddingAction::FindById(id),
        s3 is Finished,
        a3 matches AddingAction::Finish(Ok(item)) && item@ == (ItemView {
            id,
            name: s0->AwaitingNameLookup_name@,
            category: Category::Staff,
        }),
{
}

} // verus!
