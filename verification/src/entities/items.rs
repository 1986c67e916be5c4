use vstd::prelude::*;
use vstd::string::StringExecFns;

use crate::models::error::APIError;
use crate::models::item::{category_of_text, category_text, Category, Item as ItemModel, ItemView, staff_text, sword_text};
use crate::time_helper::{IntoTimerHelper, Timestamp};

verus! {

/// A row of the items table.
#[derive(Clone, Debug, PartialEq, Eq)]
pub struct Items {
    pub id: Option<i32>,
    pub name: String,
    pub category: String,
    pub created_at: Timestamp,
    pub updated_at: Timestamp,
}

/// `r` is what `to_model` answers for the row `e`: the item with the row's id,
/// name and category, or `InvalidCategory` with the stored name where that names
/// no category.
pub open spec fn model_outcome(e: Items, r: Result<ItemModel, APIError>) -> bool {
    match category_of_text(e.category@) {
        Some(c) => r matches Ok(item) && item@ == (ItemView { id: e.id->0, name: e.name@, category: c }),
        None => r matches Err(APIError::InvalidCategory(s)) && s@ == e.category@,
    }
}

/// A row whose category is known has an id, which is what `to_model` needs.
pub open spec fn convertible(e: &Items) -> bool {
    category_of_text(e.category@) is Some ==> e.id is Some
}

/// An item stored as its entity and numbered with its own id by the store reads
/// back as the same item.
pub proof fn lemma_entity_round_trip(item: ItemModel, e: Items, r: Result<ItemModel, APIError>)
    requires
        e.id == Some(item.id),
        e.name@ == item.name@,
        e.category@ == category_text(item.category),
        model_outcome(e, r),
    ensures
        r matches Ok(back) && back@ == item@,
{
    crate::models::item::lemma_category_text_round_trip(item.category, e.category@);
}

impl Items {
    /// A new, not yet numbered row; both of its times are readings of the clock
    /// `t`, read one after the other, each one that the clock can give, with
    /// nanoseconds below two billion.
    pub fn new<T: IntoTimerHelper>(name: String, category: String, t: &T) -> (e: Items)
        ensures
            e.id is None,
            e.name == name,
            e.category == category,
            t.can_read(e.created_at),
            t.can_read(e.updated_at),
            e.created_at.nanos < 2_000_000_000,
            e.updated_at.nanos < 2_000_000_000,
    {
        let created_at = t.now();
        let updated_at = t.now();
        Items { id: None, name, category, created_at, updated_at }
    }

    /// The client's view of the row: its id, name and category, or
    /// `InvalidCategory` with the stored category name where that names no category.
    pub fn to_model(&self) -> (r: Result<ItemModel, APIError>)
        requires
            convertible(self),
        ensures
            model_outcome(*self, r),
    {
        let category = match self.get_category() {
            Some(category) => category,
            None => {
                return Err(APIError::InvalidCategory(self.category.clone()));
            },
        };
        let id = match self.id {
            Some(id) => id,
            None => vstd::pervasive::unreached(),
        };
        Ok(ItemModel { id, name: self.name.clone(), category })
    }

    /// The category that the stored name stands for: `Staff`, `Sword`, or none.
    pub fn get_category(&self) -> (c: Option<Category>)
        ensures
            c == category_of_text(self.category@),
    {
        proof {
            reveal_strlit("Staff");
            reveal_strlit("Sword");
        }
        let staff = String::from_str("Staff");
        let sword = String::from_str("Sword");
        assert(staff@ =~= staff_text());
        assert(sword@ =~= sword_text());
        if self.category == staff {
            Some(Category::Staff)
        } else if self.category == sword {
            Some(Category::Sword)
        } else {
            None
        }
    }
}

} // verus!
