use vstd::prelude::*;
use vstd::string::StringExecFns;

use crate::entities::items::Items as ItemsEntity;
use crate::time_helper::IntoTimerHelper;

verus! {

/// The kinds of item the service knows.
#[derive(Clone, Copy, Debug, PartialEq, Eq, Structural)]
pub enum Category {
    Staff,
    Sword,
}

/// The text `Staff`.
pub open spec fn staff_text() -> Seq<char> {
    seq!['S', 't', 'a', 'f', 'f']
}

/// The text `Sword`.
pub open spec fn sword_text() -> Seq<char> {
    seq!['S', 'w', 'o', 'r', 'd']
}

/// The name under which a category is displayed and stored.
pub open spec fn category_text(c: Category) -> Seq<char> {
    match c {
        Category::Staff => staff_text(),
        Category::Sword => sword_text(),
    }
}

/// The category that a stored name stands for, if any.
pub open spec fn category_of_text(s: Seq<char>) -> Option<Category> {
    if s == staff_text() {
        Some(Category::Staff)
    } else if s == sword_text() {
        Some(Category::Sword)
    } else {
        None
    }
}

/// Reading back the name of a category gives the category, and the only names
/// that read as a category are the names of categories.
pub proof fn lemma_category_text_round_trip(c: Category, s: Seq<char>)
    ensures
        category_of_text(category_text(c)) == Some(c),
        category_of_text(s) == Some(c) ==> s == category_text(c),
{
    assert(staff_text() != sword_text()) by {
        assert(staff_text()[1] != sword_text()[1]);
    }
}

impl Category {
    /// The displayed name of the category: `Staff` or `Sword`.
    pub fn to_string(&self) -> (s: String)
        ensures
            s@ == category_text(*self),
    {
        proof {
            reveal_strlit("Staff");
            reveal_strlit("Sword");
        }
        match self {
            Category::Staff => String::from_str("Staff"),
            Category::Sword => String::from_str("Sword"),
        }
    }
}

/// An item as the service's clients see it.
#[derive(Clone, Debug, PartialEq, Eq)]
pub struct Item {
    pub id: i32,
    pub name: String,
    pub category: Category,
}

/// The value of an `Item`.
pub struct ItemView {
    pub id: i32,
    pub name: Seq<char>,
    pub category: Category,
}

impl View for Item {
    type V = ItemView;

    open spec fn view(&self) -> ItemView {
        ItemView { id: self.id, name: self.name@, category: self.category }
    }
}

impl Item {
    /// The stored entity for this item: not yet numbered, under the item's name
    /// and the name of its category, stamped with the clock's time.
    pub fn to_entity<T: IntoTimerHelper>(&self, t: &T) -> (e: ItemsEntity)
        ensures
            e.id is None,
            e.name@ == self.name@,
            e.category@ == category_text(self.category),
            t.can_read(e.created_at),
            t.can_read(e.updated_at),
            e.created_at.nanos < 2_000_000_000,
            e.updated_at.nanos < 2_000_000_000,
    {
        ItemsEntity::new(self.name.clone(), self.category.to_string(), t)
    }
}

/// A request to add a staff under a name.
#[derive(Clone, Debug, PartialEq, Eq)]
pub struct StaffAdding {
    pub name: String,
}

} // verus!
