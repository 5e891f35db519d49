use vstd::prelude::*;

verus! {

/// A to-do record: an identifier assigned by the store, a title and a completion flag.
#[derive(Debug)]
pub struct TodoItem {
    pub id: Option<i32>,
    pub title: String,
    pub completed: bool,
}

/// The mathematical value of a [`TodoItem`].
pub ghost struct ItemModel {
    pub id: Option<int>,
    pub title: Seq<char>,
    pub completed: bool,
}

impl View for TodoItem {
    type V = ItemModel;

    open spec fn view(&self) -> ItemModel {
        ItemModel {
            id: match self.id {
                Some(n) => Some(n as int),
                None => None,
            },
            title: self.title@,
            completed: self.completed,
        }
    }
}

impl TodoItem {
    /// A new item with no identifier yet, as a client submits it.
    pub fn new(title: String, completed: bool) -> (r: TodoItem)
        ensures
            r@ == (ItemModel { id: None, title: title@, completed }),
    {
        TodoItem { id: None, title, completed }
    }

    /// A field-by-field copy of the item.
    pub fn duplicate(&self) -> (r: TodoItem)
        ensures
            r@ == self@,
    {
        TodoItem { id: self.id, title: self.title.clone(), completed: self.completed }
    }
}

} // verus!
