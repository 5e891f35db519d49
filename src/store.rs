use vstd::prelude::*;

use crate::item::{ItemModel, TodoItem};

verus! {

/// The items of a vector, each seen as its mathematical value.
pub open spec fn models(v: Seq<TodoItem>) -> Seq<ItemModel> {
    v.map_values(|t: TodoItem| t@)
}

/// Every item holds the identifier equal to its position counted from one:
/// the shape that adding one item at a time to an empty collection produces.
pub open spec fn ids_sequential(items: Seq<ItemModel>) -> bool {
    forall|i: int| 0 <= i < items.len() ==> #[trigger] items[i].id == Some(i + 1)
}

/// The identifier the next item receives: one past the last item's identifier,
/// or one when the collection is empty.
pub open spec fn next_id(items: Seq<ItemModel>) -> int {
    if items.len() == 0 {
        1
    } else {
        match items.last().id {
            Some(n) => n + 1,
            None => 1,
        }
    }
}

/// The collection after appending a submitted item under the next identifier.
pub open spec fn added(items: Seq<ItemModel>, title: Seq<char>, completed: bool) -> Seq<ItemModel> {
    items.push(ItemModel { id: Some(next_id(items)), title, completed })
}

/// The insertion-ordered collection of to-do items.
pub struct ItemStore {
    items: Vec<TodoItem>,
}

impl View for ItemStore {
    type V = Seq<ItemModel>;

    closed spec fn view(&self) -> Seq<ItemModel> {
        models(self.items@)
    }
}

/// Copies every item of `v`, in order.
fn copy_items(v: &Vec<TodoItem>) -> (r: Vec<TodoItem>)
    ensures
        models(r@) == models(v@),
{
    let mut r: Vec<TodoItem> = Vec::new();
    let mut i: usize = 0;
    while i < v.len()
        invariant
            i <= v.len(),
            r@.len() == i,
            forall|j: int| 0 <= j < i ==> #[trigger] r@[j]@ == v@[j]@,
        decreases v.len() - i,
    {
        r.push(v[i].duplicate());
        i = i + 1;
    }
    assert(models(r@) =~= models(v@));
    r
}

impl ItemStore {
    /// Identifiers run from one upward, in insertion order.
    pub open spec fn wf(&self) -> bool {
        ids_sequential(self@)
    }

    /// An empty store.
    pub fn new() -> (r: ItemStore)
        ensures
            r.wf(),
            r@ == Seq::<ItemModel>::empty(),
    {
        let r = ItemStore { items: Vec::new() };
        assert(r@ == Seq::<ItemModel>::empty());
        r
    }

    /// The number of items held; a well-formed store numbers each with an
    /// `i32`, so it holds at most `i32::MAX` of them.
    pub fn len(&self) -> (r: usize)
        ensures
            r == self@.len(),
            self.wf() ==> r <= i32::MAX,
    {
        let n = self.items.len();
        proof {
            if n > 0 && self.wf() {
                let last = self.items@[n - 1];
                assert(self@[n - 1] == last@);
                assert(self@[n - 1].id == Some(n as int));
            }
        }
        n
    }

    /// A copy of the whole collection, in insertion order.
    pub fn list(&self) -> (r: Vec<TodoItem>)
        ensures
            models(r@) == self@,
    {
        copy_items(&self.items)
    }

    /// Appends `item` under the next identifier, ignoring any identifier it
    /// carries, and returns a copy of the collection afterwards.
    pub fn add(&mut self, item: TodoItem) -> (r: Vec<TodoItem>)
        requires
            old(self).wf(),
            old(self)@.len() < i32::MAX,
        ensures
            final(self).wf(),
            final(self)@ == added(old(self)@, item@.title, item@.completed),
            models(r@) == final(self)@,
    {
        let n = self.items.len();
        let new_id: i32 = if n == 0 {
            1
        } else {
            let last = &self.items[n - 1];
            proof {
                assert(self@[n - 1] == last@);
                assert(self@[n - 1].id == Some(n as int));
            }
            last.id.unwrap() + 1
        };
        let mut new_item = item;
        new_item.id = Some(new_id);
        proof {
            assert(next_id(self@) == n + 1);
        }
        self.items.push(new_item);
        proof {
            assert(self@ =~= added(old(self)@, item@.title, item@.completed));
        }
        copy_items(&self.items)
    }
}

} // verus!
