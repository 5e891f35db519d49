use vstd::prelude::*;

use crate::item::ItemModel;
use crate::store::{added, ids_sequential, next_id};

verus! {

/// The collection after committing each submission of `subs`, as a
/// (title, completed) pair, in order, starting from `items`.
pub open spec fn added_all(items: Seq<ItemModel>, subs: Seq<(Seq<char>, bool)>) -> Seq<ItemModel>
    decreases subs.len(),
{
    if subs.len() == 0 {
        items
    } else {
        added(added_all(items, subs.drop_last()), subs.last().0, subs.last().1)
    }
}

/// In a collection whose identifiers run from one upward, every item has a
/// positive identifier and no two items share one.
pub proof fn lemma_ids_unique(items: Seq<ItemModel>)
    requires
        ids_sequential(items),
    ensures
        forall|i: int| 0 <= i < items.len() ==> (#[trigger] items[i].id is Some && items[i].id->0 > 0),
        forall|i: int, j: int|
            0 <= i < items.len() && 0 <= j < items.len() && i != j ==> #[trigger] items[i].id
                != #[trigger] items[j].id,
{
}

/// An add keeps identifiers running from one upward.
pub proof fn lemma_add_keeps_ids_sequential(items: Seq<ItemModel>, title: Seq<char>, completed: bool)
    requires
        ids_sequential(items),
    ensures
        ids_sequential(added(items, title, completed)),
{
    let r = added(items, title, completed);
    assert forall|i: int| 0 <= i < r.len() implies #[trigger] r[i].id == Some(i + 1) by {
        if i < items.len() {
            assert(r[i] == items[i]);
        }
    }
}

/// Whatever submissions are committed, one after another, to a fresh store,
/// the items they leave have distinct identifiers, numbered one upward.
pub proof fn lemma_adds_give_unique_ids(subs: Seq<(Seq<char>, bool)>)
    ensures
        added_all(Seq::empty(), subs).len() == subs.len(),
        ids_sequential(added_all(Seq::empty(), subs)),
        forall|i: int, j: int|
            0 <= i < subs.len() && 0 <= j < subs.len() && i != j ==> #[trigger] added_all(
                Seq::empty(),
                subs,
            )[i].id != #[trigger] added_all(Seq::empty(), subs)[j].id,
    decreases subs.len(),
{
    if subs.len() > 0 {
        lemma_adds_give_unique_ids(subs.drop_last());
        lemma_add_keeps_ids_sequential(
            added_all(Seq::empty(), subs.drop_last()),
            subs.last().0,
            subs.last().1,
        );
    }
    lemma_ids_unique(added_all(Seq::empty(), subs));
}

/// The identifier an add assigns is exactly one more than the identifier
/// committed just before it, and one on an empty collection.
pub proof fn lemma_id_increments(items: Seq<ItemModel>, title: Seq<char>, completed: bool)
    requires
        ids_sequential(items),
    ensures
        items.len() == 0 ==> added(items, title, completed).last().id == Some(1int),
        items.len() > 0 ==> added(items, title, completed).last().id == Some(
            items.last().id->0 + 1,
        ),
{
}

/// An add never shrinks the collection and never alters an item already
/// held: the earlier collection is kept, whole, as a prefix.
pub proof fn lemma_add_extends(items: Seq<ItemModel>, title: Seq<char>, completed: bool)
    ensures
        added(items, title, completed).len() == items.len() + 1,
        added(items, title, completed).take(items.len() as int) == items,
{
    assert(added(items, title, completed).take(items.len() as int) =~= items);
}

/// An added item is found last in the collection afterwards, under a positive
/// identifier, with the title and completion flag it was submitted with.
pub proof fn lemma_round_trip(items: Seq<ItemModel>, title: Seq<char>, completed: bool)
    requires
        ids_sequential(items),
    ensures
        added(items, title, completed).last() == (ItemModel {
            id: Some(items.len() + 1int),
            title,
            completed,
        }),
        next_id(items) > 0,
{
}

/// The first add to an empty collection yields exactly one item, numbered one.
pub proof fn lemma_empty_start(title: Seq<char>, completed: bool)
    ensures
        added(Seq::empty(), title, completed) == seq![ItemModel { id: Some(1int), title, completed }],
{
    assert(added(Seq::empty(), title, completed) =~= seq![ItemModel { id: Some(1int), title, completed }]);
}

} // verus!
