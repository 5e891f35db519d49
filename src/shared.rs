use vstd::prelude::*;
use vstd::rwlock::{RwLock, RwLockPredicate};

use crate::item::TodoItem;
use crate::store::{added, ids_sequential, models, ItemStore};

verus! {

/// What every state held by the lock satisfies: identifiers run from one upward.
pub struct StoreInvariant {}

impl RwLockPredicate<ItemStore> for StoreInvariant {
    open spec fn inv(self, s: ItemStore) -> bool {
        s.wf()
    }
}

/// Returned by [`SharedStore::add`] when the store already holds as many items
/// as an `i32` identifier can number.
#[derive(Debug)]
pub struct StoreFull {
    /// The number of items the store held when the add was refused.
    pub len: usize,
}

/// The item store shared between request handlers: every read and every
/// append runs while holding one lock, so each call sees and leaves a
/// well-formed collection.
pub struct SharedStore {
    lock: RwLock<ItemStore, StoreInvariant>,
}

impl SharedStore {
    #[verifier::type_invariant]
    spec fn guarded(&self) -> bool {
        self.lock.pred() == StoreInvariant {}
    }

    /// A shared store holding no items.
    pub fn new() -> (r: SharedStore) {
        SharedStore { lock: RwLock::new(ItemStore::new(), Ghost(StoreInvariant {})) }
    }

    /// A consistent copy of the collection, in insertion order.
    pub fn list(&self) -> (r: Vec<TodoItem>)
        ensures
            ids_sequential(models(r@)),
    {
        proof {
            use_type_invariant(self);
        }
        let (store, handle) = self.lock.acquire_write();
        let r = store.list();
        handle.release_write(store);
        r
    }

    /// Appends `item` under the next identifier while holding the lock, and
    /// returns a copy of the collection as it stood right after the append.
    /// Refused, with the store unchanged, when the store is full.
    pub fn add(&self, item: TodoItem) -> (r: Result<Vec<TodoItem>, StoreFull>)
        ensures
            match r {
                Ok(v) => {
                    &&& models(v@).len() > 0
                    &&& ids_sequential(models(v@))
                    &&& models(v@) == added(models(v@).drop_last(), item@.title, item@.completed)
                },
                Err(e) => e.len == i32::MAX,
            },
    {
        proof {
            use_type_invariant(self);
        }
        let (mut store, handle) = self.lock.acquire_write();
        let n = store.len();
        if n >= i32::MAX as usize {
            handle.release_write(store);
            return Err(StoreFull { len: n });
        }
        let ghost before = store@;
        let r = store.add(item);
        handle.release_write(store);
        assert(models(r@).drop_last() =~= before);
        Ok(r)
    }
}

} // verus!
