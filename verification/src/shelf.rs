//! Typed slot storage: a fixed-length block of slots, each either empty or
//! holding one value of the element type.
//!
//! The storage has no notion of which slots are allocated — that bookkeeping
//! is owned by the ledger. The storage performs no runtime checks of its own:
//! every access contract is a precondition, stated as a `requires` clause, and
//! the sole legitimate caller, the typed allocator, discharges each one by
//! proof.

use vstd::prelude::*;

verus! {

/// Shelving is the storage capability: loan out a slot by index, or
/// initialize ("shelve") a slot with a value.
pub trait Shelving: Sized {
    type Item;

    /// The slots as a sequence: `None` where a slot has not been shelved,
    /// `Some(v)` where it holds `v`.
    spec fn slots(&self) -> Seq<Option<Self::Item>>;

    /// Gets an immutable reference to a shelved item.
    ///
    /// The id must be in bounds and the slot must have been initialized by a
    /// previous `shelve`.
    fn lend(&self, id: usize) -> (item: &Self::Item)
        requires
            id < self.slots().len(),
            self.slots()[id as int] is Some,
        ensures
            *item == self.slots()[id as int]->0,
    ;

    /// Gets a mutable reference to a shelved item.
    ///
    /// The id must be in bounds and the slot must have been initialized by a
    /// previous `shelve`; the slot ends up holding whatever the caller leaves
    /// behind the returned reference.
    fn lend_mut(&mut self, id: usize) -> (item: &mut Self::Item)
        requires
            id < old(self).slots().len(),
            old(self).slots()[id as int] is Some,
        ensures
            *item == old(self).slots()[id as int]->0,
            final(self).slots() == old(self).slots().update(id as int, Some(*final(item))),
    ;

    /// Initialize the item identified by id, replacing whatever the slot
    /// held, and return a mutable reference to the newly shelved item.
    fn shelve(&mut self, id: usize, value: Self::Item) -> (item: &mut Self::Item)
        requires
            id < old(self).slots().len(),
        ensures
            *item == value,
            final(self).slots() == old(self).slots().update(id as int, Some(*final(item))),
    ;
}

/// The canonical storage: one owned contiguous block of slots, dense
/// struct-of-arrays style, addressed by index.
pub struct Shelf<T> {
    data: Vec<Option<T>>,
}

impl<T> Shelf<T> {
    /// Creates storage for exactly `capacity` slots, all uninitialized.
    pub fn new(capacity: usize) -> (shelf: Self)
        ensures
            shelf.slots().len() == capacity,
            forall|i: int| 0 <= i < capacity ==> shelf.slots()[i] is None,
    {
        let mut data: Vec<Option<T>> = Vec::new();
        while data.len() < capacity
            invariant
                data@.len() <= capacity,
                forall|i: int| 0 <= i < data@.len() ==> data@[i] is None,
            decreases capacity - data@.len(),
        {
            data.push(None);
        }
        Shelf { data }
    }
}

impl<T> Shelving for Shelf<T> {
    type Item = T;

    closed spec fn slots(&self) -> Seq<Option<T>> {
        self.data@
    }

    fn lend(&self, id: usize) -> (item: &T) {
        match &self.data[id] {
            Some(item) => item,
            None => vstd::pervasive::unreached(),
        }
    }

    fn lend_mut(&mut self, id: usize) -> (item: &mut T) {
        let slot = &mut self.data[id];
        slot.as_mut().unwrap()
    }

    fn shelve(&mut self, id: usize, value: T) -> (item: &mut T) {
        let slot = &mut self.data[id];
        slot.insert(value)
    }
}

} // verus!
