//! The typed double-ended allocator: one [`Ledger`] and one [`Shelf`] of the
//! same capacity, paired for the allocator's lifetime.
//!
//! Every allocation is a ledger reservation followed by a slot
//! initialization; scope capture and rewind (`mark`/`release`) are built on
//! the ledger's cursor pair. The storage layer's preconditions are
//! discharged here, so from the outside only the two ledger error kinds are
//! reachable.
//!
//! Rewinding runs no per-element cleanup: a slot released by `deallocate` or
//! `release` keeps its value until a later allocation overwrites it or the
//! allocator is dropped, at which point the value is dropped normally.

use vstd::prelude::*;

verus! {

use crate::direction::Direction;
use crate::ledger::{Ledger, LedgerError, Mark};
use crate::shelf::{Shelf, Shelving};

/// A double-ended stack allocator.
pub struct Hold<T> {
    ledger: Ledger,
    shelf: Shelf<T>,
}

impl<T> Hold<T> {
    /// The bookkeeping state: cursors and capacity.
    pub closed spec fn spec_ledger(self) -> Ledger {
        self.ledger
    }

    /// The storage state: one entry per slot, `None` where a slot was never
    /// initialized.
    pub closed spec fn spec_slots(self) -> Seq<Option<T>> {
        self.shelf.slots()
    }

    /// The allocator invariant: a well-formed ledger paired with storage of
    /// exactly the ledger's capacity.
    pub open spec fn wf(self) -> bool {
        &&& self.spec_ledger().wf()
        &&& self.spec_slots().len() == self.spec_ledger().spec_capacity()
    }

    /// Creates an allocator with storage for exactly `capacity` slots, all
    /// uninitialized, and a fresh ledger of the same capacity.
    pub fn new(capacity: usize) -> (hold: Self)
        ensures
            hold.wf(),
            hold.spec_ledger().spec_capacity() == capacity,
            hold.spec_ledger().spec_front() == 0,
            hold.spec_ledger().spec_back() == capacity,
            hold.spec_ledger().spec_free() == capacity,
            forall|i: int| 0 <= i < capacity ==> hold.spec_slots()[i] is None,
    {
        Hold { ledger: Ledger::new(capacity), shelf: Shelf::new(capacity) }
    }

    /// Allocates one slot from the `direction` stack and initializes it with
    /// `value`, returning the slot's zero-based index.
    ///
    /// On a full ledger the request fails with `ExceedsCapacity` and neither
    /// the bookkeeping nor the storage changes.
    pub fn allocate(&mut self, direction: Direction, value: T) -> (result: Result<
        usize,
        LedgerError,
    >)
        requires
            old(self).wf(),
        ensures
            final(self).wf(),
            final(self).spec_ledger().spec_capacity() == old(self).spec_ledger().spec_capacity(),
            old(self).spec_ledger().spec_free() >= 1 ==> match result {
                Ok(id) => {
                    &&& id == old(self).spec_ledger().spec_alloc_start(direction, 1)
                    &&& final(self).spec_ledger() == old(self).spec_ledger().spec_allocated(
                        direction,
                        1,
                    )
                    &&& final(self).spec_ledger().spec_free() == old(self).spec_ledger().spec_free()
                        - 1
                    &&& final(self).spec_ledger().spec_used(direction) == old(
                        self,
                    ).spec_ledger().spec_used(direction) + 1
                    &&& forall|d: Direction|
                        d != direction ==> final(self).spec_ledger().spec_used(d) == old(
                            self,
                        ).spec_ledger().spec_used(d)
                    &&& final(self).spec_slots() == old(self).spec_slots().update(
                        id as int,
                        Some(value),
                    )
                },
                Err(_) => false,
            },
            old(self).spec_ledger().spec_free() < 1 ==> {
                &&& result == Err::<usize, LedgerError>(
                    LedgerError::ExceedsCapacity {
                        free: old(self).spec_ledger().spec_free() as usize,
                    },
                )
                &&& final(self).spec_ledger() == old(self).spec_ledger()
                &&& final(self).spec_slots() == old(self).spec_slots()
            },
    {
        match self.ledger.allocate(direction, 1) {
            Ok(id) => {
                self.shelf.shelve(id, value);
                Ok(id)
            },
            Err(error) => Err(error),
        }
    }

    /// Frees the `len` most recent slots of the `direction` stack (LIFO).
    ///
    /// The released slots are not revisited: their values stay shelved until
    /// overwritten or the allocator is dropped. A request past what the
    /// direction has allocated fails with `ExceedsAllocation` and changes
    /// nothing.
    pub fn deallocate(&mut self, direction: Direction, len: usize) -> (result: Result<
        (),
        LedgerError,
    >)
        requires
            old(self).wf(),
            1 <= len,
        ensures
            final(self).wf(),
            final(self).spec_ledger().spec_capacity() == old(self).spec_ledger().spec_capacity(),
            final(self).spec_slots() == old(self).spec_slots(),
            len <= old(self).spec_ledger().spec_used(direction) ==> {
                &&& result == Ok::<(), LedgerError>(())
                &&& final(self).spec_ledger() == old(self).spec_ledger().spec_deallocated(
                    direction,
                    len as int,
                )
                &&& final(self).spec_ledger().spec_free() == old(self).spec_ledger().spec_free()
                    + len
                &&& final(self).spec_ledger().spec_used(direction) == old(
                    self,
                ).spec_ledger().spec_used(direction) - len
                &&& forall|d: Direction|
                    d != direction ==> final(self).spec_ledger().spec_used(d) == old(
                        self,
                    ).spec_ledger().spec_used(d)
            },
            len > old(self).spec_ledger().spec_used(direction) ==> {
                &&& result == Err::<(), LedgerError>(
                    LedgerError::ExceedsAllocation {
                        used: old(self).spec_ledger().spec_used(direction) as usize,
                    },
                )
                &&& final(self).spec_ledger() == old(self).spec_ledger()
            },
    {
        self.ledger.deallocate(direction, len)
    }

    /// Gets an immutable reference to the initialized slot `id`.
    pub fn lend(&self, id: usize) -> (item: &T)
        requires
            self.wf(),
            id < self.spec_slots().len(),
            self.spec_slots()[id as int] is Some,
        ensures
            *item == self.spec_slots()[id as int]->0,
    {
        self.shelf.lend(id)
    }

    /// Gets a mutable reference to the initialized slot `id`; the slot ends
    /// up holding whatever the caller leaves behind the reference.
    pub fn lend_mut(&mut self, id: usize) -> (item: &mut T)
        requires
            old(self).wf(),
            id < old(self).spec_slots().len(),
            old(self).spec_slots()[id as int] is Some,
        ensures
            *item == old(self).spec_slots()[id as int]->0,
            final(self).spec_slots() == old(self).spec_slots().update(
                id as int,
                Some(*final(item)),
            ),
            final(self).spec_ledger() == old(self).spec_ledger(),
            final(self).wf(),
    {
        self.shelf.lend_mut(id)
    }

    /// Captures the current cursor pair. No side effect on the allocator.
    pub fn mark(&self) -> (mark: Mark)
        requires
            self.wf(),
        ensures
            mark == self.spec_ledger().spec_mark(),
            mark.spec_front() == self.spec_ledger().spec_front(),
            mark.spec_back() == self.spec_ledger().spec_back(),
            mark.fits(self.spec_ledger().spec_capacity()),
    {
        self.ledger.mark()
    }

    /// Rewinds the cursors to a previously captured mark, releasing every
    /// allocation made since in one step. Storage is not revisited; see
    /// [`Self::deallocate`] for the retirement policy.
    ///
    /// The caller must pass a mark taken on this allocator: the ledger keeps
    /// no history, so any pair that fits the capacity is accepted and
    /// rewrites the bookkeeping to it.
    pub fn release(&mut self, mark: Mark)
        requires
            old(self).wf(),
            mark.fits(old(self).spec_ledger().spec_capacity()),
        ensures
            final(self).wf(),
            final(self).spec_ledger() == old(self).spec_ledger().spec_released(mark),
            final(self).spec_ledger().spec_mark() == mark,
            final(self).spec_ledger().spec_front() == mark.spec_front(),
            final(self).spec_ledger().spec_back() == mark.spec_back(),
            final(self).spec_ledger().spec_capacity() == old(self).spec_ledger().spec_capacity(),
            final(self).spec_slots() == old(self).spec_slots(),
    {
        self.ledger.release(mark)
    }
}

} // verus!
