//! A Ledger keeps track of the double-ended stack bookkeeping.
//!
//! ## Design
//!
//! * zero-based forward index
//! * one-based reverse index
//! * successful allocation returns a zero-based index to the first element of
//!   the allocation
//!
//! ## Consequences
//!
//! * zero-sized allocations are not permitted
//! * remaining capacity = back - front
//! * front == back is full
//! * no unallocated space remains in the buffer when full
//! * all indices are unsigned integers

use vstd::prelude::*;

verus! {

use crate::direction::Direction;

/// A captured `(front, back)` cursor pair usable to rewind a [`Ledger`] to
/// the point where it was taken.
///
/// Marks are opaque to callers; the only legal operation is restoring a
/// ledger to a previously captured mark.
#[derive(Copy, Clone, Debug, Eq, PartialEq, Structural)]
pub struct Mark {
    front: usize,
    back: usize,
}

impl Mark {
    /// The forward cursor captured in this mark.
    pub closed spec fn spec_front(self) -> int {
        self.front as int
    }

    /// The reverse cursor captured in this mark.
    pub closed spec fn spec_back(self) -> int {
        self.back as int
    }

    /// Whether this mark addresses a valid cursor pair for a ledger of the
    /// given capacity.
    pub open spec fn fits(self, capacity: int) -> bool {
        0 <= self.spec_front() <= self.spec_back() <= capacity
    }
}

/// One bookkeeping request, as a ghost value: the shape of an `allocate` or
/// `deallocate` call made between capturing a mark and releasing it.
pub enum LedgerOp {
    Allocate { direction: Direction, len: int },
    Deallocate { direction: Direction, len: int },
}

/// Single-threaded allocator bookkeeping.
#[derive(Copy, Clone, Debug, Eq, PartialEq, Structural)]
pub struct Ledger {
    /// Forward stack free slot, zero-indexed
    front: usize,
    /// Reverse stack free slot, zero-indexed
    back: usize,
    /// The total capacity available to allocate
    capacity: usize,
}

/// Errors returned by the Ledger.
#[derive(Copy, Clone, Debug, PartialEq, Eq, Structural)]
pub enum LedgerError {
    /// Requested allocation exceeds the `free` capacity
    ExceedsCapacity { free: usize },
    /// Requested deallocation exceeds the total `used`
    ExceedsAllocation { used: usize },
}

impl Ledger {
    /// Forward cursor: slots consumed from the forward end.
    pub closed spec fn spec_front(self) -> int {
        self.front as int
    }

    /// Reverse cursor: position of the free boundary seen from the reverse end.
    pub closed spec fn spec_back(self) -> int {
        self.back as int
    }

    /// The fixed capacity this ledger was constructed with.
    pub closed spec fn spec_capacity(self) -> int {
        self.capacity as int
    }

    /// The ledger invariant: the cursors stay ordered within the capacity.
    pub open spec fn wf(self) -> bool {
        0 <= self.spec_front() <= self.spec_back() <= self.spec_capacity()
    }

    /// Slots available to either stack.
    pub open spec fn spec_free(self) -> int {
        self.spec_back() - self.spec_front()
    }

    /// Slots currently consumed by the `direction` stack.
    pub open spec fn spec_used(self, direction: Direction) -> int {
        match direction {
            Direction::Forward => self.spec_front(),
            Direction::Reverse => self.spec_capacity() - self.spec_back(),
        }
    }

    /// The zero-based start index a successful allocation of `len` in
    /// `direction` would return.
    pub open spec fn spec_alloc_start(self, direction: Direction, len: int) -> int {
        match direction {
            Direction::Forward => self.spec_front(),
            Direction::Reverse => self.spec_back() - len,
        }
    }

    /// The ledger state after a successful allocation of `len` in `direction`.
    pub closed spec fn spec_allocated(self, direction: Direction, len: int) -> Ledger {
        match direction {
            Direction::Forward => Ledger { front: (self.front + len) as usize, ..self },
            Direction::Reverse => Ledger { back: (self.back - len) as usize, ..self },
        }
    }

    /// The ledger state after a successful deallocation of `len` from `direction`.
    pub closed spec fn spec_deallocated(self, direction: Direction, len: int) -> Ledger {
        match direction {
            Direction::Forward => Ledger { front: (self.front - len) as usize, ..self },
            Direction::Reverse => Ledger { back: (self.back + len) as usize, ..self },
        }
    }

    /// The mark a `mark` call on this ledger captures.
    pub closed spec fn spec_mark(self) -> Mark {
        Mark { front: self.front, back: self.back }
    }

    /// The ledger state after releasing to `mark`: both cursors rewound to
    /// the captured pair, the capacity untouched.
    pub closed spec fn spec_released(self, mark: Mark) -> Ledger {
        Ledger { front: mark.front, back: mark.back, capacity: self.capacity }
    }

    /// The ledger state after one bookkeeping request: the successful
    /// transition where the request is valid, the unchanged state where it
    /// would be rejected.
    pub open spec fn spec_step(self, op: LedgerOp) -> Ledger {
        match op {
            LedgerOp::Allocate { direction, len } => if 1 <= len <= self.spec_free() {
                self.spec_allocated(direction, len)
            } else {
                self
            },
            LedgerOp::Deallocate { direction, len } => if 1 <= len <= self.spec_used(direction) {
                self.spec_deallocated(direction, len)
            } else {
                self
            },
        }
    }

    /// The ledger state after a sequence of bookkeeping requests, applied in
    /// order.
    pub open spec fn spec_run(self, ops: Seq<LedgerOp>) -> Ledger
        decreases ops.len(),
    {
        if ops.len() == 0 {
            self
        } else {
            self.spec_step(ops[0]).spec_run(ops.drop_first())
        }
    }

    /// Creates a new ledger.
    pub fn new(capacity: usize) -> (ledger: Ledger)
        ensures
            ledger.wf(),
            ledger.spec_capacity() == capacity,
            ledger.spec_front() == 0,
            ledger.spec_back() == capacity,
            ledger.spec_free() == capacity,
            ledger.spec_used(Direction::Forward) == 0,
            ledger.spec_used(Direction::Reverse) == 0,
    {
        Ledger { front: 0, back: capacity, capacity }
    }

    /// The number of slots in use for the `direction` stack.
    pub fn used(&self, direction: Direction) -> (used: usize)
        requires
            self.wf(),
        ensures
            used == self.spec_used(direction),
    {
        match direction {
            Direction::Forward => self.front,
            Direction::Reverse => self.capacity - self.back,
        }
    }

    /// The number of slots free for use by either stack.
    pub fn free(&self) -> (free: usize)
        requires
            self.wf(),
        ensures
            free == self.spec_free(),
    {
        self.back - self.front
    }

    /// Allocate `len` slots from the `direction` stack if capacity is available.
    ///
    /// On success returns the zero-based index of the first reserved slot:
    /// the previous `front` for forward allocations (post-increment), the new
    /// `back` for reverse allocations (pre-decrement). A failing call mutates
    /// nothing.
    pub fn allocate(&mut self, direction: Direction, len: usize) -> (result: Result<
        usize,
        LedgerError,
    >)
        requires
            old(self).wf(),
            1 <= len,
        ensures
            final(self).wf(),
            final(self).spec_capacity() == old(self).spec_capacity(),
            *final(self) == old(self).spec_step(
                LedgerOp::Allocate { direction, len: len as int },
            ),
            len <= old(self).spec_free() ==> {
                &&& result matches Ok(start) && start == old(self).spec_alloc_start(
                    direction,
                    len as int,
                )
                &&& *final(self) == old(self).spec_allocated(direction, len as int)
                &&& final(self).spec_free() == old(self).spec_free() - len
                &&& final(self).spec_used(direction) == old(self).spec_used(direction) + len
                &&& forall|d: Direction| d != direction ==> final(self).spec_used(d) == old(
                    self,
                ).spec_used(d)
            },
            len > old(self).spec_free() ==> {
                &&& result == Err::<usize, LedgerError>(
                    LedgerError::ExceedsCapacity { free: old(self).spec_free() as usize },
                )
                &&& *final(self) == *old(self)
            },
    {
        let free = self.free();
        if free < len {
            Err(LedgerError::ExceedsCapacity { free })
        } else {
            match direction {
                Direction::Forward => {
                    // post-increment 0-based index
                    self.front += len;
                    Ok(self.front - len)
                },
                Direction::Reverse => {
                    // pre-decrement 1-based index
                    self.back -= len;
                    // return zero-based
                    Ok(self.back)
                },
            }
        }
    }

    /// Deallocate `len` slots from the `direction` stack if `len` doesn't
    /// exceed total allocations.
    ///
    /// Only the top of the given stack can be freed (LIFO); a failing call
    /// mutates nothing.
    pub fn deallocate(&mut self, direction: Direction, len: usize) -> (result: Result<
        (),
        LedgerError,
    >)
        requires
            old(self).wf(),
            1 <= len,
        ensures
            final(self).wf(),
            final(self).spec_capacity() == old(self).spec_capacity(),
            *final(self) == old(self).spec_step(
                LedgerOp::Deallocate { direction, len: len as int },
            ),
            len <= old(self).spec_used(direction) ==> {
                &&& result == Ok::<(), LedgerError>(())
                &&& *final(self) == old(self).spec_deallocated(direction, len as int)
                &&& final(self).spec_free() == old(self).spec_free() + len
                &&& final(self).spec_used(direction) == old(self).spec_used(direction) - len
                &&& forall|d: Direction| d != direction ==> final(self).spec_used(d) == old(
                    self,
                ).spec_used(d)
            },
            len > old(self).spec_used(direction) ==> {
                &&& result == Err::<(), LedgerError>(
                    LedgerError::ExceedsAllocation {
                        used: old(self).spec_used(direction) as usize,
                    },
                )
                &&& *final(self) == *old(self)
            },
    {
        let used = self.used(direction);
        if len > used {
            Err(LedgerError::ExceedsAllocation { used })
        } else {
            match direction {
                Direction::Forward => self.front -= len,
                Direction::Reverse => self.back += len,
            }
            Ok(())
        }
    }

    /// Captures the current cursor pair. Always succeeds and has no side
    /// effect on the ledger.
    pub fn mark(&self) -> (mark: Mark)
        ensures
            mark == self.spec_mark(),
            mark.spec_front() == self.spec_front(),
            mark.spec_back() == self.spec_back(),
            self.wf() ==> mark.fits(self.spec_capacity()),
    {
        Mark { front: self.front, back: self.back }
    }

    /// Restores the cursors to a previously captured mark, rewinding every
    /// allocation and deallocation made since in one step.
    ///
    /// The caller must pass a mark taken on this ledger: the ledger records
    /// no history, so a mark from elsewhere that happens to fit the capacity
    /// is accepted and silently rewrites the bookkeeping to that pair.
    pub fn release(&mut self, mark: Mark)
        requires
            old(self).wf(),
            mark.fits(old(self).spec_capacity()),
        ensures
            final(self).wf(),
            *final(self) == old(self).spec_released(mark),
            final(self).spec_front() == mark.spec_front(),
            final(self).spec_back() == mark.spec_back(),
            final(self).spec_capacity() == old(self).spec_capacity(),
            final(self).spec_mark() == mark,
    {
        self.front = mark.front;
        self.back = mark.back;
    }
}

/// Capacity conservation: in every well-formed ledger the slots used by the
/// two stacks and the free slots account for the whole capacity.
pub proof fn lemma_capacity_conservation(ledger: Ledger)
    requires
        ledger.wf(),
    ensures
        ledger.spec_used(Direction::Forward) + ledger.spec_used(Direction::Reverse)
            + ledger.spec_free() == ledger.spec_capacity(),
{
}

/// Inverse law: allocating `len` in a direction and then immediately
/// deallocating `len` in the same direction restores the ledger to its
/// pre-allocation state exactly, and the intermediate deallocation is always
/// accepted.
pub proof fn lemma_allocate_then_deallocate(ledger: Ledger, direction: Direction, len: int)
    requires
        ledger.wf(),
        1 <= len <= ledger.spec_free(),
    ensures
        len <= ledger.spec_allocated(direction, len).spec_used(direction),
        ledger.spec_allocated(direction, len).spec_deallocated(direction, len) == ledger,
{
}

/// Start-index contract: from an empty ledger, allocating `len` forward
/// starts at index `0`, a second forward allocation of `m` starts at `len`,
/// and allocating `len` in reverse starts at `capacity - len`.
pub proof fn lemma_start_index(ledger: Ledger, len: int, m: int)
    requires
        ledger.wf(),
        ledger.spec_used(Direction::Forward) == 0,
        ledger.spec_used(Direction::Reverse) == 0,
        1 <= len,
        1 <= m,
        len + m <= ledger.spec_capacity(),
    ensures
        len <= ledger.spec_free(),
        ledger.spec_alloc_start(Direction::Forward, len) == 0,
        m <= ledger.spec_allocated(Direction::Forward, len).spec_free(),
        ledger.spec_allocated(Direction::Forward, len).spec_alloc_start(Direction::Forward, m)
            == len,
        ledger.spec_alloc_start(Direction::Reverse, len) == ledger.spec_capacity() - len,
{
}

/// Zero-capacity boundary: a well-formed ledger of capacity zero has nothing
/// free and nothing used, so every allocate request exceeds the free capacity
/// and every deallocate request exceeds the used count — each is rejected
/// with the respective error carrying zero.
pub proof fn lemma_zero_capacity(ledger: Ledger, direction: Direction, len: int)
    requires
        ledger.wf(),
        ledger.spec_capacity() == 0,
        1 <= len,
    ensures
        ledger.spec_free() == 0,
        ledger.spec_used(direction) == 0,
        len > ledger.spec_free(),
        len > ledger.spec_used(direction),
{
}

/// Every sequence of bookkeeping requests preserves the ledger invariant and
/// the capacity, whether each request is accepted or rejected.
pub proof fn lemma_run_preserves_wf(ledger: Ledger, ops: Seq<LedgerOp>)
    requires
        ledger.wf(),
    ensures
        ledger.spec_run(ops).wf(),
        ledger.spec_run(ops).spec_capacity() == ledger.spec_capacity(),
    decreases ops.len(),
{
    if ops.len() > 0 {
        lemma_run_preserves_wf(ledger.spec_step(ops[0]), ops.drop_first());
    }
}

/// Mark/release round trip: capturing a mark, performing any sequence of
/// allocations and deallocations, then releasing the mark restores the
/// ledger to exactly the captured state, regardless of what happened in
/// between.
pub proof fn lemma_mark_release_round_trip(ledger: Ledger, ops: Seq<LedgerOp>)
    requires
        ledger.wf(),
    ensures
        ledger.spec_run(ops).spec_released(ledger.spec_mark()) == ledger,
        ledger.spec_mark().fits(ledger.spec_run(ops).spec_capacity()),
{
    lemma_run_preserves_wf(ledger, ops);
}

} // verus!
