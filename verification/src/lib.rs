//! A double-ended stack allocator with marker-based deallocation.
//!
//! `Hold<T>` bump-allocates typed values from either end of a fixed-capacity
//! buffer and releases them in bulk by rewinding to a previously captured
//! mark. The index bookkeeping lives in [`Ledger`], the typed storage in
//! [`Shelf`], and [`Hold`] composes the two.

mod direction;
mod hold;
mod ledger;
mod shelf;

pub use direction::Direction;
pub use hold::Hold;
pub use ledger::{Ledger, LedgerError, LedgerOp, Mark};
pub use shelf::{Shelf, Shelving};
