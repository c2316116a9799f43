use vstd::prelude::*;

verus! {

/// Denotes the forward and reverse stacks.
#[derive(Copy, Clone, Debug, PartialEq, Eq, Structural)]
pub enum Direction {
    Forward,
    Reverse,
}

} // verus!
