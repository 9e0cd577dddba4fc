use vstd::prelude::*;

pub mod game_event;
pub mod graph;
pub mod rng;

verus! {

/// Sum of two numbers; the caller guarantees that the sum fits.
pub fn add(left: u64, right: u64) -> (r: u64)
    requires
        left + right <= u64::MAX,
    ensures
        r == left + right,
{
    left + right
}

} // verus!
