//! The dice of the game: uniform random draws from the thread-local
//! generator of `rand`.
use vstd::prelude::*;
use rand::Rng;

verus! {

/// Calls `rand::thread_rng().gen_range(low, high)`. Trusted: the draw lies in
/// `low..high`; which value comes is left to chance and is not stated.
/// `gen_range` panics when `low >= high`, which `requires` rules out.
#[verifier::external_body]
pub(crate) fn roll_between(low: u64, high: u64) -> (r: u64)
    requires
        low < high,
    ensures
        low <= r < high,
{
    rand::thread_rng().gen_range(low, high)
}

} // verus!
