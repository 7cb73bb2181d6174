use vstd::prelude::*;
use rand::Rng;

verus! {

/// Draws a number uniformly from `0..bound` with the thread-local generator
/// of `rand` (`rand::thread_rng().gen_range(0..bound)`).
///
/// Trusted: the outcome is chance, so the contract only says that it lies in
/// the range; `gen_range` panics on an empty range, which `requires` rules out.
#[verifier::external_body]
pub(crate) fn random_below(bound: u64) -> (r: u64)
    requires
        bound > 0,
    ensures
        r < bound,
{
    rand::thread_rng().gen_range(0..bound)
}

} // verus!
