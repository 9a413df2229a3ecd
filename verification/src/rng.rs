//! The one randomness primitive the simulation draws on. Every consumer
//! takes the drawn value as an argument to a fully verified function, so
//! the rules hold whatever the generator returns.

use vstd::prelude::*;

verus! {

/// Relies on `rand::thread_rng` and `rand::Rng::gen_range`: a value drawn
/// uniformly from `[0, n)`. `gen_range` panics only on an empty range,
/// which the precondition excludes. Nothing beyond the range bound is
/// assumed of the outcome.
#[verifier::external_body]
pub(crate) fn rand_below(n: u64) -> (r: u64)
    requires
        1 <= n,
    ensures
        r < n,
{
    rand::Rng::gen_range(&mut rand::thread_rng(), 0..n)
}

} // verus!
