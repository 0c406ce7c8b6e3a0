//! The source of randomness behind the jitter.

use rand::distributions::Uniform;
use rand::Rng;
use vstd::prelude::*;

verus! {

/// Draws one number below `bound` from the generator of the calling thread,
/// by `rand::Rng::sample` on `rand::distributions::Uniform::new(0, bound)`.
///
/// Trusted: the range is half-open, so the number is less than `bound`;
/// nothing else is known of it, and two draws may differ. An empty range
/// makes `Uniform::new` panic, hence the precondition.
#[verifier::external_body]
pub(crate) fn draw_below(bound: u64) -> (sample: u64)
    requires
        bound > 0,
    ensures
        sample < bound,
{
    rand::thread_rng().sample(Uniform::new(0u64, bound))
}

} // verus!
