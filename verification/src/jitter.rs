//! Randomised perturbation of the wait between two attempts.

use vstd::prelude::*;

verus! {

/// The denominator of a [`Jitter::Percentage`]: the fraction is counted in
/// millionths of the delay.
pub const MILLIONTHS: u32 = 1_000_000;

/// How the wait before an attempt is perturbed. The stored delay is never
/// touched; only the wait that is actually slept is.
#[derive(Clone, Copy, Debug, PartialEq, Eq)]
pub enum Jitter {
    /// Adds a duration below the given bound, in nanoseconds.
    Duration(u64),
    /// Adds a fraction of the delay below the given bound, in millionths
    /// of the delay.
    Percentage(u32),
}

impl Jitter {
    /// The exclusive upper bound of the samples this strategy draws.
    pub open spec fn sample_limit(self) -> nat {
        match self {
            Jitter::Duration(bound) => bound as nat,
            Jitter::Percentage(bound) => bound as nat,
        }
    }

    /// The wait that a given sample makes of a given delay.
    pub open spec fn apply(self, delay: nat, sample: nat) -> nat {
        match self {
            Jitter::Duration(_) => delay + sample,
            Jitter::Percentage(_) => delay + delay * sample / (MILLIONTHS as nat),
        }
    }

    /// Computes [`Jitter::sample_limit`].
    pub fn limit(&self) -> (bound: u64)
        ensures
            bound == self.sample_limit(),
    {
        match self {
            Jitter::Duration(bound) => *bound,
            Jitter::Percentage(bound) => *bound as u64,
        }
    }

    /// Computes [`Jitter::apply`]. The result fits whatever the sample is.
    pub fn perturb(&self, delay: u64, sample: u64) -> (wait: u128)
        ensures
            wait == self.apply(delay as nat, sample as nat),
    {
        match self {
            Jitter::Duration(_) => delay as u128 + sample as u128,
            Jitter::Percentage(_) => {
                assert(delay * sample <= 0xffff_ffff_ffff_ffff * 0xffff_ffff_ffff_ffff)
                    by (nonlinear_arith)
                    requires
                        0 <= delay <= 0xffff_ffff_ffff_ffff,
                        0 <= sample <= 0xffff_ffff_ffff_ffff,
                ;
                let extra: u128 = (delay as u128) * (sample as u128) / (MILLIONTHS as u128);
                assert(extra <= delay * sample) by (nonlinear_arith)
                    requires
                        extra == (delay * sample) / 1_000_000,
                        delay * sample >= 0,
                ;
                delay as u128 + extra
            },
        }
    }
}

} // verus!
