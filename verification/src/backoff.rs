//! The backoff state: how many attempts are left and how long to wait before
//! the next one.

use crate::jitter::{Jitter, MILLIONTHS};
use crate::laws::law_admitted_wait_is_in_range;
use crate::multiplier::{Multiplier, Ratio};
use crate::random::draw_below;
use vstd::pervasive::unreached;
use vstd::prelude::*;

verus! {

/// The delay before the first retry unless another is set: 100 ms, in
/// nanoseconds.
pub const DEFAULT_DELAY: u64 = 100_000_000;

/// The number of attempts, the first included, unless another is set.
pub const DEFAULT_ATTEMPTS: usize = 10;

/// The mathematical content of a [`Backoff`]. Delays are in nanoseconds and
/// unbounded here; the executable state holds them in 64 bits.
pub struct Schedule {
    /// Attempts left, not counting the one just completed.
    pub remaining: nat,
    /// The delay to apply before the next attempt.
    pub delay: nat,
    /// The factor by which the delay grows at each step.
    pub multiplier: Ratio,
    /// The ceiling of the delay, if there is one.
    pub max_delay: Option<nat>,
    /// How the wait is perturbed, if it is.
    pub jitter: Option<Jitter>,
}

impl Schedule {
    /// The delay times the multiplier, rounded down, before any ceiling.
    pub open spec fn grown_delay(self) -> nat {
        self.multiplier.scale(self.delay)
    }

    /// The delay of the following state: the grown delay, cut at the
    /// ceiling where there is one.
    pub open spec fn next_delay(self) -> nat {
        match self.max_delay {
            Some(max) => if self.grown_delay() > max {
                max
            } else {
                self.grown_delay()
            },
            None => self.grown_delay(),
        }
    }

    /// The following state: one attempt fewer, the next delay, the rest
    /// unchanged.
    pub open spec fn advanced(self) -> Schedule {
        Schedule { remaining: (self.remaining - 1) as nat, delay: self.next_delay(), ..self }
    }

    /// The state after `steps` steps.
    pub open spec fn advanced_by(self, steps: nat) -> Schedule
        decreases steps,
    {
        if steps == 0 {
            self
        } else {
            self.advanced_by((steps - 1) as nat).advanced()
        }
    }

    /// Whether the executable state can take one step: an attempt is left,
    /// and the next delay fits in 64 bits.
    pub open spec fn can_advance(self) -> bool {
        self.remaining > 0 && self.next_delay() <= u64::MAX
    }

    /// The exclusive upper bound of the samples drawn for the wait; zero
    /// where nothing is drawn.
    pub open spec fn sample_limit(self) -> nat {
        match self.jitter {
            Some(jitter) => jitter.sample_limit(),
            None => 0,
        }
    }

    /// The wait that a given sample makes of the current delay.
    pub open spec fn wait_with(self, sample: nat) -> nat {
        match self.jitter {
            Some(jitter) => jitter.apply(self.delay, sample),
            None => self.delay,
        }
    }

    /// Whether `wait` is one of the waits this state can ask for: the delay
    /// itself where nothing is drawn, else the wait of some sample below
    /// the limit.
    pub open spec fn admits_wait(self, wait: nat) -> bool {
        if self.sample_limit() == 0 {
            wait == self.delay
        } else {
            exists|sample: nat|
                sample < self.sample_limit() && wait == #[trigger] self.wait_with(sample)
        }
    }

    /// Whether `wait` lies in the range that the jitter leaves: the delay
    /// itself without jitter; from the delay up to, and not including, the
    /// delay plus the bound with a jitter of a duration; from the delay up
    /// to, and not including, the delay times one plus the bound with a
    /// jitter of a fraction. Where that range is empty, because the bound
    /// or the delay is zero, it is the delay itself.
    pub open spec fn bounds_wait(self, wait: nat) -> bool {
        match self.jitter {
            None => wait == self.delay,
            Some(Jitter::Duration(bound)) => if bound == 0 {
                wait == self.delay
            } else {
                self.delay <= wait < self.delay + bound
            },
            Some(Jitter::Percentage(bound)) => if bound == 0 || self.delay == 0 {
                wait == self.delay
            } else {
                self.delay <= wait && wait * MILLIONTHS < self.delay * (MILLIONTHS + bound)
            },
        }
    }
}

/// Exponential backoff with an attempt budget, an optional ceiling and
/// optional jitter. A value is never changed: each step gives a new one.
#[derive(Clone, Copy, Debug, PartialEq, Eq)]
pub struct Backoff {
    attempts: usize,
    delay: u64,
    multiplier: Multiplier,
    max_delay: Option<u64>,
    jitter: Option<Jitter>,
}

/// A wait and the state that follows it.
#[derive(Clone, Copy, Debug, PartialEq, Eq)]
pub struct Step {
    /// How long to wait before the next attempt, in nanoseconds.
    pub wait: u128,
    /// The state with which the next attempt is judged.
    pub state: Backoff,
}

/// What a ceiling of 64 bits means as a number.
pub open spec fn ceiling_of(max_delay: Option<u64>) -> Option<nat> {
    match max_delay {
        Some(max) => Some(max as nat),
        None => None,
    }
}

impl View for Backoff {
    type V = Schedule;

    closed spec fn view(&self) -> Schedule {
        Schedule {
            remaining: self.attempts as nat,
            delay: self.delay as nat,
            multiplier: self.multiplier@,
            max_delay: ceiling_of(self.max_delay),
            jitter: self.jitter,
        }
    }
}

impl Backoff {
    /// The default configuration: ten attempts, 100 ms, doubling, no
    /// ceiling, no jitter. Nine attempts are left once the first is made.
    pub fn new() -> (made: Backoff)
        ensures
            made@ == (Schedule {
                remaining: 9,
                delay: 100_000_000,
                multiplier: Ratio { numerator: 2, denominator: 1 },
                max_delay: None,
                jitter: None,
            }),
    {
        Backoff {
            attempts: DEFAULT_ATTEMPTS - 1,
            delay: DEFAULT_DELAY,
            multiplier: Multiplier::doubling(),
            max_delay: None,
            jitter: None,
        }
    }

    /// Sets the number of attempts in all, the first included: one fewer
    /// is left after the first. Zero is taken as one.
    pub fn with_attempts(self, attempts: usize) -> (made: Backoff)
        ensures
            made@ == (Schedule {
                remaining: if attempts == 0 {
                    0nat
                } else {
                    (attempts - 1) as nat
                },
                ..self@
            }),
    {
        let left: usize = if attempts == 0 {
            0
        } else {
            attempts - 1
        };
        Backoff { attempts: left, ..self }
    }

    /// Sets the delay before the first retry, in nanoseconds.
    pub fn with_delay(self, delay: u64) -> (made: Backoff)
        ensures
            made@ == (Schedule { delay: delay as nat, ..self@ }),
    {
        Backoff { delay, ..self }
    }

    /// Sets the factor by which the delay grows at each step.
    pub fn with_multiplier(self, multiplier: Multiplier) -> (made: Backoff)
        ensures
            made@ == (Schedule { multiplier: multiplier@, ..self@ }),
    {
        Backoff { multiplier, ..self }
    }

    /// Sets the ceiling of the delay, in nanoseconds.
    pub fn with_max_delay(self, max_delay: u64) -> (made: Backoff)
        ensures
            made@ == (Schedule { max_delay: Some(max_delay as nat), ..self@ }),
    {
        Backoff { max_delay: Some(max_delay), ..self }
    }

    /// Sets the jitter.
    pub fn with_jitter(self, jitter: Jitter) -> (made: Backoff)
        ensures
            made@ == (Schedule { jitter: Some(jitter), ..self@ }),
    {
        Backoff { jitter: Some(jitter), ..self }
    }

    /// Attempts left, not counting the one just completed.
    pub fn remaining_attempts(&self) -> (left: usize)
        ensures
            left == self@.remaining,
    {
        self.attempts
    }

    /// The delay to apply before the next attempt, in nanoseconds.
    pub fn current_delay(&self) -> (delay: u64)
        ensures
            delay == self@.delay,
    {
        self.delay
    }

    pub fn multiplier(&self) -> (multiplier: Multiplier)
        ensures
            multiplier@ == self@.multiplier,
    {
        self.multiplier
    }

    /// The ceiling of the delay, in nanoseconds.
    pub fn max_delay(&self) -> (max_delay: Option<u64>)
        ensures
            ceiling_of(max_delay) == self@.max_delay,
    {
        self.max_delay
    }

    pub fn jitter(&self) -> (jitter: Option<Jitter>)
        ensures
            jitter == self@.jitter,
    {
        self.jitter
    }

    /// The delay of the following state, or `None` where it does not fit.
    fn next_delay(&self) -> (next: Option<u64>)
        ensures
            match next {
                Some(delay) => delay == self@.next_delay(),
                None => self@.next_delay() > u64::MAX,
            },
    {
        let numerator = self.multiplier.numerator();
        let denominator = self.multiplier.denominator();
        assert(self.delay * numerator <= 0xffff_ffff_ffff_ffff * 0xffff_ffff) by (nonlinear_arith)
            requires
                0 <= self.delay <= 0xffff_ffff_ffff_ffff,
                0 <= numerator <= 0xffff_ffff,
        ;
        let grown: u128 = (self.delay as u128) * (numerator as u128) / (denominator as u128);
        assert(grown == self@.grown_delay());
        match self.max_delay {
            Some(max) => if grown > max as u128 {
                Some(max)
            } else {
                Some(grown as u64)
            },
            None => if grown > u64::MAX as u128 {
                None
            } else {
                Some(grown as u64)
            },
        }
    }

    /// Whether [`Backoff::advance`] may be called: an attempt is left and
    /// the next delay fits in 64 bits.
    pub fn can_advance(&self) -> (yes: bool)
        ensures
            yes == self@.can_advance(),
    {
        self.attempts > 0 && self.next_delay().is_some()
    }

    /// The state for the next attempt: one attempt fewer, and the delay
    /// multiplied and cut at the ceiling.
    pub fn advance(self) -> (next: Backoff)
        requires
            self@.can_advance(),
        ensures
            next@ == self@.advanced(),
    {
        match self.next_delay() {
            Some(delay) => Backoff { attempts: self.attempts - 1, delay, ..self },
            None => unreached(),
        }
    }

    /// [`Backoff::advance`] where it may be called, else `None`: no attempt
    /// is left, or the next delay does not fit in 64 bits.
    pub fn checked_advance(self) -> (next: Option<Backoff>)
        ensures
            next is Some <==> self@.can_advance(),
            next matches Some(state) ==> state@ == self@.advanced(),
    {
        if self.can_advance() {
            Some(self.advance())
        } else {
            None
        }
    }

    /// The wait that `sample` makes of the current delay, in nanoseconds.
    /// Without jitter the sample is not read.
    pub fn wait_with_sample(&self, sample: u64) -> (wait: u128)
        ensures
            wait == self@.wait_with(sample as nat),
    {
        match self.jitter {
            Some(jitter) => jitter.perturb(self.delay, sample),
            None => self.delay as u128,
        }
    }

    /// The wait before the next attempt, in nanoseconds: the current delay,
    /// perturbed by a sample drawn below the jitter's bound. Without jitter,
    /// or with a bound of zero, it is the current delay exactly.
    pub fn effective_wait(&self) -> (wait: u128)
        ensures
            self@.admits_wait(wait as nat),
            self@.bounds_wait(wait as nat),
    {
        let bound: u64 = match self.jitter {
            Some(jitter) => jitter.limit(),
            None => 0,
        };
        let wait = if bound == 0 {
            self.delay as u128
        } else {
            let sample = draw_below(bound);
            self.wait_with_sample(sample)
        };
        proof {
            law_admitted_wait_is_in_range(self@, wait as nat);
        }
        wait
    }

    /// The wait that `sample` makes of the current delay, and the state
    /// that follows.
    pub fn next_with_sample(&self, sample: u64) -> (step: Step)
        requires
            self@.can_advance(),
        ensures
            step.wait == self@.wait_with(sample as nat),
            step.state@ == self@.advanced(),
    {
        Step { wait: self.wait_with_sample(sample), state: self.advance() }
    }

    /// The wait before the next attempt, drawn as by
    /// [`Backoff::effective_wait`] from this state, and the state that
    /// follows. The caller sleeps for the wait and goes on with the state.
    pub fn next(&self) -> (step: Step)
        requires
            self@.can_advance(),
        ensures
            self@.admits_wait(step.wait as nat),
            self@.bounds_wait(step.wait as nat),
            step.state@ == self@.advanced(),
    {
        Step { wait: self.effective_wait(), state: self.advance() }
    }
}

impl Default for Backoff {
    fn default() -> (made: Backoff)
        ensures
            made@ == (Schedule {
                remaining: 9,
                delay: 100_000_000,
                multiplier: Ratio { numerator: 2, denominator: 1 },
                max_delay: None,
                jitter: None,
            }),
    {
        Backoff::new()
    }
}

} // verus!
