//! The retry decision: after each attempt, stop or wait and try again.

use crate::backoff::{Backoff, Schedule};
use crate::outcome::Outcome;
use vstd::prelude::*;

verus! {

/// What to do after an attempt.
#[derive(Clone, Copy, Debug, PartialEq, Eq)]
pub enum RetryDecision {
    /// Hand the last outcome to the caller as it is.
    Stop,
    /// Wait, then send the request again and judge its outcome with `next`.
    Retry {
        /// How long to wait before sending again, in nanoseconds.
        wait: u128,
        /// The state with which the next outcome is judged.
        next: Backoff,
    },
}

/// The mathematical content of a [`RetryDecision`].
pub enum Decision {
    Stop,
    Retry { wait: nat, next: Schedule },
}

impl View for RetryDecision {
    type V = Decision;

    open spec fn view(&self) -> Decision {
        match *self {
            RetryDecision::Stop => Decision::Stop,
            RetryDecision::Retry { wait, next } => Decision::Retry { wait: wait as nat, next: next@ },
        }
    }
}

/// Whether another attempt follows: an attempt is left, and the outcome is
/// a transport failure or a response with a client or server error.
pub open spec fn should_retry(state: Schedule, outcome: Outcome) -> bool {
    state.remaining > 0 && outcome.is_retryable()
}

/// The decision when the wait is drawn with `sample`: stop, or wait what
/// the sample makes of the delay of `state` and go on with the state
/// after it.
pub open spec fn decision(state: Schedule, outcome: Outcome, sample: nat) -> Decision {
    if should_retry(state, outcome) {
        Decision::Retry { wait: state.wait_with(sample), next: state.advanced() }
    } else {
        Decision::Stop
    }
}

/// Whether the engine can decide on `outcome` in `state`: either it stops,
/// or the delay of the state after `state` fits in 64 bits.
pub open spec fn decidable(state: Schedule, outcome: Outcome) -> bool {
    should_retry(state, outcome) ==> state.can_advance()
}

/// Computes [`should_retry`].
pub fn wants_retry(state: &Backoff, outcome: &Outcome) -> (yes: bool)
    ensures
        yes == should_retry(state@, *outcome),
{
    state.remaining_attempts() > 0 && outcome.retryable()
}

/// Decides with a given sample in place of a drawn one.
pub fn decide_with_sample(state: &Backoff, outcome: &Outcome, sample: u64) -> (made: RetryDecision)
    requires
        decidable(state@, *outcome),
    ensures
        made@ == decision(state@, *outcome, sample as nat),
{
    if wants_retry(state, outcome) {
        let step = state.next_with_sample(sample);
        RetryDecision::Retry { wait: step.wait, next: step.state }
    } else {
        RetryDecision::Stop
    }
}

/// Decides what follows an attempt. With no attempt left it stops,
/// whatever the outcome. Else it retries on a transport failure and on a
/// response with a client or server error, and stops on any other
/// response. A retry carries the wait, drawn from the delay of `state`,
/// and the state after `state`.
pub fn decide(state: &Backoff, outcome: &Outcome) -> (made: RetryDecision)
    requires
        decidable(state@, *outcome),
    ensures
        made is Retry <==> should_retry(state@, *outcome),
        made matches RetryDecision::Retry { wait, next } ==> {
            &&& next@ == state@.advanced()
            &&& state@.admits_wait(wait as nat)
            &&& state@.bounds_wait(wait as nat)
        },
{
    if wants_retry(state, outcome) {
        let step = state.next();
        RetryDecision::Retry { wait: step.wait, next: step.state }
    } else {
        RetryDecision::Stop
    }
}

/// [`decide`] where it may be called, else `None`: a retry is called for,
/// and the delay of the following state does not fit in 64 bits.
pub fn try_decide(state: &Backoff, outcome: &Outcome) -> (made: Option<RetryDecision>)
    ensures
        made is Some <==> decidable(state@, *outcome),
        made matches Some(found) ==> {
            &&& found is Retry <==> should_retry(state@, *outcome)
            &&& found matches RetryDecision::Retry { wait, next } ==> {
                &&& next@ == state@.advanced()
                &&& state@.admits_wait(wait as nat)
                &&& state@.bounds_wait(wait as nat)
            }
        },
{
    if !wants_retry(state, outcome) || state.can_advance() {
        Some(decide(state, outcome))
    } else {
        None
    }
}

} // verus!
