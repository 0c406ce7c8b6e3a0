//! What holds of every schedule, every outcome and every sample.

use crate::backoff::Schedule;
use crate::engine::{decision, should_retry, Decision};
use crate::jitter::Jitter;
use crate::multiplier::lemma_scale_grows;
use crate::outcome::Outcome;
use vstd::prelude::*;

verus! {

/// Steps change the budget and the delay only: multiplier, ceiling and
/// jitter stay as they were configured.
pub proof fn law_steps_keep_configuration(state: Schedule, steps: nat)
    ensures
        state.advanced_by(steps).multiplier == state.multiplier,
        state.advanced_by(steps).max_delay == state.max_delay,
        state.advanced_by(steps).jitter == state.jitter,
    decreases steps,
{
    if steps > 0 {
        law_steps_keep_configuration(state, (steps - 1) as nat);
    }
}

/// Each step takes one attempt from the budget: after `steps` steps, no more
/// than there were attempts, `steps` fewer are left. Once none is left, no
/// further step can be taken.
pub proof fn law_attempts_count_down(state: Schedule, steps: nat)
    requires
        steps <= state.remaining,
    ensures
        state.advanced_by(steps).remaining == state.remaining - steps,
        steps == state.remaining ==> !state.advanced_by(steps).can_advance(),
    decreases steps,
{
    if steps > 0 {
        law_attempts_count_down(state, (steps - 1) as nat);
    }
}

/// From the first step on, the delay is at most the ceiling.
pub proof fn law_delay_within_ceiling(state: Schedule, max: nat, steps: nat)
    requires
        state.max_delay == Some(max),
        steps >= 1,
    ensures
        state.advanced_by(steps).delay <= max,
{
    law_steps_keep_configuration(state, (steps - 1) as nat);
}

/// With a multiplier of one or more, and a delay that starts at or below
/// the ceiling, the delay never shrinks from one step to the next.
pub proof fn law_delay_never_shrinks(state: Schedule, steps: nat)
    requires
        state.multiplier.at_least_one(),
        state.max_delay matches Some(max) ==> state.delay <= max,
    ensures
        state.advanced_by(steps).delay <= state.advanced_by(steps + 1).delay,
{
    let now = state.advanced_by(steps);
    law_steps_keep_configuration(state, steps);
    lemma_scale_grows(now.multiplier, now.delay);
    if let Some(max) = state.max_delay {
        if steps >= 1 {
            law_delay_within_ceiling(state, max, steps);
        }
    }
}

/// With a multiplier of one or more, a delay that has reached the ceiling
/// stays there.
pub proof fn law_delay_rests_at_ceiling(state: Schedule, max: nat, steps: nat)
    requires
        state.multiplier.at_least_one(),
        state.max_delay == Some(max),
        state.advanced_by(steps).delay == max,
    ensures
        state.advanced_by(steps + 1).delay == max,
{
    let now = state.advanced_by(steps);
    law_steps_keep_configuration(state, steps);
    lemma_scale_grows(now.multiplier, now.delay);
}

/// Without jitter the wait is the current delay exactly.
pub proof fn law_wait_without_jitter(state: Schedule, wait: nat)
    requires
        state.jitter is None,
        state.admits_wait(wait),
    ensures
        wait == state.delay,
{
}

/// With a jitter of a duration below `bound`, the wait is at least the
/// current delay and less than the delay plus the bound.
pub proof fn law_wait_with_duration_jitter(state: Schedule, bound: u64, wait: nat)
    requires
        state.jitter == Some(Jitter::Duration(bound)),
        bound > 0,
        state.admits_wait(wait),
    ensures
        state.delay <= wait < state.delay + bound,
{
}

/// With a jitter of a fraction below `bound` millionths, and a delay that
/// is not zero, the wait is at least the current delay and less than the
/// delay times one plus the bound.
pub proof fn law_wait_with_percentage_jitter(state: Schedule, bound: u32, wait: nat)
    requires
        state.jitter == Some(Jitter::Percentage(bound)),
        bound > 0,
        state.delay > 0,
        state.admits_wait(wait),
    ensures
        state.delay <= wait,
        wait * 1_000_000 < state.delay * (1_000_000 + bound),
{
    let sample = choose|sample: nat|
        sample < state.sample_limit() && wait == #[trigger] state.wait_with(sample);
    let delay = state.delay as int;
    let extra = delay * sample / 1_000_000;
    assert(wait == delay + extra);
    assert(0 <= extra && extra * 1_000_000 <= delay * sample) by (nonlinear_arith)
        requires
            extra == delay * sample / 1_000_000,
            delay >= 0,
            sample >= 0,
    ;
    assert(delay * sample < delay * bound) by (nonlinear_arith)
        requires
            delay > 0,
            0 <= sample < bound,
    ;
    assert(wait * 1_000_000 == delay * 1_000_000 + extra * 1_000_000) by (nonlinear_arith)
        requires
            wait == delay + extra,
    ;
    assert(delay * (1_000_000 + bound) == delay * 1_000_000 + delay * bound)
        by (nonlinear_arith);
}

/// Every wait that a state can ask for lies in the range that its jitter
/// leaves.
pub proof fn law_admitted_wait_is_in_range(state: Schedule, wait: nat)
    requires
        state.admits_wait(wait),
    ensures
        state.bounds_wait(wait),
{
    match state.jitter {
        None => {},
        Some(Jitter::Duration(bound)) => {
            if bound > 0 {
                law_wait_with_duration_jitter(state, bound, wait);
            }
        },
        Some(Jitter::Percentage(bound)) => {
            if bound > 0 {
                if state.delay > 0 {
                    law_wait_with_percentage_jitter(state, bound, wait);
                } else {
                    let sample = choose|sample: nat|
                        sample < state.sample_limit() && wait == #[trigger] state.wait_with(
                            sample,
                        );
                    assert(0 * sample == 0) by (nonlinear_arith);
                }
            }
        },
    }
}

/// With no attempt left the decision is to stop, whatever the outcome and
/// the sample.
pub proof fn law_exhausted_budget_stops(state: Schedule, outcome: Outcome, sample: nat)
    requires
        state.remaining == 0,
    ensures
        !should_retry(state, outcome),
        decision(state, outcome, sample) == Decision::Stop,
{
}

/// With an attempt left, a transport failure is retried, and a response is
/// retried exactly when its status is from 400 to 599.
pub proof fn law_decision_by_outcome(state: Schedule, outcome: Outcome, sample: nat)
    requires
        state.remaining > 0,
    ensures
        outcome is TransportFailure ==> decision(state, outcome, sample) is Retry,
        outcome matches Outcome::Response { status } ==> (decision(state, outcome, sample) is Retry
            <==> 400 <= status <= 599),
        decision(state, outcome, sample) matches Decision::Retry { wait, next } ==> {
            &&& wait == state.wait_with(sample)
            &&& next == state.advanced()
        },
{
}

} // verus!
