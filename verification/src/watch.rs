use vstd::prelude::*;
use crate::addr::Ipv6Address;
use crate::backoff::BackoffState;
use crate::backoff::saturating_step;
use crate::probe::ProbeError;

verus! {

/// What one probe of the interface came to, as far as the loop's
/// decisions care: the enumeration failed, it found no global address,
/// or it found at least one.
#[derive(Clone, Copy, PartialEq, Eq, Structural, Debug)]
pub enum OutcomeKind {
    ProbeFailed,
    NoAddress,
    HaveAddress,
}

/// The kind of a probe result.
pub open spec fn outcome_kind_spec(outcome: Result<Vec<Ipv6Address>, ProbeError>) -> OutcomeKind {
    match outcome {
        Result::Err(_) => OutcomeKind::ProbeFailed,
        Result::Ok(addrs) => if addrs@.len() == 0 {
            OutcomeKind::NoAddress
        } else {
            OutcomeKind::HaveAddress
        },
    }
}

/// What one iteration of the watch loop asks its runner to do after the
/// probe, besides carrying the new backoff state forward.
#[derive(Clone, Copy, PartialEq, Eq, Structural, Debug)]
pub struct IterationDecision {
    /// Trigger one reconfiguration of the interface.
    pub reconfigure: bool,
    /// Sleep this fixed pause right after the reconfiguration attempt.
    pub failure_pause_seconds: u64,
    /// Sleep the configured steady-state poll interval before the next
    /// iteration.
    pub steady_sleep: bool,
}

/// The backoff state after one iteration: a failed probe leaves it
/// alone, an empty address set advances the failure streak, and a
/// non-empty one resets it.
pub open spec fn step_state(state: BackoffState, k: OutcomeKind) -> BackoffState {
    match k {
        OutcomeKind::ProbeFailed => state,
        OutcomeKind::NoAddress => BackoffState {
            failure_streak: saturating_step(state.failure_streak),
        },
        OutcomeKind::HaveAddress => BackoffState { failure_streak: 0 },
    }
}

/// The actions one iteration asks for: exactly the empty address set
/// triggers a reconfiguration, followed by a fixed five-second pause in
/// place of the steady-state sleep.
pub open spec fn step_decision(k: OutcomeKind) -> IterationDecision {
    match k {
        OutcomeKind::ProbeFailed => IterationDecision {
            reconfigure: false,
            failure_pause_seconds: 0,
            steady_sleep: true,
        },
        OutcomeKind::NoAddress => IterationDecision {
            reconfigure: true,
            failure_pause_seconds: 5,
            steady_sleep: false,
        },
        OutcomeKind::HaveAddress => IterationDecision {
            reconfigure: false,
            failure_pause_seconds: 0,
            steady_sleep: true,
        },
    }
}

/// Classifies one probe result.
pub fn outcome_kind(outcome: &Result<Vec<Ipv6Address>, ProbeError>) -> (k: OutcomeKind)
    ensures
        k == outcome_kind_spec(*outcome),
{
    match outcome {
        Result::Err(_) => OutcomeKind::ProbeFailed,
        Result::Ok(addrs) => if addrs.len() == 0 {
            OutcomeKind::NoAddress
        } else {
            OutcomeKind::HaveAddress
        },
    }
}

/// One decision step of the watch loop. The runner performs the probe,
/// hands its result in, carries out the returned decision (reconfigure,
/// pause, steady sleep), and carries the returned state into the next
/// iteration's pre-check delay. The reconfiguration's own success or
/// failure does not reach this step: an empty address set counts as a
/// failure attempt whether or not the trigger itself went through.
pub fn watch_step(state: BackoffState, outcome: &Result<Vec<Ipv6Address>, ProbeError>) -> (r: (
    BackoffState,
    IterationDecision,
))
    ensures
        r.0 == step_state(state, outcome_kind_spec(*outcome)),
        r.1 == step_decision(outcome_kind_spec(*outcome)),
        state.wf() ==> r.0.wf(),
{
    let k = outcome_kind(outcome);
    let mut next = state;
    match k {
        OutcomeKind::ProbeFailed => {},
        OutcomeKind::NoAddress => next.on_failure_attempt(),
        OutcomeKind::HaveAddress => next.on_success(),
    }
    (next, match k {
        OutcomeKind::ProbeFailed => IterationDecision {
            reconfigure: false,
            failure_pause_seconds: 0,
            steady_sleep: true,
        },
        OutcomeKind::NoAddress => IterationDecision {
            reconfigure: true,
            failure_pause_seconds: 5,
            steady_sleep: false,
        },
        OutcomeKind::HaveAddress => IterationDecision {
            reconfigure: false,
            failure_pause_seconds: 0,
            steady_sleep: true,
        },
    })
}

/// With a stable non-empty address set the loop is at a fixed point:
/// after one iteration that found an address, every further such
/// iteration leaves the state unchanged, asks for no reconfiguration and
/// nothing but the steady-state sleep, and the pre-check delay stays at
/// its one-second minimum.
pub proof fn lemma_stable_nonempty_fixed_point(state: BackoffState)
    ensures
        step_state(step_state(state, OutcomeKind::HaveAddress), OutcomeKind::HaveAddress)
            == step_state(state, OutcomeKind::HaveAddress),
        !step_decision(OutcomeKind::HaveAddress).reconfigure,
        step_decision(OutcomeKind::HaveAddress).steady_sleep,
        step_state(state, OutcomeKind::HaveAddress).delay_spec() == 1,
{
}

} // verus!
