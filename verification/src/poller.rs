use vstd::prelude::*;
use crate::states::State;

verus! {

/// True when a polled status is a redundant repeat that the poller discards:
/// the poll confirmed `Online` while the panel is already `Online`, or
/// confirmed `Offline` while it is already `Offline`. Dropping these avoids
/// re-render storms at the 1 s polling cadence.
pub open spec fn spec_suppressed(current: State, observed: State) -> bool {
    observed == current && (current is Online || current is Offline)
}

/// The status event forwarded to the orchestrator for one poll result:
/// the observed state itself, unless the repeat is suppressed.
pub open spec fn spec_accept_poll(current: State, observed: State) -> Option<State> {
    if spec_suppressed(current, observed) {
        None
    } else {
        Some(observed)
    }
}

/// Decide whether a polled status is forwarded to the orchestrator.
/// Returns the status event to deliver, or `None` when the repeat is suppressed.
pub fn accept_poll(current: State, observed: State) -> (r: Option<State>)
    ensures
        r == spec_accept_poll(current, observed),
{
    if observed == current && (current == State::Online || current == State::Offline) {
        None
    } else {
        Some(observed)
    }
}

/// The current state after one poll result has been merged: adopted when the
/// event is forwarded, kept unchanged when it is suppressed. Suppression only
/// ever drops an observation equal to the current state, so the merged state
/// always equals the observation.
pub open spec fn spec_merge_poll(current: State, observed: State) -> State {
    if spec_suppressed(current, observed) {
        current
    } else {
        observed
    }
}

/// What one health-poll exchange reports: `None` stands for a transport
/// failure or an unreadable body and degrades to `Offline` (connectivity
/// assumed lost, retried on the next tick); a received integer code is
/// decoded by the wire table.
pub open spec fn spec_health_poll_state(resp: Option<i32>) -> State {
    match resp {
        Some(c) => State::spec_from_code(c as int),
        None => State::Offline,
    }
}

/// Normalize the outcome of one health poll into a lifecycle state.
pub fn health_poll_state(resp: Option<i32>) -> (s: State)
    ensures
        s == spec_health_poll_state(resp),
{
    match resp {
        Some(c) => State::from_code(c),
        None => State::Offline,
    }
}

/// Law: a forwarded status event is always the observed status itself — the
/// poller never invents a state.
pub proof fn lemma_accepted_is_observed(current: State, observed: State)
    ensures
        spec_accept_poll(current, observed) matches Some(s) ==> s == observed,
{
}

/// Law: once an `Online` (or `Offline`) poll result has been merged, an
/// immediately repeated identical result is suppressed — two consecutive
/// identical poll results produce at most one status event.
pub proof fn lemma_repeat_poll_suppressed(current: State, observed: State)
    requires
        observed is Online || observed is Offline,
    ensures
        spec_accept_poll(spec_merge_poll(current, observed), observed) is None,
{
}

} // verus!
