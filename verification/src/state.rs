//! The state a delay shares with its handles, and the two steps of the
//! protocol over it: a postpone request and a timer wake-up.

use crate::response::PostponeDelayResponse;
use vstd::prelude::*;

verus! {

/// The state shared between one delay and its handles.
///
/// Two invariants hold over a delay's lifetime, proved of every step in
/// [`crate::laws`]: `target` only ever moves later, and `resolved` is set at
/// most once and never cleared.
#[derive(Copy, Clone, Debug, Eq, PartialEq, Structural)]
pub struct SharedState {
    /// The instant, as a tick count, before which the delay may not resolve.
    pub target: u64,
    /// Whether the delay has completed.
    pub resolved: bool,
}

/// What the delay does after its internal timer fires.
#[derive(Copy, Clone, Debug, Eq, PartialEq, Structural)]
pub enum WakeAction {
    /// The target has been reached: the delay completes.
    Complete,
    /// The target moved past the armed instant: arm a fresh timer for the
    /// instant carried here and wait again.
    Rearm(u64),
}

/// The response a postpone request receives, given the state it finds.
///
/// A resolved delay refuses every request; an unresolved one refuses targets
/// strictly before the held target and accepts the rest (a target equal to
/// the held one counts as accepted).
pub open spec fn postpone_response(s: SharedState, new_target: u64) -> PostponeDelayResponse {
    if s.resolved {
        PostponeDelayResponse::AlreadyResolved
    } else if new_target < s.target {
        PostponeDelayResponse::CantResolveEarlier
    } else {
        PostponeDelayResponse::Postponed
    }
}

/// The state a postpone request leaves behind: the target moves to
/// `new_target` exactly when the request is accepted; otherwise nothing
/// changes.
pub open spec fn postpone_next(s: SharedState, new_target: u64) -> SharedState {
    if postpone_response(s, new_target) is Postponed {
        SharedState { target: new_target, resolved: s.resolved }
    } else {
        s
    }
}

/// What a timer wake-up at instant `now` decides.
///
/// The delay completes once the held target is no longer in the future;
/// otherwise a postpone moved the target past the armed instant and a fresh
/// timer must be armed for it. A delay that already resolved reports
/// completion again, though the protocol never reaches that case: the delay
/// is consumed when it completes, so nothing wakes it afterwards.
pub open spec fn wake_action(s: SharedState, now: u64) -> WakeAction {
    if s.resolved || s.target <= now {
        WakeAction::Complete
    } else {
        WakeAction::Rearm(s.target)
    }
}

/// The state a timer wake-up at instant `now` leaves behind: `resolved` is
/// set exactly when the wake-up completes the delay, and the target never
/// moves.
pub open spec fn wake_next(s: SharedState, now: u64) -> SharedState {
    if s.resolved || s.target <= now {
        SharedState { target: s.target, resolved: true }
    } else {
        s
    }
}

/// One postpone request against the state it found, as a pure step: returns
/// the state to store back and the response to hand the caller.
pub fn postpone_step(s: SharedState, new_target: u64) -> (r: (SharedState, PostponeDelayResponse))
    ensures
        r.0 == postpone_next(s, new_target),
        r.1 == postpone_response(s, new_target),
{
    if s.resolved {
        (s, PostponeDelayResponse::AlreadyResolved)
    } else if new_target < s.target {
        (s, PostponeDelayResponse::CantResolveEarlier)
    } else {
        (SharedState { target: new_target, resolved: false }, PostponeDelayResponse::Postponed)
    }
}

/// One timer wake-up against the state it found, as a pure step: returns the
/// state to store back and what the delay does next.
pub fn wake_step(s: SharedState, now: u64) -> (r: (SharedState, WakeAction))
    ensures
        r.0 == wake_next(s, now),
        r.1 == wake_action(s, now),
{
    if s.resolved || s.target <= now {
        (SharedState { target: s.target, resolved: true }, WakeAction::Complete)
    } else {
        (s, WakeAction::Rearm(s.target))
    }
}

} // verus!
