//! The two pure protocol steps, exercised variant by variant on plain
//! states.

use postponable_delay::state::{postpone_step, wake_step};
use postponable_delay::{PostponeDelayResponse, SharedState, WakeAction};

#[test]
fn postpone_step_accepts_later_target() {
    let s = SharedState {
        target: 10,
        resolved: false,
    };
    let (next, response) = postpone_step(s, 12);
    assert_eq!(response, PostponeDelayResponse::Postponed);
    assert_eq!(
        next,
        SharedState {
            target: 12,
            resolved: false,
        }
    );
}

#[test]
fn postpone_step_accepts_equal_target() {
    let s = SharedState {
        target: 10,
        resolved: false,
    };
    let (next, response) = postpone_step(s, 10);
    assert_eq!(response, PostponeDelayResponse::Postponed);
    assert_eq!(next, s);
}

#[test]
fn postpone_step_refuses_earlier_target() {
    let s = SharedState {
        target: 10,
        resolved: false,
    };
    let (next, response) = postpone_step(s, 9);
    assert_eq!(response, PostponeDelayResponse::CantResolveEarlier);
    assert_eq!(next, s);
}

#[test]
fn postpone_step_refuses_after_resolution() {
    let s = SharedState {
        target: 10,
        resolved: true,
    };
    let (next, response) = postpone_step(s, 1000);
    assert_eq!(response, PostponeDelayResponse::AlreadyResolved);
    assert_eq!(next, s);
}

#[test]
fn wake_step_completes_at_target() {
    let s = SharedState {
        target: 10,
        resolved: false,
    };
    let (next, action) = wake_step(s, 10);
    assert_eq!(action, WakeAction::Complete);
    assert!(next.resolved);
    assert_eq!(next.target, 10);
}

#[test]
fn wake_step_completes_past_target() {
    let s = SharedState {
        target: 10,
        resolved: false,
    };
    let (next, action) = wake_step(s, 11);
    assert_eq!(action, WakeAction::Complete);
    assert!(next.resolved);
}

#[test]
fn wake_step_rearms_before_target() {
    let s = SharedState {
        target: 10,
        resolved: false,
    };
    let (next, action) = wake_step(s, 9);
    assert_eq!(action, WakeAction::Rearm(10));
    assert_eq!(next, s);
}

#[test]
fn unwrap_passes_on_success() {
    let s = SharedState {
        target: 3,
        resolved: false,
    };
    let (_, response) = postpone_step(s, 5);
    assert_eq!(response, PostponeDelayResponse::Postponed);
    response.unwrap();
}
