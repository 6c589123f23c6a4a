//! The two end-to-end scenarios, on the tick clock: a straight wait, and a
//! wait with postponements. The timer is played by hand: a timer armed for
//! instant `t` fires at `t`, and every fire is reported to the delay.

use postponable_delay::{PostponableDelay, PostponeDelayResponse, WakeAction};

#[test]
fn no_resets() {
    let unit: u64 = 3;
    let start: u64 = 0;
    let target: u64 = start + 4 * unit;
    let delay = PostponableDelay::new(target);
    // The timer armed at construction fires at `target`; nothing moved it.
    let end: u64 = target;
    assert_eq!(delay.wake(end), WakeAction::Complete);
    assert!(target <= end);
    assert!(end <= target + unit);
}

#[test]
fn with_resets() {
    let unit: u64 = 3;
    let start: u64 = 0;
    let first_target: u64 = start + 4 * unit;
    let delay = PostponableDelay::new(first_target);
    let handle = delay.get_handle();

    // After 2 units, push the resolution back to 4 units from then.
    let now: u64 = start + 2 * unit;
    let target: u64 = now + 4 * unit;
    assert_eq!(handle.postpone(target), PostponeDelayResponse::Postponed);
    assert_eq!(
        handle.postpone(target - unit),
        PostponeDelayResponse::CantResolveEarlier
    );

    // The timer armed for the first target fires: the target moved, so the
    // delay re-arms for it; the fresh timer then fires and completes.
    assert_eq!(delay.wake(first_target), WakeAction::Rearm(target));
    let end: u64 = target;
    assert_eq!(delay.wake(end), WakeAction::Complete);

    assert_eq!(handle.postpone(end), PostponeDelayResponse::AlreadyResolved);
    assert!(target <= end);
    assert!(end <= target + unit);
}

#[test]
fn wake_before_target_rearms_at_target() {
    let delay = PostponableDelay::new(10);
    // A wake-up before the target (the timer fired slightly early) re-arms
    // for the very target, not for anything earlier or later.
    assert_eq!(delay.wake(9), WakeAction::Rearm(10));
    assert_eq!(delay.wake(10), WakeAction::Complete);
}

#[test]
fn postpone_to_equal_target_is_accepted() {
    let delay = PostponableDelay::new(10);
    let handle = delay.get_handle();
    assert_eq!(handle.postpone(10), PostponeDelayResponse::Postponed);
    assert_eq!(delay.wake(10), WakeAction::Complete);
}

#[test]
fn rejected_postpone_leaves_target_unchanged() {
    let delay = PostponableDelay::new(5);
    let handle = delay.get_handle();
    assert_eq!(handle.postpone(20), PostponeDelayResponse::Postponed);
    assert_eq!(
        handle.postpone(15),
        PostponeDelayResponse::CantResolveEarlier
    );
    // The refused request moved nothing: the delay still re-arms for 20.
    assert_eq!(delay.wake(5), WakeAction::Rearm(20));
    assert_eq!(delay.wake(20), WakeAction::Complete);
}

#[test]
fn post_resolution_rejection_is_permanent() {
    let delay = PostponableDelay::new(4);
    let handle = delay.get_handle();
    assert_eq!(delay.wake(4), WakeAction::Complete);
    // Even ever-later targets are refused once the delay has resolved.
    assert_eq!(handle.postpone(100), PostponeDelayResponse::AlreadyResolved);
    assert_eq!(handle.postpone(1000), PostponeDelayResponse::AlreadyResolved);
    assert_eq!(handle.postpone(4), PostponeDelayResponse::AlreadyResolved);
}

#[test]
fn cloned_handle_shares_the_cell() {
    let delay = PostponableDelay::new(5);
    let original = delay.get_handle();
    let cloned = original.clone();
    // A postpone through the clone moves the target the delay reads.
    assert_eq!(cloned.postpone(8), PostponeDelayResponse::Postponed);
    assert_eq!(original.postpone(7), PostponeDelayResponse::CantResolveEarlier);
    assert_eq!(delay.wake(5), WakeAction::Rearm(8));
    assert_eq!(delay.wake(8), WakeAction::Complete);
}

#[test]
fn many_handles_share_one_delay() {
    let delay = PostponableDelay::new(5);
    let first = delay.get_handle();
    let second = delay.get_handle();
    assert_eq!(first.postpone(7), PostponeDelayResponse::Postponed);
    // The second handle sees the first one's move: 6 is now in the past.
    assert_eq!(second.postpone(6), PostponeDelayResponse::CantResolveEarlier);
    assert_eq!(second.postpone(9), PostponeDelayResponse::Postponed);
    assert_eq!(delay.wake(5), WakeAction::Rearm(9));
    assert_eq!(delay.wake(9), WakeAction::Complete);
}

#[test]
fn target_never_falls_below_accepted_maximum() {
    // Monotonic target, concretely: the delay resolves no earlier than the
    // largest accepted target, refused requests not counting.
    let delay = PostponableDelay::new(5);
    let handle = delay.get_handle();
    assert_eq!(handle.postpone(7), PostponeDelayResponse::Postponed);
    assert_eq!(handle.postpone(6), PostponeDelayResponse::CantResolveEarlier);
    assert_eq!(handle.postpone(9), PostponeDelayResponse::Postponed);
    assert_eq!(delay.wake(5), WakeAction::Rearm(9));
    assert_eq!(delay.wake(8), WakeAction::Rearm(9));
    assert_eq!(delay.wake(9), WakeAction::Complete);
}
