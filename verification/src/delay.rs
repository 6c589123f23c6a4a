//! The delay and its handles: the two owners of the shared state.
//!
//! The delay's timer itself lives with the caller (it needs a real clock);
//! this module owns everything the timer's owner decides with: the shared
//! cell, the postpone protocol, and the wake-up protocol.

use crate::response::PostponeDelayResponse;
use crate::state::{
    postpone_response, postpone_step, wake_action, wake_step, SharedState, WakeAction,
};
use std::sync::Arc;
use vstd::prelude::*;
use vstd::rwlock::{RwLock, RwLockPredicate};

verus! {

/// The lock invariant of the shared cell: the held target never falls below
/// the instant the delay was created for. Postpones only move the target
/// later and wake-ups never move it, so every store keeps this floor.
pub struct TargetFloor {
    /// The delay's initial target.
    pub init: u64,
}

impl RwLockPredicate<SharedState> for TargetFloor {
    open spec fn inv(self, s: SharedState) -> bool {
        self.init <= s.target
    }
}

/// The shared cell: one lock-protected [`SharedState`], reference-counted so
/// it outlives the delay while handles still hold it.
pub type SharedCell = Arc<RwLock<SharedState, TargetFloor>>;

/// A delay that resolves no sooner than a target instant, where the target
/// can be pushed later by any holder of a handle while the delay is pending.
///
/// The delay's owner runs a real timer: it arms it for the initial target,
/// calls [`PostponableDelay::wake`] each time the timer fires, re-arms it
/// whenever `wake` says [`WakeAction::Rearm`], and completes on
/// [`WakeAction::Complete`].
pub struct PostponableDelay {
    state: SharedCell,
}

/// A handle to postpone a [`PostponableDelay`]'s resolution.
///
/// Any number of handles may share one delay, and a handle may be cloned
/// freely. A handle outlives its delay:
/// if the delay is dropped before resolving, the shared state keeps saying
/// the delay is pending, so the handle's requests keep being answered as if
/// postponing still helped. The state has no bit for that, on purpose: it is
/// the accepted dangling-handle behaviour, not an error.
pub struct PostponableDelayHandle {
    state: SharedCell,
}

/// Shares the cell: the returned reference counts the same lock.
///
/// Relies on `Arc::clone`, which hands out a reference to the same value.
#[verifier::external_body]
fn share_cell(cell: &SharedCell) -> (r: SharedCell)
    ensures
        r == *cell,
{
    cell.clone()
}

impl PostponableDelay {
    /// The shared cell this delay reads and resolves.
    pub closed spec fn cell(&self) -> SharedCell {
        self.state
    }

    /// The instant this delay was created for. The held target never falls
    /// below it.
    pub closed spec fn initial_target(&self) -> u64 {
        (*self.state).pred().init
    }

    /// Returns a delay that will resolve no sooner than `instant`.
    pub fn new(instant: u64) -> (d: Self)
        ensures
            d.initial_target() == instant,
    {
        let lock = RwLock::new(
            SharedState { target: instant, resolved: false },
            Ghost(TargetFloor { init: instant }),
        );
        PostponableDelay { state: Arc::new(lock) }
    }

    /// Returns a handle to allow pushing back this delay's resolution.
    ///
    /// The handle shares this delay's cell: a postpone through it moves the
    /// very target the delay's wake-ups read. May be called any number of
    /// times; every handle shares the one cell.
    pub fn get_handle(&self) -> (h: PostponableDelayHandle)
        ensures
            h.cell() == self.cell(),
            h.initial_target() == self.initial_target(),
    {
        PostponableDelayHandle { state: share_cell(&self.state) }
    }

    /// The check the delay runs each time its internal timer fires, at
    /// instant `now`: take the shared state, apply one wake-up step
    /// ([`wake_action`]), store the state back, and report the decision.
    ///
    /// A `Rearm` carries an instant strictly after `now` and no earlier than
    /// the initial target, so re-arming always waits and never arms below
    /// the floor.
    pub fn wake(&self, now: u64) -> (a: WakeAction)
        ensures
            a matches WakeAction::Rearm(t) ==> now < t && self.initial_target() <= t,
            exists|s: SharedState|
                self.initial_target() <= s.target && a == #[trigger] wake_action(s, now),
    {
        let lock = &*self.state;
        let (s, write_handle) = lock.acquire_write();
        let (next, action) = wake_step(s, now);
        write_handle.release_write(next);
        proof {
            assert(self.initial_target() <= s.target && action == wake_action(s, now));
        }
        action
    }
}

impl Clone for PostponableDelayHandle {
    /// Returns a handle to the same delay: the clone shares the cell, so a
    /// postpone through either moves the one shared target.
    fn clone(&self) -> (r: Self)
        ensures
            r.cell() == self.cell(),
            r.initial_target() == self.initial_target(),
    {
        PostponableDelayHandle { state: share_cell(&self.state) }
    }
}

impl PostponableDelayHandle {
    /// The shared cell this handle postpones through.
    pub closed spec fn cell(&self) -> SharedCell {
        self.state
    }

    /// The initial target of the delay this handle came from.
    pub closed spec fn initial_target(&self) -> u64 {
        (*self.state).pred().init
    }

    /// Attempts to postpone the corresponding [`PostponableDelay`]'s
    /// resolution to `target`; returns a [`PostponeDelayResponse`] detailing
    /// if it succeeded.
    ///
    /// The call takes the shared state, applies one postpone step
    /// ([`postpone_response`]), and stores the state back: the request is
    /// accepted exactly when the delay has not resolved and `target` is no
    /// earlier than the held target. A target below the initial one is
    /// therefore never accepted.
    #[must_use]
    pub fn postpone(&self, target: u64) -> (r: PostponeDelayResponse)
        ensures
            r is Postponed ==> self.initial_target() <= target,
            exists|s: SharedState|
                self.initial_target() <= s.target && r == #[trigger] postpone_response(s, target),
    {
        let lock = &*self.state;
        let (s, write_handle) = lock.acquire_write();
        let (next, response) = postpone_step(s, target);
        write_handle.release_write(next);
        proof {
            assert(self.initial_target() <= s.target && response == postpone_response(s, target));
        }
        response
    }
}

} // verus!
