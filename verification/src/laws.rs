//! The laws of the protocol, proved over whole runs.
//!
//! A run is the sequence of interactions the shared state sees, in the order
//! the lock serialized them: postpone requests and timer wake-ups. The
//! lemmas here state what holds of every run: the target only moves later
//! and ends at least as late as every accepted request; the delay never
//! completes before the target in effect; an earlier target is refused and
//! changes nothing; after resolution every request is refused and nothing
//! changes; and the delay completes at most once.

use crate::state::{postpone_next, postpone_response, wake_next, SharedState};
use vstd::prelude::*;

verus! {

/// One interaction with the shared state.
#[derive(Copy, Clone, Debug, Eq, PartialEq, Structural)]
pub enum DelayEvent {
    /// A handle asks to move the target to `target`.
    Postpone { target: u64 },
    /// The delay's internal timer fires at instant `now`.
    TimerFire { now: u64 },
}

/// The state one event leaves behind.
pub open spec fn event_next(s: SharedState, e: DelayEvent) -> SharedState {
    match e {
        DelayEvent::Postpone { target } => postpone_next(s, target),
        DelayEvent::TimerFire { now } => wake_next(s, now),
    }
}

/// The state a whole run of events leaves behind, applied in order from `s0`.
pub open spec fn run_state(s0: SharedState, events: Seq<DelayEvent>) -> SharedState
    decreases events.len(),
{
    if events.len() == 0 {
        s0
    } else {
        event_next(run_state(s0, events.drop_last()), events.last())
    }
}

/// Whether the run's event at position `i` is a postpone request that the
/// state it found accepted.
pub open spec fn accepted_at(s0: SharedState, events: Seq<DelayEvent>, i: int) -> bool {
    &&& 0 <= i < events.len()
    &&& events[i] matches DelayEvent::Postpone { target }
        && postpone_response(run_state(s0, events.take(i)), target) is Postponed
}

/// Whether the delay completes at position `i` of the run: the state was not
/// resolved before the event there and is resolved after it.
pub open spec fn resolves_at(s0: SharedState, events: Seq<DelayEvent>, i: int) -> bool {
    &&& 0 <= i < events.len()
    &&& !run_state(s0, events.take(i)).resolved
    &&& run_state(s0, events.take(i + 1)).resolved
}

/// One event never moves the target earlier and never clears the resolved
/// flag; a resolved state no longer changes at all.
pub proof fn lemma_event_monotonic(s: SharedState, e: DelayEvent)
    ensures
        s.target <= event_next(s, e).target,
        s.resolved ==> event_next(s, e) == s,
        event_next(s, e).resolved ==> s.resolved || e is TimerFire,
{
}

/// A whole run never moves the target earlier, and a resolved state stays
/// exactly as it is through any further run.
pub proof fn lemma_run_monotonic(s0: SharedState, events: Seq<DelayEvent>)
    ensures
        s0.target <= run_state(s0, events).target,
        s0.resolved ==> run_state(s0, events) == s0,
    decreases events.len(),
{
    if events.len() > 0 {
        lemma_run_monotonic(s0, events.drop_last());
        lemma_event_monotonic(run_state(s0, events.drop_last()), events.last());
    }
}

/// Appending one event to a run steps the run's state once.
pub proof fn lemma_run_push(s0: SharedState, events: Seq<DelayEvent>, e: DelayEvent)
    ensures
        run_state(s0, events.push(e)) == event_next(run_state(s0, events), e),
{
    assert(events.push(e).drop_last() =~= events);
}

/// A run is the run of any prefix continued by the rest.
pub proof fn lemma_run_split(s0: SharedState, events: Seq<DelayEvent>, i: int)
    requires
        0 <= i <= events.len(),
    ensures
        run_state(s0, events) == run_state(run_state(s0, events.take(i)), events.skip(i)),
    decreases events.len(),
{
    if i == events.len() {
        assert(events.take(i) =~= events);
        assert(events.skip(i) =~= Seq::<DelayEvent>::empty());
    } else {
        let rest = events.drop_last();
        lemma_run_split(s0, rest, i);
        assert(rest.take(i) =~= events.take(i));
        assert(events.skip(i) =~= rest.skip(i).push(events.last()));
        lemma_run_push(run_state(s0, events.take(i)), rest.skip(i), events.last());
    }
}


/// Stepping a run's prefix by its next event gives the next prefix's state.
pub proof fn lemma_run_step_at(s0: SharedState, events: Seq<DelayEvent>, i: int)
    requires
        0 <= i < events.len(),
    ensures
        run_state(s0, events.take(i + 1)) == event_next(run_state(s0, events.take(i)), events[i]),
{
    assert(events.take(i + 1).drop_last() =~= events.take(i));
}

/// Once the run is resolved at position `i`, it is resolved at every later
/// position, with the state exactly as it was.
pub proof fn lemma_resolved_stays(s0: SharedState, events: Seq<DelayEvent>, i: int, j: int)
    requires
        0 <= i <= j <= events.len(),
        run_state(s0, events.take(i)).resolved,
    ensures
        run_state(s0, events.take(j)) == run_state(s0, events.take(i)),
{
    assert(events.take(j).take(i) =~= events.take(i));
    lemma_run_split(s0, events.take(j), i);
    lemma_run_monotonic(run_state(s0, events.take(i)), events.take(j).skip(i));
}

/// Monotonic target: after any run, the held target is at least the initial
/// target and at least the target of every postpone request the run
/// accepted; requests the state refused do not count.
pub proof fn lemma_monotonic_target(s0: SharedState, events: Seq<DelayEvent>, i: int)
    requires
        accepted_at(s0, events, i),
    ensures
        s0.target <= run_state(s0, events).target,
        events[i]->target <= run_state(s0, events).target,
{
    lemma_run_monotonic(s0, events);
    lemma_run_step_at(s0, events, i);
    let after = run_state(s0, events.take(i + 1));
    lemma_run_split(s0, events, i + 1);
    lemma_run_monotonic(after, events.skip(i + 1));
}

/// No early resolution: if the delay completes at position `i`, that event
/// is a timer wake-up whose instant is no earlier than the target then in
/// effect, and hence no earlier than the target in effect at construction.
pub proof fn lemma_no_early_resolution(s0: SharedState, events: Seq<DelayEvent>, i: int)
    requires
        resolves_at(s0, events, i),
    ensures
        events[i] is TimerFire,
        run_state(s0, events.take(i)).target <= events[i]->now,
        s0.target <= events[i]->now,
{
    lemma_run_step_at(s0, events, i);
    lemma_run_monotonic(s0, events.take(i));
}

/// The delay never resolves before an accepted target: if the run accepts
/// the postpone request at `j` and completes at `i` after it, the completion
/// instant is at least the accepted target.
pub proof fn lemma_resolution_after_accepted(
    s0: SharedState,
    events: Seq<DelayEvent>,
    i: int,
    j: int,
)
    requires
        resolves_at(s0, events, i),
        accepted_at(s0, events, j),
        j < i,
    ensures
        events[j]->target <= events[i]->now,
{
    assert(events.take(i).take(j) =~= events.take(j));
    assert(accepted_at(s0, events.take(i), j));
    lemma_monotonic_target(s0, events.take(i), j);
    lemma_no_early_resolution(s0, events, i);
}

/// Reject earlier target: a postpone to strictly before the held target of
/// an unresolved state is answered `CantResolveEarlier` and leaves the state
/// unchanged.
pub proof fn lemma_reject_earlier(s: SharedState, new_target: u64)
    requires
        !s.resolved,
        new_target < s.target,
    ensures
        postpone_response(s, new_target) is CantResolveEarlier,
        postpone_next(s, new_target) == s,
{
}

/// Post-resolution rejection: once the run is resolved at position `i`,
/// every later postpone request is answered `AlreadyResolved` -- none ever
/// returns to success -- and the state never changes again.
pub proof fn lemma_post_resolution_rejection(
    s0: SharedState,
    events: Seq<DelayEvent>,
    i: int,
    j: int,
)
    requires
        0 <= i <= j < events.len(),
        run_state(s0, events.take(i)).resolved,
        events[j] is Postpone,
    ensures
        postpone_response(run_state(s0, events.take(j)), events[j]->target)
            is AlreadyResolved,
        run_state(s0, events) == run_state(s0, events.take(i)),
{
    lemma_resolved_stays(s0, events, i, j);
    assert(events.take(events.len() as int) =~= events);
    lemma_resolved_stays(s0, events, i, events.len() as int);
}

/// Idempotent completion: the delay completes at most once in any run.
pub proof fn lemma_resolves_at_most_once(s0: SharedState, events: Seq<DelayEvent>, i: int, j: int)
    requires
        resolves_at(s0, events, i),
        resolves_at(s0, events, j),
    ensures
        i == j,
{
    if i < j {
        lemma_resolved_stays(s0, events, i + 1, j);
        assert(false);
    } else if j < i {
        lemma_resolved_stays(s0, events, j + 1, i);
        assert(false);
    }
}


/// The headline guarantee: if the delay completes at position `i` of a run,
/// the completion instant is no earlier than the initial target and no
/// earlier than every postpone target the run ever accepted.
pub proof fn lemma_never_resolves_early(s0: SharedState, events: Seq<DelayEvent>, i: int)
    requires
        resolves_at(s0, events, i),
    ensures
        s0.target <= events[i]->now,
        forall|j: int|
            #[trigger] accepted_at(s0, events, j) ==> events[j]->target <= events[i]->now,
{
    lemma_no_early_resolution(s0, events, i);
    assert forall|j: int| #[trigger] accepted_at(s0, events, j) implies events[j]->target
        <= events[i]->now by {
        if j < i {
            lemma_resolution_after_accepted(s0, events, i, j);
        } else if j == i {
            assert(events[i] is TimerFire);
        } else {
            lemma_resolved_stays(s0, events, i + 1, j);
        }
    }
}

} // verus!


