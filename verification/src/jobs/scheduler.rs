//! The scheduler's decisions: once a day, in the hour from 02:00 UTC, it queues
//! the nightly cleanup. Days are counted from the Unix epoch.
use vstd::prelude::*;

verus! {

/// The hour of the day the nightly cleanup is queued in.
pub const CLEANUP_HOUR: u32 = 2;

/// What the scheduler remembers between ticks: the last day it queued the
/// cleanup, if any.
pub struct SchedulerState {
    pub last_cleanup_day: Option<i64>,
}

/// Whether a tick at `hour` on `day` queues the cleanup.
pub open spec fn cleanup_due(state: SchedulerState, hour: u32, day: i64) -> bool {
    hour == CLEANUP_HOUR && state.last_cleanup_day != Some(day)
}

/// Decides a tick: queue the cleanup in the cleanup hour of a day on which it has
/// not been queued yet.
pub fn on_tick(state: &SchedulerState, hour: u32, day: i64) -> (r: bool)
    ensures
        r == cleanup_due(*state, hour, day),
{
    hour == CLEANUP_HOUR && match state.last_cleanup_day {
        Some(d) => d != day,
        None => true,
    }
}

pub open spec fn recorded(state: SchedulerState, day: i64, queued: bool) -> SchedulerState {
    if queued {
        SchedulerState { last_cleanup_day: Some(day) }
    } else {
        state
    }
}

/// Records the outcome of queueing the cleanup on `day`: a queued cleanup is
/// remembered; a failed one is tried again on the next tick.
pub fn after_enqueue(state: SchedulerState, day: i64, queued: bool) -> (r: SchedulerState)
    ensures
        r == recorded(state, day, queued),
{
    if queued {
        SchedulerState { last_cleanup_day: Some(day) }
    } else {
        state
    }
}

/// Once the cleanup is queued on a day, no later tick of that day queues it
/// again; a failed attempt leaves it due at the next tick of the same hour; and
/// the cleanup is only ever queued in the cleanup hour.
pub proof fn law_cleanup_once_a_day(state: SchedulerState, day: i64, hour: u32)
    ensures
        !cleanup_due(recorded(state, day, true), hour, day),
        cleanup_due(state, hour, day) ==> cleanup_due(recorded(state, day, false), hour, day),
        cleanup_due(state, hour, day) ==> hour == CLEANUP_HOUR,
{
}

} // verus!
