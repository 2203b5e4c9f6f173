//! What holds of every run of the transition rules.
//!
//! The statements are over the model: [`ActivityView`] and
//! [`ActivityView::step`], which the executable transitions are proved to
//! follow.

use vstd::prelude::*;
use crate::machine::{is_idle, long_break_follows};
use crate::state::{
    break_seconds, ActivityView, IDLE_THRESHOLD_SECONDS, TICK_SECONDS, WORK_SESSION_SECONDS,
};

verus! {

/// One idle-time sample: the seconds the probe reported and the moment it
/// was taken.
pub ghost struct Sample {
    pub idle_seconds: u32,
    pub stamp: Seq<char>,
}

/// The record after `samples` have been applied to `start`, oldest first.
pub open spec fn run(start: ActivityView, samples: Seq<Sample>) -> ActivityView
    decreases samples.len(),
{
    if samples.len() == 0 {
        start
    } else {
        let last = samples.last();
        run(start, samples.drop_last()).step(last.idle_seconds, last.stamp).state
    }
}

/// How many of `samples`, applied to `start` oldest first, end a work session.
pub open spec fn sessions_ended(start: ActivityView, samples: Seq<Sample>) -> nat
    decreases samples.len(),
{
    if samples.len() == 0 {
        0
    } else {
        let before = run(start, samples.drop_last());
        let ended: nat = if before.ends_session(samples.last().idle_seconds) {
            1
        } else {
            0
        };
        sessions_ended(start, samples.drop_last()) + ended
    }
}

/// In plain terms, a sample ends a session when it is idle and the session
/// has reached its length: either work is in progress, or the record rests
/// with exactly a full session of active time, which the second rule puts
/// back to working first. A sample has the break announced when it is active,
/// work is in progress and the session reaches its length with this tick.
pub proof fn law_session_events_in_plain_terms(state: ActivityView, idle_seconds: u32)
    ensures
        state.ends_session(idle_seconds) <==> idle_seconds >= IDLE_THRESHOLD_SECONDS
            && state.active_time_in_session >= WORK_SESSION_SECONDS && (state.is_working
            || state.active_time_in_session == WORK_SESSION_SECONDS),
        state.announces_break(idle_seconds) <==> idle_seconds < IDLE_THRESHOLD_SECONDS
            && state.is_working && state.active_time_in_session + TICK_SECONDS
            >= WORK_SESSION_SECONDS,
{
}

/// A sample changes the count of completed sessions only by ending a
/// session, and then by exactly one.
pub proof fn law_session_count_steps(state: ActivityView, idle_seconds: u32, stamp: Seq<char>)
    ensures
        state.ends_session(idle_seconds) ==> state.step(
            idle_seconds,
            stamp,
        ).state.work_sessions_completed == state.work_sessions_completed + 1,
        !state.ends_session(idle_seconds) ==> state.step(
            idle_seconds,
            stamp,
        ).state.work_sessions_completed == state.work_sessions_completed,
{
}

/// Over any run the count of completed sessions never decreases: it grows by
/// the number of samples that ended a session, and by nothing else.
pub proof fn law_session_count_only_grows(start: ActivityView, samples: Seq<Sample>)
    ensures
        run(start, samples).work_sessions_completed == start.work_sessions_completed
            + sessions_ended(start, samples),
        run(start, samples).work_sessions_completed >= start.work_sessions_completed,
    decreases samples.len(),
{
    if samples.len() > 0 {
        law_session_count_only_grows(start, samples.drop_last());
        law_session_count_steps(
            run(start, samples.drop_last()),
            samples.last().idle_seconds,
            samples.last().stamp,
        );
    }
}

/// A sample that has the break announced sets the kind and the length of the
/// break by the number of sessions completed at that moment, which it leaves
/// unchanged: the break is long exactly when that number is a multiple of four.
pub proof fn law_break_kind_at_announcement(
    state: ActivityView,
    idle_seconds: u32,
    stamp: Seq<char>,
)
    requires
        state.announces_break(idle_seconds),
    ensures
        ({
            let next = state.step(idle_seconds, stamp).state;
            &&& next.work_sessions_completed == state.work_sessions_completed
            &&& next.is_long_break <==> next.work_sessions_completed % 4 == 0
            &&& next.break_duration == break_seconds(next.is_long_break)
        }),
{
}

/// The kind and the length of the break change on no sample but one that
/// has the break announced. A sample that ends a session keeps both.
pub proof fn law_break_changes_only_at_announcement(
    state: ActivityView,
    idle_seconds: u32,
    stamp: Seq<char>,
)
    requires
        !state.announces_break(idle_seconds),
    ensures
        ({
            let next = state.step(idle_seconds, stamp).state;
            &&& next.is_long_break == state.is_long_break
            &&& next.break_duration == state.break_duration
        }),
{
}

/// Where the kind of break on the record was chosen by the number of
/// sessions completed so far, the break that a session-ending sample opens is
/// long exactly when the number of sessions completed before the one that
/// ends is a multiple of four.
pub proof fn law_break_kind_at_session_end(
    state: ActivityView,
    idle_seconds: u32,
    stamp: Seq<char>,
)
    requires
        state.ends_session(idle_seconds),
        state.is_long_break <==> long_break_follows(state.work_sessions_completed),
    ensures
        ({
            let next = state.step(idle_seconds, stamp).state;
            &&& next.work_sessions_completed == state.work_sessions_completed + 1
            &&& next.is_long_break <==> state.work_sessions_completed % 4 == 0
        }),
{
}

/// A session that ends on the sample after its break was announced opens a
/// break that is long exactly when the number of sessions completed before
/// it is a multiple of four.
pub proof fn law_break_kind_after_announced_session(
    state: ActivityView,
    active: Sample,
    idle: Sample,
)
    requires
        state.announces_break(active.idle_seconds),
        is_idle(idle.idle_seconds),
    ensures
        ({
            let announced = state.step(active.idle_seconds, active.stamp).state;
            let ended = announced.step(idle.idle_seconds, idle.stamp).state;
            &&& announced.ends_session(idle.idle_seconds)
            &&& ended.work_sessions_completed == state.work_sessions_completed + 1
            &&& ended.is_long_break <==> state.work_sessions_completed % 4 == 0
            &&& ended.break_duration == break_seconds(ended.is_long_break)
        }),
{
}

/// The active seconds of the session are exactly zero after a sample that
/// ends the session, whatever they were before; the record then rests and
/// has one more tick of idle time. Any other sample leaves the active seconds
/// as they were or adds one tick, so they never fall below zero.
pub proof fn law_active_time_resets(state: ActivityView, idle_seconds: u32, stamp: Seq<char>)
    ensures
        ({
            let next = state.step(idle_seconds, stamp).state;
            &&& state.ends_session(idle_seconds) ==> next.active_time_in_session == 0
                && !next.is_working && next.idle_time_accumulated == state.idle_time_accumulated
                + TICK_SECONDS
            &&& !state.ends_session(idle_seconds) && is_idle(idle_seconds)
                ==> next.active_time_in_session == state.active_time_in_session
            &&& !is_idle(idle_seconds) ==> next.active_time_in_session
                == state.active_time_in_session + TICK_SECONDS
            &&& next.active_time_in_session >= 0
        }),
{
}

/// Once the break length agrees with the kind of break, it does so after
/// every run: it is the short or the long length and nothing else.
pub proof fn law_break_stays_coherent(start: ActivityView, samples: Seq<Sample>)
    requires
        start.break_is_coherent(),
    ensures
        run(start, samples).break_is_coherent(),
    decreases samples.len(),
{
    if samples.len() > 0 {
        law_break_stays_coherent(start, samples.drop_last());
    }
}

} // verus!
