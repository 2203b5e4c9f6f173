//! The daily activity record and its mathematical model.

use vstd::prelude::*;

verus! {

/// Seconds that pass between two samples.
pub const TICK_SECONDS: u32 = 5;

/// A sample of at least this many idle seconds counts as idle.
pub const IDLE_THRESHOLD_SECONDS: u32 = 5;

/// Active seconds that make up one work session.
pub const WORK_SESSION_SECONDS: u32 = 1500;

/// Length of a short break, in seconds.
pub const SHORT_BREAK_SECONDS: u32 = 300;

/// Length of a long break, in seconds.
pub const LONG_BREAK_SECONDS: u32 = 900;

/// A break is long when the number of completed sessions is a multiple of this.
pub const SESSIONS_PER_LONG_BREAK: u32 = 4;

/// The length in seconds of a long or of a short break.
pub open spec fn break_seconds(long: bool) -> nat {
    if long {
        LONG_BREAK_SECONDS as nat
    } else {
        SHORT_BREAK_SECONDS as nat
    }
}

/// The record of one day's work and rest.
///
/// The fields are public and carry no enforced invariant: a record read back
/// from storage may hold any values. The transition functions keep
/// [`ActivityView::break_is_coherent`] once it holds.
#[derive(Clone, Debug, PartialEq, Eq)]
pub struct ActivityState {
    /// True while a work session is in progress, false while resting.
    pub is_working: bool,
    /// True if the current or most recent break is a long one.
    pub is_long_break: bool,
    /// Rest, in seconds, that the current break asks for.
    pub break_duration: u32,
    /// Work sessions that have ended.
    pub work_sessions_completed: u32,
    /// Rest periods that have ended with work resuming.
    pub breaks_completed: u32,
    /// Active seconds accumulated in the current work session.
    pub active_time_in_session: u32,
    /// Idle seconds accumulated since tracking began.
    pub idle_time_accumulated: u32,
    /// Stamp of the moment the record was created.
    pub day_date: String,
    /// Stamp of the latest sample that changed the record.
    pub last_updated_at: String,
}

/// What an [`ActivityState`] stands for: counters as natural numbers and
/// stamps as sequences of characters.
pub ghost struct ActivityView {
    pub is_working: bool,
    pub is_long_break: bool,
    pub break_duration: nat,
    pub work_sessions_completed: nat,
    pub breaks_completed: nat,
    pub active_time_in_session: nat,
    pub idle_time_accumulated: nat,
    pub day_date: Seq<char>,
    pub last_updated_at: Seq<char>,
}

impl View for ActivityState {
    type V = ActivityView;

    open spec fn view(&self) -> ActivityView {
        ActivityView {
            is_working: self.is_working,
            is_long_break: self.is_long_break,
            break_duration: self.break_duration as nat,
            work_sessions_completed: self.work_sessions_completed as nat,
            breaks_completed: self.breaks_completed as nat,
            active_time_in_session: self.active_time_in_session as nat,
            idle_time_accumulated: self.idle_time_accumulated as nat,
            day_date: self.day_date@,
            last_updated_at: self.last_updated_at@,
        }
    }
}

impl ActivityView {
    /// The record of a day on which nothing has happened yet, created at `stamp`.
    pub open spec fn initial(stamp: Seq<char>) -> ActivityView {
        ActivityView {
            is_working: false,
            is_long_break: false,
            break_duration: SHORT_BREAK_SECONDS as nat,
            work_sessions_completed: 0,
            breaks_completed: 0,
            active_time_in_session: 0,
            idle_time_accumulated: 0,
            day_date: stamp,
            last_updated_at: stamp,
        }
    }

    /// The break length agrees with the kind of break.
    pub open spec fn break_is_coherent(self) -> bool {
        self.break_duration == break_seconds(self.is_long_break)
    }

    /// Every counter fits the machine integer that stores it.
    pub open spec fn is_representable(self) -> bool {
        &&& self.break_duration <= u32::MAX
        &&& self.work_sessions_completed <= u32::MAX
        &&& self.breaks_completed <= u32::MAX
        &&& self.active_time_in_session <= u32::MAX
        &&& self.idle_time_accumulated <= u32::MAX
    }
}

impl ActivityState {
    /// The initial record for a day whose first moment is stamped `stamp`.
    pub fn initial(stamp: String) -> (state: ActivityState)
        ensures
            state@ == ActivityView::initial(stamp@),
    {
        let updated = stamp.clone();
        ActivityState {
            is_working: false,
            is_long_break: false,
            break_duration: SHORT_BREAK_SECONDS,
            work_sessions_completed: 0,
            breaks_completed: 0,
            active_time_in_session: 0,
            idle_time_accumulated: 0,
            day_date: stamp,
            last_updated_at: updated,
        }
    }
}

} // verus!
