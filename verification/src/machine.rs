//! The transition rules: how one idle-time sample changes the record.

use vstd::prelude::*;
use crate::notification::Notification;
use crate::state::{
    break_seconds, ActivityState, ActivityView, IDLE_THRESHOLD_SECONDS, LONG_BREAK_SECONDS,
    SESSIONS_PER_LONG_BREAK, SHORT_BREAK_SECONDS, TICK_SECONDS, WORK_SESSION_SECONDS,
};

verus! {

/// Whether a sample of `idle_seconds` counts as idle.
pub open spec fn is_idle(idle_seconds: u32) -> bool {
    idle_seconds >= IDLE_THRESHOLD_SECONDS
}

/// Whether the break that follows a session is a long one, given the number
/// of sessions completed before it.
pub open spec fn long_break_follows(sessions: nat) -> bool {
    sessions % (SESSIONS_PER_LONG_BREAK as nat) == 0
}

/// Whole minutes in `seconds`.
pub open spec fn whole_minutes(seconds: nat) -> nat {
    seconds / 60
}

/// A record after a transition, with the notifications the transition raised,
/// in the order in which they were raised.
pub ghost struct Outcome {
    pub state: ActivityView,
    pub notifications: Seq<Notification>,
}

impl ActivityView {
    /// The record with `time` more idle seconds.
    pub open spec fn with_idle_added(self, time: nat) -> ActivityView {
        ActivityView { idle_time_accumulated: self.idle_time_accumulated + time, ..self }
    }

    /// The record with `time` more active seconds in the current session.
    pub open spec fn with_activity_added(self, time: nat) -> ActivityView {
        ActivityView { active_time_in_session: self.active_time_in_session + time, ..self }
    }

    /// The record marked as updated at `stamp`.
    pub open spec fn stamped(self, stamp: Seq<char>) -> ActivityView {
        ActivityView { last_updated_at: stamp, ..self }
    }

    /// The record with a work session in progress.
    pub open spec fn working(self) -> ActivityView {
        ActivityView { is_working: true, ..self }
    }

    /// First rule: one tick is added to the idle or to the active seconds.
    pub open spec fn accumulate(self, idle: bool) -> ActivityView {
        if idle {
            self.with_idle_added(TICK_SECONDS as nat)
        } else {
            self.with_activity_added(TICK_SECONDS as nat)
        }
    }

    /// Second rule: an idle sample while resting, with no more than a full
    /// session of active time on the record, puts the record back to working.
    pub open spec fn early_resume(self, idle: bool) -> ActivityView {
        if idle && !self.is_working && self.active_time_in_session <= WORK_SESSION_SECONDS {
            self.working()
        } else {
            self
        }
    }

    /// Whether a session is in progress and has reached its length.
    pub open spec fn session_is_due(self) -> bool {
        self.is_working && self.active_time_in_session >= WORK_SESSION_SECONDS
    }

    /// Third rule: a session that is due ends on an idle sample; on an active
    /// one the break is chosen by the number of completed sessions and
    /// announced.
    pub open spec fn session_check(self, idle: bool) -> Outcome {
        if !self.session_is_due() {
            Outcome { state: self, notifications: Seq::empty() }
        } else if idle {
            Outcome {
                state: ActivityView {
                    is_working: false,
                    active_time_in_session: 0,
                    work_sessions_completed: self.work_sessions_completed + 1,
                    ..self
                },
                notifications: Seq::empty(),
            }
        } else {
            let long = long_break_follows(self.work_sessions_completed);
            Outcome {
                state: ActivityView {
                    is_long_break: long,
                    break_duration: break_seconds(long),
                    ..self
                },
                notifications: seq![
                    Notification::TimeToBreak {
                        minutes: whole_minutes(break_seconds(long)) as u32,
                    },
                ],
            }
        }
    }

    /// Fourth rule, which looks at a resting record only. Before the idle
    /// seconds reach the break length an active sample is answered with a
    /// reminder. Once they exceed it, an idle sample is answered with a call
    /// back to work, and an active one resumes work and counts the break.
    pub open spec fn rest_check(self, idle: bool) -> Outcome {
        if self.is_working {
            Outcome { state: self, notifications: Seq::empty() }
        } else if self.idle_time_accumulated < self.break_duration && !idle {
            Outcome { state: self, notifications: seq![Notification::BreakNotFinished] }
        } else if self.idle_time_accumulated > self.break_duration && idle {
            Outcome { state: self, notifications: seq![Notification::TimeToWork] }
        } else if self.idle_time_accumulated > self.break_duration {
            Outcome {
                state: ActivityView {
                    is_working: true,
                    breaks_completed: self.breaks_completed + 1,
                    ..self
                },
                notifications: Seq::empty(),
            }
        } else {
            Outcome { state: self, notifications: Seq::empty() }
        }
    }

    /// The record as the third rule finds it on a sample that is idle or not.
    pub open spec fn before_session_check(self, idle: bool) -> ActivityView {
        self.accumulate(idle).early_resume(idle)
    }

    /// One transition: the record is stamped and the four rules are applied
    /// in order to a sample of `idle_seconds`.
    pub open spec fn step(self, idle_seconds: u32, stamp: Seq<char>) -> Outcome {
        let idle = is_idle(idle_seconds);
        let session = self.stamped(stamp).before_session_check(idle).session_check(idle);
        let rest = session.state.rest_check(idle);
        Outcome { state: rest.state, notifications: session.notifications + rest.notifications }
    }

    /// Whether a sample of `idle_seconds` ends the work session.
    pub open spec fn ends_session(self, idle_seconds: u32) -> bool {
        is_idle(idle_seconds) && self.before_session_check(true).session_is_due()
    }

    /// Whether a sample of `idle_seconds` has the break chosen and announced.
    pub open spec fn announces_break(self, idle_seconds: u32) -> bool {
        !is_idle(idle_seconds) && self.before_session_check(false).session_is_due()
    }

    /// Whether the record after a sample of `idle_seconds` still fits the
    /// machine integers that store it.
    pub open spec fn can_step(self, idle_seconds: u32) -> bool {
        self.step(idle_seconds, self.last_updated_at).state.is_representable()
    }
}

impl ActivityState {
    /// Marks a work session as in progress, as the monitor does when it starts.
    pub fn start_working(&mut self)
        ensures
            final(self)@ == old(self)@.working(),
    {
        self.is_working = true;
    }

    /// Adds `time` idle seconds and stamps the record.
    pub fn increase_idle(&mut self, time: u32, stamp: String)
        requires
            old(self).idle_time_accumulated + time <= u32::MAX,
        ensures
            final(self)@ == old(self)@.with_idle_added(time as nat).stamped(stamp@),
    {
        self.last_updated_at = stamp;
        self.idle_time_accumulated = self.idle_time_accumulated + time;
    }

    /// Adds `time` active seconds to the current session and stamps the record.
    pub fn increase_activity(&mut self, time: u32, stamp: String)
        requires
            old(self).active_time_in_session + time <= u32::MAX,
        ensures
            final(self)@ == old(self)@.with_activity_added(time as nat).stamped(stamp@),
    {
        self.last_updated_at = stamp;
        self.active_time_in_session = self.active_time_in_session + time;
    }

    /// Tells whether [`ActivityState::advance`] may be called with this sample:
    /// whether no counter would outgrow its machine integer.
    pub fn can_advance(&self, idle_seconds: u32) -> (fits: bool)
        ensures
            fits == self@.can_step(idle_seconds),
    {
        if idle_seconds >= IDLE_THRESHOLD_SECONDS {
            let ends_session = if self.is_working {
                self.active_time_in_session >= WORK_SESSION_SECONDS
            } else {
                self.active_time_in_session == WORK_SESSION_SECONDS
            };
            self.idle_time_accumulated <= u32::MAX - TICK_SECONDS && (!ends_session
                || self.work_sessions_completed < u32::MAX)
        } else {
            let ends_break = !self.is_working && self.idle_time_accumulated > self.break_duration;
            self.active_time_in_session <= u32::MAX - TICK_SECONDS && (!ends_break
                || self.breaks_completed < u32::MAX)
        }
    }

    /// Applies one sample taken at `stamp` to the record and returns the
    /// notifications to show, in order.
    pub fn advance(&mut self, idle_seconds: u32, stamp: String) -> (raised: Vec<Notification>)
        requires
            old(self)@.can_step(idle_seconds),
        ensures
            final(self)@ == old(self)@.step(idle_seconds, stamp@).state,
            raised@ == old(self)@.step(idle_seconds, stamp@).notifications,
    {
        let idle = idle_seconds >= IDLE_THRESHOLD_SECONDS;
        let mut raised: Vec<Notification> = Vec::new();

        if idle {
            self.increase_idle(TICK_SECONDS, stamp);
        } else {
            self.increase_activity(TICK_SECONDS, stamp);
        }

        if idle && !self.is_working && self.active_time_in_session <= WORK_SESSION_SECONDS {
            self.is_working = true;
        }

        if self.active_time_in_session >= WORK_SESSION_SECONDS && self.is_working {
            if idle {
                self.is_working = false;
                self.active_time_in_session = 0;
                self.work_sessions_completed = self.work_sessions_completed + 1;
            } else {
                if self.work_sessions_completed % SESSIONS_PER_LONG_BREAK == 0 {
                    self.is_long_break = true;
                    self.break_duration = LONG_BREAK_SECONDS;
                } else {
                    self.is_long_break = false;
                    self.break_duration = SHORT_BREAK_SECONDS;
                }
                raised.push(Notification::TimeToBreak { minutes: self.break_duration / 60 });
            }
        }

        if !self.is_working {
            if self.idle_time_accumulated < self.break_duration {
                if !idle {
                    raised.push(Notification::BreakNotFinished);
                }
            } else if self.idle_time_accumulated > self.break_duration {
                if idle {
                    raised.push(Notification::TimeToWork);
                } else {
                    self.is_working = true;
                    self.breaks_completed = self.breaks_completed + 1;
                }
            }
        }
        raised
    }
}

} // verus!
