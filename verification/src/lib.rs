//! Accounting for a work/break cycle driven by idle-time samples.
//!
//! A workstation is polled on a fixed cadence for the number of seconds its
//! user has been idle. Each sample advances an [`ActivityState`]: active and
//! idle seconds are accumulated, work sessions and breaks are counted, and the
//! notifications that the user should see are handed back to the caller.
//!
//! The crate keeps to plain values. Running the probe, reading the clock,
//! showing a notification and storing the record are left to the program
//! that drives the loop.

pub mod decimal;
pub mod laws;
pub mod machine;
pub mod notification;
pub mod probe;
pub mod state;

pub use notification::{notify_command, Notification};
pub use probe::{check_idle_time, strip_trailing_newline, ProbeError};
pub use state::{
    ActivityState, ActivityView, IDLE_THRESHOLD_SECONDS, LONG_BREAK_SECONDS,
    SESSIONS_PER_LONG_BREAK, SHORT_BREAK_SECONDS, TICK_SECONDS, WORK_SESSION_SECONDS,
};
