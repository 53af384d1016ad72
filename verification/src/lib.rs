//! The core of a command-line Pomodoro timer: duration parsing and
//! formatting, the countdown arithmetic and its rendering, the hook-execution
//! decisions, the session's phase state machine, and the alert fallback
//! chain. The surrounding binary performs the outside effects — printing,
//! sleeping, spawning, signal handling — exactly as the step plans and
//! decisions here direct.

pub mod alert;
pub mod chars;
pub mod config;
pub mod countdown;
pub mod duration;
pub mod hooks;
pub mod session;

use vstd::prelude::*;

verus! {

/// Seconds in one minute, the unit conversion the whole timer rests on.
pub fn duration_from_minutes(minutes: u64) -> (seconds: u64)
    requires
        minutes * 60 <= u64::MAX,
    ensures
        seconds == minutes * 60,
{
    minutes * 60
}

} // verus!
