//! Fixed session settings: the default work and break lengths, the cycle
//! count, and the terminal-bell string.

use vstd::prelude::*;
use vstd::string::*;

verus! {

/// Session settings, all durations in whole seconds.
#[derive(Debug)]
pub struct Config {
    pub work_duration: u64,
    pub break_duration: u64,
    pub cycles: usize,
    pub beep_sound: String,
}

impl Config {
    /// The default settings: a 25-minute work phase, a 5-minute break, four
    /// cycles, and the ASCII bell as the beep.
    pub fn new() -> (c: Self)
        ensures
            c.work_duration == 1500,
            c.break_duration == 300,
            c.cycles == 4,
            c.beep_sound@ == "\x07"@,
    {
        Config {
            work_duration: 1500,
            break_duration: 300,
            cycles: 4,
            beep_sound: String::from_str("\x07"),
        }
    }
}

} // verus!
