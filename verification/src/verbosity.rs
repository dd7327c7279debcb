//! The log level selected by the verbosity flag.

use vstd::prelude::*;

verus! {

/// How much the program reports, from least to most.
#[derive(Clone, Copy, Debug, PartialEq, Eq, Structural)]
pub enum LogLevel {
    Warn,
    Info,
    Debug,
    Trace,
}

/// The level that `occurrences` repetitions of the verbosity flag select.
pub open spec fn level_for(occurrences: int) -> LogLevel {
    if occurrences <= 0 {
        LogLevel::Warn
    } else if occurrences == 1 {
        LogLevel::Info
    } else if occurrences == 2 {
        LogLevel::Debug
    } else {
        LogLevel::Trace
    }
}

/// The name of a level as a log filter spells it.
pub open spec fn level_name(level: LogLevel) -> Seq<char> {
    match level {
        LogLevel::Warn => "warn"@,
        LogLevel::Info => "info"@,
        LogLevel::Debug => "debug"@,
        LogLevel::Trace => "trace"@,
    }
}

/// Maps the number of times the verbosity flag was given to a log level:
/// none gives `Warn`, one `Info`, two `Debug`, three or more `Trace`.
pub fn log_level(occurrences: u8) -> (level: LogLevel)
    ensures
        level == level_for(occurrences as int),
{
    if occurrences == 0 {
        LogLevel::Warn
    } else if occurrences == 1 {
        LogLevel::Info
    } else if occurrences == 2 {
        LogLevel::Debug
    } else {
        LogLevel::Trace
    }
}

impl LogLevel {
    /// The lower-case name of the level.
    pub fn name(&self) -> (name: &'static str)
        ensures
            name@ == level_name(*self),
    {
        match self {
            LogLevel::Warn => "warn",
            LogLevel::Info => "info",
            LogLevel::Debug => "debug",
            LogLevel::Trace => "trace",
        }
    }
}

} // verus!
