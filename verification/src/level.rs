//! Verbosity levels of the access log, and the filtering rule that decides
//! which request outcomes produce a log record.

use vstd::prelude::*;

verus! {

/// How much of the access log is emitted: nothing, only failures, or
/// every completed request.
#[derive(Clone, Copy, PartialEq, Eq, Structural, Debug)]
pub enum LogLevel {
    /// No records at all (the textual level `none`).
    Silent,
    /// Records for failure outcomes only (the textual level `error`).
    ErrorsOnly,
    /// Records for every outcome (the textual level `all`).
    All,
}

/// The level a textual setting denotes: `all` and `error` select their
/// levels; `none`, like any unrecognized setting, logs nothing.
pub open spec fn spec_parse_level(s: Seq<char>) -> LogLevel {
    if s == "all"@ {
        LogLevel::All
    } else if s == "error"@ {
        LogLevel::ErrorsOnly
    } else {
        LogLevel::Silent
    }
}

/// Whether an outcome with the given success flag is logged at `level`.
pub open spec fn spec_should_log(level: LogLevel, success: bool) -> bool {
    level == LogLevel::All || (level == LogLevel::ErrorsOnly && !success)
}

impl LogLevel {
    /// Turns the textual setting into a level.
    pub fn parse(s: &String) -> (l: LogLevel)
        ensures
            l == spec_parse_level(s@),
    {
        if *s == String::from_str("all") {
            LogLevel::All
        } else if *s == String::from_str("error") {
            LogLevel::ErrorsOnly
        } else {
            LogLevel::Silent
        }
    }
}

} // verus!
