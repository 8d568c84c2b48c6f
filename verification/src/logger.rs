//! The logging middleware: observes every completed request, filters by
//! the configured level, and never alters the outcome it passes through.

use vstd::prelude::*;
use crate::level::{LogLevel, spec_parse_level};
use crate::outcome::{Outcome, OutcomeView, Request};
use crate::record::{LogRecord, spec_record, opt_record_view};

verus! {

/// The access-logging middleware.  It holds nothing but the configured
/// verbosity level; each request builds its record afresh.
pub struct Logger {
    /// The configured verbosity level.
    pub level: LogLevel,
}

impl Logger {
    /// Builds a logger from the textual level setting: `all` and `error`
    /// select their levels, anything else logs nothing.
    pub fn new(log_level: String) -> (l: Self)
        ensures
            l.level == spec_parse_level(log_level@),
    {
        Logger { level: LogLevel::parse(&log_level) }
    }

    /// Observes one completed request: the downstream outcome together
    /// with the time the whole downstream chain took.  Returns the
    /// outcome unchanged — logging never affects the response — and the
    /// record to emit, or nothing when the level filters it out.
    pub fn handle(&self, req: &Request, outcome: Outcome, elapsed_ns: u64) -> (r: (
        Outcome,
        Option<LogRecord>,
    ))
        ensures
            r.0 == outcome,
            opt_record_view(r.1) == spec_record(
                self.level,
                req.method@,
                req.path@,
                outcome@,
                elapsed_ns,
            ),
    {
        let success = outcome.is_success();
        let emit = match self.level {
            LogLevel::All => true,
            LogLevel::ErrorsOnly => !success,
            LogLevel::Silent => false,
        };
        if emit {
            let status = outcome.status();
            let reason = match &outcome {
                Outcome::Failure { reason, .. } => Option::Some(reason.clone()),
                Outcome::Success { .. } => Option::None,
            };
            let record = LogRecord {
                method: req.method.clone(),
                path: req.path.clone(),
                status,
                elapsed_ns,
                reason,
            };
            (outcome, Option::Some(record))
        } else {
            (outcome, Option::None)
        }
    }
}

/// At a level other than `none`, every completed request whose outcome
/// the level admits yields exactly one record; at level `error` that is
/// every failure, at level `all` every outcome.
pub proof fn lemma_one_record_when_enabled(
    level: LogLevel,
    method: Seq<char>,
    path: Seq<char>,
    outcome: OutcomeView,
    elapsed_ns: u64,
)
    requires
        level != LogLevel::Silent,
        level == LogLevel::ErrorsOnly ==> outcome is Failure,
    ensures
        spec_record(level, method, path, outcome, elapsed_ns) is Some,
{
}

/// At level `none`, no request yields a record.
pub proof fn lemma_silent_no_record(
    method: Seq<char>,
    path: Seq<char>,
    outcome: OutcomeView,
    elapsed_ns: u64,
)
    ensures
        spec_record(LogLevel::Silent, method, path, outcome, elapsed_ns) is None,
{
}

/// At level `error` no success is ever recorded, and a record exists
/// exactly for the failures; at level `all` every outcome is recorded.
pub proof fn lemma_error_records_failures_only(
    method: Seq<char>,
    path: Seq<char>,
    outcome: OutcomeView,
    elapsed_ns: u64,
)
    ensures
        spec_record(LogLevel::ErrorsOnly, method, path, outcome, elapsed_ns) is Some
            <==> outcome is Failure,
        spec_record(LogLevel::All, method, path, outcome, elapsed_ns) is Some,
{
}

} // verus!
