//! The access-log record and its textual form.

use vstd::prelude::*;
use crate::level::{LogLevel, spec_should_log};
use crate::outcome::{OutcomeView, opt_str_view};
use crate::text::{spec_dec, spec_duration, u64_to_string, format_duration};

verus! {

/// One entry of the access log, built once per completed request and
/// emitted at most once, never persisted.
pub struct LogRecord {
    /// The request's HTTP method.
    pub method: String,
    /// The request's path.
    pub path: String,
    /// The status code of the outcome.
    pub status: u16,
    /// How long the downstream chain took, in nanoseconds.
    pub elapsed_ns: u64,
    /// The failure's explanation; absent for a success.
    pub reason: Option<String>,
}

/// The mathematical shape of a [`LogRecord`].
pub struct LogRecordView {
    /// View of the method.
    pub method: Seq<char>,
    /// View of the path.
    pub path: Seq<char>,
    /// The status code.
    pub status: u16,
    /// The elapsed time in nanoseconds.
    pub elapsed_ns: u64,
    /// View of the optional reason.
    pub reason: Option<Seq<char>>,
}

impl View for LogRecord {
    type V = LogRecordView;

    open spec fn view(&self) -> LogRecordView {
        LogRecordView {
            method: self.method@,
            path: self.path@,
            status: self.status,
            elapsed_ns: self.elapsed_ns,
            reason: opt_str_view(self.reason),
        }
    }
}

/// The record the logging middleware produces for one completed request,
/// or nothing when the level filters the outcome out.  A success is
/// recorded without a reason; a failure carries its reason along.
pub open spec fn spec_record(
    level: LogLevel,
    method: Seq<char>,
    path: Seq<char>,
    outcome: OutcomeView,
    elapsed_ns: u64,
) -> Option<LogRecordView> {
    if spec_should_log(level, outcome is Success) {
        Option::Some(
            LogRecordView {
                method,
                path,
                status: outcome.status(),
                elapsed_ns,
                reason: outcome.reason(),
            },
        )
    } else {
        Option::None
    }
}

/// The view of an optional record.
pub open spec fn opt_record_view(o: Option<LogRecord>) -> Option<LogRecordView> {
    match o {
        Option::Some(r) => Option::Some(r@),
        Option::None => Option::None,
    }
}

/// The log line for a record: `METHOD PATH STATUS ELAPSED` for a success,
/// with the reason appended after one more space for a failure.
pub open spec fn spec_line(r: LogRecordView) -> Seq<char> {
    r.method + seq![' '] + r.path + seq![' '] + spec_dec(r.status as nat) + seq![' ']
        + spec_duration(r.elapsed_ns as nat) + (match r.reason {
        Option::Some(reason) => seq![' '] + reason,
        Option::None => Seq::<char>::empty(),
    })
}

/// A failure's log line ends with the failure's reason.
pub proof fn lemma_failure_line_ends_with_reason(r: LogRecordView)
    requires
        r.reason is Some,
    ensures
        spec_line(r).len() >= r.reason->0.len(),
        spec_line(r).subrange(
            spec_line(r).len() - r.reason->0.len(),
            spec_line(r).len() as int,
        ) =~= r.reason->0,
{
}

/// Formats a record as its access-log line.
pub fn format_record(r: &LogRecord) -> (s: String)
    ensures
        s@ == spec_line(r@),
{
    proof {
        reveal_strlit(" ");
    }
    let mut s = r.method.clone();
    s.append(" ");
    s.append(r.path.as_str());
    s.append(" ");
    let status = u64_to_string(r.status as u64);
    s.append(status.as_str());
    s.append(" ");
    let dur = format_duration(r.elapsed_ns);
    s.append(dur.as_str());
    match &r.reason {
        Option::Some(reason) => {
            s.append(" ");
            s.append(reason.as_str());
        },
        Option::None => {},
    }
    proof {
        assert(s@ =~= spec_line(r@));
    }
    s
}

} // verus!
