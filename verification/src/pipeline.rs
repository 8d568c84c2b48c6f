//! The whole per-request pipeline: the logging middleware wrapped around
//! the router at a single point, so each incoming request passes the
//! logger exactly once whichever route serves it.

use vstd::prelude::*;
use crate::logger::Logger;
use crate::outcome::{Outcome, Request, opt_str_view};
use crate::record::{LogRecord, spec_record, opt_record_view};
use crate::router::{route, spec_route};

verus! {

impl Logger {
    /// Handles one request end to end: routes it, then observes the
    /// routed outcome once.  `index` is the index document's content
    /// where one could be read, `fallback` the file-serving engine's
    /// outcome for the request path, `elapsed_ns` the measured time the
    /// downstream work took.  The returned outcome is exactly what the
    /// router settled on, and at most one record is produced for the
    /// request — the index route and the fallback route share this one
    /// logging point.
    pub fn serve(&self, req: &Request, index: Option<String>, fallback: Outcome, elapsed_ns: u64)
        -> (r: (Outcome, Option<LogRecord>))
        ensures
            r.0@ == spec_route(req.path@, opt_str_view(index), fallback@),
            opt_record_view(r.1) == spec_record(
                self.level,
                req.method@,
                req.path@,
                spec_route(req.path@, opt_str_view(index), fallback@),
                elapsed_ns,
            ),
    {
        let outcome = route(&req.path, index, fallback);
        self.handle(req, outcome, elapsed_ns)
    }
}

} // verus!
