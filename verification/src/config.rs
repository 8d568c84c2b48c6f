//! The server's immutable configuration, fixed once at startup.

use vstd::prelude::*;
use crate::level::LogLevel;

verus! {

/// Everything the server is configured with.  Built once before the
/// server starts and read-only afterwards.
pub struct Config {
    /// The TCP port to listen on, never zero.
    pub port: u16,
    /// The host name to bind to.
    pub host: String,
    /// The directory the files are served from.
    pub root: String,
    /// The access log's verbosity level.
    pub level: LogLevel,
}

impl Config {
    /// A configuration is well formed when its port is a real port
    /// number, between 1 and 65535.
    pub open spec fn wf(self) -> bool {
        self.port >= 1
    }

    /// Builds a configuration, rejecting a zero port.  Returns a
    /// configuration exactly when the port is valid, and carries the
    /// given settings through unchanged.
    pub fn new(port: u16, host: String, root: String, level: LogLevel) -> (r: Option<Config>)
        ensures
            r is Some <==> port >= 1,
            r is Some ==> {
                &&& r->0.wf()
                &&& r->0.port == port
                &&& r->0.host@ == host@
                &&& r->0.root@ == root@
                &&& r->0.level == level
            },
    {
        if port >= 1 {
            Option::Some(Config { port, host, root, level })
        } else {
            Option::None
        }
    }
}

} // verus!
