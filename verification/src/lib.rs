//! Core of a small static-file web server: the request-handling pipeline.
//!
//! The pieces worth reasoning about are pure: deciding how a request is
//! routed, whether a completed request is logged at the configured
//! verbosity level, and how the access-log line is formatted.  The server
//! runtime, the clock and the file-serving engine are outside collaborators
//! that hand this library plain values and take plain values back.

pub mod config;
pub mod level;
pub mod logger;
pub mod outcome;
pub mod pipeline;
pub mod record;
pub mod router;
pub mod text;
