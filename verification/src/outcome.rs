//! The request as the pipeline sees it, and the tagged outcome of
//! attempting to serve one.

use vstd::prelude::*;

verus! {

/// A read-only view of one incoming request.
pub struct Request {
    /// The HTTP method, e.g. `GET`.
    pub method: String,
    /// The request path, e.g. `/index.html`.
    pub path: String,
}

/// The result of attempting to serve a request: a success payload or a
/// typed failure.  Produced by the file-serving engine or the router,
/// passed through the logging middleware unchanged.
pub enum Outcome {
    /// The request was served.
    Success {
        /// HTTP status code, e.g. 200.
        status: u16,
        /// The media type of the body.
        content_type: String,
        /// The body that is sent to the client.
        body: String,
    },
    /// The request could not be served.
    Failure {
        /// HTTP status code, e.g. 404.
        status: u16,
        /// A human-readable explanation of the failure.
        reason: String,
    },
}

/// The mathematical shape of an [`Outcome`]: the same tagged union over
/// sequences of characters.
pub enum OutcomeView {
    /// View of [`Outcome::Success`].
    Success { status: u16, content_type: Seq<char>, body: Seq<char> },
    /// View of [`Outcome::Failure`].
    Failure { status: u16, reason: Seq<char> },
}

impl View for Outcome {
    type V = OutcomeView;

    open spec fn view(&self) -> OutcomeView {
        match self {
            Outcome::Success { status, content_type, body } => OutcomeView::Success {
                status: *status,
                content_type: content_type@,
                body: body@,
            },
            Outcome::Failure { status, reason } => OutcomeView::Failure {
                status: *status,
                reason: reason@,
            },
        }
    }
}

impl OutcomeView {
    /// The status code, whichever variant holds.
    pub open spec fn status(self) -> u16 {
        match self {
            OutcomeView::Success { status, .. } => status,
            OutcomeView::Failure { status, .. } => status,
        }
    }

    /// The failure's explanation; a success has none.
    pub open spec fn reason(self) -> Option<Seq<char>> {
        match self {
            OutcomeView::Success { .. } => Option::None,
            OutcomeView::Failure { reason, .. } => Option::Some(reason),
        }
    }
}

impl Outcome {
    /// Whether this outcome is a success, decided by the variant alone.
    pub fn is_success(&self) -> (b: bool)
        ensures
            b == (self@ is Success),
    {
        match self {
            Outcome::Success { .. } => true,
            Outcome::Failure { .. } => false,
        }
    }

    /// The status code carried by either variant.
    pub fn status(&self) -> (s: u16)
        ensures
            s == self@.status(),
    {
        match self {
            Outcome::Success { status, .. } => *status,
            Outcome::Failure { status, .. } => *status,
        }
    }
}

/// The view of an optional string.
pub open spec fn opt_str_view(o: Option<String>) -> Option<Seq<char>> {
    match o {
        Option::Some(s) => Option::Some(s@),
        Option::None => Option::None,
    }
}

} // verus!
