//! The router: the root path prefers the index document and falls back to
//! static serving; every other path goes straight to static serving.

use vstd::prelude::*;
use crate::outcome::{Outcome, OutcomeView, opt_str_view};

verus! {

/// The outcome the router settles on, given the request path, the index
/// document's content if one could be read, and the file-serving engine's
/// outcome for the path.
///
/// The root path serves the index document when there is one; without
/// one, a successful static match for the root is served instead, and
/// only when that fails too does the local index-lookup failure surface.
/// Any other path gets the engine's outcome as it stands.
pub open spec fn spec_route(
    path: Seq<char>,
    index: Option<Seq<char>>,
    fallback: OutcomeView,
) -> OutcomeView {
    if path == "/"@ {
        match index {
            Option::Some(body) => OutcomeView::Success {
                status: 200,
                content_type: "text/html"@,
                body,
            },
            Option::None => if fallback is Success {
                fallback
            } else {
                OutcomeView::Failure { status: 404, reason: "Unable to find index file"@ }
            },
        }
    } else {
        fallback
    }
}

/// How each request is routed: the root path with an index document is
/// served that document with status 200; the root path without one takes
/// a successful static fallback unchanged; and any other path receives
/// the engine's outcome as it stands, so a missing file's failure and
/// its reason reach the client untouched.
pub proof fn lemma_route_branches(
    path: Seq<char>,
    index: Option<Seq<char>>,
    fallback: OutcomeView,
)
    ensures
        (path == "/"@ && index is Some) ==> spec_route(path, index, fallback)
            == (OutcomeView::Success { status: 200, content_type: "text/html"@, body: index->0 }),
        (path == "/"@ && index is None && fallback is Success) ==> spec_route(path, index, fallback)
            == fallback,
        path != "/"@ ==> spec_route(path, index, fallback) == fallback,
{
}

/// Whether the router wants the index document looked up for this path:
/// exactly the root path.
pub fn wants_index(path: &String) -> (b: bool)
    ensures
        b == (path@ == "/"@),
{
    *path == String::from_str("/")
}

/// Dispatches one request.  `index` is the index document's content where
/// one could be read (only consulted for the root path), `fallback` the
/// file-serving engine's outcome for the path itself.
pub fn route(path: &String, index: Option<String>, fallback: Outcome) -> (r: Outcome)
    ensures
        r@ == spec_route(path@, opt_str_view(index), fallback@),
{
    if wants_index(path) {
        match index {
            Option::Some(body) => Outcome::Success {
                status: 200,
                content_type: String::from_str("text/html"),
                body,
            },
            Option::None => {
                if fallback.is_success() {
                    fallback
                } else {
                    Outcome::Failure {
                        status: 404,
                        reason: String::from_str("Unable to find index file"),
                    }
                }
            },
        }
    } else {
        fallback
    }
}

} // verus!
