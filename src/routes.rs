//! The table of routes: which requests this worker answers itself.

use crate::text::text_equals;
use vstd::prelude::*;

verus! {

/// An endpoint of the worker.
#[derive(Clone, Copy, Debug, PartialEq, Eq, Structural)]
pub enum Endpoint {
    /// `GET /`: the name of the API.
    Root,
    /// `GET /health`: the health report.
    Health,
}

/// The path of the root endpoint.
pub const ROOT_PATH: &'static str = "/";

/// The path of the health endpoint.
pub const HEALTH_PATH: &'static str = "/health";

/// The endpoint that answers `method` on `path`, if any. The table is tried
/// in order; a request that no entry matches is left to the router's default.
pub open spec fn route_of(method: Seq<char>, path: Seq<char>) -> Option<Endpoint> {
    if method == "GET"@ && path == "/"@ {
        Some(Endpoint::Root)
    } else if method == "GET"@ && path == "/health"@ {
        Some(Endpoint::Health)
    } else {
        None
    }
}

/// Finds the endpoint that answers `method` (as written on the request line,
/// such as "GET") on `path`; `None` when no route matches.
pub fn route(method: &str, path: &str) -> (r: Option<Endpoint>)
    ensures
        r == route_of(method@, path@),
        r == Some(Endpoint::Root) <==> (method@ == "GET"@ && path@ == "/"@),
        r == Some(Endpoint::Health) <==> (method@ == "GET"@ && path@ == "/health"@),
        r is None <==> !(method@ == "GET"@ && (path@ == "/"@ || path@ == "/health"@)),
{
    proof {
        reveal_strlit("/");
        reveal_strlit("/health");
    }
    assert("/"@.len() == 1);
    assert("/health"@.len() == 7);
    if !text_equals(method, "GET") {
        None
    } else if text_equals(path, ROOT_PATH) {
        Some(Endpoint::Root)
    } else if text_equals(path, HEALTH_PATH) {
        Some(Endpoint::Health)
    } else {
        None
    }
}

} // verus!
