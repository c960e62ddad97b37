//! Serving a request: the route table, then the endpoint's reply, and what
//! every reply is known to hold.

use crate::reply::{
    answers, handle, health_text, is_health_reply, json_string_of, needs_no_escape, quoted,
    utc_time_text, utc_time_text_with, year_text, BodyKind, Reply,
};
use crate::routes::{route, route_of};
use vstd::prelude::*;

verus! {

/// Whether `r` is how the worker responds to `method` on `path` for the build
/// version `version`: the routed endpoint's reply, or `None` where no route
/// matches and the router's default response applies.
pub open spec fn responds(method: Seq<char>, path: Seq<char>, version: Seq<char>, r: Option<
    Reply,
>) -> bool {
    match route_of(method, path) {
        Some(endpoint) => r matches Some(reply) && answers(endpoint, version, reply),
        None => r is None,
    }
}

/// Responds to `method` on `path`; `None` leaves the request to the router's
/// default response. The health endpoint reports the build version `version`.
pub fn respond(method: &str, path: &str, version: &str) -> (r: Option<Reply>)
    ensures
        responds(method@, path@, version@, r),
{
    match route(method, path) {
        Some(endpoint) => Some(handle(endpoint, version)),
        None => None,
    }
}

/// A UTC time written as RFC 3339 holds no character that JSON escapes.
pub proof fn lemma_utc_time_text_needs_no_escape(s: Seq<char>)
    requires
        utc_time_text(s),
    ensures
        needs_no_escape(s),
{
    let f = choose|f: int| utc_time_text_with(s, f);
    let n = s.len() as int;
    let t = n - 15 - f;
    let y = s.subrange(0, t - 6);
    let z = s.subrange(n - 6, n);
    assert(year_text(y));
    assert forall|i: int| 0 <= i < s.len() implies s[i] != '"' && s[i] != '\\' && (s[i] as u32)
        >= 32 by {
        if i < t - 6 {
            assert(s[i] == y[i]);
        } else if i >= n - 6 {
            assert(s[i] == z[i - (n - 6)]);
        }
    }
}

/// Every `GET /` is answered with status 200 and the body
/// "R2 File Explorer API", whatever else the request carries.
pub proof fn lemma_root_reply(version: Seq<char>, r: Option<Reply>)
    requires
        responds("GET"@, "/"@, version, r),
    ensures
        r is Some,
        r->Some_0.status == 200,
        r->Some_0.body@ == "R2 File Explorer API"@,
{
}

/// Every `GET /health` is answered with status 200 and the JSON object
/// `{"status":"healthy","timestamp":"<t>","version":<v>}`, where `t` is a UTC
/// time written as RFC 3339 and `<v>` is the build version as a JSON string:
/// between plain quotes where it needs no escape.
pub proof fn lemma_health_reply(version: Seq<char>, r: Option<Reply>)
    requires
        responds("GET"@, "/health"@, version, r),
    ensures
        r is Some,
        r->Some_0.status == 200,
        r->Some_0.kind == BodyKind::Json,
        exists|ts: Seq<char>|
            #![trigger utc_time_text(ts)]
            utc_time_text(ts) && r->Some_0.body@ == health_text(quoted(ts), json_string_of(version)),
        needs_no_escape(version) ==> exists|ts: Seq<char>|
            #![trigger utc_time_text(ts)]
            utc_time_text(ts) && r->Some_0.body@ == health_text(quoted(ts), quoted(version)),
{
    reveal_strlit("/");
    reveal_strlit("/health");
    assert("/health"@ != "/"@) by {
        assert("/"@.len() == 1);
        assert("/health"@.len() == 7);
    }
    let reply = r->Some_0;
    let ts = choose|ts: Seq<char>| utc_time_text(ts) && is_health_reply(reply, ts, version);
    lemma_utc_time_text_needs_no_escape(ts);
    assert(utc_time_text(ts) && reply.body@ == health_text(quoted(ts), json_string_of(version)));
}

/// A request that matches no route is left to the router's default response.
pub proof fn lemma_unmatched_request(method: Seq<char>, path: Seq<char>, version: Seq<char>, r:
    Option<Reply>)
    requires
        !(method == "GET"@ && (path == "/"@ || path == "/health"@)),
        responds(method, path, version, r),
    ensures
        r is None,
{
}

} // verus!
