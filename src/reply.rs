//! The replies of the worker's endpoints.

use crate::routes::Endpoint;
use vstd::prelude::*;

verus! {

/// The kind of a reply's body.
#[derive(Clone, Copy, Debug, PartialEq, Eq, Structural)]
pub enum BodyKind {
    /// Plain text.
    Text,
    /// A JSON document.
    Json,
}

/// A reply to a request: its HTTP status, the kind of its body, and the body.
pub struct Reply {
    pub status: u16,
    pub kind: BodyKind,
    pub body: String,
}

/// The body of the root endpoint.
pub open spec fn root_text() -> Seq<char> {
    "R2 File Explorer API"@
}

/// What serde_json writes for a JSON string holding the characters `s`.
pub uninterp spec fn json_string_of(s: Seq<char>) -> Seq<char>;

/// Whether JSON writes `s` without escapes: no quote, no backslash and no
/// control character.
pub open spec fn needs_no_escape(s: Seq<char>) -> bool {
    forall|i: int| 0 <= i < s.len() ==> s[i] != '"' && s[i] != '\\' && (s[i] as u32) >= 32
}

/// `s` between double quotes.
pub open spec fn quoted(s: Seq<char>) -> Seq<char> {
    seq!['"'] + s + seq!['"']
}

/// Whether `c` is a decimal digit.
pub open spec fn is_digit(c: char) -> bool {
    '0' <= c && c <= '9'
}

/// Whether `s[from..from + n]` are all digits.
pub open spec fn digits_at(s: Seq<char>, from: int, n: int) -> bool {
    0 <= from && from + n <= s.len() && forall|i: int| from <= i < from + n ==> is_digit(s[i])
}

/// Whether `y` is a year as chrono writes it: four digits, or a sign and at
/// least four digits for a year outside 0 to 9999.
pub open spec fn year_text(y: Seq<char>) -> bool {
    (y.len() == 4 && digits_at(y, 0, 4)) || (y.len() >= 5 && (y[0] == '+' || y[0] == '-')
        && digits_at(y, 1, y.len() - 1))
}

/// Whether `s` is a UTC time written as RFC 3339: `YYYY-MM-DDTHH:MM:SS`, then
/// a fraction of 3, 6 or 9 digits or none, then the offset `+00:00`. `f` is
/// the length of the fraction with its dot.
pub open spec fn utc_time_text_with(s: Seq<char>, f: int) -> bool {
    let n = s.len() as int;
    let t = n - 15 - f;
    &&& f == 0 || f == 4 || f == 7 || f == 10
    &&& t >= 10
    &&& year_text(s.subrange(0, t - 6))
    &&& s[t - 6] == '-' && digits_at(s, t - 5, 2) && s[t - 3] == '-' && digits_at(s, t - 2, 2)
    &&& s[t] == 'T'
    &&& digits_at(s, t + 1, 2) && s[t + 3] == ':' && digits_at(s, t + 4, 2) && s[t + 6] == ':'
        && digits_at(s, t + 7, 2)
    &&& f > 0 ==> s[t + 9] == '.' && digits_at(s, t + 10, f - 1)
    &&& s.subrange(n - 6, n) == seq!['+', '0', '0', ':', '0', '0']
}

/// Whether `s` is a UTC time written as RFC 3339, as chrono writes it.
pub open spec fn utc_time_text(s: Seq<char>) -> bool {
    exists|f: int| utc_time_text_with(s, f)
}

/// The body of the health endpoint, given the timestamp and the version
/// already written as JSON strings.
pub open spec fn health_text(timestamp_json: Seq<char>, version_json: Seq<char>) -> Seq<char> {
    "{\"status\":\"healthy\",\"timestamp\":"@ + timestamp_json + ",\"version\":"@ + version_json
        + "}"@
}

/// Relies on serde_json::to_string on a `str`: it writes the string as a JSON
/// string literal into a `Vec<u8>`, which cannot fail, between two quotes and
/// escaping only quotes, backslashes and control characters.
#[verifier::external_body]
fn json_string(s: &str) -> (r: Option<String>)
    ensures
        r is Some,
        r->Some_0@ == json_string_of(s@),
        needs_no_escape(s@) ==> r->Some_0@ == quoted(s@),
{
    serde_json::to_string(s).ok()
}

/// Relies on chrono::Utc::now and chrono::DateTime::to_rfc3339: the current
/// time in UTC, written with the seconds' fraction in 0, 3, 6 or 9 digits and
/// the offset as "+00:00".
#[verifier::external_body]
fn utc_now_rfc3339() -> (r: String)
    ensures
        utc_time_text(r@),
{
    chrono::Utc::now().to_rfc3339()
}

/// The reply of the root endpoint: status 200 and the API's name.
pub fn root_reply() -> (r: Reply)
    ensures
        r.status == 200,
        r.kind == BodyKind::Text,
        r.body@ == root_text(),
{
    Reply { status: 200, kind: BodyKind::Text, body: String::from_str("R2 File Explorer API") }
}

/// The body of the health endpoint, from the timestamp and the version
/// already written as JSON strings.
pub fn health_body(timestamp_json: &str, version_json: &str) -> (r: String)
    ensures
        r@ == health_text(timestamp_json@, version_json@),
{
    let mut body = String::from_str("{\"status\":\"healthy\",\"timestamp\":");
    body.append(timestamp_json);
    body.append(",\"version\":");
    body.append(version_json);
    body.append("}");
    body
}

/// What the health reply holds for the time `timestamp` and the build
/// version `version`.
pub open spec fn is_health_reply(r: Reply, timestamp: Seq<char>, version: Seq<char>) -> bool {
    &&& r.status == 200
    &&& r.kind == BodyKind::Json
    &&& r.body@ == health_text(json_string_of(timestamp), json_string_of(version))
    &&& needs_no_escape(timestamp) ==> json_string_of(timestamp) == quoted(timestamp)
    &&& needs_no_escape(version) ==> json_string_of(version) == quoted(version)
}

/// The reply of the health endpoint at the time `timestamp` for the build
/// version `version`: status 200 and a JSON object with the status "healthy",
/// the timestamp and the version.
pub fn health_reply(timestamp: &str, version: &str) -> (r: Reply)
    ensures
        is_health_reply(r, timestamp@, version@),
{
    let t = json_string(timestamp);
    let v = json_string(version);
    match (t, v) {
        (Some(t), Some(v)) => Reply {
            status: 200,
            kind: BodyKind::Json,
            body: health_body(t.as_str(), v.as_str()),
        },
        _ => {
            proof {
                assert(false);
            }
            Reply { status: 500, kind: BodyKind::Text, body: String::new() }
        },
    }
}

/// What `endpoint` replies for the build version `version`.
pub open spec fn answers(endpoint: Endpoint, version: Seq<char>, r: Reply) -> bool {
    match endpoint {
        Endpoint::Root => r.status == 200 && r.kind == BodyKind::Text && r.body@ == root_text(),
        Endpoint::Health => exists|ts: Seq<char>|
            #![trigger json_string_of(ts)]
            utc_time_text(ts) && is_health_reply(r, ts, version),
    }
}

/// Answers a request routed to `endpoint`; the health endpoint reports the
/// current time and the build version `version`.
pub fn handle(endpoint: Endpoint, version: &str) -> (r: Reply)
    ensures
        answers(endpoint, version@, r),
{
    match endpoint {
        Endpoint::Root => root_reply(),
        Endpoint::Health => {
            let now = utc_now_rfc3339();
            let r = health_reply(now.as_str(), version);
            assert(utc_time_text(now@) && is_health_reply(r, now@, version@));
            r
        },
    }
}

} // verus!
