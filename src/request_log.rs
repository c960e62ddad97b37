//! The line logged for each incoming request.

use crate::text::{decimal, decimal_string};
use vstd::prelude::*;

verus! {

/// The region named in the log when the request carries none.
pub open spec fn default_region() -> Seq<char> {
    "unknown region"@
}

/// The region named in the log: the request's own, or the default.
pub open spec fn region_of(region: Option<Seq<char>>) -> Seq<char> {
    match region {
        Some(r) => r,
        None => default_region(),
    }
}

/// The log line for a request seen at `millis` (milliseconds since the epoch)
/// on `path`, located at the written coordinates `coordinates`, within `region`.
pub open spec fn log_line(
    millis: nat,
    path: Seq<char>,
    coordinates: Seq<char>,
    region: Option<Seq<char>>,
) -> Seq<char> {
    decimal(millis) + " - ["@ + path + "], located at: "@ + coordinates + ", within: "@
        + region_of(region)
}

/// The region named in the log: the request's own, or "unknown region".
pub fn region_label(region: Option<String>) -> (r: String)
    ensures
        r@ == region_of(
            match region {
                Some(s) => Some(s@),
                None => None,
            },
        ),
{
    match region {
        Some(s) => s,
        None => String::from_str("unknown region"),
    }
}

/// Builds the line logged for a request: when it came (`millis`, milliseconds
/// since the epoch), its path, where it came from, and the region it came from
/// when the edge network knows it. Every request gets a line: what the request
/// does not carry is filled with defaults.
pub fn log_request(millis: u64, path: &str, coordinates: &str, region: Option<String>) -> (r:
    String)
    ensures
        r@ == log_line(
            millis as nat,
            path@,
            coordinates@,
            match region {
                Some(s) => Some(s@),
                None => None,
            },
        ),
{
    let label = region_label(region);
    let mut line = decimal_string(millis);
    line.append(" - [");
    line.append(path);
    line.append("], located at: ");
    line.append(coordinates);
    line.append(", within: ");
    line.append(label.as_str());
    line
}

} // verus!
