//! What is recorded of each request.
//!
//! Every request is counted once and its latency recorded once, both under
//! the same three labels: the method, the path and the status. The path is
//! the pattern of the route that matched, so that the number of distinct
//! labels stays small; only a request that matched no pattern is recorded
//! under its own path.

use crate::number::{decimal_string, decimal_text};
use vstd::prelude::*;

verus! {

/// Name of the counter of requests.
pub const REQUESTS_TOTAL: &'static str = "http_requests_total";

/// Name of the histogram of latencies, in seconds.
pub const REQUESTS_DURATION: &'static str = "http_requests_duration_seconds";

/// Name of the label that holds the method.
pub const LABEL_METHOD: &'static str = "method";

/// Name of the label that holds the path.
pub const LABEL_PATH: &'static str = "path";

/// Name of the label that holds the status.
pub const LABEL_STATUS: &'static str = "status";

/// One request as it is recorded.
#[derive(Clone, Debug, PartialEq, Eq)]
pub struct RequestObservation {
    pub method: String,
    /// The pattern of the matched route, or the request's own path.
    pub path: String,
    pub status: u16,
    /// Time from the request's arrival to its response, in nanoseconds.
    pub latency_nanos: u64,
}

/// The values of the three labels.
#[derive(Clone, Debug, PartialEq, Eq)]
pub struct Labels {
    pub method: String,
    pub path: String,
    pub status: String,
}

/// The path under which a request is recorded.
pub open spec fn recorded_path(matched: Option<Seq<char>>, raw_path: Seq<char>) -> Seq<char> {
    match matched {
        Some(pattern) => pattern,
        None => raw_path,
    }
}

/// The upper bounds of the latency histogram's buckets, in milliseconds.
pub open spec fn latency_bounds() -> Seq<u64> {
    seq![5, 10, 25, 50, 100, 250, 500, 1000, 2500, 5000, 10000]
}

/// The upper bounds of the latency histogram's buckets, in milliseconds:
/// never empty, and each larger than the one before.
pub fn latency_bounds_ms() -> (bounds: Vec<u64>)
    ensures
        bounds@ == latency_bounds(),
        bounds@.len() == 11,
        forall|i: int, j: int| 0 <= i < j < bounds@.len() ==> bounds@[i] < bounds@[j],
{
    let bounds: Vec<u64> = vec![5, 10, 25, 50, 100, 250, 500, 1000, 2500, 5000, 10000];
    assert(bounds@ =~= latency_bounds());
    bounds
}

impl RequestObservation {
    /// What is recorded of a request: `matched` is the pattern of the route
    /// it matched, if it matched one, and `raw_path` the path it asked for.
    pub fn new(
        method: &str,
        matched: Option<&str>,
        raw_path: &str,
        status: u16,
        latency_nanos: u64,
    ) -> (seen: RequestObservation)
        ensures
            seen.method@ == method@,
            seen.path@ == recorded_path(
                match matched {
                    Some(p) => Some(p@),
                    None => None,
                },
                raw_path@,
            ),
            seen.status == status,
            seen.latency_nanos == latency_nanos,
    {
        let path: String = match matched {
            Some(pattern) => pattern.to_owned(),
            None => raw_path.to_owned(),
        };
        RequestObservation { method: method.to_owned(), path, status, latency_nanos }
    }

    /// The values of the labels under which this request is counted and its
    /// latency recorded.
    pub fn labels(&self) -> (labels: Labels)
        ensures
            labels.method@ == self.method@,
            labels.path@ == self.path@,
            labels.status@ == decimal_text(self.status as nat),
    {
        Labels {
            method: self.method.clone(),
            path: self.path.clone(),
            status: decimal_string(self.status as u64),
        }
    }
}

} // verus!
