//! One request from arrival to response, with everything that stands
//! around the routes.
//!
//! From the outside in: the timeout, the recording of what happened, the
//! routes. So a request that is cut short is answered with the timeout's
//! status and is not recorded, and every other request is recorded
//! whichever route it took.

use crate::config::SiteConfig;
use crate::error::Error;
use crate::observe::{recorded_path, RequestObservation};
use crate::respond::{
    is_outcome, overdue, pattern_of, route_for, route_of, serve, serve_spec, status_of,
    status_spec, timed_out, Response, Route, STATUS_TIMEOUT,
};
use crate::tree::FileTree;
use vstd::prelude::*;

verus! {

/// What came of a request.
#[derive(Debug, PartialEq, Eq)]
pub struct Handled {
    /// What the client gets.
    pub outcome: Result<Response, Error>,
    /// What is recorded, if anything is.
    pub observed: Option<RequestObservation>,
}

/// `seen` is the record of a request by `method` for `request_path` that
/// took `elapsed_nanos` nanoseconds and was answered with `status`.
pub open spec fn is_record(
    seen: RequestObservation,
    method: Seq<char>,
    request_path: Seq<char>,
    status: u16,
    elapsed_nanos: u64,
) -> bool {
    &&& seen.method@ == method
    &&& seen.path@ == recorded_path(pattern_of(route_of(request_path)), request_path)
    &&& seen.status == status
    &&& seen.latency_nanos == elapsed_nanos
}

/// Answers a request by `method` for `request_path` from the snapshot
/// `tree`, given that answering took `elapsed_nanos` nanoseconds.
///
/// The record never changes the response: with and without recording the
/// client gets the same.
pub fn handle(
    method: &str,
    request_path: &str,
    site: &SiteConfig,
    tree: &FileTree,
    instrumented: bool,
    elapsed_nanos: u64,
) -> (handled: Handled)
    ensures
        overdue(elapsed_nanos, site.timeout_ms) ==> {
            &&& handled.outcome matches Ok(response)
            &&& response.status == STATUS_TIMEOUT
            &&& response.body@.len() == 0
            &&& handled.observed.is_none()
        },
        !overdue(elapsed_nanos, site.timeout_ms) ==> {
            &&& is_outcome(
                handled.outcome,
                serve_spec(request_path@, site.root_dir@, site.not_found_file@, *tree),
            )
            &&& instrumented ==> (handled.observed matches Some(seen) && is_record(
                seen,
                method@,
                request_path@,
                status_spec(handled.outcome),
                elapsed_nanos,
            ))
            &&& !instrumented ==> handled.observed.is_none()
        },
{
    if timed_out(elapsed_nanos, site.timeout_ms) {
        return Handled {
            outcome: Ok(Response { status: STATUS_TIMEOUT, body: Vec::new() }),
            observed: None,
        };
    }
    let outcome: Result<Response, Error> = serve(request_path, site, tree);
    let observed: Option<RequestObservation> = if instrumented {
        let route: Route = route_for(request_path);
        let status: u16 = status_of(&outcome);
        let seen: RequestObservation = match route.pattern() {
            Some(pattern) => RequestObservation::new(
                method,
                Some(pattern.as_str()),
                request_path,
                status,
                elapsed_nanos,
            ),
            None => RequestObservation::new(method, None, request_path, status, elapsed_nanos),
        };
        Some(seen)
    } else {
        None
    };
    Handled { outcome, observed }
}

} // verus!
