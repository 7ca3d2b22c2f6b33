//! From a resolved target to a response.
//!
//! A found file is sent with status 200. Where nothing was found the
//! not-found page is sent in its place, with status 404. A file that cannot
//! be read, the not-found page included, is an I/O error, which the client
//! sees as status 500. A request that outlives its timeout is cut short with
//! status 408.

use crate::config::SiteConfig;
use crate::error::{Error, ErrorView};
use crate::path::{join, join_path};
use crate::resolve::{is_root, resolve, resolve_spec, ResolvedTarget, TargetView};
use crate::text::same_text;
use crate::tree::{EntryKind, FileTree};
use vstd::prelude::*;

verus! {

/// Status of a response that carries the file asked for.
pub const STATUS_OK: u16 = 200;

/// Status of a response that carries the not-found page.
pub const STATUS_NOT_FOUND: u16 = 404;

/// Status of a response to a request that ran out of time.
pub const STATUS_TIMEOUT: u16 = 408;

/// Status of a response to a request that failed on an I/O error.
pub const STATUS_INTERNAL_ERROR: u16 = 500;

/// The route that a request path takes.
#[derive(Clone, Copy, Debug, PartialEq, Eq, Structural)]
pub enum Route {
    /// The route for `/` alone, which is tried first.
    RootDocument,
    /// The route for everything else.
    CatchAll,
}

/// Which file to send, and with which status.
#[derive(Clone, Debug, PartialEq, Eq)]
pub struct ServePlan {
    pub path: String,
    pub status: u16,
}

/// A response: its status and its body.
#[derive(Clone, Debug, PartialEq, Eq)]
pub struct Response {
    pub status: u16,
    pub body: Vec<u8>,
}

/// The route of `request_path`.
pub open spec fn route_of(request_path: Seq<char>) -> Route {
    if is_root(request_path) {
        Route::RootDocument
    } else {
        Route::CatchAll
    }
}

/// The pattern under which a route is known, if it has one. The catch-all
/// has none.
pub open spec fn pattern_of(route: Route) -> Option<Seq<char>> {
    match route {
        Route::RootDocument => Some(seq!['/']),
        Route::CatchAll => None,
    }
}

/// The file that is sent for `target`.
pub open spec fn plan_path(target: TargetView, root: Seq<char>, not_found_file: Seq<char>) -> Seq<
    char,
> {
    match target {
        TargetView::File(path) => path,
        TargetView::NotFound => join(root, not_found_file),
    }
}

/// The status with which the file for `target` is sent.
pub open spec fn plan_status(target: TargetView) -> u16 {
    match target {
        TargetView::File(_) => STATUS_OK,
        TargetView::NotFound => STATUS_NOT_FOUND,
    }
}

/// How the failure to read the file at `path` is described.
pub open spec fn unreadable(path: Seq<char>) -> Seq<char> {
    "cannot read "@ + path
}

/// What a request for `request_path` is answered with when the files are
/// those of `tree`: the status and the body, or the error.
pub open spec fn serve_spec(
    request_path: Seq<char>,
    root: Seq<char>,
    not_found_file: Seq<char>,
    tree: FileTree,
) -> Result<(u16, Seq<u8>), ErrorView> {
    let target = resolve_spec(request_path, root, tree.kinds());
    let path = plan_path(target, root, not_found_file);
    match tree.body_of(path) {
        Some(body) => Ok((plan_status(target), body)),
        None => Err(ErrorView::Io(unreadable(path))),
    }
}

/// A request that has run for `elapsed_nanos` nanoseconds has run for more
/// than `timeout_ms` milliseconds, and a timeout is set.
pub open spec fn overdue(elapsed_nanos: u64, timeout_ms: u64) -> bool {
    timeout_ms > 0 && elapsed_nanos as int > timeout_ms as int * 1_000_000
}

/// `outcome` is what `expected` describes: the same status and body, or the
/// same error.
pub open spec fn is_outcome(
    outcome: Result<Response, Error>,
    expected: Result<(u16, Seq<u8>), ErrorView>,
) -> bool {
    match outcome {
        Ok(response) => expected == Ok::<(u16, Seq<u8>), ErrorView>(
            (response.status, response.body@),
        ),
        Err(e) => expected == Err::<(u16, Seq<u8>), ErrorView>(e@),
    }
}

/// The status that a client sees.
pub open spec fn status_spec(outcome: Result<Response, Error>) -> u16 {
    match outcome {
        Ok(response) => response.status,
        Err(_) => STATUS_INTERNAL_ERROR,
    }
}

/// The route of `request_path`.
pub fn route_for(request_path: &str) -> (route: Route)
    ensures
        route == route_of(request_path@),
{
    proof {
        reveal_strlit("/");
        assert("/"@ =~= seq!['/']);
    }
    if same_text(request_path, "/") {
        Route::RootDocument
    } else {
        Route::CatchAll
    }
}

impl Route {
    /// The pattern under which this route is known, if it has one.
    pub fn pattern(&self) -> (pattern: Option<String>)
        ensures
            match pattern {
                Some(p) => pattern_of(*self) == Some(p@),
                None => pattern_of(*self).is_none(),
            },
    {
        proof {
            reveal_strlit("/");
            assert("/"@ =~= seq!['/']);
        }
        match self {
            Route::RootDocument => Some("/".to_owned()),
            Route::CatchAll => None,
        }
    }
}

impl ServePlan {
    /// The file to send for `target`, and the status to send it with.
    pub fn for_target(target: &ResolvedTarget, root_dir: &str, not_found_file: &str) -> (plan:
        ServePlan)
        ensures
            plan.path@ == plan_path(target@, root_dir@, not_found_file@),
            plan.status == plan_status(target@),
    {
        match target {
            ResolvedTarget::File(path) => ServePlan { path: path.clone(), status: STATUS_OK },
            ResolvedTarget::NotFound => ServePlan {
                path: join_path(root_dir, not_found_file),
                status: STATUS_NOT_FOUND,
            },
        }
    }

    /// The response, given what reading the planned file gave: its bytes, or
    /// a description of why it could not be read.
    pub fn complete(&self, read: Result<Vec<u8>, String>) -> (outcome: Result<Response, Error>)
        ensures
            match read {
                Ok(bytes) => outcome matches Ok(response) && response.status == self.status
                    && response.body@ == bytes@,
                Err(why) => outcome matches Err(e) && e@ == ErrorView::Io(why@),
            },
    {
        match read {
            Ok(bytes) => Ok(Response { status: self.status, body: bytes }),
            Err(why) => Err(Error::Io(why)),
        }
    }
}

/// The status that a client sees: that of the response, or 500 where the
/// request failed.
pub fn status_of(outcome: &Result<Response, Error>) -> (status: u16)
    ensures
        status == status_spec(*outcome),
{
    match outcome {
        Ok(response) => response.status,
        Err(_) => STATUS_INTERNAL_ERROR,
    }
}

/// Whether a request that has run for `elapsed_nanos` nanoseconds has
/// outlived a timeout of `timeout_ms` milliseconds; a timeout of 0 is none.
pub fn timed_out(elapsed_nanos: u64, timeout_ms: u64) -> (over: bool)
    ensures
        over == overdue(elapsed_nanos, timeout_ms),
{
    timeout_ms > 0 && elapsed_nanos / 1_000_000 >= timeout_ms && (elapsed_nanos / 1_000_000
        > timeout_ms || elapsed_nanos % 1_000_000 > 0)
}

/// The response to a request that took `elapsed_nanos` nanoseconds under a
/// timeout of `timeout_ms` milliseconds: what the request came to, unless
/// it ran out of time, in which case an empty response with status 408.
///
/// Only this request's own time counts: what other requests do at the same
/// time has no part in it.
pub fn within_timeout(outcome: Result<Response, Error>, elapsed_nanos: u64, timeout_ms: u64) -> (seen:
    Result<Response, Error>)
    ensures
        overdue(elapsed_nanos, timeout_ms) ==> (seen matches Ok(response) && response.status
            == STATUS_TIMEOUT && response.body@.len() == 0),
        !overdue(elapsed_nanos, timeout_ms) ==> seen == outcome,
{
    if timed_out(elapsed_nanos, timeout_ms) {
        Ok(Response { status: STATUS_TIMEOUT, body: Vec::new() })
    } else {
        outcome
    }
}

/// Answers a request for `request_path` from the snapshot `tree`.
pub fn serve(request_path: &str, site: &SiteConfig, tree: &FileTree) -> (outcome: Result<
    Response,
    Error,
>)
    ensures
        is_outcome(
            outcome,
            serve_spec(request_path@, site.root_dir@, site.not_found_file@, *tree),
        ),
{
    let target: ResolvedTarget = resolve(request_path, site.root_dir.as_str(), tree);
    let plan: ServePlan = ServePlan::for_target(
        &target,
        site.root_dir.as_str(),
        site.not_found_file.as_str(),
    );
    let read: Result<Vec<u8>, String> = match tree.read(plan.path.as_str()) {
        Some(bytes) => Ok(bytes),
        None => {
            let mut why: String = "cannot read ".to_owned();
            why.append(plan.path.as_str());
            Err(why)
        },
    };
    plan.complete(read)
}

/// A request path other than `/`, free of `..`, that names a regular file
/// gets that file's content with status 200.
pub proof fn lemma_file_is_served(
    request_path: Seq<char>,
    root: Seq<char>,
    not_found_file: Seq<char>,
    tree: FileTree,
)
    requires
        !is_root(request_path),
        !crate::path::climbs(request_path),
        tree.kind_of(crate::path::candidate(root, request_path).unwrap()) == EntryKind::File,
    ensures
        serve_spec(request_path, root, not_found_file, tree) == Ok::<(u16, Seq<u8>), ErrorView>(
            (
                STATUS_OK,
                tree.body_of(crate::path::candidate(root, request_path).unwrap()).unwrap(),
            ),
        ),
{
}

/// A request that nothing answers gets the not-found page's content with
/// status 404, provided that page is a file of the tree.
pub proof fn lemma_missing_gets_not_found_page(
    request_path: Seq<char>,
    root: Seq<char>,
    not_found_file: Seq<char>,
    tree: FileTree,
)
    requires
        resolve_spec(request_path, root, tree.kinds()) == TargetView::NotFound,
        tree.kind_of(join(root, not_found_file)) == EntryKind::File,
    ensures
        serve_spec(request_path, root, not_found_file, tree) == Ok::<(u16, Seq<u8>), ErrorView>(
            (STATUS_NOT_FOUND, tree.body_of(join(root, not_found_file)).unwrap()),
        ),
{
}

/// Where the file to send is no file of the tree, the request fails with an
/// I/O error: a missing not-found page is never passed over in silence, and
/// a missing root document is not replaced by the not-found page.
pub proof fn lemma_unreadable_is_an_error(
    request_path: Seq<char>,
    root: Seq<char>,
    not_found_file: Seq<char>,
    tree: FileTree,
)
    requires
        tree.kind_of(
            plan_path(resolve_spec(request_path, root, tree.kinds()), root, not_found_file),
        ) != EntryKind::File,
    ensures
        serve_spec(request_path, root, not_found_file, tree) is Err,
{
}

} // verus!
