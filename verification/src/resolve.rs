//! Which file answers a request path.
//!
//! The rules, first match wins:
//!
//! 1. `/` is answered by the root directory's index document, whatever the
//!    file system holds.
//! 2. A path with a `..` segment is answered by nothing.
//! 3. A path that names a regular file below the root is answered by it.
//! 4. A path that names a directory is answered by the index document in
//!    that directory, if that is a regular file.
//! 5. Anything else is answered by nothing.
//!
//! Looking at the file system is not done here. [`Resolver`] says which path
//! it needs to know about next and takes the answer; [`resolve`] runs it
//! against a snapshot.

use crate::path::{
    candidate, candidate_path, is_plain, join, join_path, lemma_candidate_within,
    lemma_within_join, within, climbs, INDEX_FILE,
};
use crate::text::same_text;
use crate::tree::{EntryKind, FileTree};
use vstd::prelude::*;

verus! {

/// What answers a request.
#[derive(Clone, Debug, PartialEq, Eq)]
pub enum ResolvedTarget {
    /// The file at this path.
    File(String),
    /// Nothing: the not-found page stands in.
    NotFound,
}

/// A [`ResolvedTarget`] with its path as a sequence of characters.
pub enum TargetView {
    File(Seq<char>),
    NotFound,
}

impl View for ResolvedTarget {
    type V = TargetView;

    open spec fn view(&self) -> TargetView {
        match *self {
            ResolvedTarget::File(path) => TargetView::File(path@),
            ResolvedTarget::NotFound => TargetView::NotFound,
        }
    }
}

/// A resolution in progress.
#[derive(Clone, Debug, PartialEq, Eq)]
pub enum Resolver {
    /// Needs to know what the path that the request names is.
    Candidate(String),
    /// The request names a directory; needs to know what its index document is.
    Index(String),
    /// Done.
    Finished(ResolvedTarget),
}

/// A [`Resolver`] with its paths as sequences of characters.
pub enum ResolverView {
    Candidate(Seq<char>),
    Index(Seq<char>),
    Finished(TargetView),
}

impl View for Resolver {
    type V = ResolverView;

    open spec fn view(&self) -> ResolverView {
        match *self {
            Resolver::Candidate(path) => ResolverView::Candidate(path@),
            Resolver::Index(path) => ResolverView::Index(path@),
            Resolver::Finished(target) => ResolverView::Finished(target@),
        }
    }
}

/// The request path that asks for the root document.
pub open spec fn is_root(request_path: Seq<char>) -> bool {
    request_path == seq!['/']
}

/// What answers `request_path` below `root` on the file system `fs`.
pub open spec fn resolve_spec(
    request_path: Seq<char>,
    root: Seq<char>,
    fs: spec_fn(Seq<char>) -> EntryKind,
) -> TargetView {
    if is_root(request_path) {
        TargetView::File(join(root, INDEX_FILE@))
    } else {
        match candidate(root, request_path) {
            None => TargetView::NotFound,
            Some(path) => match fs(path) {
                EntryKind::File => TargetView::File(path),
                EntryKind::Directory => if fs(join(path, INDEX_FILE@)) == EntryKind::File {
                    TargetView::File(join(path, INDEX_FILE@))
                } else {
                    TargetView::NotFound
                },
                EntryKind::Absent => TargetView::NotFound,
            },
        }
    }
}

/// Where a resolution starts.
pub open spec fn start_of(request_path: Seq<char>, root: Seq<char>) -> ResolverView {
    if is_root(request_path) {
        ResolverView::Finished(TargetView::File(join(root, INDEX_FILE@)))
    } else {
        match candidate(root, request_path) {
            None => ResolverView::Finished(TargetView::NotFound),
            Some(path) => ResolverView::Candidate(path),
        }
    }
}

/// The path that a resolution needs to know about next.
pub open spec fn pending_of(state: ResolverView) -> Option<Seq<char>> {
    match state {
        ResolverView::Candidate(path) => Some(path),
        ResolverView::Index(path) => Some(path),
        ResolverView::Finished(_) => None,
    }
}

/// Where a resolution goes when the pending path turns out to be `kind`.
pub open spec fn answer_of(state: ResolverView, kind: EntryKind) -> ResolverView {
    match state {
        ResolverView::Candidate(path) => match kind {
            EntryKind::File => ResolverView::Finished(TargetView::File(path)),
            EntryKind::Directory => ResolverView::Index(join(path, INDEX_FILE@)),
            EntryKind::Absent => ResolverView::Finished(TargetView::NotFound),
        },
        ResolverView::Index(path) => if kind == EntryKind::File {
            ResolverView::Finished(TargetView::File(path))
        } else {
            ResolverView::Finished(TargetView::NotFound)
        },
        ResolverView::Finished(target) => ResolverView::Finished(target),
    }
}

/// One step of a resolution against `fs`: the pending path is looked up and
/// the answer given.
pub open spec fn advance_of(
    state: ResolverView,
    fs: spec_fn(Seq<char>) -> EntryKind,
) -> ResolverView {
    match pending_of(state) {
        Some(path) => answer_of(state, fs(path)),
        None => state,
    }
}

impl Resolver {
    /// Starts resolving `request_path` below `root_dir`.
    pub fn start(request_path: &str, root_dir: &str) -> (state: Resolver)
        ensures
            state@ == start_of(request_path@, root_dir@),
    {
        proof {
            reveal_strlit("/");
            assert("/"@ =~= seq!['/']);
        }
        if same_text(request_path, "/") {
            Resolver::Finished(ResolvedTarget::File(join_path(root_dir, INDEX_FILE)))
        } else {
            match candidate_path(root_dir, request_path) {
                None => Resolver::Finished(ResolvedTarget::NotFound),
                Some(path) => Resolver::Candidate(path),
            }
        }
    }

    /// The path whose kind must be looked up next, or `None` when done.
    pub fn pending(&self) -> (path: Option<&str>)
        ensures
            match path {
                Some(p) => pending_of(self@) == Some(p@),
                None => pending_of(self@).is_none(),
            },
    {
        match self {
            Resolver::Candidate(path) => Some(path.as_str()),
            Resolver::Index(path) => Some(path.as_str()),
            Resolver::Finished(_) => None,
        }
    }

    /// Takes the kind of the pending path and moves on.
    pub fn answer(self, kind: EntryKind) -> (next: Resolver)
        ensures
            next@ == answer_of(self@, kind),
    {
        match self {
            Resolver::Candidate(path) => match kind {
                EntryKind::File => Resolver::Finished(ResolvedTarget::File(path)),
                EntryKind::Directory => Resolver::Index(join_path(path.as_str(), INDEX_FILE)),
                EntryKind::Absent => Resolver::Finished(ResolvedTarget::NotFound),
            },
            Resolver::Index(path) => match kind {
                EntryKind::File => Resolver::Finished(ResolvedTarget::File(path)),
                _ => Resolver::Finished(ResolvedTarget::NotFound),
            },
            Resolver::Finished(target) => Resolver::Finished(target),
        }
    }

    /// The target, once the resolution is done.
    pub fn target(self) -> (target: Option<ResolvedTarget>)
        ensures
            match target {
                Some(t) => self@ == ResolverView::Finished(t@),
                None => !(self@ is Finished),
            },
    {
        match self {
            Resolver::Finished(target) => Some(target),
            _ => None,
        }
    }

    /// Looks the pending path up in `tree` and takes the answer.
    pub fn advance(self, tree: &FileTree) -> (next: Resolver)
        ensures
            next@ == advance_of(self@, tree.kinds()),
    {
        let kind: Option<EntryKind> = match self.pending() {
            Some(path) => Some(tree.kind(path)),
            None => None,
        };
        match kind {
            Some(kind) => self.answer(kind),
            None => self,
        }
    }
}

/// Two look-ups always finish a resolution, with the target that the rules
/// name.
pub proof fn lemma_two_steps_resolve(
    request_path: Seq<char>,
    root: Seq<char>,
    fs: spec_fn(Seq<char>) -> EntryKind,
)
    ensures
        advance_of(advance_of(start_of(request_path, root), fs), fs) == ResolverView::Finished(
            resolve_spec(request_path, root, fs),
        ),
{
}

/// What answers `request_path` below `root_dir` in the snapshot `tree`.
pub fn resolve(request_path: &str, root_dir: &str, tree: &FileTree) -> (target: ResolvedTarget)
    ensures
        target@ == resolve_spec(request_path@, root_dir@, tree.kinds()),
{
    proof {
        lemma_two_steps_resolve(request_path@, root_dir@, tree.kinds());
    }
    let state: Resolver = Resolver::start(request_path, root_dir).advance(tree).advance(tree);
    match state {
        Resolver::Finished(target) => target,
        _ => ResolvedTarget::NotFound,
    }
}

/// The index document's name is a plain name.
pub proof fn lemma_index_is_plain()
    ensures
        is_plain(INDEX_FILE@),
{
    reveal_strlit("index.html");
    let name = INDEX_FILE@;
    assert(name.len() == 10);
    assert(name[0] == 'i');
    assert(!name.contains('/')) by {
        if name.contains('/') {
            let k = choose|k: int| 0 <= k < name.len() && name[k] == '/';
            assert(name[k] != '/');
        }
    }
}

/// The root document is served for `/` whatever the file system holds, also
/// where the root directory has no index document or is no directory.
pub proof fn lemma_root_document(root: Seq<char>, fs: spec_fn(Seq<char>) -> EntryKind)
    ensures
        resolve_spec(seq!['/'], root, fs) == TargetView::File(join(root, INDEX_FILE@)),
{
}

/// A request path other than `/`, free of `..`, that names a regular file is
/// answered by that file.
pub proof fn lemma_existing_file(
    request_path: Seq<char>,
    root: Seq<char>,
    fs: spec_fn(Seq<char>) -> EntryKind,
)
    requires
        !is_root(request_path),
        !climbs(request_path),
        fs(candidate(root, request_path).unwrap()) == EntryKind::File,
    ensures
        resolve_spec(request_path, root, fs) == TargetView::File(
            candidate(root, request_path).unwrap(),
        ),
{
}

/// A request path that names a directory holding an index document is
/// answered by that document.
pub proof fn lemma_directory_index(
    request_path: Seq<char>,
    root: Seq<char>,
    fs: spec_fn(Seq<char>) -> EntryKind,
)
    requires
        !is_root(request_path),
        !climbs(request_path),
        fs(candidate(root, request_path).unwrap()) == EntryKind::Directory,
        fs(join(candidate(root, request_path).unwrap(), INDEX_FILE@)) == EntryKind::File,
    ensures
        resolve_spec(request_path, root, fs) == TargetView::File(
            join(candidate(root, request_path).unwrap(), INDEX_FILE@),
        ),
{
}

/// A request path that names neither a file nor a directory with an index
/// document is answered by nothing.
pub proof fn lemma_no_match(
    request_path: Seq<char>,
    root: Seq<char>,
    fs: spec_fn(Seq<char>) -> EntryKind,
)
    requires
        !is_root(request_path),
        !climbs(request_path),
        fs(candidate(root, request_path).unwrap()) != EntryKind::File,
        fs(candidate(root, request_path).unwrap()) == EntryKind::Directory ==> fs(
            join(candidate(root, request_path).unwrap(), INDEX_FILE@),
        ) != EntryKind::File,
    ensures
        resolve_spec(request_path, root, fs) == TargetView::NotFound,
{
}

/// A request path with a `..` segment is answered by nothing, and whatever
/// answers a request lies within the root.
pub proof fn lemma_never_outside_root(
    request_path: Seq<char>,
    root: Seq<char>,
    fs: spec_fn(Seq<char>) -> EntryKind,
)
    ensures
        climbs(request_path) ==> resolve_spec(request_path, root, fs) == TargetView::NotFound,
        resolve_spec(request_path, root, fs) matches TargetView::File(path) ==> within(root, path),
{
    lemma_index_is_plain();
    lemma_candidate_within(root, request_path);
    if is_root(request_path) {
        let none = Seq::<Seq<char>>::empty();
        assert(crate::path::descend(root, none) == root);
        assert(within(root, root));
        lemma_within_join(root, root, INDEX_FILE@);
        assert(crate::path::segments(request_path.skip(1)) =~= none);
        assert(crate::path::segments(request_path) =~= none);
    } else if !climbs(request_path) {
        let path = candidate(root, request_path).unwrap();
        lemma_within_join(root, path, INDEX_FILE@);
    }
}

/// Resolving depends on the file system only through the kinds of the paths
/// it looks at: on file systems that agree everywhere, the same request gets
/// the same answer.
pub proof fn lemma_same_tree_same_target(
    request_path: Seq<char>,
    root: Seq<char>,
    first: spec_fn(Seq<char>) -> EntryKind,
    second: spec_fn(Seq<char>) -> EntryKind,
)
    requires
        forall|path: Seq<char>| #[trigger] first(path) == second(path),
    ensures
        resolve_spec(request_path, root, first) == resolve_spec(request_path, root, second),
{
}

} // verus!
