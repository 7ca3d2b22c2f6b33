//! Request paths and the file-system paths they stand for.
//!
//! A request path is cut at every `/` into segments. Empty segments and `.`
//! are dropped, `..` is never followed, and what remains is appended to the
//! root directory one name at a time.

use vstd::prelude::*;

verus! {

/// Name of the document that answers for a directory.
pub const INDEX_FILE: &'static str = "index.html";

/// `base` with `name` adjoined.
///
/// An absolute `name` replaces `base`. Otherwise exactly one `/` separates
/// the two, unless `base` is empty or already ends in one.
pub open spec fn join(base: Seq<char>, name: Seq<char>) -> Seq<char> {
    if name.len() > 0 && name[0] == '/' {
        name
    } else if base.len() == 0 || base.last() == '/' {
        base + name
    } else {
        base + seq!['/'] + name
    }
}

/// The length of the leading run of `p` that holds no `/`.
pub open spec fn run_len(p: Seq<char>) -> int
    decreases p.len(),
{
    if p.len() == 0 || p[0] == '/' {
        0
    } else {
        1 + run_len(p.skip(1))
    }
}

/// The segments of `p`: its maximal runs free of `/`, left to right.
pub open spec fn segments(p: Seq<char>) -> Seq<Seq<char>>
    decreases p.len(),
{
    if p.len() == 0 {
        Seq::empty()
    } else if p[0] == '/' {
        segments(p.skip(1))
    } else {
        proof {
            lemma_run_len_bounds(p);
        }
        seq![p.take(run_len(p))] + segments(p.skip(run_len(p)))
    }
}

/// The segment `.`, which names the directory it stands in.
pub open spec fn is_current(segment: Seq<char>) -> bool {
    segment =~= seq!['.']
}

/// The segment `..`, which names the directory above.
pub open spec fn is_parent(segment: Seq<char>) -> bool {
    segment =~= seq!['.', '.']
}

/// A name that can be appended to a directory without leaving it: not
/// empty, free of `/`, and neither `.` nor `..`.
pub open spec fn is_plain(segment: Seq<char>) -> bool {
    &&& segment.len() > 0
    &&& !segment.contains('/')
    &&& !is_current(segment)
    &&& !is_parent(segment)
}

/// Some segment of `p` is `..`.
pub open spec fn climbs(p: Seq<char>) -> bool {
    exists|i: int| 0 <= i < segments(p).len() && is_parent(#[trigger] segments(p)[i])
}

/// `base` followed downwards through `names`, skipping every `.`.
pub open spec fn descend(base: Seq<char>, names: Seq<Seq<char>>) -> Seq<char>
    decreases names.len(),
{
    if names.len() == 0 {
        base
    } else if is_current(names.last()) {
        descend(base, names.drop_last())
    } else {
        join(descend(base, names.drop_last()), names.last())
    }
}

/// The file-system path that the request path `p` names below `root`, or
/// `None` where `p` tries to climb.
pub open spec fn candidate(root: Seq<char>, p: Seq<char>) -> Option<Seq<char>> {
    if climbs(p) {
        None
    } else {
        Some(descend(root, segments(p)))
    }
}

/// `path` lies below `root` by its spelling alone: it is `root` followed by
/// plain names.
pub open spec fn within(root: Seq<char>, path: Seq<char>) -> bool {
    exists|names: Seq<Seq<char>>| #[trigger]
        descend(root, names) == path && forall|i: int|
            0 <= i < names.len() ==> is_plain(#[trigger] names[i])
}

/// The leading run is never longer than the path, and is not empty where
/// the path starts with something other than `/`.
pub proof fn lemma_run_len_bounds(p: Seq<char>)
    ensures
        0 <= run_len(p) <= p.len(),
        p.len() > 0 && p[0] != '/' ==> run_len(p) >= 1,
        run_len(p) < p.len() ==> p[run_len(p)] == '/',
        forall|i: int| 0 <= i < run_len(p) ==> #[trigger] p[i] != '/',
    decreases p.len(),
{
    if p.len() == 0 || p[0] == '/' {
    } else {
        let rest = p.skip(1);
        lemma_run_len_bounds(rest);
        assert forall|i: int| 0 <= i < run_len(p) implies #[trigger] p[i] != '/' by {
            if i > 0 {
                assert(p[i] == rest[i - 1]);
            }
        }
        if run_len(p) < p.len() {
            assert(p[run_len(p)] == rest[run_len(rest)]);
        }
    }
}

/// Every segment is non-empty and free of `/`.
pub proof fn lemma_segments_are_names(p: Seq<char>)
    ensures
        forall|i: int|
            0 <= i < segments(p).len() ==> (#[trigger] segments(p)[i]).len() > 0
                && !segments(p)[i].contains('/'),
    decreases p.len(),
{
    if p.len() == 0 {
        assert(segments(p).len() == 0);
    } else if p[0] == '/' {
        lemma_segments_are_names(p.skip(1));
        assert(segments(p) == segments(p.skip(1)));
    } else {
        lemma_run_len_bounds(p);
        let n = run_len(p);
        lemma_segments_are_names(p.skip(n));
        let first = p.take(n);
        assert(!first.contains('/')) by {
            if first.contains('/') {
                let k = choose|k: int| 0 <= k < first.len() && first[k] == '/';
                assert(p[k] == '/');
            }
        }
        assert(segments(p) =~= seq![first] + segments(p.skip(n)));
        assert forall|i: int| 0 <= i < segments(p).len() implies (#[trigger] segments(p)[i]).len()
            > 0 && !segments(p)[i].contains('/') by {
            if i > 0 {
                assert(segments(p)[i] == segments(p.skip(n))[i - 1]);
            } else {
                assert(segments(p)[0] == first);
            }
        }
    }
}

/// Following names that are plain or `.` stays within the root.
pub proof fn lemma_descend_within(root: Seq<char>, names: Seq<Seq<char>>)
    requires
        forall|i: int|
            0 <= i < names.len() ==> is_plain(#[trigger] names[i]) || is_current(names[i]),
    ensures
        within(root, descend(root, names)),
    decreases names.len(),
{
    if names.len() == 0 {
        let none = Seq::<Seq<char>>::empty();
        assert(descend(root, none) == root);
    } else {
        let front = names.drop_last();
        lemma_descend_within(root, front);
        if !is_current(names.last()) {
            let kept = choose|kept: Seq<Seq<char>>| #[trigger]
                descend(root, kept) == descend(root, front) && forall|i: int|
                    0 <= i < kept.len() ==> is_plain(#[trigger] kept[i]);
            let more = kept.push(names.last());
            assert(more.drop_last() =~= kept);
            assert(is_plain(names[names.len() - 1]));
            assert(descend(root, more) == descend(root, names));
        }
    }
}

/// One more plain name keeps a path within the root.
pub proof fn lemma_within_join(root: Seq<char>, path: Seq<char>, name: Seq<char>)
    requires
        within(root, path),
        is_plain(name),
    ensures
        within(root, join(path, name)),
{
    let kept = choose|kept: Seq<Seq<char>>| #[trigger]
        descend(root, kept) == path && forall|i: int|
            0 <= i < kept.len() ==> is_plain(#[trigger] kept[i]);
    let more = kept.push(name);
    assert(more.drop_last() =~= kept);
    assert(descend(root, more) == join(path, name));
}

/// A request path that does not climb names a path within the root.
pub proof fn lemma_candidate_within(root: Seq<char>, p: Seq<char>)
    ensures
        candidate(root, p) matches Some(path) ==> within(root, path),
{
    if !climbs(p) {
        lemma_segments_are_names(p);
        lemma_descend_within(root, segments(p));
    }
}

/// Adjoins `name` to `base`.
pub fn join_path(base: &str, name: &str) -> (joined: String)
    ensures
        joined@ == join(base@, name@),
{
    let base_len: usize = base.unicode_len();
    let name_len: usize = name.unicode_len();
    if name_len > 0 && name.get_char(0) == '/' {
        return name.to_owned();
    }
    let mut joined: String = base.to_owned();
    if base_len > 0 && base.get_char(base_len - 1) != '/' {
        joined.append("/");
        proof {
            reveal_strlit("/");
            assert("/"@ =~= seq!['/']);
        }
    }
    joined.append(name);
    joined
}

/// The texts that `parts` hold, in order.
pub open spec fn names_of(parts: Seq<String>) -> Seq<Seq<char>> {
    Seq::new(parts.len(), |i: int| parts[i]@)
}

/// Cuts `path` into its segments.
pub fn split_segments(path: &str) -> (parts: Vec<String>)
    ensures
        names_of(parts@) == segments(path@),
{
    let len: usize = path.unicode_len();
    let mut parts: Vec<String> = Vec::new();
    let mut i: usize = 0;
    assert(path@.skip(0) =~= path@);
    while i < len
        invariant
            i <= len,
            len == path@.len(),
            segments(path@) =~= names_of(parts@) + segments(path@.skip(i as int)),
        decreases len - i,
    {
        let ghost rest = path@.skip(i as int);
        if path.get_char(i) == '/' {
            assert(rest.skip(1) =~= path@.skip(i + 1));
            i = i + 1;
        } else {
            let mut j: usize = i + 1;
            assert(rest.skip(1) =~= path@.skip(i + 1));
            while j < len && path.get_char(j) != '/'
                invariant
                    i < j <= len,
                    len == path@.len(),
                    rest == path@.skip(i as int),
                    run_len(rest) == (j - i) + run_len(path@.skip(j as int)),
                decreases len - j,
            {
                assert(path@.skip(j as int).skip(1) =~= path@.skip(j + 1));
                j = j + 1;
            }
            proof {
                lemma_run_len_bounds(rest);
                assert(run_len(path@.skip(j as int)) == 0);
                assert(rest.take(j - i) =~= path@.subrange(i as int, j as int));
                assert(rest.skip(j - i) =~= path@.skip(j as int));
            }
            let part: String = path.substring_char(i, j).to_owned();
            let ghost before = names_of(parts@);
            parts.push(part);
            assert(names_of(parts@) =~= before.push(part@));
            i = j;
        }
    }
    assert(segments(path@.skip(len as int)) =~= Seq::<Seq<char>>::empty());
    parts
}

/// The path below `root` that `request_path` names, or `None` where one of
/// its segments is `..`.
pub fn candidate_path(root: &str, request_path: &str) -> (found: Option<String>)
    ensures
        match found {
            Some(path) => candidate(root@, request_path@) == Some(path@),
            None => candidate(root@, request_path@).is_none(),
        },
{
    let parts: Vec<String> = split_segments(request_path);
    let ghost names = segments(request_path@);
    let mut path: String = root.to_owned();
    let mut k: usize = 0;
    while k < parts.len()
        invariant
            k <= parts@.len(),
            names == segments(request_path@),
            names_of(parts@) == names,
            forall|i: int| 0 <= i < k ==> !is_parent(#[trigger] names[i]),
            path@ == descend(root@, names.take(k as int)),
        decreases parts@.len() - k,
    {
        assert(names_of(parts@).len() == parts@.len());
        let part: &str = parts[k].as_str();
        let part_len: usize = part.unicode_len();
        assert(part@ == names_of(parts@)[k as int]);
        assert(names.take(k + 1).drop_last() =~= names.take(k as int));
        if part_len == 2 && part.get_char(0) == '.' && part.get_char(1) == '.' {
            assert(is_parent(names[k as int]));
            return None;
        }
        if !(part_len == 1 && part.get_char(0) == '.') {
            path = join_path(path.as_str(), part);
        }
        k = k + 1;
    }
    assert(names.take(k as int) =~= names);
    Some(path)
}

} // verus!
