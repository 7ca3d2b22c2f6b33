//! A snapshot of a directory tree, held in memory.
//!
//! The snapshot answers the two questions that serving needs: what kind of
//! entry a path names, and what a file holds. A later entry for a path
//! overrides an earlier one.

use crate::text::same_text;
use vstd::prelude::*;

verus! {

/// What a path names on the file system.
#[derive(Clone, Copy, Debug, PartialEq, Eq, Structural)]
pub enum EntryKind {
    /// A regular file.
    File,
    /// A directory.
    Directory,
    /// Nothing, or something that is neither a regular file nor a directory.
    Absent,
}

/// One entry of a snapshot.
#[derive(Clone, Debug, PartialEq, Eq)]
pub struct TreeEntry {
    pub path: String,
    pub kind: EntryKind,
    /// What the file holds; empty for anything but a file.
    pub body: Vec<u8>,
}

/// A snapshot of a directory tree.
#[derive(Clone, Debug, PartialEq, Eq)]
pub struct FileTree {
    pub entries: Vec<TreeEntry>,
}

/// The position of the entry that speaks for `path`: the last one that
/// carries it, or -1 where none does.
pub open spec fn position_of(entries: Seq<TreeEntry>, path: Seq<char>) -> int
    decreases entries.len(),
{
    if entries.len() == 0 {
        -1
    } else if entries.last().path@ == path {
        entries.len() - 1
    } else {
        position_of(entries.drop_last(), path)
    }
}

/// The position found is that of an entry for the path, and no later entry
/// carries the path.
pub proof fn lemma_position_of(entries: Seq<TreeEntry>, path: Seq<char>)
    ensures
        -1 <= position_of(entries, path) < entries.len(),
        position_of(entries, path) >= 0 ==> entries[position_of(entries, path)].path@ == path,
        forall|k: int|
            position_of(entries, path) < k < entries.len() ==> (#[trigger] entries[k]).path@
                != path,
    decreases entries.len(),
{
    if entries.len() > 0 && entries.last().path@ != path {
        let front = entries.drop_last();
        lemma_position_of(front, path);
        assert forall|k: int| position_of(entries, path) < k < entries.len() implies (
        #[trigger] entries[k]).path@ != path by {
            if k < front.len() {
                assert(entries[k] == front[k]);
            }
        }
    }
}

/// A new entry leaves the answer for every other path as it was.
pub proof fn lemma_push_keeps_others(entries: Seq<TreeEntry>, entry: TreeEntry, other: Seq<char>)
    requires
        entry.path@ != other,
    ensures
        position_of(entries.push(entry), other) == position_of(entries, other),
        position_of(entries, other) >= 0 ==> entries.push(entry)[position_of(entries, other)]
            == entries[position_of(entries, other)],
{
    assert(entries.push(entry).drop_last() =~= entries);
    lemma_position_of(entries, other);
}

impl FileTree {
    /// What `path` names in the snapshot.
    pub open spec fn kind_of(&self, path: Seq<char>) -> EntryKind {
        let at = position_of(self.entries@, path);
        if at >= 0 {
            self.entries@[at].kind
        } else {
            EntryKind::Absent
        }
    }

    /// What the file at `path` holds, where `path` names a file.
    pub open spec fn body_of(&self, path: Seq<char>) -> Option<Seq<u8>> {
        let at = position_of(self.entries@, path);
        if at >= 0 && self.entries@[at].kind == EntryKind::File {
            Some(self.entries@[at].body@)
        } else {
            None
        }
    }

    /// The snapshot as a function from paths to kinds.
    pub open spec fn kinds(&self) -> spec_fn(Seq<char>) -> EntryKind {
        |path: Seq<char>| self.kind_of(path)
    }

    /// A snapshot that holds nothing.
    pub fn new() -> (tree: FileTree)
        ensures
            tree.entries@.len() == 0,
            forall|path: Seq<char>| tree.kind_of(path) == EntryKind::Absent,
            forall|path: Seq<char>| tree.body_of(path).is_none(),
    {
        FileTree { entries: Vec::new() }
    }

    /// Records that `path` is a file that holds `body`.
    pub fn add_file(&mut self, path: &str, body: Vec<u8>)
        ensures
            final(self).kind_of(path@) == EntryKind::File,
            final(self).body_of(path@) == Some(body@),
            forall|other: Seq<char>|
                other != path@ ==> final(self).kind_of(other) == old(self).kind_of(other)
                    && final(self).body_of(other) == old(self).body_of(other),
    {
        let ghost before = self.entries@;
        let entry = TreeEntry { path: path.to_owned(), kind: EntryKind::File, body };
        let ghost added = entry;
        self.entries.push(entry);
        assert(self.entries@.drop_last() =~= before);
        assert forall|other: Seq<char>| other != path@ implies self.kind_of(other) == old(
            self,
        ).kind_of(other) && self.body_of(other) == old(self).body_of(other) by {
            lemma_push_keeps_others(before, added, other);
        }
    }

    /// Records that `path` is a directory.
    pub fn add_directory(&mut self, path: &str)
        ensures
            final(self).kind_of(path@) == EntryKind::Directory,
            final(self).body_of(path@).is_none(),
            forall|other: Seq<char>|
                other != path@ ==> final(self).kind_of(other) == old(self).kind_of(other)
                    && final(self).body_of(other) == old(self).body_of(other),
    {
        let ghost before = self.entries@;
        let entry = TreeEntry { path: path.to_owned(), kind: EntryKind::Directory, body: Vec::new() };
        let ghost added = entry;
        self.entries.push(entry);
        assert(self.entries@.drop_last() =~= before);
        assert forall|other: Seq<char>| other != path@ implies self.kind_of(other) == old(
            self,
        ).kind_of(other) && self.body_of(other) == old(self).body_of(other) by {
            lemma_push_keeps_others(before, added, other);
        }
    }

    /// The position of the entry that speaks for `path`, if there is one.
    fn find(&self, path: &str) -> (at: Option<usize>)
        ensures
            match at {
                Some(i) => i < self.entries@.len() && i as int == position_of(
                    self.entries@,
                    path@,
                ),
                None => position_of(self.entries@, path@) == -1,
            },
    {
        let mut i: usize = self.entries.len();
        proof {
            lemma_position_of(self.entries@, path@);
        }
        while i > 0
            invariant
                i <= self.entries@.len(),
                position_of(self.entries@, path@) < i,
            decreases i,
        {
            i = i - 1;
            proof {
                lemma_position_of(self.entries@, path@);
            }
            if same_text(self.entries[i].path.as_str(), path) {
                assert(self.entries@[i as int].path@ == path@);
                return Some(i);
            }
        }
        proof {
            lemma_position_of(self.entries@, path@);
        }
        None
    }

    /// What `path` names in the snapshot.
    pub fn kind(&self, path: &str) -> (kind: EntryKind)
        ensures
            kind == self.kind_of(path@),
    {
        match self.find(path) {
            Some(i) => self.entries[i].kind,
            None => EntryKind::Absent,
        }
    }

    /// What the file at `path` holds, or `None` where `path` names no file.
    pub fn read(&self, path: &str) -> (body: Option<Vec<u8>>)
        ensures
            match body {
                Some(bytes) => self.body_of(path@) == Some(bytes@),
                None => self.body_of(path@).is_none(),
            },
    {
        match self.find(path) {
            Some(i) => {
                match self.entries[i].kind {
                    EntryKind::File => Some(self.entries[i].body.clone()),
                    _ => None,
                }
            },
            None => None,
        }
    }
}

} // verus!
