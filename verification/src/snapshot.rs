//! What the caller found on disk, as plain values.
//!
//! The library never touches the file system. The caller looks up the
//! paths a decision depends on and records what it saw; every decision is
//! then a function of that record.

use vstd::prelude::*;
use crate::paths::{Platform, plain_form, plain_path};

verus! {

/// What stands at a path.
#[derive(Clone, Copy, Debug, PartialEq, Eq, Structural)]
pub enum EntryKind {
    Missing,
    File,
    Directory,
}

/// What was seen at one path: its kind and its canonical, absolute form.
pub struct Fact {
    pub kind: EntryKind,
    pub canonical: Seq<char>,
}

/// The mathematical content of a snapshot.
pub struct FsView {
    pub platform: Platform,
    pub facts: Map<Seq<char>, Fact>,
}

impl FsView {
    /// What stands at `path`; a path that was never recorded is missing.
    pub open spec fn kind_at(self, path: Seq<char>) -> EntryKind {
        if self.facts.dom().contains(path) {
            self.facts[path].kind
        } else {
            EntryKind::Missing
        }
    }

    /// Whether anything stands at `path`.
    pub open spec fn is_present(self, path: Seq<char>) -> bool {
        self.kind_at(path) != EntryKind::Missing
    }

    /// Whether a directory stands at `path`.
    pub open spec fn is_dir(self, path: Seq<char>) -> bool {
        self.kind_at(path) == EntryKind::Directory
    }

    /// The absolute form of `path` as the tool keeps it, where `path` exists.
    pub open spec fn full_path(self, path: Seq<char>) -> Option<Seq<char>> {
        if self.is_present(path) {
            Some(plain_form(self.platform, self.facts[path].canonical))
        } else {
            None
        }
    }
}

/// One recorded observation.
#[derive(Clone, Debug, PartialEq, Eq)]
pub struct FsEntry {
    pub path: String,
    pub kind: EntryKind,
    pub canonical: String,
}

impl FsEntry {
    /// What the observation says of its path.
    pub open spec fn fact(self) -> Fact {
        Fact { kind: self.kind, canonical: self.canonical@ }
    }
}

/// The facts that a list of observations amounts to: a later observation
/// of a path replaces an earlier one.
pub open spec fn facts_of(entries: Seq<FsEntry>) -> Map<Seq<char>, Fact>
    decreases entries.len(),
{
    if entries.len() == 0 {
        Map::empty()
    } else {
        facts_of(entries.drop_last()).insert(entries.last().path@, entries.last().fact())
    }
}

/// A record of what the caller saw on disk.
#[derive(Clone, Debug, PartialEq, Eq)]
pub struct FsSnapshot {
    pub platform: Platform,
    pub entries: Vec<FsEntry>,
}

impl View for FsSnapshot {
    type V = FsView;

    open spec fn view(&self) -> FsView {
        FsView { platform: self.platform, facts: facts_of(self.entries@) }
    }
}

impl FsSnapshot {
    /// A snapshot in which every path is missing.
    pub fn new(platform: Platform) -> (r: Self)
        ensures
            r@.platform == platform,
            r@.facts == Map::<Seq<char>, Fact>::empty(),
    {
        FsSnapshot { platform, entries: Vec::new() }
    }

    /// Records what stands at `path`, in place of what was recorded of it
    /// before; every other path keeps its fact.
    pub fn record(&mut self, path: &str, kind: EntryKind, canonical: &str)
        ensures
            final(self)@.platform == old(self)@.platform,
            final(self)@.facts == old(self)@.facts.insert(
                path@,
                Fact { kind, canonical: canonical@ },
            ),
    {
        let entry = FsEntry {
            path: String::from_str(path),
            kind,
            canonical: String::from_str(canonical),
        };
        self.entries.push(entry);
        assert(self.entries@.drop_last() =~= old(self).entries@);
    }

    fn find(&self, path: &str) -> (r: Option<usize>)
        ensures
            match r {
                Some(i) => i < self.entries.len() && self@.facts.dom().contains(path@)
                    && self@.facts[path@] == self.entries[i as int].fact(),
                None => !self@.facts.dom().contains(path@),
            },
    {
        let key = String::from_str(path);
        let mut found: Option<usize> = None;
        let mut i: usize = 0;
        while i < self.entries.len()
            invariant
                key@ == path@,
                i <= self.entries.len(),
                match found {
                    Some(k) => k < i && facts_of(self.entries@.take(i as int)).dom().contains(
                        path@,
                    ) && facts_of(self.entries@.take(i as int))[path@]
                        == self.entries[k as int].fact(),
                    None => !facts_of(self.entries@.take(i as int)).dom().contains(path@),
                },
            decreases self.entries.len() - i,
        {
            assert(self.entries@.take(i + 1).drop_last() =~= self.entries@.take(i as int));
            if self.entries[i].path == key {
                found = Some(i);
            }
            i = i + 1;
        }
        assert(self.entries@.take(i as int) =~= self.entries@);
        found
    }

    /// What stands at `path`.
    pub fn kind_of(&self, path: &str) -> (r: EntryKind)
        ensures
            r == self@.kind_at(path@),
    {
        match self.find(path) {
            Some(i) => self.entries[i].kind,
            None => EntryKind::Missing,
        }
    }

    /// Whether anything stands at `path`.
    pub fn is_present(&self, path: &str) -> (r: bool)
        ensures
            r == self@.is_present(path@),
    {
        match self.kind_of(path) {
            EntryKind::Missing => false,
            _ => true,
        }
    }

    /// Whether a directory stands at `path`.
    pub fn is_dir(&self, path: &str) -> (r: bool)
        ensures
            r == self@.is_dir(path@),
    {
        match self.kind_of(path) {
            EntryKind::Directory => true,
            _ => false,
        }
    }
}

/// The absolute form of `relative_path` as the tool keeps it; `None`
/// where nothing stands at that path, which has no absolute form.
pub fn relative_to_full_path(fs: &FsSnapshot, relative_path: &str) -> (r: Option<String>)
    ensures
        match r {
            Some(p) => fs@.full_path(relative_path@) == Some(p@),
            None => fs@.full_path(relative_path@).is_none(),
        },
{
    match fs.find(relative_path) {
        Some(i) => {
            match fs.entries[i].kind {
                EntryKind::Missing => None,
                _ => Some(plain_path(fs.platform, fs.entries[i].canonical.as_str())),
            }
        },
        None => None,
    }
}

} // verus!
