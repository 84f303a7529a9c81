//! The configuration store: per directory, what its configuration file held,
//! written once per directory and read afterwards.
use vstd::prelude::*;
use crate::policy::{words_view, PartialPolicy, PolicyFragment};

verus! {

/// Why a configuration source could not be used.
#[derive(Debug, Clone, Copy, PartialEq, Eq, Structural)]
pub enum LoadError {
    /// The file exists but could not be read.
    Io,
    /// The file was read but is not a well-formed configuration.
    Parse,
}

/// What a directory's configuration file gave.
#[derive(Debug)]
pub enum ConfigEntry {
    /// The directory holds no configuration file.
    Absent,
    /// The directory's configuration, parsed.
    Parsed(PartialPolicy),
    /// The directory's configuration file could not be used.
    Failed(LoadError),
}

/// The model of a store entry.
pub enum EntryView {
    Absent,
    Parsed(PolicyFragment),
    Failed(LoadError),
}

impl View for ConfigEntry {
    type V = EntryView;

    open spec fn view(&self) -> EntryView {
        match self {
            ConfigEntry::Absent => EntryView::Absent,
            ConfigEntry::Parsed(p) => EntryView::Parsed(p@),
            ConfigEntry::Failed(e) => EntryView::Failed(*e),
        }
    }
}

/// A directory as the sequence of its path components from the root.
pub open spec fn path_view(p: Seq<String>) -> Seq<Seq<char>> {
    words_view(p)
}

/// The cache of configuration entries, keyed by canonical directory.
pub struct ConfigStorage {
    entries: Vec<(Vec<String>, ConfigEntry)>,
    contents: Ghost<Map<Seq<Seq<char>>, EntryView>>,
}

impl View for ConfigStorage {
    type V = Map<Seq<Seq<char>>, EntryView>;

    closed spec fn view(&self) -> Map<Seq<Seq<char>>, EntryView> {
        self.contents@
    }
}

/// Whether `key` names the first `k` components of `dir`.
fn same_prefix(key: &Vec<String>, dir: &Vec<String>, k: usize) -> (r: bool)
    requires
        k <= dir.len(),
    ensures
        r == (path_view(key@) == path_view(dir@).subrange(0, k as int)),
{
    if key.len() != k {
        proof {
            assert(path_view(key@).len() != path_view(dir@).subrange(0, k as int).len());
        }
        return false;
    }
    let mut i: usize = 0;
    while i < k
        invariant
            i <= k,
            k <= dir.len(),
            key.len() == k,
            forall|j: int| 0 <= j < i ==> key@[j]@ == dir@[j]@,
        decreases k - i,
    {
        if key[i] != dir[i] {
            proof {
                assert(path_view(key@)[i as int] != path_view(dir@).subrange(0, k as int)[i as int]);
            }
            return false;
        }
        i = i + 1;
    }
    assert(path_view(key@) =~= path_view(dir@).subrange(0, k as int));
    true
}

impl ConfigStorage {
    /// Every entry is recorded in the model, and every key of the model has
    /// an entry.
    pub closed spec fn wf(&self) -> bool {
        &&& forall|i: int|
            0 <= i < self.entries@.len() ==> {
                &&& self.contents@.contains_key(#[trigger] path_view(self.entries@[i].0@))
                &&& self.contents@[path_view(self.entries@[i].0@)] == self.entries@[i].1@
            }
        &&& forall|k: Seq<Seq<char>>|
            #[trigger] self.contents@.contains_key(k) ==> exists|i: int|
                0 <= i < self.entries@.len() && path_view(self.entries@[i].0@) == k
    }

    /// An empty store.
    pub fn new() -> (r: ConfigStorage)
        ensures
            r.wf(),
            r@ == Map::<Seq<Seq<char>>, EntryView>::empty(),
    {
        ConfigStorage { entries: Vec::new(), contents: Ghost(Map::empty()) }
    }

    fn position(&self, dir: &Vec<String>, k: usize) -> (r: Option<usize>)
        requires
            self.wf(),
            k <= dir.len(),
        ensures
            match r {
                Some(i) => i < self.entries@.len() && path_view(self.entries@[i as int].0@)
                    == path_view(dir@).subrange(0, k as int),
                None => !self@.contains_key(path_view(dir@).subrange(0, k as int)),
            },
    {
        let mut i: usize = 0;
        while i < self.entries.len()
            invariant
                self.wf(),
                k <= dir.len(),
                i <= self.entries.len(),
                forall|j: int|
                    0 <= j < i ==> path_view(#[trigger] self.entries@[j].0@) != path_view(
                        dir@,
                    ).subrange(0, k as int),
            decreases self.entries.len() - i,
        {
            if same_prefix(&self.entries[i].0, dir, k) {
                return Some(i);
            }
            i = i + 1;
        }
        None
    }

    /// The entry for the first `k` components of `dir`, if it was stored.
    pub fn lookup(&self, dir: &Vec<String>, k: usize) -> (r: Option<&ConfigEntry>)
        requires
            self.wf(),
            k <= dir.len(),
        ensures
            match r {
                Some(e) => self@.contains_key(path_view(dir@).subrange(0, k as int)) && e@
                    == self@[path_view(dir@).subrange(0, k as int)],
                None => !self@.contains_key(path_view(dir@).subrange(0, k as int)),
            },
    {
        match self.position(dir, k) {
            Some(i) => Some(&self.entries[i].1),
            None => None,
        }
    }

    /// Whether an entry for `dir` was stored.
    pub fn contains(&self, dir: &Vec<String>) -> (r: bool)
        requires
            self.wf(),
        ensures
            r == self@.contains_key(path_view(dir@)),
    {
        let r = self.position(dir, dir.len());
        assert(path_view(dir@).subrange(0, dir.len() as int) =~= path_view(dir@));
        r.is_some()
    }

    /// Stores `entry` for `dir` unless an entry for `dir` is already there;
    /// returns whether it was stored. A stored entry is never replaced.
    pub fn insert(&mut self, dir: Vec<String>, entry: ConfigEntry) -> (fresh: bool)
        requires
            old(self).wf(),
        ensures
            final(self).wf(),
            fresh == !old(self)@.contains_key(path_view(dir@)),
            fresh ==> final(self)@ == old(self)@.insert(path_view(dir@), entry@),
            !fresh ==> final(self)@ == old(self)@,
    {
        if self.contains(&dir) {
            return false;
        }
        let ghost key = path_view(dir@);
        let ghost value = entry@;
        let ghost before = self.entries@;
        self.entries.push((dir, entry));
        self.contents = Ghost(self.contents@.insert(key, value));
        proof {
            assert forall|k: Seq<Seq<char>>| #[trigger] self.contents@.contains_key(k) implies exists|i: int|
                0 <= i < self.entries@.len() && path_view(self.entries@[i].0@) == k by {
                if k == key {
                    assert(path_view(self.entries@[before.len() as int].0@) == k);
                } else {
                    let i = choose|i: int| 0 <= i < before.len() && path_view(before[i].0@) == k;
                    assert(self.entries@[i] == before[i]);
                }
            }
            assert forall|i: int| 0 <= i < self.entries@.len() implies {
                &&& self.contents@.contains_key(#[trigger] path_view(self.entries@[i].0@))
                &&& self.contents@[path_view(self.entries@[i].0@)] == self.entries@[i].1@
            } by {
                if i < before.len() {
                    assert(self.entries@[i] == before[i]);
                }
            }
        }
        true
    }
}

} // verus!
