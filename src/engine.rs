//! The configuration engine: the effective policy of a directory (ascent to
//! the nearest project configuration, then layering) and of a file type.
use vstd::prelude::*;
use crate::file_type_specifics::{
    is_no_check_type, spec_no_check_types, type_ignore_idents, type_ignore_words,
    type_specific_dict,
};
use crate::policy::{
    copy_words, resolved_from, words_view, PartialPolicy, PolicyFragment, ResolvedPolicy,
    ResolvedView,
};
use crate::storage::{path_view, ConfigEntry, ConfigStorage, EntryView, LoadError};

verus! {

/// What the search for the nearest project configuration finds.
pub enum Ascent {
    /// The store has no entry yet for the ancestor with this many components.
    Unloaded(nat),
    /// No ancestor holds a configuration file.
    NotFound,
    /// The configuration of the nearest ancestor that holds one.
    Found(PolicyFragment),
    /// The nearest ancestor's configuration file could not be used.
    Failed(LoadError),
}

/// The search from the ancestor of `dir` with `k` components up to the root:
/// it stops at the first ancestor whose entry is not absent.
pub open spec fn ascend(m: Map<Seq<Seq<char>>, EntryView>, dir: Seq<Seq<char>>, k: nat) -> Ascent
    decreases k,
{
    let p = dir.subrange(0, k as int);
    if !m.contains_key(p) {
        Ascent::Unloaded(k)
    } else {
        match m[p] {
            EntryView::Parsed(f) => Ascent::Found(f),
            EntryView::Failed(e) => Ascent::Failed(e),
            EntryView::Absent => if k == 0 {
                Ascent::NotFound
            } else {
                ascend(m, dir, (k - 1) as nat)
            },
        }
    }
}

/// Why the policy of a directory is not available.
#[derive(Debug, Clone, Copy, PartialEq, Eq, Structural)]
pub enum ResolveError {
    /// The store must first be given the entry of the ancestor with this many
    /// components.
    Unloaded(usize),
    /// The nearest configuration could not be used.
    Config(LoadError),
}

/// The traversal filters of a directory's policy.
#[derive(Debug, Clone, Copy, PartialEq, Eq, Structural)]
pub struct WalkFilters {
    pub ignore_hidden: bool,
    pub ignore_dot: bool,
    pub ignore_global: bool,
    pub ignore_vcs: bool,
    pub ignore_parent: bool,
}

/// The traversal filters that a resolved policy sets.
pub fn walk_filters(policy: &ResolvedPolicy) -> (r: WalkFilters)
    ensures
        r.ignore_hidden == policy.ignore_hidden,
        r.ignore_dot == policy.ignore_dot,
        r.ignore_global == policy.ignore_global,
        r.ignore_vcs == policy.ignore_vcs,
        r.ignore_parent == policy.ignore_parent,
{
    WalkFilters {
        ignore_hidden: policy.ignore_hidden,
        ignore_dot: policy.ignore_dot,
        ignore_global: policy.ignore_global,
        ignore_vcs: policy.ignore_vcs,
        ignore_parent: policy.ignore_parent,
    }
}

/// The policy of `p` for files of type `tag`: the type's dictionary
/// exceptions extend each list that no user set, and a type that is not
/// checked by default turns checking off unless a user set it.
pub open spec fn spec_resolve_for_type(p: ResolvedView, tag: Seq<char>) -> ResolvedView {
    ResolvedView {
        check_file: if !p.check_file_explicit && spec_no_check_types().contains(tag) {
            false
        } else {
            p.check_file
        },
        ignore_words: if p.ignore_words_explicit {
            p.ignore_words
        } else {
            p.ignore_words + type_ignore_words(tag)
        },
        ignore_identifiers: if p.ignore_identifiers_explicit {
            p.ignore_identifiers
        } else {
            p.ignore_identifiers + type_ignore_idents(tag)
        },
        ..p
    }
}

fn append_words(v: &mut Vec<String>, extra: &Vec<String>)
    ensures
        words_view(final(v)@) == words_view(old(v)@) + words_view(extra@),
{
    let mut more = copy_words(extra);
    v.append(&mut more);
    assert(words_view(v@) =~= words_view(old(v)@) + words_view(extra@));
}

/// The policy of `policy` for files of type `tag`.
pub fn resolve_for_type(policy: &ResolvedPolicy, tag: &String) -> (r: ResolvedPolicy)
    ensures
        r@ == spec_resolve_for_type(policy@, tag@),
{
    let mut r = policy.duplicate();
    if !r.check_file_explicit && is_no_check_type(tag) {
        r.check_file = false;
    }
    let dict = type_specific_dict(tag);
    match dict {
        Some(d) => {
            if !r.ignore_words_explicit {
                append_words(&mut r.ignore_words, &d.ignore_words);
            }
            if !r.ignore_identifiers_explicit {
                append_words(&mut r.ignore_identifiers, &d.ignore_idents);
            }
        },
        None => {
            assert(words_view(r.ignore_words@) =~= words_view(r.ignore_words@) + Seq::empty());
            assert(words_view(r.ignore_identifiers@) =~= words_view(r.ignore_identifiers@)
                + Seq::empty());
        },
    }
    r
}

/// The engine of one root: isolation, an optional custom configuration and
/// the overrides, fixed before any file is processed.
#[derive(Debug)]
pub struct ConfigEngine {
    pub isolated: bool,
    pub custom: Option<PartialPolicy>,
    pub overrides: PartialPolicy,
}

impl ConfigEngine {
    /// The user layers over an optional project fragment, lowest priority
    /// first: project (ignored when isolated), custom configuration,
    /// overrides.
    pub open spec fn layered(&self, project: Option<PolicyFragment>) -> PolicyFragment {
        let base = match project {
            Some(p) => if self.isolated {
                PolicyFragment::unset()
            } else {
                p
            },
            None => PolicyFragment::unset(),
        };
        let with_custom = match self.custom {
            Some(c) => base.merged(c@),
            None => base,
        };
        with_custom.merged(self.overrides@)
    }

    /// The policy of `dir` given the store's contents `m`.
    pub open spec fn spec_resolve_for_dir(
        &self,
        m: Map<Seq<Seq<char>>, EntryView>,
        dir: Seq<Seq<char>>,
    ) -> Result<ResolvedView, ResolveError> {
        if self.isolated {
            Ok(resolved_from(self.layered(None)))
        } else {
            match ascend(m, dir, dir.len()) {
                Ascent::Unloaded(k) => Err(ResolveError::Unloaded(k as usize)),
                Ascent::Failed(e) => Err(ResolveError::Config(e)),
                Ascent::NotFound => Ok(resolved_from(self.layered(None))),
                Ascent::Found(p) => Ok(resolved_from(self.layered(Some(p)))),
            }
        }
    }

    /// An engine with no isolation, no custom configuration and no overrides.
    pub fn new() -> (r: ConfigEngine)
        ensures
            !r.isolated,
            r.custom is None,
            r.overrides@ == PolicyFragment::unset(),
    {
        ConfigEngine { isolated: false, custom: None, overrides: PartialPolicy::empty() }
    }

    pub fn set_isolated(&mut self, isolated: bool)
        ensures
            final(self).isolated == isolated,
            final(self).custom == old(self).custom,
            final(self).overrides == old(self).overrides,
    {
        self.isolated = isolated;
    }

    pub fn set_overrides(&mut self, overrides: PartialPolicy)
        ensures
            final(self).isolated == old(self).isolated,
            final(self).custom == old(self).custom,
            final(self).overrides == overrides,
    {
        self.overrides = overrides;
    }

    pub fn set_custom_config(&mut self, custom: PartialPolicy)
        ensures
            final(self).isolated == old(self).isolated,
            final(self).custom == Some(custom),
            final(self).overrides == old(self).overrides,
    {
        self.custom = Some(custom);
    }

    fn find_project<'a>(store: &'a ConfigStorage, dir: &Vec<String>) -> (r: Result<
        Option<&'a PartialPolicy>,
        ResolveError,
    >)
        requires
            store.wf(),
        ensures
            match ascend(store@, path_view(dir@), dir.len() as nat) {
                Ascent::Unloaded(k) => r == Err::<Option<&PartialPolicy>, ResolveError>(
                    ResolveError::Unloaded(k as usize),
                ),
                Ascent::Failed(e) => r == Err::<Option<&PartialPolicy>, ResolveError>(
                    ResolveError::Config(e),
                ),
                Ascent::NotFound => r == Ok::<Option<&PartialPolicy>, ResolveError>(None),
                Ascent::Found(f) => r matches Ok(Some(p)) && p@ == f,
            },
    {
        let ghost d = path_view(dir@);
        let mut k: usize = dir.len();
        loop
            invariant
                store.wf(),
                k <= dir.len(),
                d == path_view(dir@),
                ascend(store@, d, dir.len() as nat) == ascend(store@, d, k as nat),
            decreases k,
        {
            proof {
                assert(path_view(dir@).subrange(0, k as int) == d.subrange(0, k as int));
            }
            match store.lookup(dir, k) {
                None => {
                    return Err(ResolveError::Unloaded(k));
                },
                Some(ConfigEntry::Failed(e)) => {
                    return Err(ResolveError::Config(*e));
                },
                Some(ConfigEntry::Parsed(p)) => {
                    return Ok(Some(p));
                },
                Some(ConfigEntry::Absent) => {
                    if k == 0 {
                        return Ok(None);
                    }
                    k = k - 1;
                },
            }
        }
    }

    /// The policy of `dir`: defaults, then (unless isolated) the nearest
    /// ancestor's configuration, then the custom configuration, then the
    /// overrides.
    pub fn resolve_for_dir(&self, store: &ConfigStorage, dir: &Vec<String>) -> (r: Result<
        ResolvedPolicy,
        ResolveError,
    >)
        requires
            store.wf(),
        ensures
            match self.spec_resolve_for_dir(store@, path_view(dir@)) {
                Ok(v) => r matches Ok(p) && p@ == v,
                Err(e) => r == Err::<ResolvedPolicy, ResolveError>(e),
            },
    {
        let mut merged = PartialPolicy::empty();
        if !self.isolated {
            match Self::find_project(store, dir) {
                Err(e) => {
                    return Err(e);
                },
                Ok(Some(p)) => {
                    merged = p.duplicate();
                },
                Ok(None) => {},
            }
        }
        match &self.custom {
            Some(c) => merged.update(c),
            None => {},
        }
        merged.update(&self.overrides);
        Ok(ResolvedPolicy::from_partial(&merged))
    }

    /// Resolves the policy of the starting directory before any traversal,
    /// so that a bad configuration is reported first.
    pub fn init_dir(&self, store: &ConfigStorage, dir: &Vec<String>) -> (r: Result<(), ResolveError>)
        requires
            store.wf(),
        ensures
            match self.spec_resolve_for_dir(store@, path_view(dir@)) {
                Ok(_) => r is Ok,
                Err(e) => r == Err::<(), ResolveError>(e),
            },
    {
        match self.resolve_for_dir(store, dir) {
            Ok(_) => Ok(()),
            Err(e) => Err(e),
        }
    }

    /// The traversal filters of `dir`'s policy.
    pub fn files(&self, store: &ConfigStorage, dir: &Vec<String>) -> (r: Result<WalkFilters, ResolveError>)
        requires
            store.wf(),
        ensures
            match self.spec_resolve_for_dir(store@, path_view(dir@)) {
                Ok(v) => r == Ok::<WalkFilters, ResolveError>(
                    WalkFilters {
                        ignore_hidden: v.ignore_hidden,
                        ignore_dot: v.ignore_dot,
                        ignore_global: v.ignore_global,
                        ignore_vcs: v.ignore_vcs,
                        ignore_parent: v.ignore_parent,
                    },
                ),
                Err(e) => r == Err::<WalkFilters, ResolveError>(e),
            },
    {
        match self.resolve_for_dir(store, dir) {
            Ok(p) => Ok(walk_filters(&p)),
            Err(e) => Err(e),
        }
    }

    /// The policy of a file of type `tag` in `dir`.
    pub fn resolve_for_file(&self, store: &ConfigStorage, dir: &Vec<String>, tag: &String) -> (r:
        Result<ResolvedPolicy, ResolveError>)
        requires
            store.wf(),
        ensures
            match self.spec_resolve_for_dir(store@, path_view(dir@)) {
                Ok(v) => r matches Ok(p) && p@ == spec_resolve_for_type(v, tag@),
                Err(e) => r == Err::<ResolvedPolicy, ResolveError>(e),
            },
    {
        match self.resolve_for_dir(store, dir) {
            Ok(p) => Ok(resolve_for_type(&p, tag)),
            Err(e) => Err(e),
        }
    }
}


proof fn lemma_nearest_from(m: Map<Seq<Seq<char>>, EntryView>, dir: Seq<Seq<char>>, j: nat, k: nat, f: PolicyFragment)
    requires
        j <= k <= dir.len(),
        m.contains_key(dir.subrange(0, j as int)),
        m[dir.subrange(0, j as int)] == EntryView::Parsed(f),
        forall|l: int|
            j < l <= dir.len() ==> m.contains_key(#[trigger] dir.subrange(0, l)) && m[dir.subrange(0, l)] is Absent,
    ensures
        ascend(m, dir, k) == Ascent::Found(f),
    decreases k,
{
    if k > j {
        lemma_nearest_from(m, dir, j, (k - 1) as nat, f);
        assert(m.contains_key(dir.subrange(0, k as int)));
    }
}

/// The nearest configured ancestor wins: when the ancestor of `dir` with `j`
/// components holds a configuration and every nearer one holds none, that
/// configuration is the project layer, whatever farther ancestors hold.
pub proof fn lemma_nearest_wins(
    e: ConfigEngine,
    m: Map<Seq<Seq<char>>, EntryView>,
    dir: Seq<Seq<char>>,
    j: nat,
    f: PolicyFragment,
)
    requires
        !e.isolated,
        j <= dir.len(),
        m.contains_key(dir.subrange(0, j as int)),
        m[dir.subrange(0, j as int)] == EntryView::Parsed(f),
        forall|l: int|
            j < l <= dir.len() ==> m.contains_key(#[trigger] dir.subrange(0, l)) && m[dir.subrange(0, l)] is Absent,
    ensures
        ascend(m, dir, dir.len()) == Ascent::Found(f),
        e.spec_resolve_for_dir(m, dir) == Ok::<ResolvedView, ResolveError>(resolved_from(e.layered(Some(f)))),
{
    lemma_nearest_from(m, dir, j, dir.len(), f);
}

/// With isolation on, no project configuration takes part: the policy of a
/// directory is the same whatever the store holds.
pub proof fn lemma_isolation(
    e: ConfigEngine,
    m1: Map<Seq<Seq<char>>, EntryView>,
    m2: Map<Seq<Seq<char>>, EntryView>,
    dir: Seq<Seq<char>>,
)
    requires
        e.isolated,
    ensures
        e.spec_resolve_for_dir(m1, dir) == e.spec_resolve_for_dir(m2, dir),
        e.spec_resolve_for_dir(m1, dir) == Ok::<ResolvedView, ResolveError>(resolved_from(e.layered(None))),
        forall|f: PolicyFragment| e.layered(Some(f)) == #[trigger] e.layered(None),
{
}

/// An override of `check_file` decides whether files are checked, over any
/// project or custom configuration and for every file type.
pub proof fn lemma_override_supremacy(
    e: ConfigEngine,
    m: Map<Seq<Seq<char>>, EntryView>,
    dir: Seq<Seq<char>>,
    tag: Seq<char>,
    b: bool,
)
    requires
        e.overrides@.check_file == Some(b),
        e.spec_resolve_for_dir(m, dir) is Ok,
    ensures
        spec_resolve_for_type(e.spec_resolve_for_dir(m, dir)->Ok_0, tag).check_file == b,
{
}

proof fn lemma_ascend_stable(
    m: Map<Seq<Seq<char>>, EntryView>,
    m2: Map<Seq<Seq<char>>, EntryView>,
    dir: Seq<Seq<char>>,
    k: nat,
)
    requires
        m.submap_of(m2),
        k <= dir.len(),
        !(ascend(m, dir, k) is Unloaded),
    ensures
        ascend(m2, dir, k) == ascend(m, dir, k),
    decreases k,
{
    let p = dir.subrange(0, k as int);
    assert(m.contains_key(p));
    assert(m2[p] == m[p]);
    if k > 0 && m[p] is Absent {
        lemma_ascend_stable(m, m2, dir, (k - 1) as nat);
    }
}

/// Resolution is stable: once the policy of a directory resolves, it
/// resolves to the same policy however many further entries the store
/// gains, since stored entries are never replaced.
pub proof fn lemma_resolution_stable(
    e: ConfigEngine,
    m: Map<Seq<Seq<char>>, EntryView>,
    m2: Map<Seq<Seq<char>>, EntryView>,
    dir: Seq<Seq<char>>,
)
    requires
        m.submap_of(m2),
        e.spec_resolve_for_dir(m, dir) is Ok,
    ensures
        e.spec_resolve_for_dir(m2, dir) == e.spec_resolve_for_dir(m, dir),
{
    if !e.isolated {
        lemma_ascend_stable(m, m2, dir, dir.len());
    }
}

proof fn lemma_unloaded_is_missing(m: Map<Seq<Seq<char>>, EntryView>, dir: Seq<Seq<char>>, k: nat)
    requires
        k <= dir.len(),
    ensures
        ascend(m, dir, k) matches Ascent::Unloaded(j) ==> j <= k && !m.contains_key(
            dir.subrange(0, j as int),
        ),
    decreases k,
{
    if k > 0 {
        lemma_unloaded_is_missing(m, dir, (k - 1) as nat);
    }
}

/// Once the store holds the entry of a directory, no resolution asks for it
/// again: with entries written once, each configuration file is parsed at
/// most once, however many directories below it are resolved and in
/// whatever order.
pub proof fn lemma_loaded_once(
    e: ConfigEngine,
    m: Map<Seq<Seq<char>>, EntryView>,
    dir: Seq<Seq<char>>,
    key: Seq<Seq<char>>,
)
    requires
        m.contains_key(key),
        dir.len() <= usize::MAX,
    ensures
        !(e.spec_resolve_for_dir(m, dir) matches Err(ResolveError::Unloaded(j)) && dir.subrange(
            0,
            j as int,
        ) == key),
{
    lemma_unloaded_is_missing(m, dir, dir.len());
}

} // verus!
