//! Sparse configuration fragments, their right-biased merge, and the fully
//! defaulted policy that drives the check of one file.
use vstd::prelude::*;

verus! {

/// The characters of each word of a list.
pub open spec fn words_view(v: Seq<String>) -> Seq<Seq<char>> {
    v.map_values(|s: String| s@)
}

/// The characters of each word of an optional list.
pub open spec fn opt_words_view(o: Option<Vec<String>>) -> Option<Seq<Seq<char>>> {
    match o {
        Some(v) => Some(words_view(v@)),
        None => None,
    }
}

/// The higher-priority value when it is set, else the lower one.
pub open spec fn pick<T>(lo: Option<T>, hi: Option<T>) -> Option<T> {
    if hi is Some {
        hi
    } else {
        lo
    }
}

/// A copy of a word list, word by word.
pub fn copy_words(v: &Vec<String>) -> (r: Vec<String>)
    ensures
        words_view(r@) == words_view(v@),
{
    let mut r: Vec<String> = Vec::new();
    let mut i: usize = 0;
    while i < v.len()
        invariant
            i <= v.len(),
            r@.len() == i,
            forall|j: int| 0 <= j < i ==> (#[trigger] r@[j])@ == v@[j]@,
        decreases v.len() - i,
    {
        r.push(v[i].clone());
        i = i + 1;
    }
    assert(words_view(r@) =~= words_view(v@));
    r
}

fn copy_opt_words(o: &Option<Vec<String>>) -> (r: Option<Vec<String>>)
    ensures
        opt_words_view(r) == opt_words_view(*o),
{
    match o {
        Some(v) => Some(copy_words(v)),
        None => None,
    }
}

/// The model of a fragment: every field unset or explicit.
pub struct PolicyFragment {
    pub check_file: Option<bool>,
    pub ignore_hidden: Option<bool>,
    pub ignore_dot: Option<bool>,
    pub ignore_global: Option<bool>,
    pub ignore_vcs: Option<bool>,
    pub ignore_parent: Option<bool>,
    pub extend_words: Option<Seq<Seq<char>>>,
    pub ignore_words: Option<Seq<Seq<char>>>,
    pub ignore_identifiers: Option<Seq<Seq<char>>>,
}

impl PolicyFragment {
    /// The fragment with every field unset.
    pub open spec fn unset() -> PolicyFragment {
        PolicyFragment {
            check_file: None,
            ignore_hidden: None,
            ignore_dot: None,
            ignore_global: None,
            ignore_vcs: None,
            ignore_parent: None,
            extend_words: None,
            ignore_words: None,
            ignore_identifiers: None,
        }
    }

    /// `self` overlaid by `hi`: each explicit field of `hi` wins, each unset
    /// field of `hi` keeps the value of `self`.
    pub open spec fn merged(self, hi: PolicyFragment) -> PolicyFragment {
        PolicyFragment {
            check_file: pick(self.check_file, hi.check_file),
            ignore_hidden: pick(self.ignore_hidden, hi.ignore_hidden),
            ignore_dot: pick(self.ignore_dot, hi.ignore_dot),
            ignore_global: pick(self.ignore_global, hi.ignore_global),
            ignore_vcs: pick(self.ignore_vcs, hi.ignore_vcs),
            ignore_parent: pick(self.ignore_parent, hi.ignore_parent),
            extend_words: pick(self.extend_words, hi.extend_words),
            ignore_words: pick(self.ignore_words, hi.ignore_words),
            ignore_identifiers: pick(self.ignore_identifiers, hi.ignore_identifiers),
        }
    }
}

/// Merging is associative: layering `c` over the result of `b` over `a` is
/// the same as layering the merge of `b` and `c` over `a`.
pub proof fn lemma_merge_associative(a: PolicyFragment, b: PolicyFragment, c: PolicyFragment)
    ensures
        a.merged(b).merged(c) == a.merged(b.merged(c)),
{
}

/// The unset fragment changes nothing on either side of a merge.
pub proof fn lemma_merge_unset_identity(a: PolicyFragment)
    ensures
        a.merged(PolicyFragment::unset()) == a,
        PolicyFragment::unset().merged(a) == a,
{
}

/// A sparse configuration fragment, as parsed from one configuration source.
#[derive(Debug)]
pub struct PartialPolicy {
    pub check_file: Option<bool>,
    pub ignore_hidden: Option<bool>,
    pub ignore_dot: Option<bool>,
    pub ignore_global: Option<bool>,
    pub ignore_vcs: Option<bool>,
    pub ignore_parent: Option<bool>,
    /// Words reported as misspellings in addition to the built-in dictionary.
    pub extend_words: Option<Vec<String>>,
    /// Words never reported.
    pub ignore_words: Option<Vec<String>>,
    /// Identifiers never reported.
    pub ignore_identifiers: Option<Vec<String>>,
}

impl View for PartialPolicy {
    type V = PolicyFragment;

    open spec fn view(&self) -> PolicyFragment {
        PolicyFragment {
            check_file: self.check_file,
            ignore_hidden: self.ignore_hidden,
            ignore_dot: self.ignore_dot,
            ignore_global: self.ignore_global,
            ignore_vcs: self.ignore_vcs,
            ignore_parent: self.ignore_parent,
            extend_words: opt_words_view(self.extend_words),
            ignore_words: opt_words_view(self.ignore_words),
            ignore_identifiers: opt_words_view(self.ignore_identifiers),
        }
    }
}

impl PartialPolicy {
    /// A fragment with every field unset.
    pub fn empty() -> (r: PartialPolicy)
        ensures
            r@ == PolicyFragment::unset(),
    {
        PartialPolicy {
            check_file: None,
            ignore_hidden: None,
            ignore_dot: None,
            ignore_global: None,
            ignore_vcs: None,
            ignore_parent: None,
            extend_words: None,
            ignore_words: None,
            ignore_identifiers: None,
        }
    }

    /// A field-by-field copy.
    pub fn duplicate(&self) -> (r: PartialPolicy)
        ensures
            r@ == self@,
    {
        PartialPolicy {
            check_file: self.check_file,
            ignore_hidden: self.ignore_hidden,
            ignore_dot: self.ignore_dot,
            ignore_global: self.ignore_global,
            ignore_vcs: self.ignore_vcs,
            ignore_parent: self.ignore_parent,
            extend_words: copy_opt_words(&self.extend_words),
            ignore_words: copy_opt_words(&self.ignore_words),
            ignore_identifiers: copy_opt_words(&self.ignore_identifiers),
        }
    }

    /// Overlays `hi` onto `self`: every explicit field of `hi` replaces the
    /// field of `self`, every unset one leaves it as it was.
    pub fn update(&mut self, hi: &PartialPolicy)
        ensures
            final(self)@ == old(self)@.merged(hi@),
    {
        if hi.check_file.is_some() {
            self.check_file = hi.check_file;
        }
        if hi.ignore_hidden.is_some() {
            self.ignore_hidden = hi.ignore_hidden;
        }
        if hi.ignore_dot.is_some() {
            self.ignore_dot = hi.ignore_dot;
        }
        if hi.ignore_global.is_some() {
            self.ignore_global = hi.ignore_global;
        }
        if hi.ignore_vcs.is_some() {
            self.ignore_vcs = hi.ignore_vcs;
        }
        if hi.ignore_parent.is_some() {
            self.ignore_parent = hi.ignore_parent;
        }
        if hi.extend_words.is_some() {
            self.extend_words = copy_opt_words(&hi.extend_words);
        }
        if hi.ignore_words.is_some() {
            self.ignore_words = copy_opt_words(&hi.ignore_words);
        }
        if hi.ignore_identifiers.is_some() {
            self.ignore_identifiers = copy_opt_words(&hi.ignore_identifiers);
        }
    }
}


/// The model of a fully defaulted policy, with a record of which of its
/// overridable fields a user set explicitly.
pub struct ResolvedView {
    pub check_file: bool,
    pub ignore_hidden: bool,
    pub ignore_dot: bool,
    pub ignore_global: bool,
    pub ignore_vcs: bool,
    pub ignore_parent: bool,
    pub extend_words: Seq<Seq<char>>,
    pub ignore_words: Seq<Seq<char>>,
    pub ignore_identifiers: Seq<Seq<char>>,
    pub check_file_explicit: bool,
    pub ignore_words_explicit: bool,
    pub ignore_identifiers_explicit: bool,
}

/// The value of a flag, or `d` where it is unset.
pub open spec fn flag_or(o: Option<bool>, d: bool) -> bool {
    match o {
        Some(b) => b,
        None => d,
    }
}

/// The value of a list, or the empty list where it is unset.
pub open spec fn list_or_empty(o: Option<Seq<Seq<char>>>) -> Seq<Seq<char>> {
    match o {
        Some(l) => l,
        None => Seq::empty(),
    }
}

/// The built-in defaults under a fragment: checking enabled, every traversal
/// filter on, every dictionary list empty.
pub open spec fn resolved_from(f: PolicyFragment) -> ResolvedView {
    ResolvedView {
        check_file: flag_or(f.check_file, true),
        ignore_hidden: flag_or(f.ignore_hidden, true),
        ignore_dot: flag_or(f.ignore_dot, true),
        ignore_global: flag_or(f.ignore_global, true),
        ignore_vcs: flag_or(f.ignore_vcs, true),
        ignore_parent: flag_or(f.ignore_parent, true),
        extend_words: list_or_empty(f.extend_words),
        ignore_words: list_or_empty(f.ignore_words),
        ignore_identifiers: list_or_empty(f.ignore_identifiers),
        check_file_explicit: f.check_file is Some,
        ignore_words_explicit: f.ignore_words is Some,
        ignore_identifiers_explicit: f.ignore_identifiers is Some,
    }
}

/// A fully defaulted policy: no field is left unset.
#[derive(Debug, PartialEq, Eq)]
pub struct ResolvedPolicy {
    pub check_file: bool,
    pub ignore_hidden: bool,
    pub ignore_dot: bool,
    pub ignore_global: bool,
    pub ignore_vcs: bool,
    pub ignore_parent: bool,
    pub extend_words: Vec<String>,
    pub ignore_words: Vec<String>,
    pub ignore_identifiers: Vec<String>,
    /// Whether a user set `check_file`, as opposed to the built-in default.
    pub check_file_explicit: bool,
    /// Whether a user set `ignore_words`.
    pub ignore_words_explicit: bool,
    /// Whether a user set `ignore_identifiers`.
    pub ignore_identifiers_explicit: bool,
}

impl View for ResolvedPolicy {
    type V = ResolvedView;

    open spec fn view(&self) -> ResolvedView {
        ResolvedView {
            check_file: self.check_file,
            ignore_hidden: self.ignore_hidden,
            ignore_dot: self.ignore_dot,
            ignore_global: self.ignore_global,
            ignore_vcs: self.ignore_vcs,
            ignore_parent: self.ignore_parent,
            extend_words: words_view(self.extend_words@),
            ignore_words: words_view(self.ignore_words@),
            ignore_identifiers: words_view(self.ignore_identifiers@),
            check_file_explicit: self.check_file_explicit,
            ignore_words_explicit: self.ignore_words_explicit,
            ignore_identifiers_explicit: self.ignore_identifiers_explicit,
        }
    }
}

fn flag_or_default(o: Option<bool>, d: bool) -> (r: bool)
    ensures
        r == flag_or(o, d),
{
    match o {
        Some(b) => b,
        None => d,
    }
}

fn list_or_default(o: &Option<Vec<String>>) -> (r: Vec<String>)
    ensures
        words_view(r@) == list_or_empty(opt_words_view(*o)),
{
    match o {
        Some(v) => copy_words(v),
        None => {
            let r: Vec<String> = Vec::new();
            assert(words_view(r@) =~= Seq::<Seq<char>>::empty());
            r
        },
    }
}

impl ResolvedPolicy {
    /// Fills every unset field of `p` from the built-in defaults.
    pub fn from_partial(p: &PartialPolicy) -> (r: ResolvedPolicy)
        ensures
            r@ == resolved_from(p@),
    {
        ResolvedPolicy {
            check_file: flag_or_default(p.check_file, true),
            ignore_hidden: flag_or_default(p.ignore_hidden, true),
            ignore_dot: flag_or_default(p.ignore_dot, true),
            ignore_global: flag_or_default(p.ignore_global, true),
            ignore_vcs: flag_or_default(p.ignore_vcs, true),
            ignore_parent: flag_or_default(p.ignore_parent, true),
            extend_words: list_or_default(&p.extend_words),
            ignore_words: list_or_default(&p.ignore_words),
            ignore_identifiers: list_or_default(&p.ignore_identifiers),
            check_file_explicit: p.check_file.is_some(),
            ignore_words_explicit: p.ignore_words.is_some(),
            ignore_identifiers_explicit: p.ignore_identifiers.is_some(),
        }
    }

    /// A field-by-field copy.
    pub fn duplicate(&self) -> (r: ResolvedPolicy)
        ensures
            r@ == self@,
    {
        ResolvedPolicy {
            check_file: self.check_file,
            ignore_hidden: self.ignore_hidden,
            ignore_dot: self.ignore_dot,
            ignore_global: self.ignore_global,
            ignore_vcs: self.ignore_vcs,
            ignore_parent: self.ignore_parent,
            extend_words: copy_words(&self.extend_words),
            ignore_words: copy_words(&self.ignore_words),
            ignore_identifiers: copy_words(&self.ignore_identifiers),
            check_file_explicit: self.check_file_explicit,
            ignore_words_explicit: self.ignore_words_explicit,
            ignore_identifiers_explicit: self.ignore_identifiers_explicit,
        }
    }
}

} // verus!
