//! Checker selection and the per-file and per-root decisions of a walk.
use vstd::prelude::*;
use crate::engine::{spec_resolve_for_type, ConfigEngine};
use crate::file_type_specifics::spec_no_check_types;
use crate::policy::{words_view, ResolvedPolicy, ResolvedView};
use crate::status::FileOutcome;
use crate::storage::{path_view, EntryView};

verus! {

/// The one capability a run applies to every file.
#[derive(Debug, Clone, Copy, PartialEq, Eq, Structural)]
pub enum Checker {
    /// Lists every file.
    FoundFiles,
    /// Lists the identifiers of each checked file.
    Identifiers,
    /// Lists the words of each checked file.
    Words,
    /// Corrects misspellings in place.
    FixTypos,
    /// Shows corrections as a diff.
    DiffTypos,
    /// Reports misspellings.
    Typos,
}

impl Checker {
    /// Whether the capability reports misspellings.
    pub open spec fn detects_typos(self) -> bool {
        self is FixTypos || self is DiffTypos || self is Typos
    }
}

/// The capability that the command-line flags select, first match wins:
/// files, identifiers, words, write-changes, diff; else typo reporting.
pub fn select_checker(files: bool, identifiers: bool, words: bool, write_changes: bool, diff: bool) -> (r: Checker)
    ensures
        r == if files {
            Checker::FoundFiles
        } else if identifiers {
            Checker::Identifiers
        } else if words {
            Checker::Words
        } else if write_changes {
            Checker::FixTypos
        } else if diff {
            Checker::DiffTypos
        } else {
            Checker::Typos
        },
{
    if files {
        Checker::FoundFiles
    } else if identifiers {
        Checker::Identifiers
    } else if words {
        Checker::Words
    } else if write_changes {
        Checker::FixTypos
    } else if diff {
        Checker::DiffTypos
    } else {
        Checker::Typos
    }
}

/// Whether the diff capability is selected, in which case ordinary message
/// output is silenced so that the diff is not mixed with it.
pub fn silences_messages(c: Checker) -> (r: bool)
    ensures
        r == (c is DiffTypos),
{
    match c {
        Checker::DiffTypos => true,
        _ => false,
    }
}

/// Whether `c` visits a file under `p`: listing files does not depend on
/// the check flag, every other capability skips unchecked files.
pub open spec fn spec_visits(c: Checker, p: ResolvedView) -> bool {
    c is FoundFiles || p.check_file
}

pub fn visits(c: Checker, p: &ResolvedPolicy) -> (r: bool)
    ensures
        r == spec_visits(c, p@),
{
    match c {
        Checker::FoundFiles => true,
        _ => p.check_file,
    }
}

/// Whether `w` is reported under `p`: a listed misspelling that is neither
/// an ignored word nor an ignored identifier.
pub open spec fn spec_is_reported(p: ResolvedView, w: Seq<char>) -> bool {
    p.extend_words.contains(w) && !p.ignore_words.contains(w) && !p.ignore_identifiers.contains(w)
}

/// The positions of the reported tokens of `tokens`, in order.
pub open spec fn spec_reported(p: ResolvedView, tokens: Seq<Seq<char>>) -> Seq<usize>
    decreases tokens.len(),
{
    if tokens.len() == 0 {
        Seq::empty()
    } else {
        let rest = spec_reported(p, tokens.drop_last());
        if spec_is_reported(p, tokens.last()) {
            rest.push((tokens.len() - 1) as usize)
        } else {
            rest
        }
    }
}

fn contains_word(list: &Vec<String>, w: &String) -> (r: bool)
    ensures
        r == words_view(list@).contains(w@),
{
    let mut i: usize = 0;
    while i < list.len()
        invariant
            i <= list.len(),
            forall|j: int| 0 <= j < i ==> list@[j]@ != w@,
        decreases list.len() - i,
    {
        if list[i] == *w {
            assert(words_view(list@)[i as int] == w@);
            return true;
        }
        i = i + 1;
    }
    proof {
        if words_view(list@).contains(w@) {
            let j = choose|j: int| 0 <= j < words_view(list@).len() && words_view(list@)[j] == w@;
            assert(list@[j]@ == w@);
        }
    }
    false
}

/// Whether `w` is reported under `p`.
pub fn is_reported(p: &ResolvedPolicy, w: &String) -> (r: bool)
    ensures
        r == spec_is_reported(p@, w@),
{
    contains_word(&p.extend_words, w) && !contains_word(&p.ignore_words, w) && !contains_word(
        &p.ignore_identifiers,
        w,
    )
}

/// The positions of the tokens of a file that `p` reports.
pub fn find_typos(p: &ResolvedPolicy, tokens: &Vec<String>) -> (r: Vec<usize>)
    ensures
        r@ == spec_reported(p@, words_view(tokens@)),
{
    let mut r: Vec<usize> = Vec::new();
    let mut i: usize = 0;
    while i < tokens.len()
        invariant
            i <= tokens.len(),
            r@ == spec_reported(p@, words_view(tokens@.subrange(0, i as int))),
        decreases tokens.len() - i,
    {
        proof {
            let s = words_view(tokens@.subrange(0, i + 1));
            assert(s.drop_last() =~= words_view(tokens@.subrange(0, i as int)));
            assert(s.last() == tokens@[i as int]@);
        }
        if is_reported(p, &tokens[i]) {
            r.push(i);
        }
        i = i + 1;
    }
    assert(tokens@.subrange(0, tokens.len() as int) =~= tokens@);
    r
}

/// What checking a file of `tokens` under `p` with `c` reports; `unreadable`
/// is whether reading the file failed. Unvisited files report nothing.
pub open spec fn spec_file_outcome(c: Checker, p: ResolvedView, tokens: Seq<Seq<char>>, unreadable: bool) -> FileOutcome {
    if !spec_visits(c, p) {
        FileOutcome { typo: false, error: false }
    } else if unreadable {
        FileOutcome { typo: false, error: true }
    } else {
        FileOutcome { typo: c.detects_typos() && spec_reported(p, tokens).len() > 0, error: false }
    }
}

pub fn file_outcome(c: Checker, p: &ResolvedPolicy, tokens: &Vec<String>, unreadable: bool) -> (r: FileOutcome)
    ensures
        r == spec_file_outcome(c, p@, words_view(tokens@), unreadable),
{
    if !visits(c, p) {
        FileOutcome { typo: false, error: false }
    } else if unreadable {
        FileOutcome { typo: false, error: true }
    } else {
        let detects = match c {
            Checker::FixTypos | Checker::DiffTypos | Checker::Typos => true,
            _ => false,
        };
        let found = find_typos(p, tokens);
        FileOutcome { typo: detects && found.len() > 0, error: false }
    }
}

/// A file of a type that is not checked by default, where no user set the
/// check flag, reports neither typos nor errors whatever it holds, and is
/// still listed by the file-listing capability.
pub proof fn lemma_type_default_suppression(
    e: ConfigEngine,
    m: Map<Seq<Seq<char>>, EntryView>,
    dir: Seq<Seq<char>>,
    tag: Seq<char>,
    c: Checker,
    tokens: Seq<Seq<char>>,
    unreadable: bool,
)
    requires
        spec_no_check_types().contains(tag),
        e.spec_resolve_for_dir(m, dir) matches Ok(v) && !v.check_file_explicit,
        !(c is FoundFiles),
    ensures
        spec_file_outcome(c, spec_resolve_for_type(e.spec_resolve_for_dir(m, dir)->Ok_0, tag), tokens, unreadable)
            == (FileOutcome { typo: false, error: false }),
        spec_visits(Checker::FoundFiles, spec_resolve_for_type(e.spec_resolve_for_dir(m, dir)->Ok_0, tag)),
{
}

/// Whether a root is walked by one worker: a single file, or one worker
/// asked for.
pub fn single_threaded(is_file: bool, threads: usize) -> (r: bool)
    ensures
        r == (is_file || threads == 1),
{
    is_file || threads == 1
}

/// The directory whose policy governs a root: its parent for a file, the
/// root itself for a directory.
pub fn working_dir(root: &Vec<String>, is_file: bool) -> (r: Vec<String>)
    requires
        is_file ==> root.len() > 0,
    ensures
        path_view(r@) == if is_file {
            path_view(root@).drop_last()
        } else {
            path_view(root@)
        },
{
    let mut r = crate::policy::copy_words(root);
    if is_file {
        r.pop();
        assert(words_view(r@) =~= words_view(root@).drop_last());
    }
    r
}

} // verus!
