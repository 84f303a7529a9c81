//! Built-in policy defaults for particular file types: dictionary exceptions
//! per type tag, and the tags whose files are not checked by default.
use vstd::prelude::*;
use crate::policy::words_view;

verus! {

/// Tags of the file types whose files are not checked unless a user asks.
pub open spec fn spec_no_check_types() -> Seq<Seq<char>> {
    seq!["cert"@, "lock"@]
}

/// One row of the per-type dictionary table: tag, ignored identifiers,
/// ignored words.
pub type DictRow = (Seq<char>, Seq<Seq<char>>, Seq<Seq<char>>);

/// The per-type dictionary table, ordered by tag.
pub open spec fn spec_type_specific_dicts() -> Seq<DictRow> {
    seq![
        ("py"@, seq!["NDArray"@], Seq::empty()),
        ("rust"@, seq!["flate2"@], seq!["ser"@]),
        ("vim"@, seq!["windo"@], Seq::empty()),
        ("vimscript"@, seq!["windo"@], Seq::empty()),
    ]
}

/// The first row of `t` for `tag`: its ignored identifiers and words.
pub open spec fn find_dict(t: Seq<DictRow>, tag: Seq<char>) -> Option<(Seq<Seq<char>>, Seq<Seq<char>>)>
    decreases t.len(),
{
    if t.len() == 0 {
        None
    } else if t[0].0 == tag {
        Some((t[0].1, t[0].2))
    } else {
        find_dict(t.drop_first(), tag)
    }
}

/// The identifiers that files of type `tag` may use without a report.
pub open spec fn type_ignore_idents(tag: Seq<char>) -> Seq<Seq<char>> {
    match find_dict(spec_type_specific_dicts(), tag) {
        Some(d) => d.0,
        None => Seq::empty(),
    }
}

/// The words that files of type `tag` may use without a report.
pub open spec fn type_ignore_words(tag: Seq<char>) -> Seq<Seq<char>> {
    match find_dict(spec_type_specific_dicts(), tag) {
        Some(d) => d.1,
        None => Seq::empty(),
    }
}

/// Dictionary exceptions of one file type.
#[derive(Debug)]
pub struct StaticDictConfig {
    pub ignore_idents: Vec<String>,
    pub ignore_words: Vec<String>,
}

/// The model of a table of the library's own type.
pub open spec fn dicts_view(t: Seq<(String, StaticDictConfig)>) -> Seq<DictRow> {
    t.map_values(
        |e: (String, StaticDictConfig)|
            (e.0@, words_view(e.1.ignore_idents@), words_view(e.1.ignore_words@)),
    )
}

fn text(s: &str) -> (r: String)
    ensures
        r@ == s@,
{
    String::from_str(s)
}

/// The tags whose files are not checked by default.
pub fn no_check_types() -> (r: Vec<String>)
    ensures
        words_view(r@) == spec_no_check_types(),
{
    let r = vec![text("cert"), text("lock")];
    assert(words_view(r@) =~= spec_no_check_types());
    r
}

/// Whether files of type `tag` go unchecked by default.
pub fn is_no_check_type(tag: &String) -> (r: bool)
    ensures
        r == spec_no_check_types().contains(tag@),
{
    let types = no_check_types();
    let mut i: usize = 0;
    while i < types.len()
        invariant
            i <= types.len(),
            words_view(types@) == spec_no_check_types(),
            forall|j: int| 0 <= j < i ==> spec_no_check_types()[j] != tag@,
        decreases types.len() - i,
    {
        if types[i] == *tag {
            assert(spec_no_check_types()[i as int] == tag@);
            return true;
        }
        i = i + 1;
    }
    false
}

fn dict(idents: Vec<String>, words: Vec<String>) -> (r: StaticDictConfig)
    ensures
        r.ignore_idents == idents,
        r.ignore_words == words,
{
    StaticDictConfig { ignore_idents: idents, ignore_words: words }
}

/// The per-type dictionary table, ordered by tag.
pub fn type_specific_dicts() -> (r: Vec<(String, StaticDictConfig)>)
    ensures
        dicts_view(r@) == spec_type_specific_dicts(),
{
    let r = vec![
        (text("py"), dict(vec![text("NDArray")], Vec::new())),
        (text("rust"), dict(vec![text("flate2")], vec![text("ser")])),
        (text("vim"), dict(vec![text("windo")], Vec::new())),
        (text("vimscript"), dict(vec![text("windo")], Vec::new())),
    ];
    assert(words_view(r@[0].1.ignore_idents@) =~= seq!["NDArray"@]);
    assert(words_view(r@[0].1.ignore_words@) =~= Seq::<Seq<char>>::empty());
    assert(words_view(r@[1].1.ignore_idents@) =~= seq!["flate2"@]);
    assert(words_view(r@[1].1.ignore_words@) =~= seq!["ser"@]);
    assert(words_view(r@[2].1.ignore_idents@) =~= seq!["windo"@]);
    assert(words_view(r@[2].1.ignore_words@) =~= Seq::<Seq<char>>::empty());
    assert(words_view(r@[3].1.ignore_idents@) =~= seq!["windo"@]);
    assert(words_view(r@[3].1.ignore_words@) =~= Seq::<Seq<char>>::empty());
    assert(dicts_view(r@) =~= spec_type_specific_dicts());
    r
}

/// The dictionary exceptions of type `tag`, if the table has a row for it.
pub fn type_specific_dict(tag: &String) -> (r: Option<StaticDictConfig>)
    ensures
        match find_dict(spec_type_specific_dicts(), tag@) {
            Some(d) => r matches Some(c) && words_view(c.ignore_idents@) == d.0 && words_view(
                c.ignore_words@,
            ) == d.1,
            None => r is None,
        },
{
    let mut table = type_specific_dicts();
    let ghost full = dicts_view(table@);
    let mut i: usize = 0;
    assert(full.subrange(0, full.len() as int) =~= full);
    while i < table.len()
        invariant
            i <= table.len(),
            dicts_view(table@) == full,
            full == spec_type_specific_dicts(),
            find_dict(full, tag@) == find_dict(full.subrange(i as int, full.len() as int), tag@),
        decreases table.len() - i,
    {
        proof {
            let rest = full.subrange(i as int, full.len() as int);
            assert(rest.drop_first() =~= full.subrange(i + 1, full.len() as int));
            assert(rest[0] == full[i as int]);
        }
        if table[i].0 == *tag {
            let row = table.swap_remove(i);
            return Some(row.1);
        }
        i = i + 1;
    }
    proof {
        assert(full.subrange(i as int, full.len() as int).len() == 0);
    }
    None
}


/// Whether `a` sorts strictly before `b`, character by character, a proper
/// prefix first.
pub open spec fn lex_lt(a: Seq<char>, b: Seq<char>) -> bool
    decreases a.len(),
{
    if b.len() == 0 {
        false
    } else if a.len() == 0 {
        true
    } else if a[0] != b[0] {
        a[0] < b[0]
    } else {
        lex_lt(a.drop_first(), b.drop_first())
    }
}

/// The tags of the per-type table are strictly increasing, hence distinct.
pub proof fn lemma_type_dicts_sorted_unique()
    ensures
        forall|i: int, j: int|
            0 <= i < j < spec_type_specific_dicts().len() ==> lex_lt(
                #[trigger] spec_type_specific_dicts()[i].0,
                #[trigger] spec_type_specific_dicts()[j].0,
            ) && spec_type_specific_dicts()[i].0 != spec_type_specific_dicts()[j].0,
{
    reveal_strlit("py");
    reveal_strlit("rust");
    reveal_strlit("vim");
    reveal_strlit("vimscript");
    let t = spec_type_specific_dicts();
    let py = t[0].0;
    let rust = t[1].0;
    let vim = t[2].0;
    let vimscript = t[3].0;
    assert(py.len() == 2 && rust.len() == 4 && vim.len() == 3 && vimscript.len() == 9);
    assert(lex_lt(py, rust));
    assert(lex_lt(py, vim));
    assert(lex_lt(py, vimscript));
    assert(lex_lt(rust, vim));
    assert(lex_lt(rust, vimscript));
    let (a1, b1) = (vim.drop_first(), vimscript.drop_first());
    let (a2, b2) = (a1.drop_first(), b1.drop_first());
    let (a3, b3) = (a2.drop_first(), b2.drop_first());
    assert(a3.len() == 0 && b3.len() == 6);
    assert(lex_lt(a3, b3));
    assert(a2[0] == b2[0]);
    assert(lex_lt(a2, b2));
    assert(a1[0] == b1[0]);
    assert(lex_lt(a1, b1));
    assert(vim[0] == vimscript[0]);
    assert(lex_lt(vim, vimscript));
}

} // verus!
