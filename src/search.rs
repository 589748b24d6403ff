//! Client-side matching of mods by name and by mod-id alias.
use vstd::prelude::*;
use crate::models::{strings_view, SimpleMod};

verus! {

/// Whether `c` is ASCII whitespace (space, tab, line feed, form feed, carriage return).
pub open spec fn is_ascii_space(c: char) -> bool {
    c == ' ' || c == '\t' || c == '\n' || c == '\x0C' || c == '\r'
}

/// Whether `c` is one of the 32 ASCII punctuation characters.
pub open spec fn is_ascii_punct(c: char) -> bool {
    ('!' <= c && c <= '/') || (':' <= c && c <= '@') || ('[' <= c && c <= '`') || ('{' <= c
        && c <= '~')
}

/// Characters that matching ignores.
pub open spec fn is_separator(c: char) -> bool {
    is_ascii_space(c) || is_ascii_punct(c)
}

/// ASCII lower-casing of one character; other characters are kept.
pub open spec fn lower_char(c: char) -> char {
    if 'A' <= c && c <= 'Z' {
        ((c as u32) + 32) as char
    } else {
        c
    }
}

/// The form under which names and aliases are compared: separators removed,
/// ASCII letters lower-cased.
pub open spec fn search_key(s: Seq<char>) -> Seq<char> {
    s.filter(|c: char| !is_separator(c)).map_values(|c: char| lower_char(c))
}

/// A mod name matches a query when both reduce to the same search key.
pub open spec fn name_matches(name: Seq<char>, query: Seq<char>) -> bool {
    search_key(name) == search_key(query)
}

/// The test that `search_name` applies to each mod.
pub open spec fn name_filter(query: Seq<char>) -> spec_fn(SimpleMod) -> bool {
    |m: SimpleMod| name_matches(m.name@, query)
}

/// The test that `search_mod_id` applies to each mod.
pub open spec fn alias_filter(query: Seq<char>) -> spec_fn(SimpleMod) -> bool {
    |m: SimpleMod| alias_matches(m, query)
}

/// A mod matches an alias query when one of its aliases equals the query's search key.
pub open spec fn alias_matches(m: SimpleMod, query: Seq<char>) -> bool {
    strings_view(m.mod_id_strs@).contains(search_key(query))
}

proof fn lemma_filter_push<A>(s: Seq<A>, x: A, pred: spec_fn(A) -> bool)
    ensures
        s.push(x).filter(pred) == (if pred(x) {
            s.filter(pred).push(x)
        } else {
            s.filter(pred)
        }),
{
    reveal(Seq::filter);
    assert(s.push(x).drop_last() =~= s);
}

proof fn lemma_search_key_push(s: Seq<char>, c: char)
    ensures
        search_key(s.push(c)) == (if is_separator(c) {
            search_key(s)
        } else {
            search_key(s).push(lower_char(c))
        }),
{
    let pred = |c: char| !is_separator(c);
    lemma_filter_push(s, c, pred);
    let f = s.filter(pred);
    assert(f.push(c).map_values(|c: char| lower_char(c)) =~= f.map_values(|c: char| lower_char(c)).push(lower_char(c)));
}

fn is_separator_char(c: char) -> (r: bool)
    ensures
        r == is_separator(c),
{
    c == ' ' || c == '\t' || c == '\n' || c == '\x0C' || c == '\r' || ('!' <= c && c <= '/')
        || (':' <= c && c <= '@') || ('[' <= c && c <= '`') || ('{' <= c && c <= '~')
}

fn to_lower_char(c: char) -> (r: char)
    ensures
        r == lower_char(c),
{
    if 'A' <= c && c <= 'Z' {
        ((c as u8) + 32) as char
    } else {
        c
    }
}

/// The search key of `s`.
pub fn key_of(s: &str) -> (r: Vec<char>)
    ensures
        r@ == search_key(s@),
{
    let mut key: Vec<char> = Vec::new();
    for c in it: s.chars()
        invariant
            it.seq() == s@,
            key@ == search_key(it.seq().take(it.index() as int)),
    {
        proof {
            assert(it.seq().take(it.index() as int + 1) =~= it.seq().take(it.index() as int).push(c));
            lemma_search_key_push(it.seq().take(it.index() as int), c);
        }
        if !is_separator_char(c) {
            key.push(to_lower_char(c));
        }
    }
    assert(s@.take(s@.len() as int) =~= s@);
    key
}

/// The characters of `s`.
pub fn chars_of(s: &str) -> (r: Vec<char>)
    ensures
        r@ == s@,
{
    let mut out: Vec<char> = Vec::new();
    for c in it: s.chars()
        invariant
            it.seq() == s@,
            out@ == it.seq().take(it.index() as int),
    {
        assert(it.seq().take(it.index() as int + 1) =~= it.seq().take(it.index() as int).push(c));
        out.push(c);
    }
    assert(s@.take(s@.len() as int) =~= s@);
    out
}

pub(crate) fn same_chars(a: &Vec<char>, b: &Vec<char>) -> (r: bool)
    ensures
        r == (a@ == b@),
{
    if a.len() != b.len() {
        return false;
    }
    let mut i: usize = 0;
    while i < a.len()
        invariant
            a@.len() == b@.len(),
            i <= a@.len(),
            forall|j: int| 0 <= j < i ==> a@[j] == b@[j],
        decreases a.len() - i,
    {
        if a[i] != b[i] {
            return false;
        }
        i = i + 1;
    }
    assert(a@ =~= b@);
    true
}

fn has_alias(aliases: &Vec<String>, key: &Vec<char>) -> (r: bool)
    ensures
        r == strings_view(aliases@).contains(key@),
{
    let mut i: usize = 0;
    while i < aliases.len()
        invariant
            i <= aliases@.len(),
            forall|j: int| 0 <= j < i ==> aliases@[j]@ != key@,
        decreases aliases.len() - i,
    {
        let chars = chars_of(aliases[i].as_str());
        if same_chars(&chars, key) {
            assert(strings_view(aliases@)[i as int] == key@);
            return true;
        }
        i = i + 1;
    }
    assert(!strings_view(aliases@).contains(key@));
    false
}

/// Whether a mod name matches a query, ignoring ASCII whitespace,
/// punctuation and letter case.
pub fn is_name_match(name: &str, query: &str) -> (r: bool)
    ensures
        r == name_matches(name@, query@),
{
    let a = key_of(name);
    let b = key_of(query);
    same_chars(&a, &b)
}

/// The mods whose name matches `query`, in their original order.
pub fn search_name(mods: Vec<SimpleMod>, query: &str) -> (r: Vec<SimpleMod>)
    ensures
        r@ == mods@.filter(name_filter(query@)),
{
    let ghost pred = name_filter(query@);
    let ghost all = mods@;
    let key = key_of(query);
    let mut found: Vec<SimpleMod> = Vec::new();
    for m in it: mods.into_iter()
        invariant
            it.seq() == all,
            pred == name_filter(query@),
            key@ == search_key(query@),
            found@ == it.seq().take(it.index() as int).filter(pred),
    {
        proof {
            assert(it.seq().take(it.index() as int + 1) =~= it.seq().take(it.index() as int).push(m));
            lemma_filter_push(it.seq().take(it.index() as int), m, pred);
        }
        let name_key = key_of(m.name.as_str());
        if same_chars(&name_key, &key) {
            found.push(m);
        }
    }
    assert(all.take(all.len() as int) =~= all);
    found
}

/// The mods that list the search key of `query` among their mod-id aliases,
/// in their original order.
pub fn search_mod_id(mods: Vec<SimpleMod>, query: &str) -> (r: Vec<SimpleMod>)
    ensures
        r@ == mods@.filter(alias_filter(query@)),
{
    let ghost pred = alias_filter(query@);
    let ghost all = mods@;
    let key = key_of(query);
    let mut found: Vec<SimpleMod> = Vec::new();
    for m in it: mods.into_iter()
        invariant
            it.seq() == all,
            pred == alias_filter(query@),
            key@ == search_key(query@),
            found@ == it.seq().take(it.index() as int).filter(pred),
    {
        proof {
            assert(it.seq().take(it.index() as int + 1) =~= it.seq().take(it.index() as int).push(m));
            lemma_filter_push(it.seq().take(it.index() as int), m, pred);
        }
        if has_alias(&m.mod_id_strs, &key) {
            found.push(m);
        }
    }
    assert(all.take(all.len() as int) =~= all);
    found
}

} // verus!
