//! Language files as trees of named strings, and their flattening into
//! dotted keys ("menus.controls_menu.layout").
use vstd::prelude::*;
use crate::i18n::{law_insert_then_lookup, lookup, put, Entries, Locale};
use crate::settings::opt_string_view;
use crate::text::{push_char, push_str, str_eq, string_of};

verus! {

/// A node of a language file: a string, a table of named nodes, or any other
/// value (which carries no text).
pub enum StringTree {
    Text(String),
    Table(Vec<(String, StringTree)>),
    Other,
}

/// The key of `name` under `prefix`: `name` itself at the top, else the two
/// joined by a dot.
pub open spec fn joined_key(prefix: Seq<char>, name: Seq<char>) -> Seq<char> {
    if prefix.len() == 0 {
        name
    } else {
        prefix + seq!['.'] + name
    }
}

/// The strings of `t` with their dotted keys under `prefix`, in file order;
/// only a table holds strings.
pub open spec fn flat(t: StringTree, prefix: Seq<char>) -> Entries
    decreases t,
{
    match t {
        StringTree::Table(v) => flat_entries(v@, prefix),
        _ => Seq::empty(),
    }
}

/// The strings of the named nodes `es` under `prefix`, in order.
pub open spec fn flat_entries(es: Seq<(String, StringTree)>, prefix: Seq<char>) -> Entries
    decreases es,
{
    if es.len() == 0 {
        Seq::empty()
    } else {
        let last = es[es.len() - 1];
        flat_entries(es.subrange(0, es.len() - 1), prefix) + match last.1 {
            StringTree::Text(text) => seq![(joined_key(prefix, last.0@), text@)],
            StringTree::Table(_) => flat(last.1, joined_key(prefix, last.0@)),
            StringTree::Other => Seq::empty(),
        }
    }
}

/// The view of a list of key and text pairs.
pub open spec fn pairs_view(v: Seq<(String, String)>) -> Entries {
    v.map_values(|p: (String, String)| (p.0@, p.1@))
}

/// The key of `name` under `prefix`.
pub fn join_key(prefix: &str, name: &str) -> (r: String)
    ensures
        r@ == joined_key(prefix@, name@),
{
    let mut r = string_of(prefix);
    if prefix.unicode_len() > 0 {
        push_char(&mut r, '.');
    }
    push_str(&mut r, name);
    r
}

/// Appends to `out` the strings of `tree` with their dotted keys under
/// `prefix`, in file order.
pub fn flatten(tree: &StringTree, out: &mut Vec<(String, String)>, prefix: &str)
    ensures
        pairs_view(final(out)@) == pairs_view(old(out)@) + flat(*tree, prefix@),
    decreases tree,
{
    match tree {
        StringTree::Table(entries) => {
            let mut i: usize = 0;
            assert(entries@.subrange(0, 0) =~= Seq::<(String, StringTree)>::empty());
            while i < entries.len()
                invariant
                    *tree == StringTree::Table(*entries),
                    i <= entries@.len(),
                    pairs_view(out@) == pairs_view(old(out)@) + flat_entries(entries@.subrange(0, i as int), prefix@),
                decreases entries@.len() - i,
            {
                let ghost before = out@;
                let (key, value) = &entries[i];
                let full = join_key(prefix, key.as_str());
                assert(entries@.subrange(0, i + 1).subrange(0, i as int) =~= entries@.subrange(0, i as int));
                match value {
                    StringTree::Text(text) => {
                        out.push((full, string_of(text.as_str())));
                        assert(pairs_view(out@) =~= pairs_view(before) + seq![(joined_key(prefix@, key@), text@)]);
                    },
                    StringTree::Table(_) => {
                        assert(decreases_to!(*tree => *value)) by {
                            assert(decreases_to!(*tree => (*tree)->Table_0));
                            assert(decreases_to!(*entries => entries@));
                            assert(decreases_to!(entries@ => entries@[i as int]));
                            assert(decreases_to!(entries@[i as int] => entries@[i as int].1));
                        }
                        flatten(value, out, full.as_str());
                    },
                    StringTree::Other => {
                        assert(pairs_view(out@) =~= pairs_view(before) + Seq::<(Seq<char>, Seq<char>)>::empty());
                    },
                }
                i = i + 1;
            }
            assert(entries@.subrange(0, entries@.len() as int) =~= entries@);
        },
        _ => {
            assert(pairs_view(out@) =~= pairs_view(old(out)@) + Seq::<(Seq<char>, Seq<char>)>::empty());
        },
    }
}

/// The text of the last entry of `e` with key `key`.
pub open spec fn last_text(e: Entries, key: Seq<char>) -> Option<Seq<char>>
    decreases e.len(),
{
    if e.len() == 0 {
        None
    } else if e.last().0 == key {
        Some(e.last().1)
    } else {
        last_text(e.drop_last(), key)
    }
}

/// `e` with each entry of `pairs` set in turn.
pub open spec fn put_all(e: Entries, pairs: Entries) -> Entries
    decreases pairs.len(),
{
    if pairs.len() == 0 {
        e
    } else {
        put(put_all(e, pairs.drop_last()), pairs.last().0, pairs.last().1)
    }
}

/// The text of the last pair of `pairs` with key `key`.
pub fn last_text_of(pairs: &Vec<(String, String)>, key: &str) -> (r: Option<String>)
    ensures
        opt_string_view(r) == last_text(pairs_view(pairs@), key@),
{
    let ghost all = pairs_view(pairs@);
    let mut i: usize = pairs.len();
    assert(all.subrange(0, i as int) =~= all);
    while i > 0
        invariant
            i <= pairs@.len(),
            all == pairs_view(pairs@),
            last_text(all, key@) == last_text(all.subrange(0, i as int), key@),
        decreases i,
    {
        let ghost part = all.subrange(0, i as int);
        assert(part.drop_last() =~= all.subrange(0, i - 1));
        i = i - 1;
        if str_eq(pairs[i].0.as_str(), key) {
            return Some(string_of(pairs[i].1.as_str()));
        }
    }
    None
}

/// Where a file gives a key more than once, its last text is the translation.
pub proof fn law_last_text_wins(pairs: Entries, key: Seq<char>)
    ensures
        lookup(put_all(Seq::empty(), pairs), key) == last_text(pairs, key),
    decreases pairs.len(),
{
    if pairs.len() > 0 {
        law_last_text_wins(pairs.drop_last(), key);
        let before = put_all(Seq::empty(), pairs.drop_last());
        if pairs.last().0 == key {
            law_insert_then_lookup(before, key, pairs.last().1, pairs.last().0 + seq!['x']);
        } else {
            law_insert_then_lookup(before, pairs.last().0, pairs.last().1, key);
        }
    }
}

/// The text of `key` in `pairs`, or `fallback`.
pub open spec fn text_or(pairs: Entries, key: Seq<char>, fallback: Seq<char>) -> Seq<char> {
    match last_text(pairs, key) {
        Some(t) => t,
        None => fallback,
    }
}

impl Locale {
    /// The language `code` from the strings of its file, in file order: its
    /// translations, its name ("English" where the file gives none), its font
    /// file, and the encodings of its scripts and stage data. The font's scale
    /// is left at 1.
    pub fn from_strings(code: &str, strings: &Vec<(String, String)>) -> (r: Locale)
        ensures
            r.code@ == code@,
            r.strings@ == put_all(Seq::empty(), pairs_view(strings@)),
            r.name@ == text_or(pairs_view(strings@), "name"@, "English"@),
            r.font.path@ == text_or(pairs_view(strings@), "font"@, Seq::empty()),
            r.font.scale_bits == 0x3f80_0000,
            r.font.space_offset_bits == 0,
            opt_string_view(r.encoding) == last_text(pairs_view(strings@), "encoding"@),
            opt_string_view(r.stage_encoding) == last_text(pairs_view(strings@), "stage_encoding"@),
            !r.is_present,
            !r.is_complete,
    {
        let ghost all = pairs_view(strings@);
        let mut locale = Locale::default();
        locale.code = string_of(code);
        let mut i: usize = 0;
        assert(all.subrange(0, 0) =~= Seq::<(Seq<char>, Seq<char>)>::empty());
        while i < strings.len()
            invariant
                i <= strings@.len(),
                all == pairs_view(strings@),
                locale.code@ == code@,
                locale.strings@ == put_all(Seq::empty(), all.subrange(0, i as int)),
                locale.font.path@ == Seq::<char>::empty(),
                locale.font.scale_bits == 0x3f80_0000,
                locale.font.space_offset_bits == 0,
                !locale.is_present,
                !locale.is_complete,
            decreases strings@.len() - i,
        {
            let (key, text) = &strings[i];
            let ghost part = all.subrange(0, i + 1);
            assert(part.drop_last() =~= all.subrange(0, i as int));
            locale.strings.insert(string_of(key.as_str()), string_of(text.as_str()));
            i = i + 1;
        }
        assert(all.subrange(0, strings@.len() as int) =~= all);
        match last_text_of(strings, "name") {
            Some(name) => locale.name = name,
            None => locale.name = string_of("English"),
        }
        match last_text_of(strings, "font") {
            Some(font) => locale.font.path = font,
            None => {},
        }
        locale.encoding = last_text_of(strings, "encoding");
        locale.stage_encoding = last_text_of(strings, "stage_encoding");
        locale
    }
}

} // verus!
