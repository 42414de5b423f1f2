//! Text listings of tables, as the program prints them.
use vstd::prelude::*;
use crate::table::SortedTable;
use crate::text::{joined, pad_right, padded, replace, replace_all, views};

verus! {

broadcast use vstd::string::group_string_axioms;

/// What `{:?}` writes for a string: the string quoted, with special
/// characters escaped.
pub uninterp spec fn debug_text(s: Seq<char>) -> Seq<char>;

/// What `{:?}` writes for a list of strings: each string as `{:?}` writes
/// it, separated by `, `, all in square brackets.
pub open spec fn debug_text_list(v: Seq<Seq<char>>) -> Seq<char> {
    "["@ + joined(v.map_values(|x: Seq<char>| debug_text(x)), ", "@) + "]"@
}

/// Writes a string with `{:?}` (std `Debug` for `str`). The result is named
/// `debug_text` of the string; nothing more is claimed of it.
#[verifier::external_body]
pub(crate) fn debug_string(s: &str) -> (r: String)
    ensures
        r@ == debug_text(s@),
{
    format!("{:?}", s)
}

/// Writes a list of strings with `{:?}` (std `Debug` for `Vec<String>`):
/// the claim is that this gives `[`, the strings written with `{:?}` and
/// separated by `, `, then `]` (the list form of std's `Debug`).
#[verifier::external_body]
pub(crate) fn debug_strings(v: &Vec<String>) -> (r: String)
    ensures
        r@ == debug_text_list(views(v@)),
{
    format!("{:?}", v)
}

/// A listing line with quotes, escaped quotes, escaped line breaks and
/// empty lists taken out: `\n\t` and `\"` and `"` vanish, `[""]` becomes
/// `None`.
pub open spec fn cleaned(s: Seq<char>) -> Seq<char> {
    replace_all(
        replace_all(replace_all(replace_all(s, "\\n\\t"@, ""@), "\\\""@, ""@), "[\"\"]"@, "None"@),
        "\""@,
        ""@,
    )
}

/// One line of a sorted-table listing: a line break and a tab, then the key
/// padded to 12 characters, `:  ` and the written value, cleaned.
pub open spec fn btmap_line(key: Seq<char>, value: Seq<char>) -> Seq<char> {
    "\n\t"@ + cleaned(pad_right(key, 12) + ":  "@ + value)
}

/// The listing of entries whose values are already written.
pub open spec fn btmap_listing(e: Seq<(Seq<char>, Seq<char>)>) -> Seq<char>
    decreases e.len(),
{
    if e.len() == 0 {
        Seq::empty()
    } else {
        btmap_listing(e.drop_last()) + btmap_line(e.last().0, e.last().1)
    }
}

/// One line of a map listing: a line break and two tabs, then ` key => `
/// and the written value, with `[""]` made `None`.
pub open spec fn map_line(key: Seq<char>, value: Seq<char>) -> Seq<char> {
    "\n\t\t"@ + replace_all(" "@ + key + " => "@ + value, "[\"\"]"@, "None"@)
}

/// The listing of a map whose values are already written.
pub open spec fn map_listing(e: Seq<(Seq<char>, Seq<char>)>) -> Seq<char>
    decreases e.len(),
{
    if e.len() == 0 {
        Seq::empty()
    } else {
        map_listing(e.drop_last()) + map_line(e.last().0, e.last().1)
    }
}

/// Entries whose lists of strings are written with `{:?}`.
pub open spec fn written_lists(e: Seq<(Seq<char>, Vec<String>)>) -> Seq<(Seq<char>, Seq<char>)> {
    e.map_values(|p: (Seq<char>, Vec<String>)| (p.0, debug_text_list(views(p.1@))))
}

/// Entries whose strings are written with `{:?}`.
pub open spec fn written_texts(e: Seq<(Seq<char>, String)>) -> Seq<(Seq<char>, Seq<char>)> {
    e.map_values(|p: (Seq<char>, String)| (p.0, debug_text(p.1@)))
}

/// One listing line of a sorted table.
fn btmap_line_exec(key: &str, value: &str) -> (r: String)
    ensures
        r@ == btmap_line(key@, value@),
{
    let mut s = padded(key, 12);
    s.append(":  ");
    s.append(value);
    let a = replace(s.as_str(), "\\n\\t", "");
    let b = replace(a.as_str(), "\\\"", "");
    let c = replace(b.as_str(), "[\"\"]", "None");
    let d = replace(c.as_str(), "\"", "");
    let mut out = String::new();
    out.append("\n\t");
    out.append(d.as_str());
    out
}

/// The listing of a table of string lists, in key order (each line: the key
/// padded to 12 characters, `:  `, the list as `{:?}` writes it, cleaned).
pub fn print_btmap(map: &SortedTable<Vec<String>>) -> (r: String)
    ensures
        r@ == btmap_listing(written_lists(map.entries())),
{
    let ghost w = written_lists(map.entries());
    let mut s = String::new();
    let mut i: usize = 0;
    while i < map.len()
        invariant
            i <= map.entries().len(),
            w == written_lists(map.entries()),
            s@ == btmap_listing(w.take(i as int)),
        decreases map.entries().len() - i,
    {
        let (k, v) = map.entry(i);
        let dv = debug_strings(v);
        let line = btmap_line_exec(k.as_str(), dv.as_str());
        s.append(line.as_str());
        i = i + 1;
        assert(w.take(i as int).drop_last() =~= w.take(i - 1));
    }
    assert(w.take(i as int) =~= w);
    s
}

/// The listing of a table of strings, in key order (each line: the key
/// padded to 12 characters, `:  `, the string as `{:?}` writes it, cleaned).
pub fn print_btmap_texts(map: &SortedTable<String>) -> (r: String)
    ensures
        r@ == btmap_listing(written_texts(map.entries())),
{
    let ghost w = written_texts(map.entries());
    let mut s = String::new();
    let mut i: usize = 0;
    while i < map.len()
        invariant
            i <= map.entries().len(),
            w == written_texts(map.entries()),
            s@ == btmap_listing(w.take(i as int)),
        decreases map.entries().len() - i,
    {
        let (k, v) = map.entry(i);
        let dv = debug_string(v.as_str());
        let line = btmap_line_exec(k.as_str(), dv.as_str());
        s.append(line.as_str());
        i = i + 1;
        assert(w.take(i as int).drop_last() =~= w.take(i - 1));
    }
    assert(w.take(i as int) =~= w);
    s
}

/// The listing of a map of string lists, in the order given (each line:
/// ` key => `, the list as `{:?}` writes it, with `[""]` made `None`).
pub fn print_map(entries: &Vec<(String, Vec<String>)>) -> (r: String)
    ensures
        r@ == map_listing(
            entries@.map_values(|p: (String, Vec<String>)| (p.0@, debug_text_list(views(p.1@)))),
        ),
{
    let ghost w = entries@.map_values(
        |p: (String, Vec<String>)| (p.0@, debug_text_list(views(p.1@))),
    );
    let mut s = String::new();
    let mut i: usize = 0;
    while i < entries.len()
        invariant
            i <= entries@.len(),
            w == entries@.map_values(
                |p: (String, Vec<String>)| (p.0@, debug_text_list(views(p.1@))),
            ),
            s@ == map_listing(w.take(i as int)),
        decreases entries@.len() - i,
    {
        let dv = debug_strings(&entries[i].1);
        let mut line = String::new();
        line.append(" ");
        line.append(entries[i].0.as_str());
        line.append(" => ");
        line.append(dv.as_str());
        let l = replace(line.as_str(), "[\"\"]", "None");
        s.append("\n\t\t");
        s.append(l.as_str());
        i = i + 1;
        assert(w.take(i as int).drop_last() =~= w.take(i - 1));
    }
    assert(w.take(i as int) =~= w);
    s
}

} // verus!
