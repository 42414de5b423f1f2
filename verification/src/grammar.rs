//! The small text grammars of the program: variable references `$NAME` in
//! command lines, and assignments `$NAME="value"` in the output of build
//! scripts.
//!
//! A name starts with an ASCII letter or `_` and goes on with ASCII letters,
//! digits and `_`, as long as it can. The text is read left to right and one
//! match never overlaps the next.
use vstd::prelude::*;
use crate::text::{chars_of, is_ascii_alpha, is_digit, views};

verus! {

/// `c` can start a name.
pub open spec fn is_name_start(c: char) -> bool {
    is_ascii_alpha(c) || c == '_'
}

/// `c` can continue a name.
pub open spec fn is_name_char(c: char) -> bool {
    is_name_start(c) || is_digit(c)
}

/// The end of the name that goes on from position `j` of `s`: the first
/// position from `j` on that holds no name character.
pub open spec fn name_end(s: Seq<char>, j: int) -> int
    decreases s.len() - j,
{
    if 0 <= j < s.len() && is_name_char(s[j]) {
        name_end(s, j + 1)
    } else {
        j
    }
}

/// A name goes on at least to where it starts and at most to the end.
pub proof fn lemma_name_end(s: Seq<char>, j: int)
    requires
        0 <= j <= s.len(),
    ensures
        j <= name_end(s, j) <= s.len(),
        forall|k: int| j <= k < name_end(s, j) ==> is_name_char(#[trigger] s[k]),
        name_end(s, j) < s.len() ==> !is_name_char(s[name_end(s, j)]),
    decreases s.len() - j,
{
    if j < s.len() && is_name_char(s[j]) {
        lemma_name_end(s, j + 1);
    }
}

/// The names referred to as `$NAME` in `s` from position `i` on, in order.
pub open spec fn names_from(s: Seq<char>, i: int) -> Seq<Seq<char>>
    decreases s.len() - i,
{
    if i < 0 || i >= s.len() {
        Seq::empty()
    } else if i + 1 < s.len() && s[i] == '$' && is_name_start(s[i + 1]) {
        let e = name_end(s, i + 1);
        if i < e <= s.len() {
            seq![s.subrange(i + 1, e)] + names_from(s, e)
        } else {
            Seq::empty()
        }
    } else {
        names_from(s, i + 1)
    }
}

/// The names referred to as `$NAME` in `s`, in order (what
/// `\$([A-Za-z_][A-Za-z0-9_]*)` captures in its group, match by match).
pub open spec fn referenced_names(s: Seq<char>) -> Seq<Seq<char>> {
    names_from(s, 0)
}

/// Where the name from position `j` of `v` ends.
pub(crate) fn scan_name(v: &Vec<char>, j: usize) -> (e: usize)
    requires
        j <= v.len(),
    ensures
        e == name_end(v@, j as int),
{
    proof {
        lemma_name_end(v@, j as int);
    }
    let mut e: usize = j;
    while e < v.len() && is_name_char_exec(v[e])
        invariant
            j <= e <= v.len(),
            name_end(v@, e as int) == name_end(v@, j as int),
        decreases v.len() - e,
    {
        e = e + 1;
    }
    e
}

pub(crate) fn is_name_start_exec(c: char) -> (b: bool)
    ensures
        b == is_name_start(c),
{
    ('a' <= c && c <= 'z') || ('A' <= c && c <= 'Z') || c == '_'
}

fn is_name_char_exec(c: char) -> (b: bool)
    ensures
        b == is_name_char(c),
{
    is_name_start_exec(c) || ('0' <= c && c <= '9')
}

/// The characters of `v` from `from` up to `to`, as a string.
pub(crate) fn piece(v: &Vec<char>, from: usize, to: usize) -> (r: String)
    requires
        from <= to <= v.len(),
    ensures
        r@ == v@.subrange(from as int, to as int),
{
    let mut out = String::new();
    let mut i: usize = from;
    while i < to
        invariant
            from <= i <= to <= v.len(),
            out@ == v@.subrange(from as int, i as int),
        decreases to - i,
    {
        crate::text::push_char(&mut out, v[i]);
        i = i + 1;
        assert(out@ =~= v@.subrange(from as int, i as int));
    }
    out
}

/// The names that `s` refers to as `$NAME`, in order.
pub fn referenced_names_of(s: &str) -> (r: Vec<String>)
    ensures
        views(r@) == referenced_names(s@),
{
    let v = chars_of(s);
    let mut out: Vec<String> = Vec::new();
    let mut i: usize = 0;
    while i < v.len()
        invariant
            v@ == s@,
            i <= v.len(),
            views(out@) + names_from(s@, i as int) == referenced_names(s@),
        decreases v.len() - i,
    {
        if i + 1 < v.len() && v[i] == '$' && is_name_start_exec(v[i + 1]) {
            let e = scan_name(&v, i + 1);
            proof {
                lemma_name_end(v@, i + 1);
            }
            let name = piece(&v, i + 1, e);
            let ghost before = views(out@);
            out.push(name);
            assert(views(out@) =~= before.push(name@));
            assert(before + names_from(s@, i as int) =~= views(out@) + names_from(s@, e as int));
            i = e;
        } else {
            i = i + 1;
        }
    }
    assert(names_from(s@, i as int) =~= Seq::<Seq<char>>::empty());
    assert(views(out@) + Seq::<Seq<char>>::empty() =~= views(out@));
    out
}

/// The first `"` in `s` from position `j` on (or the end).
pub open spec fn quote_end(s: Seq<char>, j: int) -> int
    decreases s.len() - j,
{
    if 0 <= j < s.len() && s[j] != '"' {
        quote_end(s, j + 1)
    } else {
        j
    }
}

proof fn lemma_quote_end(s: Seq<char>, j: int)
    requires
        0 <= j <= s.len(),
    ensures
        j <= quote_end(s, j) <= s.len(),
        quote_end(s, j) < s.len() ==> s[quote_end(s, j)] == '"',
    decreases s.len() - j,
{
    if j < s.len() && s[j] != '"' {
        lemma_quote_end(s, j + 1);
    }
}

/// The assignment `$NAME="value"` that starts at position `p` of `s`, if one
/// does: its name and its value.
pub open spec fn assignment_at(s: Seq<char>, p: int) -> Option<(Seq<char>, Seq<char>)> {
    if 0 <= p && p + 1 < s.len() && s[p] == '$' && is_name_start(s[p + 1]) {
        let e = name_end(s, p + 1);
        if e + 1 < s.len() && s[e] == '=' && s[e + 1] == '"' && quote_end(s, e + 2) < s.len() {
            Some((s.subrange(p + 1, e), s.subrange(e + 2, quote_end(s, e + 2))))
        } else {
            None
        }
    } else {
        None
    }
}

/// The leftmost assignment in `s` from position `p` on.
pub open spec fn first_assignment_from(s: Seq<char>, p: int) -> Option<(Seq<char>, Seq<char>)>
    decreases s.len() - p,
{
    if p < 0 || p >= s.len() {
        None
    } else if assignment_at(s, p) is Some {
        assignment_at(s, p)
    } else {
        first_assignment_from(s, p + 1)
    }
}

/// The leftmost assignment `$NAME="value"` in a line (what
/// `\$([A-Za-z_][A-Za-z0-9_]*)="([^"]*)"` captures at its first match).
pub open spec fn first_assignment(s: Seq<char>) -> Option<(Seq<char>, Seq<char>)> {
    first_assignment_from(s, 0)
}

/// The assignment that starts at position `p`, if any.
fn assignment_at_exec(v: &Vec<char>, p: usize) -> (r: Option<(String, String)>)
    requires
        p < v.len(),
    ensures
        match assignment_at(v@, p as int) {
            Some((n, x)) => r matches Some(y) && y.0@ == n && y.1@ == x,
            None => r is None,
        },
{
    if p + 1 < v.len() && v[p] == '$' && is_name_start_exec(v[p + 1]) {
        let e = scan_name(v, p + 1);
        proof {
            lemma_name_end(v@, p + 1);
        }
        if e < v.len() && e + 1 < v.len() && v[e] == '=' && v[e + 1] == '"' {
            let mut q: usize = e + 2;
            while q < v.len() && v[q] != '"'
                invariant
                    e + 2 <= q <= v.len(),
                    quote_end(v@, q as int) == quote_end(v@, e + 2),
                decreases v.len() - q,
            {
                q = q + 1;
            }
            if q < v.len() {
                let name = piece(v, p + 1, e);
                let value = piece(v, e + 2, q);
                Some((name, value))
            } else {
                None
            }
        } else {
            None
        }
    } else {
        None
    }
}

/// The leftmost assignment `$NAME="value"` in `line`: its name and value.
pub fn first_assignment_of(line: &str) -> (r: Option<(String, String)>)
    ensures
        match first_assignment(line@) {
            Some((n, x)) => r matches Some(y) && y.0@ == n && y.1@ == x,
            None => r is None,
        },
{
    let v = chars_of(line);
    let mut p: usize = 0;
    while p < v.len()
        invariant
            v@ == line@,
            p <= v.len(),
            first_assignment_from(line@, p as int) == first_assignment(line@),
        decreases v.len() - p,
    {
        match assignment_at_exec(&v, p) {
            Some(a) => {
                return Some(a);
            },
            None => {
                p = p + 1;
            },
        }
    }
    None
}

/// The lines of `s` from position `i` on: pieces ended by `\n`, where a
/// `\r` right before the `\n` belongs to the line ending; the last piece
/// needs no `\n` and an empty last piece is no line (as `str::lines` splits).
pub open spec fn lines_from(s: Seq<char>, i: int) -> Seq<Seq<char>>
    decreases s.len() - i,
{
    if i < 0 || i >= s.len() {
        Seq::empty()
    } else {
        let e = newline_from(s, i);
        if i <= e < s.len() {
            seq![strip_cr(s.subrange(i, e))] + lines_from(s, e + 1)
        } else {
            seq![s.subrange(i, s.len() as int)]
        }
    }
}

/// `l` without a last `\r`.
pub open spec fn strip_cr(l: Seq<char>) -> Seq<char> {
    if l.len() > 0 && l.last() == '\r' {
        l.drop_last()
    } else {
        l
    }
}

/// The first `\n` in `s` from position `j` on (or the end).
pub open spec fn newline_from(s: Seq<char>, j: int) -> int
    decreases s.len() - j,
{
    if 0 <= j < s.len() && s[j] != '\n' {
        newline_from(s, j + 1)
    } else {
        j
    }
}

proof fn lemma_newline_from(s: Seq<char>, j: int)
    requires
        0 <= j <= s.len(),
    ensures
        j <= newline_from(s, j) <= s.len(),
        newline_from(s, j) < s.len() ==> s[newline_from(s, j)] == '\n',
    decreases s.len() - j,
{
    if j < s.len() && s[j] != '\n' {
        lemma_newline_from(s, j + 1);
    }
}

/// The lines of `s`.
pub open spec fn lines_of(s: Seq<char>) -> Seq<Seq<char>> {
    lines_from(s, 0)
}

/// The assignments made by the lines of `s`, one per line that holds one,
/// in order.
pub open spec fn assignments_of(lines: Seq<Seq<char>>) -> Seq<(Seq<char>, Seq<char>)>
    decreases lines.len(),
{
    if lines.len() == 0 {
        Seq::empty()
    } else {
        let rest = assignments_of(lines.drop_last());
        match first_assignment(lines.last()) {
            Some(a) => rest.push(a),
            None => rest,
        }
    }
}

/// The lines of `s` (std `str::lines`).
pub fn lines(s: &str) -> (r: Vec<String>)
    ensures
        views(r@) == lines_of(s@),
{
    let v = chars_of(s);
    let mut out: Vec<String> = Vec::new();
    let mut i: usize = 0;
    while i < v.len()
        invariant
            v@ == s@,
            i <= v.len(),
            views(out@) + lines_from(s@, i as int) == lines_of(s@),
        decreases v.len() - i,
    {
        proof {
            lemma_newline_from(v@, i as int);
        }
        let mut e: usize = i;
        while e < v.len() && v[e] != '\n'
            invariant
                i <= e <= v.len(),
                newline_from(v@, e as int) == newline_from(v@, i as int),
            decreases v.len() - e,
        {
            e = e + 1;
        }
        let ghost before = views(out@);
        if e < v.len() {
            let end = if e > i && v[e - 1] == '\r' {
                e - 1
            } else {
                e
            };
            let l = piece(&v, i, end);
            assert(l@ =~= strip_cr(s@.subrange(i as int, e as int)));
            out.push(l);
            assert(views(out@) =~= before.push(l@));
            assert(before + lines_from(s@, i as int) =~= views(out@) + lines_from(
                s@,
                e + 1,
            ));
            i = e + 1;
        } else {
            let l = piece(&v, i, e);
            out.push(l);
            assert(views(out@) =~= before.push(l@));
            assert(lines_from(s@, e as int) =~= Seq::<Seq<char>>::empty());
            assert(before + lines_from(s@, i as int) =~= views(out@) + lines_from(
                s@,
                e as int,
            ));
            i = e;
        }
    }
    assert(lines_from(s@, i as int) =~= Seq::<Seq<char>>::empty());
    assert(views(out@) + Seq::<Seq<char>>::empty() =~= views(out@));
    out
}

/// The views of name/value pairs.
pub open spec fn pair_seq(v: Seq<(String, String)>) -> Seq<(Seq<char>, Seq<char>)> {
    v.map_values(|p: (String, String)| (p.0@, p.1@))
}

/// The assignments `$NAME="value"` that the output of a build script makes:
/// the leftmost one of each line, in order.
pub fn build_assignments(output: &str) -> (r: Vec<(String, String)>)
    ensures
        pair_seq(r@) == assignments_of(lines_of(output@)),
{
    let ls = lines(output);
    let mut out: Vec<(String, String)> = Vec::new();
    let mut i: usize = 0;
    while i < ls.len()
        invariant
            i <= ls.len(),
            views(ls@) == lines_of(output@),
            pair_seq(out@) == assignments_of(views(ls@).take(i as int)),
        decreases ls.len() - i,
    {
        let ghost before = pair_seq(out@);
        assert(views(ls@).take(i + 1).drop_last() =~= views(ls@).take(i as int));
        match first_assignment_of(ls[i].as_str()) {
            Some(a) => {
                out.push(a);
                assert(pair_seq(out@) =~= before.push((out@.last().0@, out@.last().1@)));
            },
            None => {},
        }
        i = i + 1;
    }
    assert(views(ls@).take(i as int) =~= views(ls@));
    out
}

} // verus!
