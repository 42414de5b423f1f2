//! Character-level string operations with their specifications.
//!
//! Every function here works on the characters of a string (its `@` view),
//! which is how the rest of the library states what it builds.
use vstd::prelude::*;
use vstd::string::StringExecFns;

verus! {

broadcast use vstd::string::group_string_axioms;

// ---------------------------------------------------------------------------
// Specifications
// ---------------------------------------------------------------------------

/// `p` occurs in `s` starting at position `i`.
pub open spec fn occurs_at(s: Seq<char>, p: Seq<char>, i: int) -> bool {
    0 <= i && i + p.len() <= s.len() && s.subrange(i, i + p.len()) == p
}

/// `p` occurs somewhere in `s` (the empty sequence occurs in every string).
pub open spec fn contains_seq(s: Seq<char>, p: Seq<char>) -> bool {
    exists|i: int| occurs_at(s, p, i)
}

/// `s` ends with `p`.
pub open spec fn ends_with_seq(s: Seq<char>, p: Seq<char>) -> bool {
    p.len() <= s.len() && s.skip(s.len() - p.len()) == p
}

/// Replaces every occurrence of `pat` in `s` by `rep`, scanning left to right
/// and never letting two replaced occurrences overlap (what `str::replace`
/// does). The empty pattern occurs before every character and at the end.
pub open spec fn replace_all(s: Seq<char>, pat: Seq<char>, rep: Seq<char>) -> Seq<char>
    decreases s.len(),
{
    if pat.len() == 0 {
        if s.len() == 0 {
            rep
        } else {
            rep + seq![s[0]] + replace_all(s.skip(1), pat, rep)
        }
    } else if s.len() == 0 {
        s
    } else if occurs_at(s, pat, 0) {
        rep + replace_all(s.skip(pat.len() as int), pat, rep)
    } else {
        seq![s[0]] + replace_all(s.skip(1), pat, rep)
    }
}

/// Replacing a pattern that does not occur changes nothing.
pub proof fn lemma_replace_absent(s: Seq<char>, pat: Seq<char>, rep: Seq<char>)
    requires
        pat.len() > 0,
        !contains_seq(s, pat),
    ensures
        replace_all(s, pat, rep) == s,
    decreases s.len(),
{
    if s.len() > 0 {
        assert(!occurs_at(s, pat, 0));
        let t = s.skip(1);
        assert forall|i: int| !occurs_at(t, pat, i) by {
            if occurs_at(t, pat, i) {
                assert(s.subrange(i + 1, i + 1 + pat.len()) =~= t.subrange(i, i + pat.len()));
                assert(occurs_at(s, pat, i + 1));
            }
        }
        lemma_replace_absent(t, pat, rep);
        assert(seq![s[0]] + t =~= s);
    }
}

/// ASCII upper-case letters become lower case; every other character stays.
pub open spec fn ascii_lower_char(c: char) -> char {
    if 'A' <= c && c <= 'Z' {
        ((c as u32) + 32) as char
    } else {
        c
    }
}

/// `s` with every ASCII upper-case letter made lower case.
pub open spec fn ascii_lower(s: Seq<char>) -> Seq<char> {
    s.map_values(|c: char| ascii_lower_char(c))
}

/// Every character of `s` is an ASCII character.
pub open spec fn all_ascii(s: Seq<char>) -> bool {
    forall|i: int| 0 <= i < s.len() ==> (#[trigger] s[i] as u32) < 128
}

/// `c` is an ASCII letter.
pub open spec fn is_ascii_alpha(c: char) -> bool {
    ('a' <= c && c <= 'z') || ('A' <= c && c <= 'Z')
}

/// Every character of `s` is an ASCII letter.
pub open spec fn all_ascii_alpha(s: Seq<char>) -> bool {
    forall|i: int| 0 <= i < s.len() ==> is_ascii_alpha(#[trigger] s[i])
}

/// The part of `s` after the last `sep`, or all of `s` when it holds no `sep`
/// (the last piece of `s.split(sep)`).
pub open spec fn last_piece(s: Seq<char>, sep: char) -> Seq<char>
    decreases s.len(),
{
    if s.len() == 0 {
        s
    } else if s.last() == sep {
        Seq::empty()
    } else {
        last_piece(s.drop_last(), sep).push(s.last())
    }
}

/// The part of `s` before the first `sep`, or all of `s` when it holds no `sep`
/// (the first piece of `s.split(sep)`).
pub open spec fn first_piece(s: Seq<char>, sep: char) -> Seq<char>
    decreases s.len(),
{
    if s.len() == 0 {
        s
    } else if s[0] == sep {
        Seq::empty()
    } else {
        seq![s[0]] + first_piece(s.drop_first(), sep)
    }
}

/// The pieces of `parts`, each followed by `term`, one after the other.
pub open spec fn terminated(parts: Seq<Seq<char>>, term: Seq<char>) -> Seq<char>
    decreases parts.len(),
{
    if parts.len() == 0 {
        Seq::empty()
    } else {
        terminated(parts.drop_last(), term) + parts.last() + term
    }
}

/// Commands joined into one line, each followed by the terminator, join in
/// parts: the line of `a` then `b` is the line of `a` followed by the line
/// of `b`.
pub proof fn law_terminated_concat(a: Seq<Seq<char>>, b: Seq<Seq<char>>, term: Seq<char>)
    ensures
        terminated(a + b, term) == terminated(a, term) + terminated(b, term),
    decreases b.len(),
{
    if b.len() == 0 {
        assert(a + b =~= a);
        assert(terminated(b, term) =~= Seq::<char>::empty());
        assert(terminated(a, term) + Seq::<char>::empty() =~= terminated(a, term));
    } else {
        law_terminated_concat(a, b.drop_last(), term);
        assert((a + b).drop_last() =~= a + b.drop_last());
        assert((a + b).last() == b.last());
        assert(terminated(a, term) + terminated(b.drop_last(), term) + b.last() + term
            =~= terminated(a, term) + (terminated(b.drop_last(), term) + b.last() + term));
    }
}

/// The pieces of `parts` with `sep` between each two neighbours.
pub open spec fn joined(parts: Seq<Seq<char>>, sep: Seq<char>) -> Seq<char>
    decreases parts.len(),
{
    if parts.len() == 0 {
        Seq::empty()
    } else if parts.len() == 1 {
        parts[0]
    } else {
        joined(parts.drop_last(), sep) + sep + parts.last()
    }
}

/// `s` followed by spaces up to `width` characters (as `{:<width}` lays out a
/// string that is shorter than `width`).
pub open spec fn pad_right(s: Seq<char>, width: nat) -> Seq<char> {
    if s.len() >= width {
        s
    } else {
        s + Seq::new((width - s.len()) as nat, |i: int| ' ')
    }
}

/// The decimal digits of `n`, most significant first, without leading zeros.
pub open spec fn decimal(n: nat) -> Seq<char>
    decreases n,
{
    if n < 10 {
        seq![digit_char(n)]
    } else {
        decimal(n / 10).push(digit_char(n % 10))
    }
}

/// The character of a decimal digit.
pub open spec fn digit_char(d: nat) -> char {
    (('0' as u32) + d) as char
}

/// `c` is an ASCII decimal digit.
pub open spec fn is_digit(c: char) -> bool {
    '0' <= c && c <= '9'
}

/// The value of a sequence of decimal digits.
pub open spec fn digits_value(s: Seq<char>) -> nat
    decreases s.len(),
{
    if s.len() == 0 {
        0
    } else {
        digits_value(s.drop_last()) * 10 + ((s.last() as u32) - ('0' as u32)) as nat
    }
}

/// The text of an unsigned number without its optional leading `+`.
pub open spec fn unsigned_digits(s: Seq<char>) -> Seq<char> {
    if s.len() > 0 && s[0] == '+' {
        s.drop_first()
    } else {
        s
    }
}

/// The byte that a sequence of digits stands for, if it is one or more
/// decimal digits whose value fits in a byte.
pub open spec fn digits_u8(d: Seq<char>) -> Option<u8> {
    if d.len() > 0 && (forall|i: int| 0 <= i < d.len() ==> is_digit(#[trigger] d[i]))
        && digits_value(d) <= 255 {
        Some(digits_value(d) as u8)
    } else {
        None
    }
}

/// What parsing `s` as a `u8` gives: an optional `+` followed by at least one
/// decimal digit, with a value that fits in a byte.
pub open spec fn parse_u8_spec(s: Seq<char>) -> Option<u8> {
    digits_u8(unsigned_digits(s))
}

// ---------------------------------------------------------------------------
// Trusted items
// ---------------------------------------------------------------------------

/// Appends one character to a string (std `String::push`): the string
/// afterwards is the old one followed by `c`.
#[verifier::external_body]
pub(crate) fn push_char(s: &mut String, c: char)
    ensures
        final(s)@ == old(s)@.push(c),
{
    s.push(c);
}

/// What `str::to_lowercase` gives for a string: its Unicode lower-case form,
/// which takes tables to state and looks at the context of some characters
/// (a capital sigma at the end of a word becomes a final sigma).
pub uninterp spec fn unicode_lowercase(s: Seq<char>) -> Seq<char>;

/// Calls `str::to_lowercase`. Its result is named `unicode_lowercase` of the
/// argument. One more claim is made: on a string of ASCII characters only it
/// lower-cases as `str::to_ascii_lowercase` does (whose documentation points
/// to `to_lowercase` for lower-casing non-ASCII characters in addition to
/// ASCII ones); Unicode maps `A`..`Z` to `a`..`z` and leaves every other
/// ASCII character as it is.
#[verifier::external_body]
pub(crate) fn to_lowercase(s: &str) -> (r: String)
    ensures
        r@ == unicode_lowercase(s@),
        all_ascii(s@) ==> r@ == ascii_lower(s@),
{
    s.to_lowercase()
}

// ---------------------------------------------------------------------------
// Executable functions
// ---------------------------------------------------------------------------

/// The characters of a string slice, in order.
pub fn chars_of(s: &str) -> (v: Vec<char>)
    ensures
        v@ == s@,
{
    let mut v: Vec<char> = Vec::new();
    for c in it: s.chars()
        invariant
            v@ == it.seq().take(it.index()),
            it.seq() == s@,
    {
        v.push(c);
    }
    v
}

/// A copy of a string slice.
pub fn owned(s: &str) -> (r: String)
    ensures
        r@ == s@,
{
    String::from_str(s)
}

/// Whether `p` occurs in `s` at position `i`.
fn occurs_at_exec(s: &Vec<char>, p: &Vec<char>, i: usize) -> (b: bool)
    ensures
        b == occurs_at(s@, p@, i as int),
{
    if i > s.len() || p.len() > s.len() - i {
        return false;
    }
    let mut j: usize = 0;
    while j < p.len()
        invariant
            i + p.len() <= s.len(),
            j <= p.len(),
            forall|k: int| 0 <= k < j ==> s@[i + k] == p@[k],
        decreases p.len() - j,
    {
        if s[i + j] != p[j] {
            assert(s@.subrange(i as int, i + p.len())[j as int] != p@[j as int]);
            return false;
        }
        j = j + 1;
    }
    assert(s@.subrange(i as int, i + p.len()) =~= p@);
    true
}

/// Whether `pat` occurs in `s`.
pub fn contains(s: &str, pat: &str) -> (b: bool)
    ensures
        b == contains_seq(s@, pat@),
{
    let sv = chars_of(s);
    let pv = chars_of(pat);
    if pv.len() == 0 {
        assert(s@.subrange(0, 0) =~= pat@);
        assert(occurs_at(s@, pat@, 0));
        return true;
    }
    if pv.len() > sv.len() {
        assert(!contains_seq(s@, pat@));
        return false;
    }
    let mut i: usize = 0;
    while i <= sv.len() - pv.len()
        invariant
            0 < pv.len() <= sv.len(),
            sv@ == s@,
            pv@ == pat@,
            forall|k: int| 0 <= k < i ==> !occurs_at(s@, pat@, k),
        decreases sv.len() - i + 1,
    {
        if occurs_at_exec(&sv, &pv, i) {
            return true;
        }
        i = i + 1;
    }
    assert forall|k: int| !occurs_at(s@, pat@, k) by {
        if 0 <= k && k < i {
        }
    }
    false
}

/// Whether `s` ends with `pat`.
pub fn ends_with(s: &str, pat: &str) -> (b: bool)
    ensures
        b == ends_with_seq(s@, pat@),
{
    let sv = chars_of(s);
    let pv = chars_of(pat);
    if pv.len() > sv.len() {
        return false;
    }
    let r = occurs_at_exec(&sv, &pv, sv.len() - pv.len());
    assert(s@.subrange(s@.len() - pat@.len(), s@.len() as int) =~= s@.skip(
        s@.len() - pat@.len(),
    ));
    r
}

proof fn lemma_replace_step(s: Seq<char>, pat: Seq<char>, rep: Seq<char>, i: int)
    requires
        pat.len() > 0,
        0 <= i < s.len(),
    ensures
        occurs_at(s, pat, i) ==> replace_all(s.skip(i), pat, rep) == rep + replace_all(
            s.skip(i + pat.len()),
            pat,
            rep,
        ),
        !occurs_at(s, pat, i) ==> replace_all(s.skip(i), pat, rep) == seq![s[i]]
            + replace_all(s.skip(i + 1), pat, rep),
{
    let t = s.skip(i);
    if i + pat.len() <= s.len() {
        assert(t.subrange(0, pat.len() as int) =~= s.subrange(i, i + pat.len()));
    }
    if occurs_at(s, pat, i) {
        assert(occurs_at(t, pat, 0));
        assert(t.skip(pat.len() as int) =~= s.skip(i + pat.len()));
    } else {
        assert(!occurs_at(t, pat, 0));
        assert(t.skip(1) =~= s.skip(i + 1));
    }
}

/// `rep` before every character of `s` and at its end (std `str::replace`
/// with the empty pattern).
fn interleave(s: &Vec<char>, rep: &str) -> (r: String)
    ensures
        r@ == replace_all(s@, Seq::<char>::empty(), rep@),
{
    let mut out = String::new();
    let mut i: usize = 0;
    assert(s@.skip(0) =~= s@);
    while i < s.len()
        invariant
            i <= s.len(),
            replace_all(s@, Seq::<char>::empty(), rep@) == out@ + replace_all(
                s@.skip(i as int),
                Seq::<char>::empty(),
                rep@,
            ),
        decreases s.len() - i,
    {
        let ghost before = out@;
        out.append(rep);
        push_char(&mut out, s[i]);
        assert(s@.skip(i as int).skip(1) =~= s@.skip(i + 1));
        assert(before + (rep@ + seq![s@[i as int]] + replace_all(
            s@.skip(i + 1),
            Seq::<char>::empty(),
            rep@,
        )) =~= out@ + replace_all(s@.skip(i + 1), Seq::<char>::empty(), rep@));
        i = i + 1;
    }
    assert(s@.skip(i as int) =~= Seq::<char>::empty());
    out.append(rep);
    out
}

/// Replaces every occurrence of `pat` in `s` by `rep` (std `str::replace`).
pub fn replace(s: &str, pat: &str, rep: &str) -> (r: String)
    ensures
        r@ == replace_all(s@, pat@, rep@),
{
    let sv = chars_of(s);
    let pv = chars_of(pat);
    if pv.len() == 0 {
        assert(pat@ =~= Seq::<char>::empty());
        return interleave(&sv, rep);
    }
    let mut out = String::new();
    let mut i: usize = 0;
    assert(s@.skip(0) =~= s@);
    while i < sv.len()
        invariant
            sv@ == s@,
            pv@ == pat@,
            pat@.len() > 0,
            i <= sv.len(),
            replace_all(s@, pat@, rep@) == out@ + replace_all(s@.skip(i as int), pat@, rep@),
        decreases sv.len() - i,
    {
        proof {
            lemma_replace_step(s@, pat@, rep@, i as int);
        }
        if occurs_at_exec(&sv, &pv, i) {
            let ghost before = out@;
            out.append(rep);
            assert(before + (rep@ + replace_all(s@.skip(i + pv.len()), pat@, rep@))
                =~= out@ + replace_all(s@.skip(i + pv.len()), pat@, rep@));
            i = i + pv.len();
        } else {
            let ghost before = out@;
            push_char(&mut out, sv[i]);
            assert(before + (seq![s@[i as int]] + replace_all(s@.skip(i + 1), pat@, rep@))
                =~= out@ + replace_all(s@.skip(i + 1), pat@, rep@));
            i = i + 1;
        }
    }
    assert(s@.skip(i as int) =~= Seq::<char>::empty());
    out
}


/// The character view of an optional string.
pub open spec fn opt_view(o: Option<String>) -> Option<Seq<char>> {
    match o {
        Some(s) => Some(s@),
        None => None,
    }
}

/// The character views of a sequence of strings.
pub open spec fn views(v: Seq<String>) -> Seq<Seq<char>> {
    v.map_values(|x: String| x@)
}

/// A copy of a string.
pub fn copy(s: &String) -> (r: String)
    ensures
        r@ == s@,
{
    s.clone()
}

/// `s` with every ASCII upper-case letter made lower case (std
/// `str::to_ascii_lowercase`).
pub fn to_ascii_lower(s: &str) -> (r: String)
    ensures
        r@ == ascii_lower(s@),
{
    let v = chars_of(s);
    let mut out = String::new();
    let mut i: usize = 0;
    while i < v.len()
        invariant
            v@ == s@,
            i <= v.len(),
            out@ == ascii_lower(s@).take(i as int),
        decreases v.len() - i,
    {
        let c = v[i];
        let l = if 'A' <= c && c <= 'Z' {
            char_from_u32((c as u32) + 32)
        } else {
            c
        };
        push_char(&mut out, l);
        i = i + 1;
        assert(out@ =~= ascii_lower(s@).take(i as int));
    }
    assert(ascii_lower(s@).take(v.len() as int) =~= ascii_lower(s@));
    out
}

/// The character with code `n`, for an ASCII code.
fn char_from_u32(n: u32) -> (c: char)
    requires
        n < 128,
    ensures
        c == n as char,
{
    let b: u8 = n as u8;
    b as char
}

/// Whether every character of `s` is an ASCII letter.
pub fn is_all_ascii_alpha(s: &str) -> (b: bool)
    ensures
        b == all_ascii_alpha(s@),
{
    let v = chars_of(s);
    let mut i: usize = 0;
    while i < v.len()
        invariant
            v@ == s@,
            i <= v.len(),
            forall|k: int| 0 <= k < i ==> is_ascii_alpha(#[trigger] s@[k]),
        decreases v.len() - i,
    {
        let c = v[i];
        if !(('a' <= c && c <= 'z') || ('A' <= c && c <= 'Z')) {
            return false;
        }
        i = i + 1;
    }
    true
}

proof fn lemma_last_piece(s: Seq<char>, sep: char, k: int)
    requires
        -1 <= k < s.len(),
        k >= 0 ==> s[k] == sep,
        forall|j: int| k < j < s.len() ==> s[j] != sep,
    ensures
        last_piece(s, sep) == s.skip(k + 1),
    decreases s.len(),
{
    if s.len() == 0 {
        assert(s.skip(0) =~= s);
    } else if s.len() == k + 1 {
        assert(s.skip(k + 1) =~= Seq::<char>::empty());
    } else {
        lemma_last_piece(s.drop_last(), sep, k);
        assert(s.drop_last().skip(k + 1).push(s.last()) =~= s.skip(k + 1));
    }
}

proof fn lemma_first_piece(s: Seq<char>, sep: char, k: int)
    requires
        0 <= k <= s.len(),
        k < s.len() ==> s[k] == sep,
        forall|j: int| 0 <= j < k ==> s[j] != sep,
    ensures
        first_piece(s, sep) == s.take(k),
    decreases s.len(),
{
    if s.len() == 0 {
        assert(s.take(0) =~= s);
    } else if k == 0 {
        assert(s.take(0) =~= Seq::<char>::empty());
    } else {
        lemma_first_piece(s.drop_first(), sep, k - 1);
        assert(seq![s[0]] + s.drop_first().take(k - 1) =~= s.take(k));
    }
}

/// The characters of `v` from `from` up to (not including) `to`, as a string.
fn substring(v: &Vec<char>, from: usize, to: usize) -> (r: String)
    requires
        from <= to <= v.len(),
    ensures
        r@ == v@.subrange(from as int, to as int),
{
    let mut out = String::new();
    let mut i: usize = from;
    while i < to
        invariant
            from <= i <= to <= v.len(),
            out@ == v@.subrange(from as int, i as int),
        decreases to - i,
    {
        push_char(&mut out, v[i]);
        i = i + 1;
        assert(out@ =~= v@.subrange(from as int, i as int));
    }
    out
}

/// The last piece of `s` split at `sep` (std `s.split(sep).last()`, which
/// always has a piece).
pub fn last_piece_of(s: &str, sep: char) -> (r: String)
    ensures
        r@ == last_piece(s@, sep),
{
    let v = chars_of(s);
    let mut k: usize = v.len();
    // search backwards for the last separator
    while k > 0
        invariant
            v@ == s@,
            k <= v.len(),
            forall|j: int| k <= j < v.len() ==> v@[j] != sep,
        decreases k,
    {
        if v[k - 1] == sep {
            proof {
                lemma_last_piece(s@, sep, k - 1);
            }
            return substring(&v, k, v.len());
        }
        k = k - 1;
    }
    proof {
        lemma_last_piece(s@, sep, -1);
    }
    assert(s@.skip(0) =~= s@.subrange(0, s@.len() as int));
    substring(&v, 0, v.len())
}

/// The first piece of `s` split at `sep` (std `s.split(sep).next()`, which
/// always has a piece).
pub fn first_piece_of(s: &str, sep: char) -> (r: String)
    ensures
        r@ == first_piece(s@, sep),
{
    let v = chars_of(s);
    let mut k: usize = 0;
    while k < v.len() && v[k] != sep
        invariant
            v@ == s@,
            k <= v.len(),
            forall|j: int| 0 <= j < k ==> v@[j] != sep,
        decreases v.len() - k,
    {
        k = k + 1;
    }
    proof {
        lemma_first_piece(s@, sep, k as int);
    }
    assert(s@.take(k as int) =~= s@.subrange(0, k as int));
    substring(&v, 0, k)
}

/// The strings of `parts`, each followed by `term`, one after the other.
pub fn concat_terminated(parts: &Vec<String>, term: &str) -> (r: String)
    ensures
        r@ == terminated(views(parts@), term@),
{
    let mut out = String::new();
    let mut i: usize = 0;
    while i < parts.len()
        invariant
            i <= parts.len(),
            out@ == terminated(views(parts@).take(i as int), term@),
        decreases parts.len() - i,
    {
        out.append(parts[i].as_str());
        out.append(term);
        i = i + 1;
        assert(views(parts@).take(i as int).drop_last() =~= views(parts@).take(i - 1));
    }
    assert(views(parts@).take(parts.len() as int) =~= views(parts@));
    out
}

/// The strings of `parts` with `sep` between each two neighbours (std
/// `join`).
pub fn join(parts: &Vec<String>, sep: &str) -> (r: String)
    ensures
        r@ == joined(views(parts@), sep@),
{
    let mut out = String::new();
    let mut i: usize = 0;
    while i < parts.len()
        invariant
            i <= parts.len(),
            out@ == joined(views(parts@).take(i as int), sep@),
        decreases parts.len() - i,
    {
        if i > 0 {
            out.append(sep);
        }
        out.append(parts[i].as_str());
        i = i + 1;
        assert(views(parts@).take(i as int).drop_last() =~= views(parts@).take(i - 1));
    }
    assert(views(parts@).take(parts.len() as int) =~= views(parts@));
    out
}

/// `s` followed by spaces up to `width` characters.
pub fn padded(s: &str, width: usize) -> (r: String)
    ensures
        r@ == pad_right(s@, width as nat),
{
    let v = chars_of(s);
    let mut out = owned(s);
    let mut n: usize = v.len();
    while n < width
        invariant
            v@ == s@,
            v.len() <= n <= width || n == v.len(),
            out@ == s@ + Seq::new((n - v.len()) as nat, |i: int| ' '),
        decreases width - n,
    {
        push_char(&mut out, ' ');
        n = n + 1;
        assert(out@ =~= s@ + Seq::new((n - v.len()) as nat, |i: int| ' '));
    }
    if v.len() >= width {
        assert(out@ =~= s@);
    } else {
        assert(n == width);
    }
    out
}

/// The decimal text of a number is made of digits, does not start with `+`,
/// and stands for the number.
proof fn lemma_decimal_digits(n: nat)
    ensures
        decimal(n).len() > 0,
        forall|i: int| 0 <= i < decimal(n).len() ==> is_digit(#[trigger] decimal(n)[i]),
        digits_value(decimal(n)) == n,
    decreases n,
{
    if n < 10 {
        let d = decimal(n);
        assert(d.drop_last() =~= Seq::<char>::empty());
        assert((digit_char(n) as u32) == ('0' as u32) + n);
        assert(digits_value(d) == digits_value(d.drop_last()) * 10 + ((d.last() as u32) - ('0' as u32)) as nat);
        assert(digits_value(Seq::<char>::empty()) == 0);
    } else {
        lemma_decimal_digits(n / 10);
        let d = decimal(n);
        assert(d.drop_last() =~= decimal(n / 10));
        assert((digit_char(n % 10) as u32) == ('0' as u32) + n % 10);
        assert(d.last() == digit_char(n % 10));
        let q = digits_value(decimal(n / 10));
        assert(q == n / 10);
        assert(digits_value(d) == q * 10 + n % 10);
        assert((n / 10) * 10 + n % 10 == n) by (nonlinear_arith);
        assert(q * 10 == (n / 10) * 10);
        assert forall|i: int| 0 <= i < d.len() implies is_digit(#[trigger] d[i]) by {
            if i < d.len() - 1 {
                assert(d[i] == decimal(n / 10)[i]);
            }
        }
    }
}

/// Reading back a byte written in decimal (as `to_string` writes it and
/// `parse::<u8>` reads it) gives the byte.
pub proof fn law_decimal_parse_round_trip(n: u8)
    ensures
        parse_u8_spec(decimal(n as nat)) == Some(n),
{
    lemma_decimal_digits(n as nat);
    let d = decimal(n as nat);
    assert(is_digit(d[0]));
    assert(unsigned_digits(d) == d);
}

/// The decimal representation of `n` (std `to_string` of an integer).
pub fn decimal_string(n: u64) -> (r: String)
    ensures
        r@ == decimal(n as nat),
    decreases n,
{
    if n < 10 {
        let mut out = String::new();
        let c = char_from_u32(('0' as u32) + (n as u32));
        push_char(&mut out, c);
        assert(out@ =~= seq![digit_char(n as nat)]);
        out
    } else {
        let mut out = decimal_string(n / 10);
        let c = char_from_u32(('0' as u32) + ((n % 10) as u32));
        push_char(&mut out, c);
        out
    }
}

proof fn lemma_digits_value_push(d: Seq<char>, c: char)
    ensures
        digits_value(d.push(c)) == digits_value(d) * 10 + ((c as u32) - ('0' as u32)) as nat,
{
    assert(d.push(c).drop_last() =~= d);
}

proof fn lemma_digits_value_monotone(d: Seq<char>, n: int)
    requires
        0 <= n <= d.len(),
        forall|k: int| 0 <= k < d.len() ==> is_digit(#[trigger] d[k]),
    ensures
        digits_value(d) >= digits_value(d.take(n)),
    decreases d.len(),
{
    if n == d.len() {
        assert(d.take(n) =~= d);
    } else {
        lemma_digits_value_monotone(d.drop_last(), n);
        assert(d.drop_last().take(n) =~= d.take(n));
    }
}

/// Parses a byte from its decimal text (std `str::parse::<u8>`): an optional
/// `+`, then one or more digits whose value fits in a byte.
pub fn parse_u8(s: &str) -> (r: Option<u8>)
    ensures
        r == parse_u8_spec(s@),
{
    let v = chars_of(s);
    let start: usize = if v.len() > 0 && v[0] == '+' { 1 } else { 0 };
    let ghost d = unsigned_digits(s@);
    assert(d =~= s@.skip(start as int));
    if start >= v.len() {
        assert(d.len() == 0);
        return None;
    }
    let mut value: u32 = 0;
    let mut i: usize = start;
    assert(d.take(0) =~= Seq::<char>::empty());
    while i < v.len()
        invariant
            v@ == s@,
            start <= i <= v.len(),
            d == s@.skip(start as int),
            d == unsigned_digits(s@),
            d.len() == v.len() - start,
            forall|k: int| 0 <= k < i - start ==> is_digit(#[trigger] d[k]),
            value as nat == digits_value(d.take(i - start)),
            value <= 255,
        decreases v.len() - i,
    {
        let c = v[i];
        assert(d[i - start] == c);
        if !('0' <= c && c <= '9') {
            assert(!is_digit(d[i - start]));
            assert(digits_u8(d) is None);
            return None;
        }
        let dv: u32 = (c as u32) - ('0' as u32);
        proof {
            assert(d.take(i - start + 1) =~= d.take(i - start).push(c));
            lemma_digits_value_push(d.take(i - start), c);
        }
        if value * 10 + dv > 255 {
            proof {
                if forall|k: int| 0 <= k < d.len() ==> is_digit(#[trigger] d[k]) {
                    lemma_digits_value_monotone(d, i - start + 1);
                }
            }
            assert(digits_u8(d) is None);
            return None;
        }
        value = value * 10 + dv;
        i = i + 1;
    }
    assert(d.take(i - start) =~= d);
    Some(value as u8)
}

/// Whether two strings hold the same characters.
pub fn equals(a: &str, b: &str) -> (r: bool)
    ensures
        r == (a@ == b@),
{
    let av = chars_of(a);
    let bv = chars_of(b);
    if av.len() != bv.len() {
        return false;
    }
    let mut i: usize = 0;
    while i < av.len()
        invariant
            av@ == a@,
            bv@ == b@,
            av.len() == bv.len(),
            i <= av.len(),
            forall|j: int| 0 <= j < i ==> av@[j] == bv@[j],
        decreases av.len() - i,
    {
        if av[i] != bv[i] {
            return false;
        }
        i = i + 1;
    }
    assert(a@ =~= b@);
    true
}

/// A copy of a list of strings.
pub fn clone_strings(v: &Vec<String>) -> (r: Vec<String>)
    ensures
        r@ == v@,
{
    let mut r: Vec<String> = Vec::new();
    let mut i: usize = 0;
    while i < v.len()
        invariant
            i <= v.len(),
            r@ == v@.take(i as int),
        decreases v.len() - i,
    {
        r.push(v[i].clone());
        i = i + 1;
        assert(r@ =~= v@.take(i as int));
    }
    assert(v@.take(i as int) =~= v@);
    r
}

/// The first position at which `p` occurs in `s` (meaningful when it occurs).
pub open spec fn first_index(s: Seq<char>, p: Seq<char>) -> int {
    choose|i: int| occurs_at(s, p, i) && forall|j: int| 0 <= j < i ==> !occurs_at(s, p, j)
}

/// `s` split at the first occurrence of `p`: the text before it and the text
/// after it (std `str::split_once`).
pub open spec fn split_once_spec(s: Seq<char>, p: Seq<char>) -> Option<(Seq<char>, Seq<char>)> {
    if contains_seq(s, p) {
        Some((s.take(first_index(s, p)), s.skip(first_index(s, p) + p.len())))
    } else {
        None
    }
}

/// The first position at which `p` occurs in `s`, if it occurs.
fn find_first(sv: &Vec<char>, pv: &Vec<char>) -> (r: Option<usize>)
    ensures
        r is None ==> !contains_seq(sv@, pv@),
        r matches Some(i) ==> i + pv@.len() <= sv@.len() && occurs_at(sv@, pv@, i as int)
            && forall|j: int| 0 <= j < i ==> !occurs_at(sv@, pv@, j),
{
    if pv.len() == 0 {
        assert(sv@.subrange(0, 0) =~= pv@);
        return Some(0);
    }
    let mut i: usize = 0;
    while i < sv.len() && pv.len() <= sv.len() - i
        invariant
            pv.len() > 0,
            forall|k: int| 0 <= k < i ==> !occurs_at(sv@, pv@, k),
        decreases sv.len() - i,
    {
        if occurs_at_exec(sv, pv, i) {
            return Some(i);
        }
        i = i + 1;
    }
    assert forall|k: int| !occurs_at(sv@, pv@, k) by {
        if 0 <= k && k < i {
        }
    }
    None
}

/// Splits `s` at the first occurrence of `pat`.
pub fn split_once(s: &str, pat: &str) -> (r: Option<(String, String)>)
    ensures
        match split_once_spec(s@, pat@) {
            Some((a, b)) => r matches Some(x) && x.0@ == a && x.1@ == b,
            None => r is None,
        },
{
    let sv = chars_of(s);
    let pv = chars_of(pat);
    match find_first(&sv, &pv) {
        Some(i) => {
            assert(i + pv@.len() <= sv@.len());
            let ghost f = first_index(s@, pat@);
            assert(f == i) by {
                if f < i {
                } else if f > i {
                }
            }
            let n = pv.len();
            assert(i + n <= sv.len());
            let end: usize = i + n;
            let a = substring(&sv, 0, i);
            let b = substring(&sv, end, sv.len());
            assert(a@ =~= s@.take(i as int));
            assert(b@ =~= s@.skip(i + pat@.len()));
            Some((a, b))
        },
        None => None,
    }
}

/// The string made of the first `n` characters of `v`.
pub fn string_of_prefix(v: &Vec<char>, n: usize) -> (s: String)
    requires
        n <= v.len(),
    ensures
        s@ == v@.take(n as int),
{
    let r = substring(v, 0, n);
    assert(v@.subrange(0, n as int) =~= v@.take(n as int));
    r
}

} // verus!
