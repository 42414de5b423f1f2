//! The decisions of the command line: what to list, which case to run, and
//! which answers and listings count.
use vstd::prelude::*;
use crate::error::AurrError;
use crate::text::{ascii_lower, chars_of, contains, contains_seq, equals, owned, string_of_prefix, to_ascii_lower};

verus! {

broadcast use vstd::string::group_string_axioms;

/// What `ls` lists.
pub enum ListObject {
    /// Cloud containers, or the blobs under a cloud path.
    Cloud { cloud_string: Option<String> },
    /// The configuration.
    Config,
    /// The tools whose listing holds the filter.
    Tools { filter: Option<String> },
    /// One case template, or all of the case directory.
    Case { path: Option<String> },
    /// The cloud service managers.
    Csm { filter: Option<String> },
}

/// What `run` runs.
pub enum RunObject {
    /// A case template, by path or by name.
    Case { path: Option<String>, name: Option<String> },
}

/// Where the case template to run is found.
pub enum CaseSource {
    /// In the file at this path.
    Path(String),
    /// Under this name in the case directory.
    Name(String),
}

impl RunObject {
    /// Where the case to run is: the path if one is given, else the name; an
    /// error when neither is.
    pub fn case_source(&self) -> (r: Result<CaseSource, AurrError>)
        ensures
            match self {
                RunObject::Case { path, name } => match path {
                    Some(p) => r matches Ok(CaseSource::Path(q)) && q@ == p@,
                    None => match name {
                        Some(n) => r matches Ok(CaseSource::Name(m)) && m@ == n@,
                        None => r matches Err(e) && e is NoCaseGiven,
                    },
                },
            },
    {
        match self {
            RunObject::Case { path, name } => match path {
                Some(p) => Ok(CaseSource::Path(p.clone())),
                None => match name {
                    Some(n) => Ok(CaseSource::Name(n.clone())),
                    None => Err(AurrError::NoCaseGiven),
                },
            },
        }
    }
}

/// Whether a listing is shown under a filter: it must hold the filter's
/// text (any listing holds the empty text of no filter).
pub fn filter_matches(listing: &str, filter: &Option<String>) -> (r: bool)
    ensures
        r == match filter {
            Some(f) => contains_seq(listing@, f@),
            None => contains_seq(listing@, Seq::<char>::empty()),
        },
{
    match filter {
        Some(f) => contains(listing, f.as_str()),
        None => {
            proof {
                reveal_strlit("");
                assert(""@ =~= Seq::<char>::empty());
            }
            contains(listing, "")
        },
    }
}

/// Whether an answer to a confirmation question confirms: it must be
/// exactly `yes`.
pub fn confirmed(answer: &str) -> (r: bool)
    ensures
        r == (answer@ == "yes"@),
{
    equals(answer, "yes")
}

/// Whether an answer to the local set-up question agrees: in ASCII lower
/// case it holds `yes`.
pub fn setup_confirmed(answer: &str) -> (r: bool)
    ensures
        r == contains_seq(ascii_lower(answer@), "yes"@),
{
    let l = to_ascii_lower(answer);
    contains(l.as_str(), "yes")
}

/// The position of the dot that starts the extension of the last part of
/// path `s` (the last `.` after the last `/`), or -1 when there is none.
pub open spec fn extension_dot(s: Seq<char>) -> int
    decreases s.len(),
{
    if s.len() == 0 {
        -1
    } else if s.last() == '.' {
        s.len() - 1
    } else if s.last() == '/' {
        -1
    } else {
        extension_dot(s.drop_last())
    }
}

proof fn lemma_extension_dot(s: Seq<char>, k: int)
    requires
        0 <= k <= s.len(),
        forall|j: int| k <= j < s.len() ==> s[j] != '.' && s[j] != '/',
    ensures
        extension_dot(s) == extension_dot(s.take(k)),
    decreases s.len() - k,
{
    if k == s.len() {
        assert(s.take(k) =~= s);
    } else {
        lemma_extension_dot(s.drop_last(), k);
        assert(s.drop_last().take(k) =~= s.take(k));
    }
}

/// The name of a log file made at time `stamp`: the stamp goes before the
/// extension of the file name (after its last `.`), or at the end when the
/// file name has none, joined by `_`.
pub open spec fn log_file_name_spec(path: Seq<char>, stamp: Seq<char>) -> Seq<char> {
    let k = extension_dot(path);
    if k >= 0 {
        path.take(k) + "_"@ + stamp + "."@ + path.skip(k + 1)
    } else {
        path + "_"@ + stamp
    }
}

/// The name of a log file made at time `stamp`.
pub fn log_file_name(path: &str, stamp: &str) -> (r: String)
    ensures
        r@ == log_file_name_spec(path@, stamp@),
{
    let v = chars_of(path);
    let mut k: usize = v.len();
    while k > 0
        invariant
            v@ == path@,
            k <= v.len(),
            forall|j: int| k <= j < v.len() ==> v@[j] != '.' && v@[j] != '/',
        ensures
            v@ == path@,
            k <= v.len(),
            forall|j: int| k <= j < v.len() ==> v@[j] != '.' && v@[j] != '/',
            k > 0 ==> v@[k - 1] == '/',
        decreases k,
    {
        if v[k - 1] == '/' {
            break;
        }
        if v[k - 1] == '.' {
            proof {
                lemma_extension_dot(path@, k as int);
                assert(path@.take(k as int).drop_last() =~= path@.take(k - 1));
            }
            let mut out = string_of_prefix(&v, k - 1);
            out.append("_");
            out.append(stamp);
            out.append(".");
            let mut i: usize = k;
            let ghost base = out@;
            while i < v.len()
                invariant
                    v@ == path@,
                    k <= i <= v.len(),
                    out@ == base + path@.subrange(k as int, i as int),
                decreases v.len() - i,
            {
                crate::text::push_char(&mut out, v[i]);
                i = i + 1;
                assert(out@ =~= base + path@.subrange(k as int, i as int));
            }
            assert(path@.subrange(k as int, v.len() as int) =~= path@.skip(k as int));
            return out;
        }
        k = k - 1;
    }
    proof {
        lemma_extension_dot(path@, k as int);
        if k > 0 {
            assert(path@.take(k as int).last() == '/');
        } else {
            assert(path@.take(0) =~= Seq::<char>::empty());
        }
    }
    let mut out = owned(path);
    out.append("_");
    out.append(stamp);
    out
}

} // verus!
