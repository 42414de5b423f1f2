//! Names of things: what a template, a tool or an object is called, and the
//! name under which a local resource is uploaded.
use vstd::prelude::*;
use crate::objects::{remote_file_name, AurrObject};
use crate::text::{chars_of, last_piece, last_piece_of, owned, replace, string_of_prefix};
use crate::tools::Tool;
use crate::table::{value_of, SortedTable};

verus! {

broadcast use vstd::string::group_string_axioms;

/// Something with a name.
pub trait HasName {
    /// The name.
    spec fn name_spec(&self) -> Seq<char>;

    /// The name.
    fn name(&self) -> (r: &str)
        ensures
            r@ == self.name_spec(),
    ;
}

/// Something that can give the name it is known by.
pub trait GetName {
    /// Whether there is a name to give.
    spec fn has_name(&self) -> bool;

    /// The name that `get_name` gives.
    spec fn name_of(&self) -> Seq<char>;

    /// The name; there must be one.
    fn get_name(&self) -> (r: String)
        requires
            self.has_name(),
        ensures
            r@ == self.name_of(),
    ;
}

/// A local resource to upload.
pub enum LocalResource {
    /// A path, as text.
    Text(String),
    /// A directory entry, by its file name.
    Entry(String),
    /// A tool.
    Tool(Tool),
    /// An object.
    AurrObject(AurrObject),
}

/// The last part of a path that `/` splits, a trailing `/` ignored (the last
/// piece that `split_terminator("/")` gives); the path must not be empty.
pub open spec fn last_term_piece(s: Seq<char>) -> Seq<char> {
    if s.len() > 0 && s.last() == '/' {
        last_piece(s.drop_last(), '/')
    } else {
        last_piece(s, '/')
    }
}

impl GetName for LocalResource {
    open spec fn has_name(&self) -> bool {
        match self {
            LocalResource::Text(s) => s@.len() > 0,
            _ => true,
        }
    }

    open spec fn name_of(&self) -> Seq<char> {
        match self {
            LocalResource::Text(s) => last_term_piece(s@),
            LocalResource::Entry(n) => n@,
            LocalResource::Tool(t) => t.name@,
            LocalResource::AurrObject(o) => o.name_view(),
        }
    }

    /// The name: the last part of a path, the file name of an entry, the
    /// name of a tool or object.
    fn get_name(&self) -> (r: String) {
        match self {
            LocalResource::Entry(n) => n.clone(),
            LocalResource::Text(s) => {
                let v = chars_of(s.as_str());
                let l = v.len();
                if v[l - 1] == '/' {
                    let t = string_of_prefix(&v, l - 1);
                    assert(v@.take(l - 1) =~= s@.drop_last());
                    last_piece_of(t.as_str(), '/')
                } else {
                    last_piece_of(s.as_str(), '/')
                }
            },
            LocalResource::Tool(t) => t.name.clone(),
            LocalResource::AurrObject(o) => owned(o.name()),
        }
    }
}

impl LocalResource {
    /// The name of the file that the resource is uploaded as: for an object
    /// the last part of its local path in either separator style, otherwise
    /// its name (which there must be).
    pub fn get_base_name(&self) -> (r: String)
        requires
            self.has_name(),
        ensures
            match self {
                LocalResource::AurrObject(o) => r@ == remote_file_name(o.local_path_view()),
                _ => r@ == self.name_of(),
            },
    {
        match self {
            LocalResource::AurrObject(ao) => {
                let p = replace(ao.local_path().as_str(), "\\", "/");
                last_piece_of(p.as_str(), '/')
            },
            _ => self.get_name(),
        }
    }
}

impl LocalResource {
    /// What uploading the resource under `blob_name` reads and writes: the
    /// local file and the blob name. A path is stored under `blob_name`, a
    /// tool's file too, an object's file under the object's name; a
    /// directory entry is read by the caller.
    pub fn upload_source(&self, blob_name: &str) -> (r: Option<(String, String)>)
        ensures
            match self {
                LocalResource::Text(s) => r matches Some(p) && p.0@ == s@ && p.1@ == blob_name@,
                LocalResource::Tool(t) => r matches Some(p) && p.0@ == t.localpath@ && p.1@
                    == blob_name@,
                LocalResource::AurrObject(o) => r matches Some(p) && p.0@ == o.local_path_view()
                    && p.1@ == o.name_view(),
                LocalResource::Entry(_) => r is None,
            },
    {
        match self {
            LocalResource::Text(s) => Some((s.clone(), owned(blob_name))),
            LocalResource::Tool(t) => Some((t.localpath.clone(), owned(blob_name))),
            LocalResource::AurrObject(o) => Some((o.local_path().clone(), owned(o.name()))),
            LocalResource::Entry(_) => None,
        }
    }
}

/// The last of `values` that has the name `k`, if any.
pub open spec fn last_named<T: HasName>(values: Seq<T>, k: Seq<char>) -> Option<T>
    decreases values.len(),
{
    if values.len() == 0 {
        None
    } else if values.last().name_spec() == k {
        Some(values.last())
    } else {
        last_named(values.drop_last(), k)
    }
}

/// A table of `values` by name; of values with the same name the last one
/// stays.
pub fn by_name<T: HasName>(values: Vec<T>) -> (r: SortedTable<T>)
    ensures
        forall|k: Seq<char>| #[trigger] value_of(r.entries(), k) == last_named(values@, k),
{
    let ghost all = values@;
    let mut rest = values;
    let n = rest.len();
    let mut t: SortedTable<T> = SortedTable::new();
    let mut i: usize = 0;
    while rest.len() > 0
        invariant
            i <= all.len(),
            all.len() == n,
            rest@ == all.skip(i as int),
            forall|k: Seq<char>| #[trigger] value_of(t.entries(), k) == last_named(all.take(i as int), k),
        decreases rest@.len(),
    {
        let v = rest.remove(0);
        assert(v == all[i as int]);
        let ghost before = t.entries();
        let name = owned(v.name());
        t.insert(name, v);
        proof {
            assert(all.take(i + 1).drop_last() =~= all.take(i as int));
            assert(all.take(i + 1).last() == all[i as int]);
        }
        i = i + 1;
        assert(rest@ =~= all.skip(i as int));
    }
    assert(all.take(i as int) =~= all);
    t
}

} // verus!
