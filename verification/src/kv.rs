//! A table of string keys and string values in which each key occurs once.
//!
//! The entries keep the order in which their keys were first added; a value
//! written under a key that is present replaces the old value in place.
use vstd::prelude::*;
use crate::text::{contains, contains_seq, opt_view, replace, replace_all, to_lowercase, unicode_lowercase};

verus! {

/// The character views of a sequence of key/value pairs.
pub open spec fn pair_views(v: Seq<(String, String)>) -> Seq<(Seq<char>, Seq<char>)> {
    v.map_values(|p: (String, String)| (p.0@, p.1@))
}

/// No key occurs twice among the entries.
pub open spec fn unique_keys(e: Seq<(Seq<char>, Seq<char>)>) -> bool {
    forall|i: int, j: int| 0 <= i < e.len() && 0 <= j < e.len() && i != j ==> e[i].0 != e[j].0
}

/// Some entry has key `k`.
pub open spec fn has_key(e: Seq<(Seq<char>, Seq<char>)>, k: Seq<char>) -> bool {
    exists|i: int| 0 <= i < e.len() && e[i].0 == k
}

/// The position of the entry with key `k` (meaningful when there is one).
pub open spec fn key_index(e: Seq<(Seq<char>, Seq<char>)>, k: Seq<char>) -> int {
    choose|i: int| 0 <= i < e.len() && e[i].0 == k
}

/// The value stored under `k`, if any.
pub open spec fn lookup(e: Seq<(Seq<char>, Seq<char>)>, k: Seq<char>) -> Option<Seq<char>> {
    if has_key(e, k) {
        Some(e[key_index(e, k)].1)
    } else {
        None
    }
}

/// The entries after writing `v` under `k`: the value of an existing entry is
/// replaced in place, otherwise a new entry goes at the end.
pub open spec fn inserted(e: Seq<(Seq<char>, Seq<char>)>, k: Seq<char>, v: Seq<char>) -> Seq<
    (Seq<char>, Seq<char>),
> {
    if has_key(e, k) {
        e.update(key_index(e, k), (k, v))
    } else {
        e.push((k, v))
    }
}

/// Writing one key keeps every other key that was there.
pub proof fn lemma_inserted_keeps_key(
    e: Seq<(Seq<char>, Seq<char>)>,
    k: Seq<char>,
    v: Seq<char>,
    k2: Seq<char>,
)
    requires
        has_key(e, k2),
        k2 != k,
    ensures
        has_key(inserted(e, k, v), k2),
{
    let j = key_index(e, k2);
    assert(inserted(e, k, v)[j].0 == k2);
}

/// Writing then reading a key gives what was written; other keys keep their
/// values; the keys stay unique.
pub proof fn lemma_inserted(e: Seq<(Seq<char>, Seq<char>)>, k: Seq<char>, v: Seq<char>)
    requires
        unique_keys(e),
    ensures
        unique_keys(inserted(e, k, v)),
        lookup(inserted(e, k, v), k) == Some(v),
        forall|k2: Seq<char>| k2 != k ==> lookup(inserted(e, k, v), k2) == lookup(e, k2),
{
    let n = inserted(e, k, v);
    if has_key(e, k) {
        let i = key_index(e, k);
        assert(n[i].0 == k);
        assert(has_key(n, k));
    } else {
        assert(n[e.len() as int].0 == k);
        assert(has_key(n, k));
    }
    assert forall|k2: Seq<char>| k2 != k implies lookup(n, k2) == lookup(e, k2) by {
        if has_key(e, k2) {
            let j = key_index(e, k2);
            assert(n[j].0 == k2);
            assert(has_key(n, k2));
        }
        if has_key(n, k2) {
            let j = key_index(n, k2);
            assert(e[j].0 == k2);
        }
    }
}

/// Adding the matching entries of a table keeps keys unique.
pub proof fn lemma_add_matching_unique(
    acc: Seq<(Seq<char>, Seq<char>)>,
    e: Seq<(Seq<char>, Seq<char>)>,
    search: Seq<char>,
)
    requires
        unique_keys(acc),
    ensures
        unique_keys(add_matching(acc, e, search)),
    decreases e.len(),
{
    if e.len() > 0 {
        lemma_add_matching_unique(acc, e.drop_last(), search);
        let a = add_matching(acc, e.drop_last(), search);
        lemma_inserted(a, e.last().0, e.last().1);
    }
}

/// Adding the matching entries for several tags keeps keys unique.
pub proof fn lemma_add_tagged_unique(
    acc: Seq<(Seq<char>, Seq<char>)>,
    e: Seq<(Seq<char>, Seq<char>)>,
    tags: Seq<Seq<char>>,
)
    requires
        unique_keys(acc),
    ensures
        unique_keys(add_tagged(acc, e, tags)),
    decreases tags.len(),
{
    if tags.len() > 0 {
        lemma_add_tagged_unique(acc, e, tags.drop_last());
        lemma_add_matching_unique(add_tagged(acc, e, tags.drop_last()), e, tags.last());
    }
}

/// With keys unique, the last entry is what its key reads, and every other
/// key reads as it does without the last entry.
pub proof fn lemma_lookup_last(e: Seq<(Seq<char>, Seq<char>)>, k: Seq<char>)
    requires
        unique_keys(e),
        e.len() > 0,
    ensures
        k == e.last().0 ==> lookup(e, k) == Some(e.last().1) && !has_key(e.drop_last(), k),
        k != e.last().0 ==> lookup(e, k) == lookup(e.drop_last(), k) && (has_key(e, k)
            <==> has_key(e.drop_last(), k)),
{
    let d = e.drop_last();
    let n = e.len() - 1;
    if k == e.last().0 {
        assert(e[n].0 == k);
        let i = key_index(e, k);
        assert(i == n);
        if has_key(d, k) {
            let j = key_index(d, k);
            assert(e[j].0 == k);
        }
    } else {
        if has_key(e, k) {
            let i = key_index(e, k);
            assert(i != n);
            assert(d[i].0 == k);
            let j = key_index(d, k);
            assert(e[j].0 == k);
        }
        if has_key(d, k) {
            let j = key_index(d, k);
            assert(e[j].0 == k);
        }
    }
}

/// Some tag of `tags` occurs in key `k`.
pub open spec fn matches_any(k: Seq<char>, tags: Seq<Seq<char>>) -> bool {
    exists|i: int| 0 <= i < tags.len() && contains_seq(k, #[trigger] tags[i])
}

/// What a key reads after adding the entries of `e` that contain `search`:
/// the value in `e` where the key contains `search` and `e` holds it, else
/// what it read before.
pub proof fn lemma_add_matching_lookup(
    acc: Seq<(Seq<char>, Seq<char>)>,
    e: Seq<(Seq<char>, Seq<char>)>,
    search: Seq<char>,
    k: Seq<char>,
)
    requires
        unique_keys(acc),
        unique_keys(e),
    ensures
        lookup(add_matching(acc, e, search), k) == if contains_seq(k, search) && has_key(e, k) {
            lookup(e, k)
        } else {
            lookup(acc, k)
        },
    decreases e.len(),
{
    if e.len() > 0 {
        let d = e.drop_last();
        assert(unique_keys(d));
        lemma_add_matching_lookup(acc, d, search, k);
        lemma_add_matching_unique(acc, d, search);
        lemma_lookup_last(e, k);
        let a = add_matching(acc, d, search);
        if contains_seq(e.last().0, search) {
            lemma_inserted(a, e.last().0, e.last().1);
        }
        if k == e.last().0 {
            assert(has_key(e, k)) by {
                assert(e[e.len() - 1].0 == k);
            }
        }
    }
}

/// What a key reads after adding the entries of `e` for each tag of `tags`:
/// the value in `e` where some tag occurs in the key and `e` holds it, else
/// what it read before.
pub proof fn lemma_add_tagged_lookup(
    acc: Seq<(Seq<char>, Seq<char>)>,
    e: Seq<(Seq<char>, Seq<char>)>,
    tags: Seq<Seq<char>>,
    k: Seq<char>,
)
    requires
        unique_keys(acc),
        unique_keys(e),
    ensures
        lookup(add_tagged(acc, e, tags), k) == if matches_any(k, tags) && has_key(e, k) {
            lookup(e, k)
        } else {
            lookup(acc, k)
        },
    decreases tags.len(),
{
    if tags.len() > 0 {
        let d = tags.drop_last();
        lemma_add_tagged_lookup(acc, e, d, k);
        lemma_add_tagged_unique(acc, e, d);
        lemma_add_matching_lookup(add_tagged(acc, e, d), e, tags.last(), k);
        if matches_any(k, tags) {
            let i = choose|i: int| 0 <= i < tags.len() && contains_seq(k, #[trigger] tags[i]);
            if i < tags.len() - 1 {
                assert(d[i] == tags[i]);
                assert(matches_any(k, d));
            }
        }
        if matches_any(k, d) {
            let i = choose|i: int| 0 <= i < d.len() && contains_seq(k, #[trigger] d[i]);
            assert(tags[i] == d[i]);
        }
        if contains_seq(k, tags.last()) {
            assert(contains_seq(k, tags[tags.len() - 1]));
        }
    }
}

/// A table of string keys and values, each key once.
pub struct StringMap {
    entries: Vec<(String, String)>,
}

impl StringMap {
    #[verifier::type_invariant]
    spec fn keys_unique(self) -> bool {
        unique_keys(pair_views(self.entries@))
    }

    /// The entries, in order.
    pub closed spec fn entries(&self) -> Seq<(Seq<char>, Seq<char>)> {
        pair_views(self.entries@)
    }

    /// An empty table.
    pub fn new() -> (m: Self)
        ensures
            m.entries() == Seq::<(Seq<char>, Seq<char>)>::empty(),
    {
        let m = StringMap { entries: Vec::new() };
        assert(m.entries() =~= Seq::<(Seq<char>, Seq<char>)>::empty());
        m
    }

    /// The number of entries.
    pub fn len(&self) -> (n: usize)
        ensures
            n == self.entries().len(),
    {
        self.entries.len()
    }

    /// No key occurs twice in the table: a fact that holds of every table,
    /// for callers that reason about its entries.
    pub fn keys_are_unique(&self)
        ensures
            unique_keys(self.entries()),
    {
        proof {
            use_type_invariant(self);
        }
    }

    /// The key and value of entry `i`.
    pub fn entry(&self, i: usize) -> (r: (&String, &String))
        requires
            i < self.entries().len(),
        ensures
            (r.0@, r.1@) == self.entries()[i as int],
    {
        let p = &self.entries[i];
        (&p.0, &p.1)
    }

    /// The position of the entry with key `key`, if there is one.
    pub fn find(&self, key: &str) -> (r: Option<usize>)
        ensures
            r is None <==> !has_key(self.entries(), key@),
            r matches Some(i) ==> i < self.entries().len() && self.entries()[i as int].0 == key@
                && i == key_index(self.entries(), key@),
    {
        proof {
            use_type_invariant(self);
        }
        let k = crate::text::owned(key);
        let mut i: usize = 0;
        while i < self.entries.len()
            invariant
                k@ == key@,
                unique_keys(self.entries()),
                i <= self.entries@.len(),
                forall|j: int| 0 <= j < i ==> self.entries()[j].0 != key@,
            decreases self.entries@.len() - i,
        {
            if self.entries[i].0 == k {
                assert(self.entries()[i as int].0 == key@);
                assert(has_key(self.entries(), key@));
                let ghost k = key_index(self.entries(), key@);
                assert(k == i);
                return Some(i);
            }
            i = i + 1;
        }
        None
    }

    /// The value stored under `key`, if any.
    pub fn get(&self, key: &str) -> (r: Option<String>)
        ensures
            opt_view(r) == lookup(self.entries(), key@),
    {
        match self.find(key) {
            Some(i) => Some(self.entries[i].1.clone()),
            None => None,
        }
    }

    /// Writes `val` under `key` (std `HashMap::insert`): an existing entry
    /// gets the new value, otherwise a new entry is added.
    pub fn insert(&mut self, key: String, val: String)
        ensures
            final(self).entries() == inserted(old(self).entries(), key@, val@),
            unique_keys(final(self).entries()),
            lookup(final(self).entries(), key@) == Some(val@),
            forall|k2: Seq<char>|
                k2 != key@ ==> lookup(final(self).entries(), k2) == lookup(old(self).entries(), k2),
    {
        proof {
            use_type_invariant(&*self);
            lemma_inserted(self.entries(), key@, val@);
        }
        match self.find(key.as_str()) {
            Some(i) => {
                let ghost kv = key@;
                let ghost vv = val@;
                let mut e: Vec<(String, String)> = Vec::new();
                std::mem::swap(&mut e, &mut self.entries);
                e.set(i, (key, val));
                assert(pair_views(e@) =~= inserted(old(self).entries(), kv, vv));
                self.entries = e;
            },
            None => {
                let ghost kv = key@;
                let ghost vv = val@;
                let mut e: Vec<(String, String)> = Vec::new();
                std::mem::swap(&mut e, &mut self.entries);
                e.push((key, val));
                assert(pair_views(e@) =~= inserted(old(self).entries(), kv, vv));
                self.entries = e;
            },
        }
    }

    /// Replaces the value stored under `key` when there is one, and reports
    /// whether there was.
    pub fn set_existing(&mut self, key: &str, val: String) -> (found: bool)
        ensures
            found == has_key(old(self).entries(), key@),
            found ==> final(self).entries() == inserted(old(self).entries(), key@, val@),
            !found ==> final(self).entries() == old(self).entries(),
    {
        proof {
            use_type_invariant(&*self);
            lemma_inserted(self.entries(), key@, val@);
        }
        match self.find(key) {
            Some(i) => {
                let ghost vv = val@;
                let k = self.entries[i].0.clone();
                let mut e: Vec<(String, String)> = Vec::new();
                std::mem::swap(&mut e, &mut self.entries);
                e.set(i, (k, val));
                assert(pair_views(e@) =~= inserted(old(self).entries(), key@, vv));
                self.entries = e;
                true
            },
            None => false,
        }
    }
}

impl Clone for StringMap {
    fn clone(&self) -> (r: Self)
        ensures
            r.entries() == self.entries(),
    {
        proof {
            use_type_invariant(self);
        }
        let mut v: Vec<(String, String)> = Vec::new();
        let mut i: usize = 0;
        while i < self.entries.len()
            invariant
                i <= self.entries@.len(),
                v@ == self.entries@.take(i as int),
            decreases self.entries@.len() - i,
        {
            let a = self.entries[i].0.clone();
            let b = self.entries[i].1.clone();
            v.push((a, b));
            i = i + 1;
            assert(v@ =~= self.entries@.take(i as int));
        }
        assert(self.entries@.take(i as int) =~= self.entries@);
        StringMap { entries: v }
    }
}

/// The settings of the program: keys and values as the configuration
/// holds them. A key is looked up by its lower-case form (as
/// `str::to_lowercase` gives it), the form in which the configuration stores
/// keys.
pub struct ConfigTable {
    table: StringMap,
}

/// The value that the settings `e` give for `key`.
pub open spec fn setting(e: Seq<(Seq<char>, Seq<char>)>, key: Seq<char>) -> Option<Seq<char>> {
    lookup(e, unicode_lowercase(key))
}

impl ConfigTable {
    /// The entries, in the order in which they were set.
    pub closed spec fn entries(&self) -> Seq<(Seq<char>, Seq<char>)> {
        self.table.entries()
    }

    /// No key occurs twice among the settings.
    pub fn keys_are_unique(&self)
        ensures
            unique_keys(self.entries()),
    {
        self.table.keys_are_unique();
    }

    /// Settings with no entry.
    pub fn new() -> (c: Self)
        ensures
            c.entries() == Seq::<(Seq<char>, Seq<char>)>::empty(),
    {
        ConfigTable { table: StringMap::new() }
    }

    /// Stores `value` under `key` as given.
    pub fn set(&mut self, key: String, value: String)
        ensures
            final(self).entries() == inserted(old(self).entries(), key@, value@),
    {
        self.table.insert(key, value);
    }

    /// The number of entries.
    pub fn len(&self) -> (n: usize)
        ensures
            n == self.entries().len(),
    {
        self.table.len()
    }

    /// The key and value of entry `i`.
    pub fn entry(&self, i: usize) -> (r: (&String, &String))
        requires
            i < self.entries().len(),
        ensures
            (r.0@, r.1@) == self.entries()[i as int],
    {
        self.table.entry(i)
    }

    /// The value of setting `key` (as `Config::get::<String>` reads it).
    pub fn get(&self, key: &str) -> (r: Option<String>)
        ensures
            opt_view(r) == setting(self.entries(), key@),
    {
        let k = to_lowercase(key);
        self.table.get(k.as_str())
    }
}

/// The entries `acc` after writing into them, in order, every entry of `e`
/// whose key contains `search`.
pub open spec fn add_matching(
    acc: Seq<(Seq<char>, Seq<char>)>,
    e: Seq<(Seq<char>, Seq<char>)>,
    search: Seq<char>,
) -> Seq<(Seq<char>, Seq<char>)>
    decreases e.len(),
{
    if e.len() == 0 {
        acc
    } else {
        let a = add_matching(acc, e.drop_last(), search);
        if contains_seq(e.last().0, search) {
            inserted(a, e.last().0, e.last().1)
        } else {
            a
        }
    }
}

/// The entries `acc` after adding the matching entries of `e` for each tag
/// of `tags` in turn.
pub open spec fn add_tagged(
    acc: Seq<(Seq<char>, Seq<char>)>,
    e: Seq<(Seq<char>, Seq<char>)>,
    tags: Seq<Seq<char>>,
) -> Seq<(Seq<char>, Seq<char>)>
    decreases tags.len(),
{
    if tags.len() == 0 {
        acc
    } else {
        add_matching(add_tagged(acc, e, tags.drop_last()), e, tags.last())
    }
}

/// `s` after replacing, for each entry of `e` in order, every occurrence of
/// its key by its value.
pub open spec fn replaced_by_entries(s: Seq<char>, e: Seq<(Seq<char>, Seq<char>)>) -> Seq<char>
    decreases e.len(),
{
    if e.len() == 0 {
        s
    } else {
        replace_all(replaced_by_entries(s, e.drop_last()), e.last().0, e.last().1)
    }
}

impl StringMap {
    /// Adds, in order, every setting whose key contains `search`, with the
    /// value stored under that key.
    pub fn add_matching(&mut self, other: &ConfigTable, search: &str)
        ensures
            final(self).entries() == add_matching(old(self).entries(), other.entries(), search@),
    {
        let mut i: usize = 0;
        while i < other.len()
            invariant
                i <= other.entries().len(),
                self.entries() == add_matching(
                    old(self).entries(),
                    other.entries().take(i as int),
                    search@,
                ),
            decreases other.entries().len() - i,
        {
            let (k, v) = other.entry(i);
            assert(other.entries().take(i + 1).drop_last() =~= other.entries().take(i as int));
            if contains(k.as_str(), search) {
                self.insert(k.clone(), v.clone());
            }
            i = i + 1;
        }
        assert(other.entries().take(i as int) =~= other.entries());
    }

    /// Adds the settings matching each tag in turn.
    pub fn add_tagged(&mut self, other: &ConfigTable, tags: &Vec<&str>)
        ensures
            final(self).entries() == add_tagged(
                old(self).entries(),
                other.entries(),
                tags@.map_values(|t: &str| t@),
            ),
    {
        let ghost tv = tags@.map_values(|t: &str| t@);
        let mut i: usize = 0;
        while i < tags.len()
            invariant
                i <= tags@.len(),
                tv == tags@.map_values(|t: &str| t@),
                self.entries() == add_tagged(old(self).entries(), other.entries(), tv.take(i as int)),
            decreases tags@.len() - i,
        {
            assert(tv.take(i + 1).drop_last() =~= tv.take(i as int));
            assert(tv.take(i + 1).last() == tags@[i as int]@);
            self.add_matching(other, tags[i]);
            i = i + 1;
        }
        assert(tv.take(i as int) =~= tv);
    }

    /// `s` after replacing each key of this table by its value, entry by
    /// entry in order.
    pub fn replace_keys(&self, s: String) -> (r: String)
        ensures
            r@ == replaced_by_entries(s@, self.entries()),
    {
        let mut out = s;
        let mut i: usize = 0;
        assert(self.entries().take(0) =~= Seq::<(Seq<char>, Seq<char>)>::empty());
        while i < self.entries.len()
            invariant
                i <= self.entries().len(),
                out@ == replaced_by_entries(s@, self.entries().take(i as int)),
            decreases self.entries().len() - i,
        {
            let (k, v) = self.entry(i);
            out = replace(out.as_str(), k.as_str(), v.as_str());
            i = i + 1;
            assert(self.entries().take(i as int).drop_last() =~= self.entries().take(i - 1));
        }
        assert(self.entries().take(i as int) =~= self.entries());
        out
    }
}

} // verus!
