//! Tables keyed by strings and kept in ascending key order.
//!
//! Keys are ordered character by character by code point, which is the order
//! of `String` in std (and so the order in which a `BTreeMap<String, _>`
//! hands its entries out).
use vstd::prelude::*;

verus! {

/// `a` comes strictly before `b` in code point order.
pub open spec fn text_less(a: Seq<char>, b: Seq<char>) -> bool
    decreases a.len(),
{
    if a.len() == 0 {
        b.len() > 0
    } else if b.len() == 0 {
        false
    } else if a[0] < b[0] {
        true
    } else if a[0] == b[0] {
        text_less(a.drop_first(), b.drop_first())
    } else {
        false
    }
}

/// No string comes before itself.
pub proof fn lemma_text_less_irreflexive(a: Seq<char>)
    ensures
        !text_less(a, a),
    decreases a.len(),
{
    if a.len() > 0 {
        lemma_text_less_irreflexive(a.drop_first());
    }
}

/// Coming before is transitive.
pub proof fn lemma_text_less_transitive(a: Seq<char>, b: Seq<char>, c: Seq<char>)
    requires
        text_less(a, b),
        text_less(b, c),
    ensures
        text_less(a, c),
    decreases a.len(),
{
    if a.len() > 0 && b.len() > 0 && c.len() > 0 {
        if a[0] == b[0] && b[0] == c[0] {
            lemma_text_less_transitive(a.drop_first(), b.drop_first(), c.drop_first());
        }
    }
}

/// Two different strings are ordered one way or the other.
pub proof fn lemma_text_less_total(a: Seq<char>, b: Seq<char>)
    ensures
        a == b || text_less(a, b) || text_less(b, a),
    decreases a.len(),
{
    if a.len() > 0 && b.len() > 0 {
        if a[0] == b[0] {
            lemma_text_less_total(a.drop_first(), b.drop_first());
            if a.drop_first() == b.drop_first() {
                assert(a =~= seq![a[0]] + a.drop_first());
                assert(b =~= seq![b[0]] + b.drop_first());
            }
        }
    } else if a.len() == 0 && b.len() == 0 {
        assert(a =~= b);
    }
}

/// At most one of the two comes first.
pub proof fn lemma_text_less_asymmetric(a: Seq<char>, b: Seq<char>)
    requires
        text_less(a, b),
    ensures
        !text_less(b, a),
{
    if text_less(b, a) {
        lemma_text_less_transitive(a, b, a);
        lemma_text_less_irreflexive(a);
    }
}

/// Whether the string `a` comes strictly before `b`.
pub fn less(a: &str, b: &str) -> (r: bool)
    ensures
        r == text_less(a@, b@),
{
    let av = crate::text::chars_of(a);
    let bv = crate::text::chars_of(b);
    let mut i: usize = 0;
    while i < av.len() && i < bv.len() && av[i] == bv[i]
        invariant
            av@ == a@,
            bv@ == b@,
            i <= av.len(),
            i <= bv.len(),
            forall|j: int| 0 <= j < i ==> av@[j] == bv@[j],
        decreases av.len() - i,
    {
        i = i + 1;
    }
    proof {
        lemma_less_after_common_prefix(a@, b@, i as int);
    }
    if i == av.len() {
        i < bv.len()
    } else if i == bv.len() {
        false
    } else {
        av[i] < bv[i]
    }
}

proof fn lemma_less_after_common_prefix(a: Seq<char>, b: Seq<char>, i: int)
    requires
        0 <= i <= a.len(),
        i <= b.len(),
        forall|j: int| 0 <= j < i ==> a[j] == b[j],
    ensures
        text_less(a, b) == text_less(a.skip(i), b.skip(i)),
    decreases i,
{
    if i > 0 {
        lemma_less_after_common_prefix(a.drop_first(), b.drop_first(), i - 1);
        assert(a.drop_first().skip(i - 1) =~= a.skip(i));
        assert(b.drop_first().skip(i - 1) =~= b.skip(i));
    } else {
        assert(a.skip(0) =~= a);
        assert(b.skip(0) =~= b);
    }
}

/// The keys of `e` are in strictly ascending order.
pub open spec fn ascending<V>(e: Seq<(Seq<char>, V)>) -> bool {
    forall|i: int, j: int| 0 <= i < j < e.len() ==> text_less(#[trigger] e[i].0, #[trigger] e[j].0)
}

/// Some entry of `e` has key `k`.
pub open spec fn holds_key<V>(e: Seq<(Seq<char>, V)>, k: Seq<char>) -> bool {
    exists|i: int| 0 <= i < e.len() && e[i].0 == k
}

/// The position of the entry with key `k` (meaningful when there is one).
pub open spec fn position<V>(e: Seq<(Seq<char>, V)>, k: Seq<char>) -> int {
    choose|i: int| 0 <= i < e.len() && e[i].0 == k
}

/// The value under `k`, if any.
pub open spec fn value_of<V>(e: Seq<(Seq<char>, V)>, k: Seq<char>) -> Option<V> {
    if holds_key(e, k) {
        Some(e[position(e, k)].1)
    } else {
        None
    }
}

/// The keys of `e`, in order.
pub open spec fn key_seq<V>(e: Seq<(Seq<char>, V)>) -> Seq<Seq<char>> {
    e.map_values(|p: (Seq<char>, V)| p.0)
}

/// Strictly ascending keys are unique, so the position of a key is the one
/// place where it stands.
pub proof fn lemma_position<V>(e: Seq<(Seq<char>, V)>, i: int)
    requires
        ascending(e),
        0 <= i < e.len(),
    ensures
        holds_key(e, e[i].0),
        position(e, e[i].0) == i,
{
    let k = e[i].0;
    assert(holds_key(e, k));
    let p = position(e, k);
    if p < i {
        assert(text_less(e[p].0, e[i].0));
        lemma_text_less_irreflexive(k);
    } else if p > i {
        assert(text_less(e[i].0, e[p].0));
        lemma_text_less_irreflexive(k);
    }
}

/// A table from string keys to values, in ascending key order, each key once
/// (the entries of a `BTreeMap<String, V>`).
pub struct SortedTable<V> {
    entries: Vec<(String, V)>,
}

/// The key views of table entries.
pub open spec fn entry_views<V>(v: Seq<(String, V)>) -> Seq<(Seq<char>, V)> {
    v.map_values(|p: (String, V)| (p.0@, p.1))
}

impl<V> SortedTable<V> {
    #[verifier::type_invariant]
    spec fn well_ordered(self) -> bool {
        ascending(entry_views(self.entries@))
    }

    /// The entries, in ascending key order.
    pub closed spec fn entries(&self) -> Seq<(Seq<char>, V)> {
        entry_views(self.entries@)
    }

    /// The entries of any table are in strictly ascending key order.
    pub fn ordered(&self)
        ensures
            ascending(self.entries()),
    {
        proof {
            use_type_invariant(self);
        }
    }

    /// An empty table.
    pub fn new() -> (t: Self)
        ensures
            t.entries() == Seq::<(Seq<char>, V)>::empty(),
    {
        let t = SortedTable { entries: Vec::new() };
        assert(t.entries() =~= Seq::<(Seq<char>, V)>::empty());
        t
    }

    /// The number of entries.
    pub fn len(&self) -> (n: usize)
        ensures
            n == self.entries().len(),
    {
        self.entries.len()
    }

    /// The key and value of entry `i`.
    pub fn entry(&self, i: usize) -> (r: (&String, &V))
        requires
            i < self.entries().len(),
        ensures
            r.0@ == self.entries()[i as int].0,
            r.1 == self.entries()[i as int].1,
    {
        let p = &self.entries[i];
        (&p.0, &p.1)
    }

    /// The keys, in ascending order (std `keys().cloned().collect()`).
    pub fn keys(&self) -> (r: Vec<String>)
        ensures
            crate::text::views(r@) == key_seq(self.entries()),
    {
        let mut r: Vec<String> = Vec::new();
        let mut i: usize = 0;
        while i < self.entries.len()
            invariant
                i <= self.entries@.len(),
                r@.len() == i,
                forall|j: int| 0 <= j < i ==> #[trigger] r@[j]@ == self.entries()[j].0,
            decreases self.entries@.len() - i,
        {
            r.push(self.entries[i].0.clone());
            i = i + 1;
        }
        assert(crate::text::views(r@) =~= key_seq(self.entries()));
        r
    }

    /// Where `key` stands, or where it would be inserted: the first position
    /// whose key does not come before `key`.
    fn seek(&self, key: &str) -> (r: usize)
        ensures
            r <= self.entries().len(),
            forall|j: int| 0 <= j < r ==> text_less(#[trigger] self.entries()[j].0, key@),
            r < self.entries().len() ==> !text_less(self.entries()[r as int].0, key@),
    {
        let mut i: usize = 0;
        while i < self.entries.len() && less(self.entries[i].0.as_str(), key)
            invariant
                i <= self.entries@.len(),
                forall|j: int| 0 <= j < i ==> text_less(#[trigger] self.entries()[j].0, key@),
            decreases self.entries@.len() - i,
        {
            i = i + 1;
        }
        i
    }

    /// The position of the entry with key `key`, if any.
    pub fn find(&self, key: &str) -> (r: Option<usize>)
        ensures
            r is None <==> !holds_key(self.entries(), key@),
            r matches Some(i) ==> i < self.entries().len() && self.entries()[i as int].0 == key@
                && position(self.entries(), key@) == i,
    {
        proof {
            use_type_invariant(self);
        }
        let i = self.seek(key);
        let k = crate::text::owned(key);
        if i < self.entries.len() && self.entries[i].0 == k {
            proof {
                lemma_position(self.entries(), i as int);
            }
            Some(i)
        } else {
            proof {
                if holds_key(self.entries(), key@) {
                    let p = position(self.entries(), key@);
                    if p < i {
                        lemma_text_less_irreflexive(key@);
                    } else if p > i {
                        // entries()[i] is not key and not before it, so it is after it
                        lemma_text_less_total(self.entries()[i as int].0, key@);
                        assert(text_less(self.entries()[i as int].0, self.entries()[p].0));
                        lemma_text_less_asymmetric(key@, self.entries()[i as int].0);
                    }
                }
            }
            None
        }
    }

    /// The value under `key`, if any (std `BTreeMap::get`).
    pub fn get(&self, key: &str) -> (r: Option<&V>)
        ensures
            r matches Some(v) ==> value_of(self.entries(), key@) == Some(*v),
            r is None ==> value_of(self.entries(), key@) is None,
    {
        match self.find(key) {
            Some(i) => Some(&self.entries[i].1),
            None => None,
        }
    }

    /// Adds an entry whose key comes after every key of the table.
    pub fn push_greatest(&mut self, key: String, val: V)
        requires
            old(self).entries().len() > 0 ==> text_less(old(self).entries().last().0, key@),
        ensures
            final(self).entries() == old(self).entries().push((key@, val)),
    {
        proof {
            use_type_invariant(&*self);
        }
        let ghost old_e = self.entries();
        let ghost kv = key@;
        let mut e: Vec<(String, V)> = Vec::new();
        std::mem::swap(&mut e, &mut self.entries);
        e.push((key, val));
        proof {
            let ne = entry_views(e@);
            assert(ne =~= old_e.push((kv, val)));
            assert forall|a: int, b: int| 0 <= a < b < ne.len() implies text_less(
                #[trigger] ne[a].0,
                #[trigger] ne[b].0,
            ) by {
                if b == old_e.len() {
                    if a < old_e.len() - 1 {
                        assert(text_less(old_e[a].0, old_e.last().0));
                        lemma_text_less_transitive(old_e[a].0, old_e.last().0, kv);
                    }
                } else {
                    assert(text_less(old_e[a].0, old_e[b].0));
                }
            }
        }
        self.entries = e;
    }

    /// Writes `val` under `key` (std `BTreeMap::insert`): an entry with that
    /// key gets the new value; otherwise a new entry goes where its key
    /// belongs in the order.
    pub fn insert(&mut self, key: String, val: V)
        ensures
            ascending(final(self).entries()),
            value_of(final(self).entries(), key@) == Some(val),
            forall|k: Seq<char>|
                k != key@ ==> value_of(final(self).entries(), k) == value_of(
                    old(self).entries(),
                    k,
                ),
            holds_key(old(self).entries(), key@) ==> final(self).entries().len() == old(
                self,
            ).entries().len(),
            !holds_key(old(self).entries(), key@) ==> final(self).entries().len() == old(
                self,
            ).entries().len() + 1,
    {
        proof {
            use_type_invariant(&*self);
        }
        let i = self.seek(key.as_str());
        let ghost old_e = self.entries();
        let ghost kv = key@;
        let mut e: Vec<(String, V)> = Vec::new();
        std::mem::swap(&mut e, &mut self.entries);
        assert(entry_views(e@) == old_e);
        if i < e.len() && e[i].0 == key {
            e.set(i, (key, val));
            let ghost ne = entry_views(e@);
            assert(ne =~= old_e.update(i as int, (kv, val)));
            proof {
                assert forall|a: int, b: int| 0 <= a < b < ne.len() implies text_less(
                    #[trigger] ne[a].0,
                    #[trigger] ne[b].0,
                ) by {
                    assert(text_less(old_e[a].0, old_e[b].0));
                }
                lemma_position(ne, i as int);
                assert forall|k: Seq<char>| k != kv implies value_of(ne, k) == value_of(
                    old_e,
                    k,
                ) by {
                    if holds_key(old_e, k) {
                        let p = position(old_e, k);
                        assert(ne[p].0 == k);
                        lemma_position(ne, p);
                        lemma_position(old_e, p);
                    }
                    if holds_key(ne, k) {
                        let p = position(ne, k);
                        assert(old_e[p].0 == k);
                    }
                }
                assert(holds_key(old_e, kv)) by {
                    assert(old_e[i as int].0 == kv);
                }
            }
            self.entries = e;
        } else {
            e.insert(i, (key, val));
            let ghost ne = entry_views(e@);
            assert(ne =~= old_e.insert(i as int, (kv, val)));
            proof {
                // the key is not present: everything before comes before it,
                // the entry at i (if any) comes after it
                if i < old_e.len() {
                    lemma_text_less_total(old_e[i as int].0, kv);
                }
                assert forall|a: int, b: int| 0 <= a < b < ne.len() implies text_less(
                    #[trigger] ne[a].0,
                    #[trigger] ne[b].0,
                ) by {
                    if b < i {
                        assert(text_less(old_e[a].0, old_e[b].0));
                    } else if b == i {
                        assert(text_less(old_e[a].0, kv));
                    } else if a == i {
                        // kv before old_e[i] <= old_e[b - 1]
                        if b - 1 > i {
                            assert(text_less(old_e[i as int].0, old_e[b - 1].0));
                            lemma_text_less_transitive(kv, old_e[i as int].0, old_e[b - 1].0);
                        }
                    } else if a < i {
                        assert(text_less(old_e[a].0, old_e[b - 1].0));
                    } else {
                        assert(text_less(old_e[a - 1].0, old_e[b - 1].0));
                    }
                }
                lemma_position(ne, i as int);
                assert(!holds_key(old_e, kv)) by {
                    if holds_key(old_e, kv) {
                        let p = position(old_e, kv);
                        if p < i {
                            lemma_text_less_irreflexive(kv);
                        } else if p > i {
                            assert(text_less(old_e[i as int].0, old_e[p].0));
                            lemma_text_less_asymmetric(kv, old_e[i as int].0);
                        }
                    }
                }
                assert forall|k: Seq<char>| k != kv implies value_of(ne, k) == value_of(
                    old_e,
                    k,
                ) by {
                    if holds_key(old_e, k) {
                        let p = position(old_e, k);
                        let q = if p < i { p } else { p + 1 };
                        assert(ne[q] == old_e[p]);
                        lemma_position(ne, q);
                        lemma_position(old_e, p);
                    }
                    if holds_key(ne, k) {
                        let p = position(ne, k);
                        let q = if p < i { p } else { p - 1 };
                        assert(old_e[q] == ne[p]);
                    }
                }
            }
            self.entries = e;
        }
    }
}

} // verus!
