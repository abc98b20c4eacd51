//! A map from string keys to values that keeps its entries in insertion order.
use vstd::prelude::*;

use crate::text::{lex_lt, str_eq, str_lt, lemma_lex_lt_irreflexive, lemma_lex_lt_total, lemma_lex_lt_transitive};

verus! {

/// No key occurs twice among the entries.
pub open spec fn keys_distinct<V>(s: Seq<(Seq<char>, V)>) -> bool {
    forall|i: int, j: int| 0 <= i < j < s.len() ==> #[trigger] s[i].0 != #[trigger] s[j].0
}

/// Whether some entry has key `k`.
pub open spec fn has_key<V>(s: Seq<(Seq<char>, V)>, k: Seq<char>) -> bool {
    exists|i: int| 0 <= i < s.len() && #[trigger] s[i].0 == k
}

/// The index of the entry with key `k` (meaningful when `has_key`).
pub open spec fn index_of_key<V>(s: Seq<(Seq<char>, V)>, k: Seq<char>) -> int {
    choose|i: int| 0 <= i < s.len() && #[trigger] s[i].0 == k
}

/// The value stored under `k`, if any.
pub open spec fn lookup<V>(s: Seq<(Seq<char>, V)>, k: Seq<char>) -> Option<V> {
    if has_key(s, k) {
        Some(s[index_of_key(s, k)].1)
    } else {
        None
    }
}

/// Inserting `(k, v)`: an entry with key `k` keeps its place and takes the new
/// value; otherwise the pair is appended.
pub open spec fn assoc_insert<V>(s: Seq<(Seq<char>, V)>, k: Seq<char>, v: V) -> Seq<(Seq<char>, V)> {
    if has_key(s, k) {
        s.update(index_of_key(s, k), (k, v))
    } else {
        s.push((k, v))
    }
}

/// The entries left once the one with key `k` (if any) is taken out.
pub open spec fn assoc_remove<V>(s: Seq<(Seq<char>, V)>, k: Seq<char>) -> Seq<(Seq<char>, V)> {
    if has_key(s, k) {
        s.remove(index_of_key(s, k))
    } else {
        s
    }
}

/// `order` lists every index of `s` once, by strictly increasing key.
pub open spec fn is_sorted_order<V>(s: Seq<(Seq<char>, V)>, order: Seq<usize>) -> bool {
    &&& order.len() == s.len()
    &&& forall|i: int| 0 <= i < order.len() ==> (#[trigger] order[i]) < s.len()
    &&& forall|i: int, j: int|
        0 <= i < j < order.len() ==> lex_lt(s[#[trigger] order[i] as int].0, s[#[trigger] order[j] as int].0)
}

/// In a map with distinct keys, `lookup` finds exactly the entry with that key.
pub proof fn lemma_lookup_at<V>(s: Seq<(Seq<char>, V)>, i: int)
    requires
        keys_distinct(s),
        0 <= i < s.len(),
    ensures
        has_key(s, s[i].0),
        index_of_key(s, s[i].0) == i,
        lookup(s, s[i].0) == Some(s[i].1),
{
    assert(has_key(s, s[i].0));
    let j = index_of_key(s, s[i].0);
    if j != i {
        if j < i {
            assert(s[j].0 != s[i].0);
        } else {
            assert(s[i].0 != s[j].0);
        }
    }
}

/// Insertion keeps keys distinct, stores the value, and leaves other keys alone.
pub proof fn lemma_assoc_insert<V>(s: Seq<(Seq<char>, V)>, k: Seq<char>, v: V)
    requires
        keys_distinct(s),
    ensures
        keys_distinct(assoc_insert(s, k, v)),
        lookup(assoc_insert(s, k, v), k) == Some(v),
        forall|k2: Seq<char>| k2 != k ==> lookup(assoc_insert(s, k, v), k2) == lookup(s, k2),
        has_key(s, k) ==> assoc_insert(s, k, v).len() == s.len(),
        !has_key(s, k) ==> assoc_insert(s, k, v).len() == s.len() + 1,
{
    let t = assoc_insert(s, k, v);
    if has_key(s, k) {
        let idx = index_of_key(s, k);
        assert(keys_distinct(t)) by {
            assert forall|i: int, j: int| 0 <= i < j < t.len() implies #[trigger] t[i].0 != #[trigger] t[j].0 by {
                if i != idx && j != idx {
                    assert(s[i].0 != s[j].0);
                } else if i == idx {
                    assert(s[i].0 != s[j].0);
                } else {
                    assert(s[i].0 != s[j].0);
                }
            }
        }
        lemma_lookup_at(t, idx);
    } else {
        assert(keys_distinct(t)) by {
            assert forall|i: int, j: int| 0 <= i < j < t.len() implies #[trigger] t[i].0 != #[trigger] t[j].0 by {
                if j == s.len() {
                    assert(t[i].0 == s[i].0);
                } else {
                    assert(s[i].0 != s[j].0);
                }
            }
        }
        lemma_lookup_at(t, s.len() as int);
    }
    assert forall|k2: Seq<char>| k2 != k implies lookup(t, k2) == lookup(s, k2) by {
        if has_key(s, k2) {
            let i2 = index_of_key(s, k2);
            lemma_lookup_at(s, i2);
            assert(t[i2].0 == k2);
            lemma_lookup_at(t, i2);
        } else {
            if has_key(t, k2) {
                let i2 = index_of_key(t, k2);
                if i2 < s.len() {
                    assert(s[i2].0 == k2);
                }
            }
        }
    }
}

/// The order of the entries by increasing key.
pub open spec fn sorted_order_of<V>(s: Seq<(Seq<char>, V)>) -> Seq<usize> {
    choose|o: Seq<usize>| is_sorted_order(s, o)
}

/// No index is listed twice.
pub open spec fn indices_distinct(o: Seq<usize>) -> bool {
    forall|a: int, b: int| 0 <= a < b < o.len() ==> #[trigger] o[a] != #[trigger] o[b]
}

/// A list of distinct indices below `m` holds at most `m` of them.
proof fn lemma_distinct_bounded_len(o: Seq<usize>, m: nat)
    requires
        indices_distinct(o),
        forall|q: int| 0 <= q < o.len() ==> (#[trigger] o[q]) < m,
    ensures
        o.len() <= m,
    decreases m,
{
    if m == 0 {
        if o.len() > 0 {
            assert(o[0] < m);
        }
    } else {
        let top = (m - 1) as usize;
        if exists|p: int| 0 <= p < o.len() && o[p] == top {
            let p = choose|p: int| 0 <= p < o.len() && o[p] == top;
            let r = o.remove(p);
            assert forall|a: int, b: int| 0 <= a < b < r.len() implies #[trigger] r[a] != #[trigger] r[b] by {
                let a2 = if a < p { a } else { a + 1 };
                let b2 = if b < p { b } else { b + 1 };
                assert(o[a2] != o[b2]);
            }
            assert forall|q: int| 0 <= q < r.len() implies (#[trigger] r[q]) < (m - 1) as nat by {
                let q2 = if q < p { q } else { q + 1 };
                assert(o[q2] != o[p]) by {
                    if q2 < p {
                        assert(o[q2] != o[p]);
                    } else {
                        assert(o[p] != o[q2]);
                    }
                }
            }
            lemma_distinct_bounded_len(r, (m - 1) as nat);
        } else {
            assert forall|q: int| 0 <= q < o.len() implies (#[trigger] o[q]) < (m - 1) as nat by {
                assert(o[q] != top);
            }
            lemma_distinct_bounded_len(o, (m - 1) as nat);
        }
    }
}

/// `n` distinct indices below `n` list every index below `n`.
proof fn lemma_distinct_covers(o: Seq<usize>, x: usize)
    requires
        indices_distinct(o),
        forall|q: int| 0 <= q < o.len() ==> (#[trigger] o[q]) < o.len(),
        x < o.len(),
    ensures
        exists|q: int| 0 <= q < o.len() && o[q] == x,
{
    if !(exists|q: int| 0 <= q < o.len() && o[q] == x) {
        let f = |v: usize| if v > x { (v - 1) as usize } else { v };
        let o2 = o.map_values(f);
        assert forall|a: int, b: int| 0 <= a < b < o2.len() implies #[trigger] o2[a] != #[trigger] o2[b] by {
            assert(o[a] != o[b]);
            assert(o[a] != x);
            assert(o[b] != x);
        }
        assert forall|q: int| 0 <= q < o2.len() implies (#[trigger] o2[q]) < (o.len() - 1) as nat by {
            assert(o[q] != x);
        }
        lemma_distinct_bounded_len(o2, (o.len() - 1) as nat);
    }
}

/// The entries of a sorted order are distinct indices.
proof fn lemma_sorted_order_distinct<V>(s: Seq<(Seq<char>, V)>, o: Seq<usize>)
    requires
        is_sorted_order(s, o),
    ensures
        indices_distinct(o),
{
    assert forall|a: int, b: int| 0 <= a < b < o.len() implies #[trigger] o[a] != #[trigger] o[b] by {
        assert(lex_lt(s[o[a] as int].0, s[o[b] as int].0));
        if o[a] == o[b] {
            lemma_lex_lt_irreflexive(s[o[a] as int].0);
        }
    }
}

/// Two sorted orders of the same entries agree below position `q`.
proof fn lemma_sorted_order_prefix<V>(s: Seq<(Seq<char>, V)>, o1: Seq<usize>, o2: Seq<usize>, q: int)
    requires
        is_sorted_order(s, o1),
        is_sorted_order(s, o2),
        0 <= q <= o1.len(),
    ensures
        forall|k: int| 0 <= k < q ==> o1[k] == o2[k],
    decreases q,
{
    if q > 0 {
        lemma_sorted_order_prefix(s, o1, o2, q - 1);
        let p = q - 1;
        let a = o1[p];
        let b = o2[p];
        if a != b {
            lemma_sorted_order_distinct(s, o1);
            lemma_sorted_order_distinct(s, o2);
            lemma_distinct_covers(o2, a);
            lemma_distinct_covers(o1, b);
            let r = choose|r: int| 0 <= r < o2.len() && o2[r] == a;
            let r1 = choose|r: int| 0 <= r < o1.len() && o1[r] == b;
            if r < p {
                assert(o1[r] == o2[r]);
                assert(o1[r] != o1[p]);
            }
            if r1 < p {
                assert(o1[r1] == o2[r1]);
                assert(o2[r1] != o2[p]);
            }
            assert(r > p);
            assert(r1 > p);
            assert(lex_lt(s[b as int].0, s[a as int].0));
            assert(lex_lt(s[a as int].0, s[b as int].0));
            lemma_lex_lt_transitive(s[a as int].0, s[b as int].0, s[a as int].0);
            lemma_lex_lt_irreflexive(s[a as int].0);
        }
    }
}

/// A sorted order, when there is one, is `sorted_order_of`.
pub proof fn lemma_sorted_order_unique<V>(s: Seq<(Seq<char>, V)>, o: Seq<usize>)
    requires
        is_sorted_order(s, o),
    ensures
        sorted_order_of(s) == o,
{
    let c = sorted_order_of(s);
    assert(is_sorted_order(s, c));
    lemma_sorted_order_prefix(s, c, o, c.len() as int);
    assert(c =~= o);
}

/// Entries keyed by strings, each key at most once, in insertion order.
#[derive(Debug)]
pub struct KeyedMap<T: View> {
    entries: Vec<(String, T)>,
}

impl<T: View> View for KeyedMap<T> {
    type V = Seq<(Seq<char>, T::V)>;

    open spec fn view(&self) -> Seq<(Seq<char>, T::V)> {
        self.view_entries()
    }
}

impl<T: View> KeyedMap<T> {
    /// The entries, each key and value by its view, in order.
    pub closed spec fn view_entries(self) -> Seq<(Seq<char>, T::V)> {
        self.entries@.map_values(|e: (String, T)| (e.0@, e.1@))
    }

    #[verifier::type_invariant]
    closed spec fn distinct(self) -> bool {
        keys_distinct(self.view_entries())
    }

    /// An empty map.
    pub fn new() -> (m: Self)
        ensures
            m.view_entries() == Seq::<(Seq<char>, T::V)>::empty(),
    {
        let m = KeyedMap { entries: Vec::new() };
        assert(m.view_entries() =~= Seq::<(Seq<char>, T::V)>::empty());
        m
    }

    /// Number of entries (the keys being distinct).
    pub fn len(&self) -> (n: usize)
        ensures
            n == self.view_entries().len(),
            keys_distinct(self.view_entries()),
    {
        proof {
            use_type_invariant(self);
        }
        self.entries.len()
    }

    /// The key and value at position `i`.
    pub fn entry(&self, i: usize) -> (e: (&String, &T))
        requires
            i < self.view_entries().len(),
        ensures
            e.0@ == self.view_entries()[i as int].0,
            e.1@ == self.view_entries()[i as int].1,
    {
        let e = &self.entries[i];
        (&e.0, &e.1)
    }

    /// The position of the entry with key `key`, if any.
    pub fn position(&self, key: &str) -> (r: Option<usize>)
        ensures
            match r {
                Some(i) => i < self.view_entries().len() && self.view_entries()[i as int].0 == key@
                    && index_of_key(self.view_entries(), key@) == i,
                None => !has_key(self.view_entries(), key@),
            },
    {
        proof {
            use_type_invariant(self);
        }
        let mut i: usize = 0;
        while i < self.entries.len()
            invariant
                i <= self.entries.len(),
                self.entries@.len() == self.view_entries().len(),
                keys_distinct(self.view_entries()),
                forall|k: int| 0 <= k < i ==> self.view_entries()[k].0 != key@,
            decreases self.entries.len() - i,
        {
            if str_eq(self.entries[i].0.as_str(), key) {
                proof {
                    lemma_lookup_at(self.view_entries(), i as int);
                }
                return Some(i);
            }
            i = i + 1;
        }
        None
    }

    /// The value stored under `key`, if any.
    pub fn get(&self, key: &str) -> (r: Option<&T>)
        ensures
            match r {
                Some(v) => lookup(self.view_entries(), key@) == Some(v@),
                None => lookup(self.view_entries(), key@) is None,
            },
    {
        match self.position(key) {
            Some(i) => Some(&self.entries[i].1),
            None => None,
        }
    }

    /// Stores `value` under `key`: an existing entry with that key keeps its
    /// place and takes the new value; otherwise the pair is appended.
    pub fn insert(&mut self, key: String, value: T)
        ensures
            final(self).view_entries() == assoc_insert(old(self).view_entries(), key@, value@),
            keys_distinct(final(self).view_entries()),
    {
        proof {
            use_type_invariant(&*self);
            lemma_assoc_insert(self.view_entries(), key@, value@);
        }
        let pos = self.position(key.as_str());
        let ghost old_entries = self.entries@;
        let ghost old_view = self.view_entries();
        let mut entries: Vec<(String, T)> = Vec::new();
        std::mem::swap(&mut entries, &mut self.entries);
        assert(entries@ == old_entries);
        let ghost kv = key@;
        let ghost vv = value@;
        match pos {
            Some(i) => {
                entries.set(i, (key, value));
                assert(entries@.map_values(|e: (String, T)| (e.0@, e.1@)) =~= old_view.update(i as int, (kv, vv)));
            },
            None => {
                entries.push((key, value));
                assert(entries@.map_values(|e: (String, T)| (e.0@, e.1@)) =~= old_view.push((kv, vv)));
            },
        }
        self.entries = entries;
    }

    /// Takes out the entry with key `key`, returning its value if there was one.
    pub fn remove(&mut self, key: &str) -> (r: Option<T>)
        ensures
            final(self).view_entries() == assoc_remove(old(self).view_entries(), key@),
            keys_distinct(final(self).view_entries()),
            match r {
                Some(v) => lookup(old(self).view_entries(), key@) == Some(v@),
                None => lookup(old(self).view_entries(), key@) is None,
            },
    {
        proof {
            use_type_invariant(&*self);
        }
        let pos = self.position(key);
        match pos {
            None => None,
            Some(i) => {
                let ghost old_view = self.view_entries();
                proof {
                    lemma_lookup_at(old_view, i as int);
                }
                let mut entries: Vec<(String, T)> = Vec::new();
                std::mem::swap(&mut entries, &mut self.entries);
                let e = entries.remove(i);
                assert(entries@.map_values(|e: (String, T)| (e.0@, e.1@)) =~= old_view.remove(i as int));
                assert(keys_distinct(old_view.remove(i as int))) by {
                    let t = old_view.remove(i as int);
                    assert forall|a: int, b: int| 0 <= a < b < t.len() implies #[trigger] t[a].0 != #[trigger] t[b].0 by {
                        let a2 = if a < i { a } else { a + 1 };
                        let b2 = if b < i { b } else { b + 1 };
                        assert(old_view[a2].0 != old_view[b2].0);
                    }
                }
                self.entries = entries;
                Some(e.1)
            },
        }
    }

    /// The positions of all entries, ordered by strictly increasing key.
    pub fn sorted_order(&self) -> (order: Vec<usize>)
        ensures
            is_sorted_order(self.view_entries(), order@),
            order@ == sorted_order_of(self.view_entries()),
    {
        proof {
            use_type_invariant(self);
        }
        let ghost s = self.view_entries();
        let n = self.entries.len();
        let mut order: Vec<usize> = Vec::new();
        let mut i: usize = 0;
        while i < n
            invariant
                n == s.len(),
                n == self.entries@.len(),
                s == self.view_entries(),
                keys_distinct(s),
                i <= n,
                order.len() == i,
                forall|q: int| 0 <= q < order.len() ==> (#[trigger] order@[q]) < i,
                forall|a: int, b: int|
                    0 <= a < b < order.len() ==> lex_lt(s[#[trigger] order@[a] as int].0, s[#[trigger] order@[b] as int].0),
            decreases n - i,
        {
            let key_i = self.entries[i].0.as_str();
            let mut p: usize = 0;
            while p < order.len() && !str_lt(key_i, self.entries[order[p]].0.as_str())
                invariant
                    n == s.len(),
                    n == self.entries@.len(),
                    s == self.view_entries(),
                    keys_distinct(s),
                    i < n,
                    key_i@ == s[i as int].0,
                    order.len() == i,
                    p <= order.len(),
                    forall|q: int| 0 <= q < order.len() ==> (#[trigger] order@[q]) < i,
                    forall|q: int| 0 <= q < p ==> lex_lt(s[(#[trigger] order@[q]) as int].0, s[i as int].0),
                decreases order.len() - p,
            {
                proof {
                    let o = order@[p as int] as int;
                    assert(s[o].0 != s[i as int].0);
                    lemma_lex_lt_total(s[o].0, s[i as int].0);
                }
                p = p + 1;
            }
            let ghost old_order = order@;
            proof {
                if p < order.len() {
                    assert(lex_lt(s[i as int].0, s[old_order[p as int] as int].0));
                }
            }
            order.insert(p, i);
            proof {
                assert(order@ =~= old_order.insert(p as int, i));
                assert forall|q: int| 0 <= q < order.len() implies (#[trigger] order@[q]) < i + 1 by {
                    if q < p {
                        assert(order@[q] == old_order[q]);
                    } else if q > p {
                        assert(order@[q] == old_order[q - 1]);
                    }
                }
                assert forall|a: int, b: int| 0 <= a < b < order.len() implies lex_lt(
                    s[#[trigger] order@[a] as int].0,
                    s[#[trigger] order@[b] as int].0,
                ) by {
                    if b < p {
                        assert(order@[a] == old_order[a] && order@[b] == old_order[b]);
                    } else if b == p {
                        assert(order@[a] == old_order[a]);
                    } else if a > p {
                        assert(order@[a] == old_order[a - 1] && order@[b] == old_order[b - 1]);
                    } else if a == p {
                        assert(order@[b] == old_order[b - 1]);
                        let ob = old_order[b - 1] as int;
                        let op = old_order[p as int] as int;
                        if b - 1 > p {
                            lemma_lex_lt_transitive(s[i as int].0, s[op].0, s[ob].0);
                        }
                    } else {
                        assert(order@[a] == old_order[a]);
                        assert(order@[b] == old_order[b - 1]);
                        let oa = old_order[a] as int;
                        let ob = old_order[b - 1] as int;
                        let op = old_order[p as int] as int;
                        assert(lex_lt(s[oa].0, s[i as int].0));
                        if b - 1 > p {
                            lemma_lex_lt_transitive(s[i as int].0, s[op].0, s[ob].0);
                        }
                        lemma_lex_lt_transitive(s[oa].0, s[i as int].0, s[ob].0);
                    }
                }
            }
            i = i + 1;
        }
        proof {
            lemma_sorted_order_unique(s, order@);
        }
        order
    }
}

} // verus!
