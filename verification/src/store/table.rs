//! A small keyed table: an association list with distinct keys, viewed as
//! a finite map from key views to values. The in-memory repository keeps
//! one per entity kind.
//!
//! The keys here are string identifiers and pairs of them. vstd specifies
//! `HashMap` only for keys that obey its key model, which it grants to
//! primitive types (and boxes of them) and otherwise leaves to an `assume`;
//! the rules of this crate forbid that `assume`, so a `HashMap` keyed by
//! these types would carry no usable contract, and the table is a `Vec` of
//! pairs with its own verified lookups.

use vstd::prelude::*;

verus! {

/// Keys compare by their views.
pub trait TableKey: View + Sized {
    fn key_eq(&self, other: &Self) -> (b: bool)
        ensures
            b == (self@ == other@),
    ;
}

impl<A: TableKey, B: TableKey> TableKey for (A, B) {
    fn key_eq(&self, other: &Self) -> (b: bool) {
        self.0.key_eq(&other.0) && self.1.key_eq(&other.1)
    }
}

impl TableKey for String {
    fn key_eq(&self, other: &Self) -> (b: bool) {
        *self == *other
    }
}

impl TableKey for crate::domain::ScopeKind {
    fn key_eq(&self, other: &Self) -> (b: bool) {
        *self == *other
    }
}

pub struct Table<K, V> {
    entries: Vec<(K, V)>,
}

impl<K: TableKey, V> Table<K, V> {
    /// The entries in storage order, keys by their views.
    pub closed spec fn entries_view(&self) -> Seq<(K::V, V)> {
        Seq::new(self.entries@.len(), |i: int| (self.entries@[i].0@, self.entries@[i].1))
    }

    /// The table as a map from key views to values.
    pub closed spec fn map(&self) -> Map<K::V, V> {
        Map::new(
            |k: K::V| exists|i: int| 0 <= i < self.entries@.len() && self.entries@[i].0@ == k,
            |k: K::V|
                self.entries@[choose|i: int|
                    0 <= i < self.entries@.len() && self.entries@[i].0@ == k].1,
        )
    }

    /// No key occurs twice.
    pub closed spec fn wf(&self) -> bool {
        forall|i: int, j: int|
            0 <= i < self.entries@.len() && 0 <= j < self.entries@.len() && i != j
                ==> self.entries@[i].0@ != self.entries@[j].0@
    }

    /// The entries and the map describe the same contents.
    pub proof fn lemma_entries(&self)
        requires
            self.wf(),
        ensures
            self.entries_view().len() == self.map().dom().len(),
            self.map().dom().finite(),
            forall|i: int|
                #![trigger self.entries_view()[i]]
                0 <= i < self.entries_view().len() ==> self.map().contains_key(
                    self.entries_view()[i].0,
                ) && self.map()[self.entries_view()[i].0] == self.entries_view()[i].1,
            forall|k: K::V|
                #[trigger] self.map().contains_key(k) ==> exists|i: int|
                    0 <= i < self.entries_view().len() && self.entries_view()[i].0 == k,
    {
        assert forall|i: int|
            #![trigger self.entries_view()[i]]
            0 <= i < self.entries_view().len() implies self.map().contains_key(
                self.entries_view()[i].0,
            ) && self.map()[self.entries_view()[i].0] == self.entries_view()[i].1 by {
            let k = self.entries@[i].0@;
            assert(self.map().contains_key(k));
            let c = choose|c: int| 0 <= c < self.entries@.len() && self.entries@[c].0@ == k;
            assert(c == i);
        }
        assert forall|k: K::V| #[trigger] self.map().contains_key(k) implies exists|i: int|
            0 <= i < self.entries_view().len() && self.entries_view()[i].0 == k by {
            let c = choose|c: int| 0 <= c < self.entries@.len() && self.entries@[c].0@ == k;
            assert(self.entries_view()[c].0 == k);
        }
        self.lemma_dom_len();
    }

    proof fn lemma_dom_len(&self)
        requires
            self.wf(),
        ensures
            self.map().dom().finite(),
            self.map().dom().len() == self.entries@.len(),
        decreases self.entries@.len(),
    {
        let n = self.entries@.len();
        let keys = Seq::new(n, |i: int| self.entries@[i].0@);
        assert forall|k: K::V| self.map().dom().contains(k) <==> keys.to_set().contains(k) by {
            if self.map().dom().contains(k) {
                let c = choose|c: int| 0 <= c < self.entries@.len() && self.entries@[c].0@ == k;
                assert(keys[c] == k);
            }
            if keys.to_set().contains(k) {
                let c = choose|c: int| 0 <= c < keys.len() && keys[c] == k;
                assert(self.entries@[c].0@ == k);
            }
        }
        assert(self.map().dom() =~= keys.to_set());
        assert(keys.no_duplicates());
        keys.unique_seq_to_set();
    }

    pub fn new() -> (t: Self)
        ensures
            t.wf(),
            t.map() == Map::<K::V, V>::empty(),
            t.entries_view().len() == 0,
    {
        let t = Table { entries: Vec::new() };
        assert(t.map() =~= Map::<K::V, V>::empty());
        t
    }

    pub fn len(&self) -> (n: usize)
        ensures
            n == self.entries_view().len(),
    {
        self.entries.len()
    }

    /// The `i`-th entry in storage order.
    pub fn entry(&self, i: usize) -> (r: (&K, &V))
        requires
            i < self.entries_view().len(),
        ensures
            r.0@ == self.entries_view()[i as int].0,
            *r.1 == self.entries_view()[i as int].1,
    {
        let e = &self.entries[i];
        (&e.0, &e.1)
    }

    fn find(&self, k: &K) -> (r: Option<usize>)
        requires
            self.wf(),
        ensures
            match r {
                Some(i) => i < self.entries@.len() && self.entries@[i as int].0@ == k@,
                None => forall|i: int| 0 <= i < self.entries@.len() ==> self.entries@[i].0@ != k@,
            },
    {
        let mut i: usize = 0;
        while i < self.entries.len()
            invariant
                i <= self.entries@.len(),
                forall|j: int| 0 <= j < i ==> self.entries@[j].0@ != k@,
            decreases self.entries@.len() - i,
        {
            if self.entries[i].0.key_eq(k) {
                return Some(i);
            }
            i = i + 1;
        }
        None
    }

    proof fn lemma_map_at(&self, i: int)
        requires
            self.wf(),
            0 <= i < self.entries@.len(),
        ensures
            self.map().contains_key(self.entries@[i].0@),
            self.map()[self.entries@[i].0@] == self.entries@[i].1,
    {
        let k = self.entries@[i].0@;
        let c = choose|c: int| 0 <= c < self.entries@.len() && self.entries@[c].0@ == k;
        assert(c == i);
    }

    pub fn contains_key(&self, k: &K) -> (b: bool)
        requires
            self.wf(),
        ensures
            b == self.map().contains_key(k@),
    {
        match self.find(k) {
            Some(_) => true,
            None => false,
        }
    }

    pub fn get(&self, k: &K) -> (r: Option<&V>)
        requires
            self.wf(),
        ensures
            r is Some <==> self.map().contains_key(k@),
            r matches Some(v) ==> *v == self.map()[k@],
    {
        match self.find(k) {
            Some(i) => {
                proof {
                    self.lemma_map_at(i as int);
                }
                Some(&self.entries[i].1)
            },
            None => None,
        }
    }

    /// Insert or replace the value under `k`.
    pub fn insert(&mut self, k: K, v: V)
        requires
            old(self).wf(),
        ensures
            final(self).wf(),
            final(self).map() == old(self).map().insert(k@, v),
    {
        let ghost kv = k@;
        match self.find(&k) {
            Some(i) => {
                let ghost before = self.entries@;
                let last = self.entries.len() - 1;
                self.entries.swap_remove(i);
                let ghost mid = self.entries@;
                self.entries.push((k, v));
                proof {
                    assert forall|a: int, b: int|
                        0 <= a < self.entries@.len() && 0 <= b < self.entries@.len() && a != b
                            implies self.entries@[a].0@ != self.entries@[b].0@ by {
                        let n = self.entries@.len();
                        if a == n - 1 || b == n - 1 {
                            let o = if a == n - 1 { b } else { a };
                            let src = if o == i as int { last as int } else { o };
                            assert(mid[o] == before[src]);
                        } else {
                            let sa = if a == i as int { last as int } else { a };
                            let sb = if b == i as int { last as int } else { b };
                            assert(mid[a] == before[sa]);
                            assert(mid[b] == before[sb]);
                        }
                    }
                    assert forall|key: K::V| #![auto]
                        self.map().contains_key(key) == old(self).map().insert(kv, v).contains_key(key)
                        by {
                        if key == kv {
                            assert(self.entries@[self.entries@.len() - 1].0@ == kv);
                        } else if old(self).map().contains_key(key) {
                            let c = choose|c: int| 0 <= c < before.len() && before[c].0@ == key;
                            assert(c != i as int);
                            let t = if c == last as int { i as int } else { c };
                            assert(self.entries@[t].0@ == key);
                        } else if self.map().contains_key(key) {
                            let c = choose|c: int| 0 <= c < self.entries@.len() && self.entries@[c].0@ == key;
                            let s = if c == i as int { last as int } else { c };
                            assert(before[s].0@ == key);
                        }
                    }
                    assert forall|key: K::V| #[trigger] self.map().contains_key(key) implies self.map()[key]
                        == old(self).map().insert(kv, v)[key] by {
                        let c = choose|c: int| 0 <= c < self.entries@.len() && self.entries@[c].0@ == key;
                        self.lemma_map_at(c);
                        if key != kv {
                            let s = if c == i as int { last as int } else { c };
                            assert(before[s] == self.entries@[c]);
                            old(self).lemma_map_at(s);
                        }
                    }
                    assert(self.map() =~= old(self).map().insert(kv, v));
                }
            },
            None => {
                let ghost before = self.entries@;
                self.entries.push((k, v));
                proof {
                    assert forall|key: K::V| #![auto]
                        self.map().contains_key(key) == old(self).map().insert(kv, v).contains_key(key)
                        by {
                        if key == kv {
                            assert(self.entries@[self.entries@.len() - 1].0@ == kv);
                        } else if old(self).map().contains_key(key) {
                            let c = choose|c: int| 0 <= c < before.len() && before[c].0@ == key;
                            assert(self.entries@[c].0@ == key);
                        } else if self.map().contains_key(key) {
                            let c = choose|c: int| 0 <= c < self.entries@.len() && self.entries@[c].0@ == key;
                            assert(before[c].0@ == key);
                        }
                    }
                    assert forall|key: K::V| #[trigger] self.map().contains_key(key) implies self.map()[key]
                        == old(self).map().insert(kv, v)[key] by {
                        let c = choose|c: int| 0 <= c < self.entries@.len() && self.entries@[c].0@ == key;
                        self.lemma_map_at(c);
                        if key != kv {
                            assert(before[c] == self.entries@[c]);
                            old(self).lemma_map_at(c);
                        }
                    }
                    assert(self.map() =~= old(self).map().insert(kv, v));
                }
            },
        }
    }

    /// Remove the entry under `k`, giving back its value.
    pub fn remove(&mut self, k: &K) -> (r: Option<V>)
        requires
            old(self).wf(),
        ensures
            final(self).wf(),
            final(self).map() == old(self).map().remove(k@),
            r is Some <==> old(self).map().contains_key(k@),
            r matches Some(v) ==> v == old(self).map()[k@],
    {
        match self.find(k) {
            Some(i) => {
                proof {
                    self.lemma_map_at(i as int);
                }
                let ghost before = self.entries@;
                let last = self.entries.len() - 1;
                let (_, v) = self.entries.swap_remove(i);
                proof {
                    assert forall|a: int, b: int|
                        0 <= a < self.entries@.len() && 0 <= b < self.entries@.len() && a != b
                            implies self.entries@[a].0@ != self.entries@[b].0@ by {
                        let sa = if a == i as int { last as int } else { a };
                        let sb = if b == i as int { last as int } else { b };
                        assert(self.entries@[a] == before[sa]);
                        assert(self.entries@[b] == before[sb]);
                    }
                    assert forall|key: K::V| #![auto]
                        self.map().contains_key(key) == old(self).map().remove(k@).contains_key(key)
                        by {
                        if key == k@ {
                            if self.map().contains_key(key) {
                                let c = choose|c: int| 0 <= c < self.entries@.len() && self.entries@[c].0@ == key;
                                let s = if c == i as int { last as int } else { c };
                                assert(before[s].0@ == key);
                            }
                        } else if old(self).map().contains_key(key) {
                            let c = choose|c: int| 0 <= c < before.len() && before[c].0@ == key;
                            assert(c != i as int);
                            let t = if c == last as int { i as int } else { c };
                            assert(self.entries@[t].0@ == key);
                        } else if self.map().contains_key(key) {
                            let c = choose|c: int| 0 <= c < self.entries@.len() && self.entries@[c].0@ == key;
                            let s = if c == i as int { last as int } else { c };
                            assert(before[s].0@ == key);
                        }
                    }
                    assert forall|key: K::V| #[trigger] self.map().contains_key(key) implies self.map()[key]
                        == old(self).map().remove(k@)[key] by {
                        let c = choose|c: int| 0 <= c < self.entries@.len() && self.entries@[c].0@ == key;
                        self.lemma_map_at(c);
                        let s = if c == i as int { last as int } else { c };
                        assert(before[s] == self.entries@[c]);
                        old(self).lemma_map_at(s);
                    }
                    assert(self.map() =~= old(self).map().remove(k@));
                }
                Some(v)
            },
            None => {
                assert(self.map() =~= old(self).map().remove(k@));
                None
            },
        }
    }

    /// Keep, and possibly rewrite, each entry: `f` gives the new value, or
    /// `None` to drop the entry.
    pub fn retain_map<F: Fn(&K, V) -> Option<V>>(&mut self, f: F, Ghost(g): Ghost<spec_fn(K::V, V) -> Option<V>>)
        requires
            old(self).wf(),
            forall|k: &K, v: V| #[trigger] f.requires((k, v)),
            forall|k: &K, v: V, r: Option<V>| #[trigger] f.ensures((k, v), r) ==> r == g(k@, v),
        ensures
            final(self).wf(),
            final(self).map() == map_filter(old(self).map(), g),
    {
        let ghost orig = self.entries@;
        let mut rest: Vec<(K, V)> = Vec::new();
        std::mem::swap(&mut rest, &mut self.entries);
        let ghost n = orig.len();
        let mut out: Vec<(K, V)> = Vec::new();
        while rest.len() > 0
            invariant
                rest@ == orig.subrange(0, rest@.len() as int),
                rest@.len() <= n,
                n == orig.len(),
                forall|i: int, j: int|
                    0 <= i < n && 0 <= j < n && i != j ==> orig[i].0@ != orig[j].0@,
                forall|k: &K, v: V| #[trigger] f.requires((k, v)),
                forall|k: &K, v: V, r: Option<V>| #[trigger] f.ensures((k, v), r) ==> r == g(k@, v),
                forall|t: int|
                    #![trigger out@[t]]
                    0 <= t < out@.len() ==> exists|i: int|
                        rest@.len() <= i < n && out@[t].0@ == orig[i].0@ && g(orig[i].0@, orig[i].1)
                            == Some(out@[t].1),
                forall|i: int|
                    #![trigger orig[i]]
                    rest@.len() <= i < n && g(orig[i].0@, orig[i].1) is Some ==> exists|t: int|
                        0 <= t < out@.len() && out@[t].0@ == orig[i].0@,
                forall|a: int, b: int|
                    0 <= a < out@.len() && 0 <= b < out@.len() && a != b ==> out@[a].0@ != out@[b].0@,
            decreases rest@.len(),
        {
            let ghost before = out@;
            let ghost m = rest@.len() - 1;
            let (k, v) = rest.pop().unwrap();
            assert(orig[m] == (k, v));
            let r = f(&k, v);
            match r {
                Some(v2) => {
                    proof {
                        assert forall|t: int| 0 <= t < before.len() implies before[t].0@ != k@ by {
                            let i = choose|i: int|
                                m < i < n && before[t].0@ == orig[i].0@ && g(orig[i].0@, orig[i].1)
                                    == Some(before[t].1);
                            assert(orig[i].0@ != orig[m].0@);
                        }
                    }
                    out.push((k, v2));
                    proof {
                        assert forall|i: int|
                            #![trigger orig[i]]
                            rest@.len() <= i < n && g(orig[i].0@, orig[i].1) is Some implies exists|t: int|
                                0 <= t < out@.len() && out@[t].0@ == orig[i].0@ by {
                            if i == m {
                                assert(out@[out@.len() - 1].0@ == orig[i].0@);
                            } else {
                                let t = choose|t: int| 0 <= t < before.len() && before[t].0@ == orig[i].0@;
                                assert(out@[t] == before[t]);
                            }
                        }
                        assert forall|t: int|
                            #![trigger out@[t]]
                            0 <= t < out@.len() implies exists|i: int|
                                rest@.len() <= i < n && out@[t].0@ == orig[i].0@ && g(orig[i].0@, orig[i].1)
                                    == Some(out@[t].1) by {
                            if t < before.len() {
                                assert(out@[t] == before[t]);
                                let i = choose|i: int|
                                    m < i < n && before[t].0@ == orig[i].0@ && g(orig[i].0@, orig[i].1)
                                        == Some(before[t].1);
                            } else {
                                assert(out@[t].0@ == orig[m].0@);
                            }
                        }
                    }
                },
                None => {
                    proof {
                        assert forall|i: int|
                            #![trigger orig[i]]
                            rest@.len() <= i < n && g(orig[i].0@, orig[i].1) is Some implies exists|t: int|
                                0 <= t < out@.len() && out@[t].0@ == orig[i].0@ by {
                            assert(i != m);
                        }
                        assert forall|t: int|
                            #![trigger out@[t]]
                            0 <= t < out@.len() implies exists|i: int|
                                rest@.len() <= i < n && out@[t].0@ == orig[i].0@ && g(orig[i].0@, orig[i].1)
                                    == Some(out@[t].1) by {
                            let i = choose|i: int|
                                m < i < n && out@[t].0@ == orig[i].0@ && g(orig[i].0@, orig[i].1)
                                    == Some(out@[t].1);
                        }
                    }
                },
            }
        }
        self.entries = out;
        proof {
            let om = old(self).map();
            assert forall|k: K::V| #![auto] self.map().contains_key(k) == map_filter(om, g).contains_key(k) by {
                if self.map().contains_key(k) {
                    let t = choose|t: int| 0 <= t < self.entries@.len() && self.entries@[t].0@ == k;
                    let i = choose|i: int|
                        0 <= i < n && self.entries@[t].0@ == orig[i].0@ && g(orig[i].0@, orig[i].1)
                            == Some(self.entries@[t].1);
                    old(self).lemma_map_at(i);
                }
                if map_filter(om, g).contains_key(k) {
                    let i = choose|i: int| 0 <= i < n && orig[i].0@ == k;
                    old(self).lemma_map_at(i);
                }
            }
            assert forall|k: K::V| #[trigger] self.map().contains_key(k) implies self.map()[k]
                == map_filter(om, g)[k] by {
                let t = choose|t: int| 0 <= t < self.entries@.len() && self.entries@[t].0@ == k;
                self.lemma_map_at(t);
                let i = choose|i: int|
                    0 <= i < n && self.entries@[t].0@ == orig[i].0@ && g(orig[i].0@, orig[i].1)
                        == Some(self.entries@[t].1);
                old(self).lemma_map_at(i);
            }
            assert(self.map() =~= map_filter(om, g));
        }
    }

    /// Some value whose entry satisfies `f`, if any does.
    pub fn find_value<F: Fn(&K, &V) -> bool>(&self, f: F, Ghost(p): Ghost<spec_fn(K::V, V) -> bool>) -> (r: Option<&V>)
        requires
            self.wf(),
            forall|k: &K, v: &V| #[trigger] f.requires((k, v)),
            forall|k: &K, v: &V, b: bool| #[trigger] f.ensures((k, v), b) ==> b == p(k@, *v),
        ensures
            r is None <==> !exists|k: K::V| #[trigger] self.map().contains_key(k) && p(k, self.map()[k]),
            r matches Some(v) ==> exists|k: K::V|
                #[trigger] self.map().contains_key(k) && self.map()[k] == *v && p(k, *v),
    {
        let mut i: usize = 0;
        while i < self.entries.len()
            invariant
                self.wf(),
                i <= self.entries@.len(),
                forall|k: &K, v: &V| #[trigger] f.requires((k, v)),
                forall|k: &K, v: &V, b: bool| #[trigger] f.ensures((k, v), b) ==> b == p(k@, *v),
                forall|j: int| 0 <= j < i ==> !p(#[trigger] self.entries@[j].0@, self.entries@[j].1),
            decreases self.entries@.len() - i,
        {
            let e = &self.entries[i];
            if f(&e.0, &e.1) {
                proof {
                    self.lemma_map_at(i as int);
                }
                return Some(&e.1);
            }
            i = i + 1;
        }
        proof {
            assert forall|k: K::V| #[trigger] self.map().contains_key(k) implies !p(k, self.map()[k]) by {
                let c = choose|c: int| 0 <= c < self.entries@.len() && self.entries@[c].0@ == k;
                self.lemma_map_at(c);
            }
        }
        None
    }

    /// Copies of the values whose entries satisfy `f`, one per entry.
    pub fn collect_values<F: Fn(&K, &V) -> bool>(&self, f: F, Ghost(p): Ghost<spec_fn(K::V, V) -> bool>) -> (r: Vec<V>) where
        V: crate::domain::Duplicate,

        requires
            self.wf(),
            forall|k: &K, v: &V| #[trigger] f.requires((k, v)),
            forall|k: &K, v: &V, b: bool| #[trigger] f.ensures((k, v), b) ==> b == p(k@, *v),
        ensures
            listed(self.map(), r@, p),
    {
        let ghost ev = self.entries_view();
        let mut out: Vec<V> = Vec::new();
        let ghost mut src: Seq<int> = Seq::empty();
        let mut i: usize = 0;
        while i < self.entries.len()
            invariant
                self.wf(),
                ev == self.entries_view(),
                i <= self.entries@.len(),
                forall|k: &K, v: &V| #[trigger] f.requires((k, v)),
                forall|k: &K, v: &V, b: bool| #[trigger] f.ensures((k, v), b) ==> b == p(k@, *v),
                out@.len() == seq_count(ev.subrange(0, i as int), p),
                src.len() == out@.len(),
                forall|t: int|
                    #![trigger src[t]]
                    0 <= t < out@.len() ==> 0 <= src[t] < i && out@[t] == ev[src[t]].1 && p(
                        ev[src[t]].0,
                        ev[src[t]].1,
                    ),
                forall|j: int| 0 <= j < i && p(ev[j].0, #[trigger] ev[j].1) ==> out@.contains(ev[j].1),
            decreases self.entries@.len() - i,
        {
            proof {
                assert(ev.subrange(0, i + 1).drop_last() =~= ev.subrange(0, i as int));
            }
            let e = &self.entries[i];
            let ghost before = out@;
            let ghost h = i as int;
            let keep = f(&e.0, &e.1);
            if keep {
                out.push(e.1.duplicate());
            }
            i = i + 1;
            proof {
                if keep {
                    src = src.push(h);
                }
                assert(ev[h].0 == self.entries@[h].0@ && ev[h].1 == self.entries@[h].1);
                assert(ev.subrange(0, i as int).last() == ev[h]);
                assert forall|t: int|
                    #![trigger src[t]]
                    0 <= t < out@.len() implies 0 <= src[t] < i && out@[t] == ev[src[t]].1 && p(
                        ev[src[t]].0,
                        ev[src[t]].1,
                    ) by {
                    if t < before.len() {
                        assert(out@[t] == before[t]);
                    }
                }
                assert forall|j: int| 0 <= j < i && p(ev[j].0, #[trigger] ev[j].1) implies out@.contains(
                    ev[j].1,
                ) by {
                    if j < h {
                        let t = choose|t: int| 0 <= t < before.len() && before[t] == ev[j].1;
                        assert(out@[t] == before[t]);
                    } else {
                        assert(out@[out@.len() - 1] == ev[j].1);
                    }
                }
            }
        }
        proof {
            assert(ev.subrange(0, ev.len() as int) =~= ev);
            self.lemma_count(p);
            self.lemma_entries();
            let m = self.map();
            let v = out@;
            assert forall|t: int| 0 <= t < v.len() implies #[trigger] value_of(m, p, v[t]) by {
                let j = src[t];
                assert(m.contains_key(ev[j].0));
            }
            assert forall|k: K::V| #[trigger] m.contains_key(k) && p(k, m[k]) implies v.contains(m[k]) by {
                let j = choose|j: int| 0 <= j < ev.len() && ev[j].0 == k;
                assert(m[ev[j].0] == ev[j].1);
            }
        }
        out
    }

    /// The rows `f` makes of the entries it accepts, one per entry.
    pub fn collect_rows<R, F: Fn(&K, &V) -> Option<R>>(
        &self,
        f: F,
        Ghost(p): Ghost<spec_fn(K::V, V) -> bool>,
        Ghost(row): Ghost<spec_fn(K::V, V) -> R>,
    ) -> (r: Vec<R>)
        requires
            self.wf(),
            forall|k: &K, v: &V| #[trigger] f.requires((k, v)),
            forall|k: &K, v: &V, o: Option<R>| #[trigger] f.ensures((k, v), o) ==> o == (if p(k@, *v) {
                Some(row(k@, *v))
            } else {
                None
            }),
        ensures
            listed_rows(self.map(), r@, p, row),
    {
        let ghost ev = self.entries_view();
        let mut out: Vec<R> = Vec::new();
        let ghost mut src: Seq<int> = Seq::empty();
        let mut i: usize = 0;
        while i < self.entries.len()
            invariant
                self.wf(),
                ev == self.entries_view(),
                i <= self.entries@.len(),
                forall|k: &K, v: &V| #[trigger] f.requires((k, v)),
                forall|k: &K, v: &V, o: Option<R>| #[trigger] f.ensures((k, v), o) ==> o == (if p(k@, *v) {
                    Some(row(k@, *v))
                } else {
                    None
                }),
                out@.len() == seq_count(ev.subrange(0, i as int), p),
                src.len() == out@.len(),
                forall|t: int|
                    #![trigger src[t]]
                    0 <= t < out@.len() ==> 0 <= src[t] < i && p(ev[src[t]].0, ev[src[t]].1) && out@[t]
                        == row(ev[src[t]].0, ev[src[t]].1),
                forall|j: int|
                    0 <= j < i && p(ev[j].0, #[trigger] ev[j].1) ==> out@.contains(row(ev[j].0, ev[j].1)),
            decreases self.entries@.len() - i,
        {
            proof {
                assert(ev.subrange(0, i + 1).drop_last() =~= ev.subrange(0, i as int));
            }
            let e = &self.entries[i];
            let ghost before = out@;
            let ghost h = i as int;
            let made = f(&e.0, &e.1);
            let keep = match made {
                Some(x) => {
                    out.push(x);
                    true
                },
                None => false,
            };
            i = i + 1;
            proof {
                if keep {
                    src = src.push(h);
                }
                assert(ev[h].0 == self.entries@[h].0@ && ev[h].1 == self.entries@[h].1);
                assert(ev.subrange(0, i as int).last() == ev[h]);
                assert forall|t: int|
                    #![trigger src[t]]
                    0 <= t < out@.len() implies 0 <= src[t] < i && p(ev[src[t]].0, ev[src[t]].1)
                        && out@[t] == row(ev[src[t]].0, ev[src[t]].1) by {
                    if t < before.len() {
                        assert(out@[t] == before[t]);
                    }
                }
                assert forall|j: int|
                    0 <= j < i && p(ev[j].0, #[trigger] ev[j].1) implies out@.contains(row(ev[j].0, ev[j].1)) by {
                    if j < h {
                        let t = choose|t: int| 0 <= t < before.len() && before[t] == row(ev[j].0, ev[j].1);
                        assert(out@[t] == before[t]);
                    } else {
                        assert(out@[out@.len() - 1] == row(ev[j].0, ev[j].1));
                    }
                }
            }
        }
        proof {
            assert(ev.subrange(0, ev.len() as int) =~= ev);
            self.lemma_count(p);
            self.lemma_entries();
            let m = self.map();
            let v = out@;
            assert forall|t: int| 0 <= t < v.len() implies #[trigger] made_from(m, p, row, v[t]) by {
                let j = src[t];
                assert(m.contains_key(ev[j].0));
            }
            assert forall|k: K::V| #[trigger] m.contains_key(k) && p(k, m[k]) implies v.contains(row(k, m[k])) by {
                let j = choose|j: int| 0 <= j < ev.len() && ev[j].0 == k;
                assert(m[ev[j].0] == ev[j].1);
            }
        }
        out
    }

    /// How many entries satisfy `f`.
    pub fn count_matching<F: Fn(&K, &V) -> bool>(&self, f: F, Ghost(p): Ghost<spec_fn(K::V, V) -> bool>) -> (n: usize)
        requires
            self.wf(),
            forall|k: &K, v: &V| #[trigger] f.requires((k, v)),
            forall|k: &K, v: &V, b: bool| #[trigger] f.ensures((k, v), b) ==> b == p(k@, *v),
        ensures
            n == count_where(self.map(), p),
    {
        let ghost ev = self.entries_view();
        let mut n: usize = 0;
        let mut i: usize = 0;
        while i < self.entries.len()
            invariant
                self.wf(),
                ev == self.entries_view(),
                i <= self.entries@.len(),
                forall|k: &K, v: &V| #[trigger] f.requires((k, v)),
                forall|k: &K, v: &V, b: bool| #[trigger] f.ensures((k, v), b) ==> b == p(k@, *v),
                n == seq_count(ev.subrange(0, i as int), p),
                n <= i,
            decreases self.entries@.len() - i,
        {
            proof {
                assert(ev.subrange(0, i + 1).drop_last() =~= ev.subrange(0, i as int));
                assert(ev[i as int].0 == self.entries@[i as int].0@ && ev[i as int].1 == self.entries@[i as int].1);
            }
            let e = &self.entries[i];
            if f(&e.0, &e.1) {
                n = n + 1;
            }
            i = i + 1;
        }
        proof {
            assert(ev.subrange(0, ev.len() as int) =~= ev);
            self.lemma_count(p);
        }
        n
    }

    proof fn lemma_count_prefix(&self, p: spec_fn(K::V, V) -> bool, i: int)
        requires
            self.wf(),
            0 <= i <= self.entries_view().len(),
        ensures
            Seq::new(i as nat, |j: int| self.entries_view()[j].0).to_set().filter(
                |k: K::V| p(k, self.map()[k]),
            ).finite(),
            seq_count(self.entries_view().subrange(0, i), p) == Seq::new(
                i as nat,
                |j: int| self.entries_view()[j].0,
            ).to_set().filter(|k: K::V| p(k, self.map()[k])).len(),
        decreases i,
    {
        let ev = self.entries_view();
        let m = self.map();
        let q = |k: K::V| p(k, m[k]);
        if i == 0 {
            assert(ev.subrange(0, 0) =~= Seq::<(K::V, V)>::empty());
            assert(Seq::new(0, |j: int| ev[j].0).to_set().filter(q) =~= Set::<K::V>::empty());
        } else {
            let h = i - 1;
            self.lemma_count_prefix(p, h);
            let keys = Seq::new(h as nat, |j: int| ev[j].0);
            let keys2 = Seq::new(i as nat, |j: int| ev[j].0);
            assert(keys2 =~= keys.push(ev[h].0));
            keys.lemma_push_to_set_commute(ev[h].0);
            assert(ev.subrange(0, i).drop_last() =~= ev.subrange(0, h));
            self.lemma_map_at(h);
            assert(ev[h].0 == self.entries@[h].0@ && ev[h].1 == self.entries@[h].1);
            assert(!keys.to_set().contains(ev[h].0)) by {
                if keys.to_set().contains(ev[h].0) {
                    let j = choose|j: int| 0 <= j < keys.len() && keys[j] == ev[h].0;
                    assert(self.entries@[j].0@ == self.entries@[h].0@);
                }
            }
            if p(ev[h].0, ev[h].1) {
                assert(keys2.to_set().filter(q) =~= keys.to_set().filter(q).insert(ev[h].0));
            } else {
                assert(keys2.to_set().filter(q) =~= keys.to_set().filter(q));
            }
        }
    }

    /// How many entries satisfy `p`, counted along storage order, equals
    /// how many keys of the map do.
    pub proof fn lemma_count(&self, p: spec_fn(K::V, V) -> bool)
        requires
            self.wf(),
        ensures
            seq_count(self.entries_view(), p) == count_where(self.map(), p),
    {
        let ev = self.entries_view();
        let m = self.map();
        self.lemma_count_prefix(p, ev.len() as int);
        self.lemma_entries();
        let keys = Seq::new(ev.len(), |j: int| ev[j].0);
        assert(keys.to_set() =~= m.dom()) by {
            assert forall|k: K::V| keys.to_set().contains(k) <==> m.dom().contains(k) by {
                if keys.to_set().contains(k) {
                    let j = choose|j: int| 0 <= j < keys.len() && keys[j] == k;
                    assert(ev[j].0 == k);
                }
                if m.dom().contains(k) {
                    let j = choose|j: int| 0 <= j < ev.len() && ev[j].0 == k;
                    assert(keys[j] == k);
                }
            }
        }
        assert(ev.subrange(0, ev.len() as int) =~= ev);
    }
}

/// `m` holds a value like `o`: `None` exactly when no entry satisfies `p`,
/// otherwise the value of an entry that does.
pub open spec fn found<K, V>(m: Map<K, V>, o: Option<V>, p: spec_fn(K, V) -> bool) -> bool {
    &&& (o is None <==> !exists|k: K| #[trigger] m.contains_key(k) && p(k, m[k]))
    &&& (o matches Some(v) ==> exists|k: K| #[trigger] m.contains_key(k) && m[k] == v && p(k, v))
}

/// `v` lists the values of exactly the entries of `m` that satisfy `p`,
/// each once.
pub open spec fn listed<K, V>(m: Map<K, V>, v: Seq<V>, p: spec_fn(K, V) -> bool) -> bool {
    &&& v.len() == count_where(m, p)
    &&& forall|t: int| 0 <= t < v.len() ==> #[trigger] value_of(m, p, v[t])
    &&& forall|k: K| #[trigger] m.contains_key(k) && p(k, m[k]) ==> v.contains(m[k])
}

/// `x` is the value of some entry of `m` that satisfies `p`.
pub open spec fn value_of<K, V>(m: Map<K, V>, p: spec_fn(K, V) -> bool, x: V) -> bool {
    exists|k: K| #[trigger] m.contains_key(k) && m[k] == x && p(k, x)
}

/// `v` lists, for each entry of `m` that satisfies `p`, the row `row` makes
/// of it, each once.
pub open spec fn listed_rows<K, V, R>(m: Map<K, V>, v: Seq<R>, p: spec_fn(K, V) -> bool, row: spec_fn(K, V) -> R) -> bool {
    &&& v.len() == count_where(m, p)
    &&& forall|t: int| 0 <= t < v.len() ==> #[trigger] made_from(m, p, row, v[t])
    &&& forall|k: K| #[trigger] m.contains_key(k) && p(k, m[k]) ==> v.contains(row(k, m[k]))
}

/// `x` is the row `row` makes of some entry of `m` that satisfies `p`.
pub open spec fn made_from<K, V, R>(m: Map<K, V>, p: spec_fn(K, V) -> bool, row: spec_fn(K, V) -> R, x: R) -> bool {
    exists|k: K| #[trigger] m.contains_key(k) && p(k, m[k]) && x == row(k, m[k])
}

/// The entries of `m` that `g` keeps, with the values it gives.
pub open spec fn map_filter<K, V>(m: Map<K, V>, g: spec_fn(K, V) -> Option<V>) -> Map<K, V> {
    Map::new(|k: K| m.contains_key(k) && g(k, m[k]) is Some, |k: K| g(k, m[k])->0)
}

/// How many keys of `m` satisfy `p` together with their values.
pub open spec fn count_where<K, V>(m: Map<K, V>, p: spec_fn(K, V) -> bool) -> nat {
    m.dom().filter(|k: K| p(k, m[k])).len()
}

/// How many pairs of `s` satisfy `p`.
pub open spec fn seq_count<K, V>(s: Seq<(K, V)>, p: spec_fn(K, V) -> bool) -> nat
    decreases s.len(),
{
    if s.len() == 0 {
        0
    } else {
        seq_count(s.drop_last(), p) + if p(s.last().0, s.last().1) {
            1nat
        } else {
            0nat
        }
    }
}

} // verus!
