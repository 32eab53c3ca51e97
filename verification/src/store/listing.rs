//! Lists the repository returns in a stable order: sorted by an
//! identifier, ascending.

use vstd::prelude::*;
use vstd::multiset::Multiset;
use vstd::seq_lib::*;

use crate::domain::{BillingAccount, BillingMembership, OrgMembership, Organization, Role, User};
use crate::store::table::{listed, listed_rows, made_from, value_of};
use crate::text::{lemma_seq_lt_asymmetric, lemma_seq_lt_transitive, seq_lt, str_lt};

verus! {

broadcast use {to_multiset_build, to_multiset_insert, to_multiset_len, to_multiset_contains};

/// A row that lists sort by.
pub trait Keyed {
    spec fn sort_key(&self) -> Seq<char>;

    fn key_str(&self) -> (s: &str)
        ensures
            s@ == self.sort_key(),
    ;
}

/// Ascending by key: no row has a smaller key than a row before it.
pub open spec fn sorted_by_key<T: Keyed>(s: Seq<T>) -> bool {
    forall|i: int, j: int| 0 <= i < j < s.len() ==> !seq_lt(#[trigger] s[j].sort_key(), #[trigger] s[i].sort_key())
}

impl Keyed for Organization {
    open spec fn sort_key(&self) -> Seq<char> {
        self.id@
    }

    fn key_str(&self) -> (s: &str) {
        self.id.as_str()
    }
}

impl Keyed for (BillingAccount, Role) {
    open spec fn sort_key(&self) -> Seq<char> {
        self.0.id@
    }

    fn key_str(&self) -> (s: &str) {
        self.0.id.as_str()
    }
}

impl Keyed for (Organization, Role) {
    open spec fn sort_key(&self) -> Seq<char> {
        self.0.id@
    }

    fn key_str(&self) -> (s: &str) {
        self.0.id.as_str()
    }
}

impl Keyed for (BillingMembership, User) {
    open spec fn sort_key(&self) -> Seq<char> {
        self.0.user_id@
    }

    fn key_str(&self) -> (s: &str) {
        self.0.user_id.as_str()
    }
}

impl Keyed for (OrgMembership, User) {
    open spec fn sort_key(&self) -> Seq<char> {
        self.0.user_id@
    }

    fn key_str(&self) -> (s: &str) {
        self.0.user_id.as_str()
    }
}

/// The position at which `x` keeps a sorted list sorted: after every row
/// whose key is not larger.
fn insertion_point<T: Keyed>(v: &Vec<T>, x: &T) -> (pos: usize)
    requires
        sorted_by_key(v@),
    ensures
        pos <= v@.len(),
        forall|i: int| 0 <= i < pos ==> !seq_lt(x.sort_key(), #[trigger] v@[i].sort_key()),
        pos < v@.len() ==> seq_lt(x.sort_key(), v@[pos as int].sort_key()),
{
    let mut i: usize = 0;
    while i < v.len()
        invariant
            i <= v@.len(),
            forall|j: int| 0 <= j < i ==> !seq_lt(x.sort_key(), #[trigger] v@[j].sort_key()),
        decreases v@.len() - i,
    {
        if str_lt(x.key_str(), v[i].key_str()) {
            return i;
        }
        i = i + 1;
    }
    i
}

/// The same rows, sorted ascending by key.
pub fn sort_by_key<T: Keyed>(v: Vec<T>) -> (r: Vec<T>)
    ensures
        r@.to_multiset() == v@.to_multiset(),
        sorted_by_key(r@),
{
    let ghost orig = v@;
    let mut rest = v;
    let mut out: Vec<T> = Vec::new();
    while rest.len() > 0
        invariant
            sorted_by_key(out@),
            out@.to_multiset().add(rest@.to_multiset()) == orig.to_multiset(),
        decreases rest@.len(),
    {
        let ghost before_rest = rest@;
        let x = rest.pop().unwrap();
        proof {
            assert(before_rest =~= rest@.push(x));
        }
        let pos = insertion_point(&out, &x);
        let ghost before = out@;
        out.insert(pos, x);
        proof {
            assert forall|i: int, j: int| 0 <= i < j < out@.len() implies !seq_lt(
                #[trigger] out@[j].sort_key(),
                #[trigger] out@[i].sort_key(),
            ) by {
                if j < pos {
                    assert(out@[i] == before[i] && out@[j] == before[j]);
                } else if j == pos {
                    assert(out@[i] == before[i]);
                } else if i > pos {
                    assert(out@[i] == before[i - 1] && out@[j] == before[j - 1]);
                } else if i == pos {
                    assert(out@[j] == before[j - 1]);
                    lemma_seq_lt_asymmetric(x.sort_key(), before[pos as int].sort_key());
                    if seq_lt(before[j - 1].sort_key(), x.sort_key()) {
                        if j - 1 > pos {
                            lemma_seq_lt_transitive(
                                before[j - 1].sort_key(),
                                x.sort_key(),
                                before[pos as int].sort_key(),
                            );
                        }
                    }
                } else {
                    assert(out@[i] == before[i] && out@[j] == before[j - 1]);
                }
            }
            assert(out@.to_multiset() == before.to_multiset().insert(x));
            assert(before_rest.to_multiset() == rest@.to_multiset().insert(x));
            assert(out@.to_multiset().add(rest@.to_multiset()) =~= before.to_multiset().add(
                before_rest.to_multiset(),
            ));
        }
    }
    proof {
        assert(rest@.to_multiset() =~= Multiset::empty());
        assert(out@.to_multiset().add(Multiset::empty()) =~= out@.to_multiset());
    }
    out
}


/// Reordering a listing keeps it a listing.
pub proof fn lemma_listed_rows_permuted<K, V, R>(
    m: Map<K, V>,
    v: Seq<R>,
    w: Seq<R>,
    p: spec_fn(K, V) -> bool,
    row: spec_fn(K, V) -> R,
)
    requires
        listed_rows(m, v, p, row),
        w.to_multiset() == v.to_multiset(),
    ensures
        listed_rows(m, w, p, row),
{
    assert(w.len() == w.to_multiset().len() && v.len() == v.to_multiset().len());
    assert forall|t: int| 0 <= t < w.len() implies #[trigger] made_from(m, p, row, w[t]) by {
        assert(w.contains(w[t]));
        assert(w.to_multiset().count(w[t]) > 0);
        assert(v.to_multiset().count(w[t]) > 0);
        assert(v.contains(w[t]));
        let s = choose|s: int| 0 <= s < v.len() && v[s] == w[t];
        assert(made_from(m, p, row, v[s]));
    }
    assert forall|k: K| #[trigger] m.contains_key(k) && p(k, m[k]) implies w.contains(row(k, m[k])) by {
        assert(v.contains(row(k, m[k])));
        assert(v.to_multiset().count(row(k, m[k])) > 0);
        assert(w.to_multiset().count(row(k, m[k])) > 0);
    }
}

/// Reordering a listing keeps it a listing.
pub proof fn lemma_listed_permuted<K, V>(m: Map<K, V>, v: Seq<V>, w: Seq<V>, p: spec_fn(K, V) -> bool)
    requires
        listed(m, v, p),
        w.to_multiset() == v.to_multiset(),
    ensures
        listed(m, w, p),
{
    assert(w.len() == w.to_multiset().len() && v.len() == v.to_multiset().len());
    assert forall|t: int| 0 <= t < w.len() implies #[trigger] value_of(m, p, w[t]) by {
        assert(w.contains(w[t]));
        assert(w.to_multiset().count(w[t]) > 0);
        assert(v.to_multiset().count(w[t]) > 0);
        assert(v.contains(w[t]));
        let s = choose|s: int| 0 <= s < v.len() && v[s] == w[t];
        assert(value_of(m, p, v[s]));
    }
    assert forall|k: K| #[trigger] m.contains_key(k) && p(k, m[k]) implies w.contains(m[k]) by {
        assert(v.contains(m[k]));
        assert(v.to_multiset().count(m[k]) > 0);
        assert(w.to_multiset().count(m[k]) > 0);
    }
}

} // verus!
