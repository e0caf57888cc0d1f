//! Sequence vocabulary shared by the ordered stores: finding an item by key and
//! moving an item before another.
use vstd::prelude::*;

verus! {

/// A found position as a mathematical index.
pub open spec fn as_index(r: Option<usize>) -> Option<int> {
    match r {
        Some(i) => Some(i as int),
        None => None,
    }
}

/// `i` is the first position of `x` in `s`.
pub open spec fn is_first_index<K>(s: Seq<K>, x: K, i: int) -> bool {
    0 <= i < s.len() && s[i] == x && forall|j: int| 0 <= j < i ==> s[j] != x
}

/// The first position of `x` in `s`, if it occurs.
pub open spec fn first_index<K>(s: Seq<K>, x: K) -> Option<int> {
    if exists|i: int| is_first_index(s, x, i) {
        Some(choose|i: int| is_first_index(s, x, i))
    } else {
        None
    }
}

pub proof fn lemma_first_index_found<K>(s: Seq<K>, x: K, i: int)
    requires
        is_first_index(s, x, i),
    ensures
        first_index(s, x) == Some(i),
{
    let k = choose|k: int| is_first_index(s, x, k);
    assert(is_first_index(s, x, k));
    if k < i {
        assert(s[k] != x);
    }
    if i < k {
        assert(s[i] != x);
    }
}

pub proof fn lemma_first_index_absent<K>(s: Seq<K>, x: K)
    requires
        forall|j: int| 0 <= j < s.len() ==> s[j] != x,
    ensures
        first_index(s, x) is None,
{
    if exists|i: int| is_first_index(s, x, i) {
        let k = choose|k: int| is_first_index(s, x, k);
        assert(s[k] == x);
    }
}

pub proof fn lemma_first_index_props<K>(s: Seq<K>, x: K)
    ensures
        first_index(s, x) matches Some(i) ==> is_first_index(s, x, i),
        first_index(s, x) is None ==> forall|j: int| 0 <= j < s.len() ==> s[j] != x,
{
    if first_index(s, x) is None {
        assert forall|j: int| 0 <= j < s.len() implies s[j] != x by {
            if s[j] == x {
                lemma_least_occurrence(s, x, j);
            }
        }
    }
}

/// If `x` occurs at `j`, some position up to `j` is its first.
proof fn lemma_least_occurrence<K>(s: Seq<K>, x: K, j: int)
    requires
        0 <= j < s.len(),
        s[j] == x,
    ensures
        exists|i: int| is_first_index(s, x, i),
    decreases j,
{
    if exists|l: int| 0 <= l < j && s[l] == x {
        let l = choose|l: int| 0 <= l < j && s[l] == x;
        lemma_least_occurrence(s, x, l);
    } else {
        assert(is_first_index(s, x, j));
    }
}

/// `s` after taking the item whose key is `id` out and putting it before the item whose key
/// is `before`, or at the end when `before` is absent or names no remaining item. Nothing
/// changes when no item has key `id`.
pub open spec fn moved<A, K>(s: Seq<A>, key: spec_fn(A) -> K, id: K, before: Option<K>) -> Seq<A> {
    match first_index(s.map_values(key), id) {
        None => s,
        Some(from) => {
            let item = s[from];
            let rest = s.remove(from);
            match before {
                Some(b) => match first_index(rest.map_values(key), b) {
                    Some(to) => rest.insert(to, item),
                    None => rest.push(item),
                },
                None => rest.push(item),
            }
        },
    }
}

/// Moving an item keeps the same items: the result is a permutation.
pub proof fn lemma_moved_permutation<A, K>(
    s: Seq<A>,
    key: spec_fn(A) -> K,
    id: K,
    before: Option<K>,
)
    ensures
        moved(s, key, id, before).to_multiset() == s.to_multiset(),
        moved(s, key, id, before).len() == s.len(),
{
    broadcast use vstd::seq_lib::group_to_multiset_ensures;

    lemma_first_index_props(s.map_values(key), id);
    match first_index(s.map_values(key), id) {
        None => {},
        Some(from) => {
            let item = s[from];
            let rest = s.remove(from);
            assert(rest.to_multiset() == s.to_multiset().remove(item));
            assert(s.to_multiset().count(item) > 0) by {
                assert(s.contains(item));
            }
            match before {
                Some(b) => {
                    lemma_first_index_props(rest.map_values(key), b);
                    match first_index(rest.map_values(key), b) {
                        Some(to) => {
                            let r = rest.insert(to, item);
                            assert(r.remove(to) =~= rest);
                            assert(r[to] == item);
                            assert(r.remove(to).to_multiset() == r.to_multiset().remove(item));
                            assert(r.to_multiset() =~= s.to_multiset());
                        },
                        None => {
                            assert(rest.push(item).to_multiset() =~= s.to_multiset());
                        },
                    }
                },
                None => {
                    assert(rest.push(item).to_multiset() =~= s.to_multiset());
                },
            }
        },
    }
}

/// No two items of `s` share a key.
pub open spec fn keys_distinct<A, K>(s: Seq<A>, key: spec_fn(A) -> K) -> bool {
    forall|i: int, j: int| 0 <= i < j < s.len() ==> key(s[i]) != key(s[j])
}

/// Filtering keeps keys distinct and keeps only items of the sequence.
pub proof fn lemma_filter_keys_distinct<A, K>(
    s: Seq<A>,
    pred: spec_fn(A) -> bool,
    key: spec_fn(A) -> K,
)
    requires
        keys_distinct(s, key),
    ensures
        keys_distinct(s.filter(pred), key),
        forall|i: int| 0 <= i < s.filter(pred).len() ==> s.contains(#[trigger] s.filter(pred)[i]),
    decreases s.len(),
{
    reveal_with_fuel(Seq::filter, 1);
    if s.len() > 0 {
        let t = s.drop_last();
        assert(keys_distinct(t, key)) by {
            assert forall|i: int, j: int| 0 <= i < j < t.len() implies key(t[i]) != key(t[j]) by {
                assert(t[i] == s[i] && t[j] == s[j]);
            }
        }
        lemma_filter_keys_distinct(t, pred, key);
        let ft = t.filter(pred);
        let f = s.filter(pred);
        assert forall|i: int| 0 <= i < f.len() implies s.contains(#[trigger] f[i]) by {
            if i < ft.len() {
                assert(f[i] == ft[i]);
                let x = choose|x: int| 0 <= x < t.len() && t[x] == ft[i];
                assert(s[x] == f[i]);
            } else {
                assert(f[i] == s[s.len() - 1]);
            }
        }
        if pred(s.last()) {
            assert forall|i: int, j: int| 0 <= i < j < f.len() implies key(f[i]) != key(f[j]) by {
                if j == ft.len() {
                    assert(f[i] == ft[i]);
                    let x = choose|x: int| 0 <= x < t.len() && t[x] == ft[i];
                    assert(s[x] == ft[i]);
                    assert(f[j] == s[s.len() - 1]);
                } else {
                    assert(f[i] == ft[i] && f[j] == ft[j]);
                }
            }
        }
    }
}

/// Moving an item keeps keys distinct, and the moved sequence has the same items.
pub proof fn lemma_moved_keys_distinct<A, K>(
    s: Seq<A>,
    key: spec_fn(A) -> K,
    id: K,
    before: Option<K>,
)
    requires
        keys_distinct(s, key),
    ensures
        keys_distinct(moved(s, key, id, before), key),
        forall|i: int|
            0 <= i < moved(s, key, id, before).len() ==> s.contains(
                #[trigger] moved(s, key, id, before)[i],
            ),
        forall|i: int| 0 <= i < s.len() ==> moved(s, key, id, before).contains(#[trigger] s[i]),
{
    broadcast use vstd::seq_lib::group_to_multiset_ensures;

    let m = moved(s, key, id, before);
    lemma_moved_permutation(s, key, id, before);
    assert(s.no_duplicates()) by {
        assert forall|i: int, j: int| 0 <= i < s.len() && 0 <= j < s.len() && i != j implies s[i]
            != s[j] by {
            if i < j {
                assert(key(s[i]) != key(s[j]));
            } else {
                assert(key(s[j]) != key(s[i]));
            }
        }
    }
    s.lemma_multiset_has_no_duplicates();
    m.lemma_multiset_has_no_duplicates_conv();
    assert forall|i: int| 0 <= i < m.len() implies s.contains(#[trigger] m[i]) by {
        assert(m.contains(m[i]));
    }
    assert forall|i: int| 0 <= i < s.len() implies m.contains(#[trigger] s[i]) by {
        assert(s.contains(s[i]));
        assert(s.to_multiset().count(s[i]) > 0);
    }
    assert forall|i: int, j: int| 0 <= i < j < m.len() implies key(m[i]) != key(m[j]) by {
        let p = choose|p: int| 0 <= p < s.len() && s[p] == m[i];
        let q = choose|q: int| 0 <= q < s.len() && s[q] == m[j];
        assert(m[i] != m[j]);
        if p < q {
            assert(key(s[p]) != key(s[q]));
        } else if q < p {
            assert(key(s[q]) != key(s[p]));
        }
    }
}

} // verus!
