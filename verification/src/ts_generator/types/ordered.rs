//! Maps with integer keys read in the order of their keys.

use std::collections::BTreeMap;
use vstd::prelude::*;
use vstd::std_specs::btree::{increasing_seq, spec_values_iter};
use vstd::std_specs::cmp::OrdSpec;
use vstd::std_specs::iter::IteratorSpec;

verus! {

/// Whether each key of `keys` is smaller than the next.
pub open spec fn rising(keys: Seq<int>) -> bool {
    forall|i: int, j: int| 0 <= i < j < keys.len() ==> keys[i] < keys[j]
}

/// Whether `keys` holds the members of `dom`, each once, from the smallest
/// to the largest.
pub open spec fn lists(keys: Seq<int>, dom: Set<int>) -> bool {
    &&& rising(keys)
    &&& forall|k: int| dom.contains(k) <==> keys.contains(k)
}

/// The members of `dom` from the smallest to the largest.
pub open spec fn ordered_keys(dom: Set<int>) -> Seq<int> {
    choose|keys: Seq<int>| lists(keys, dom)
}

/// Whether the members of `dom` can be listed in order, as those of every
/// finite set can.
pub open spec fn listed(dom: Set<int>) -> bool {
    lists(ordered_keys(dom), dom)
}

/// The values of `m`, in the order of their keys.
pub open spec fn ordered_values<V>(m: Map<int, V>) -> Seq<V> {
    ordered_keys(m.dom()).map_values(|k: int| m[k])
}

/// Two rising sequences with the same members are the same sequence.
pub proof fn lemma_rising_unique(a: Seq<int>, b: Seq<int>)
    requires
        rising(a),
        rising(b),
        forall|k: int| a.contains(k) <==> b.contains(k),
    ensures
        a == b,
    decreases a.len(),
{
    if a.len() == 0 {
        if b.len() > 0 {
            assert(b.contains(b[0]));
        }
        assert(a =~= b);
    } else {
        let x = a.last();
        assert(a.contains(x));
        let j = choose|j: int| 0 <= j < b.len() && b[j] == x;
        let y = b.last();
        assert(b.contains(y));
        let i = choose|i: int| 0 <= i < a.len() && a[i] == y;
        assert(j == b.len() - 1);
        let a0 = a.drop_last();
        let b0 = b.drop_last();
        assert forall|k: int| a0.contains(k) <==> b0.contains(k) by {
            if a0.contains(k) {
                let p = choose|p: int| 0 <= p < a0.len() && a0[p] == k;
                assert(a[p] == k);
                assert(a.contains(k));
                let q = choose|q: int| 0 <= q < b.len() && b[q] == k;
                assert(b0[q] == k);
            }
            if b0.contains(k) {
                let q = choose|q: int| 0 <= q < b0.len() && b0[q] == k;
                assert(b[q] == k);
                assert(b.contains(k));
                let p = choose|p: int| 0 <= p < a.len() && a[p] == k;
                assert(a0[p] == k);
            }
        }
        lemma_rising_unique(a0, b0);
        assert(a =~= a0.push(x));
        assert(b =~= b0.push(y));
    }
}

/// Values that stand in the order of the keys of `m` are its ordered values.
pub proof fn lemma_ordered_values<V>(m: Map<int, V>, keys: Seq<int>, values: Seq<V>)
    requires
        lists(keys, m.dom()),
        values.len() == keys.len(),
        forall|i: int| 0 <= i < keys.len() ==> values[i] == m[keys[i]],
    ensures
        ordered_keys(m.dom()) == keys,
        ordered_values(m) == values,
{
    let chosen = ordered_keys(m.dom());
    assert(lists(chosen, m.dom()));
    lemma_rising_unique(chosen, keys);
    assert(ordered_values(m) =~= values);
}

/// A map with `i32` keys as a map with integer keys.
pub open spec fn keyed_by_i32<V>(m: Map<i32, V>) -> Map<int, V> {
    Map::new(
        |k: int| i32::MIN <= k <= i32::MAX && m.contains_key(k as i32),
        |k: int| m[k as i32],
    )
}

/// A map with `usize` keys as a map with integer keys.
pub open spec fn keyed_by_usize<V>(m: Map<usize, V>) -> Map<int, V> {
    Map::new(
        |k: int| 0 <= k <= usize::MAX && m.contains_key(k as usize),
        |k: int| m[k as usize],
    )
}

/// Whether `values` are the values of `m` under `keys`, and `keys` the keys
/// of `m` in the order in which a `BTreeMap` keeps them.
spec fn in_key_order<K, V>(values: Seq<&V>, keys: Seq<K>, m: Map<K, V>) -> bool {
    &&& increasing_seq(keys)
    &&& keys.to_set() == m.dom()
    &&& values.len() == keys.len()
    &&& forall|i: int| 0 <= i < values.len() ==> *(#[trigger] values[i]) == m[keys[i]]
}

/// What `BTreeMap::values` hands out, collected: the values of `m` in the
/// order in which the map keeps its keys.
fn values_by_key<'a, K: Ord, V>(m: &'a BTreeMap<K, V>) -> (out: Vec<&'a V>)
    requires
        vstd::laws_cmp::obeys_cmp::<K>(),
    ensures
        exists|keys: Seq<K>| #[trigger] in_key_order(out@, keys, m@),
{
    let mut out: Vec<&'a V> = Vec::new();
    let ghost all = spec_values_iter(m).remaining();
    for v in it: m.values()
        invariant
            out@.len() == it.index(),
            forall|k: int| 0 <= k < it.index() ==> out@[k] == it.seq()[k],
            it.seq() == all,
    {
        out.push(v);
    }
    proof {
        let keys = choose|key_seq: Seq<K>|
            {
                &&& increasing_seq(key_seq)
                &&& key_seq.to_set() == m@.dom()
                &&& key_seq.no_duplicates()
                &&& all == key_seq.map(|i: int, k: K| &m@[k])
            };
        assert(in_key_order(out@, keys, m@));
    }
    out
}

/// Keys that a map with `i32` keys keeps in its order rise.
proof fn lemma_increasing_i32(keys: Seq<i32>)
    requires
        increasing_seq(keys),
    ensures
        forall|i: int, j: int| 0 <= i < j < keys.len() ==> keys[i] < keys[j],
{
    assert(vstd::laws_cmp::obeys_cmp::<i32>());
    assert forall|i: int, j: int| 0 <= i < j < keys.len() implies keys[i] < keys[j] by {
        assert(keys[i].cmp_spec(&keys[j]) is Less);
    }
}

/// Keys that a map with `usize` keys keeps in its order rise.
proof fn lemma_increasing_usize(keys: Seq<usize>)
    requires
        increasing_seq(keys),
    ensures
        forall|i: int, j: int| 0 <= i < j < keys.len() ==> keys[i] < keys[j],
{
    assert(vstd::laws_cmp::obeys_cmp::<usize>());
    assert forall|i: int, j: int| 0 <= i < j < keys.len() implies keys[i] < keys[j] by {
        assert(keys[i].cmp_spec(&keys[j]) is Less);
    }
}

/// The values of `m` in the order of their keys.
pub fn values_in_order_i32<'a, V>(m: &'a BTreeMap<i32, V>) -> (out: Vec<&'a V>)
    ensures
        listed(keyed_by_i32(m@).dom()),
        out@.map_values(|v: &V| *v) == ordered_values(keyed_by_i32(m@)),
{
    let out = values_by_key(m);
    proof {
        let keys = choose|keys: Seq<i32>| #[trigger] in_key_order(out@, keys, m@);
        lemma_increasing_i32(keys);
        let int_keys = keys.map_values(|k: i32| k as int);
        let values = out@.map_values(|v: &V| *v);
        let target = keyed_by_i32(m@);
        assert forall|k: int| target.dom().contains(k) <==> int_keys.contains(k) by {
            if target.dom().contains(k) {
                assert(keys.to_set().contains(k as i32));
                let i = choose|i: int| 0 <= i < keys.len() && keys[i] == k as i32;
                assert(int_keys[i] == k);
            }
            if int_keys.contains(k) {
                let i = choose|i: int| 0 <= i < int_keys.len() && int_keys[i] == k;
                assert(keys.to_set().contains(keys[i]));
            }
        }
        assert forall|i: int| 0 <= i < int_keys.len() implies values[i] == target[int_keys[i]] by {
            assert(keys.to_set().contains(keys[i]));
        }
        lemma_ordered_values(target, int_keys, values);
    }
    out
}

/// The values of `m` in the order of their keys.
pub fn values_in_order_usize<'a, V>(m: &'a BTreeMap<usize, V>) -> (out: Vec<&'a V>)
    ensures
        listed(keyed_by_usize(m@).dom()),
        out@.map_values(|v: &V| *v) == ordered_values(keyed_by_usize(m@)),
{
    let out = values_by_key(m);
    proof {
        let keys = choose|keys: Seq<usize>| #[trigger] in_key_order(out@, keys, m@);
        lemma_increasing_usize(keys);
        let int_keys = keys.map_values(|k: usize| k as int);
        let values = out@.map_values(|v: &V| *v);
        let target = keyed_by_usize(m@);
        assert forall|k: int| target.dom().contains(k) <==> int_keys.contains(k) by {
            if target.dom().contains(k) {
                assert(keys.to_set().contains(k as usize));
                let i = choose|i: int| 0 <= i < keys.len() && keys[i] == k as usize;
                assert(int_keys[i] == k);
            }
            if int_keys.contains(k) {
                let i = choose|i: int| 0 <= i < int_keys.len() && int_keys[i] == k;
                assert(keys.to_set().contains(keys[i]));
            }
        }
        assert forall|i: int| 0 <= i < int_keys.len() implies values[i] == target[int_keys[i]] by {
            assert(keys.to_set().contains(keys[i]));
        }
        lemma_ordered_values(target, int_keys, values);
    }
    out
}

} // verus!
