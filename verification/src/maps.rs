//! Helpers on ordered maps.

use vstd::prelude::*;
use vstd::std_specs::iter::IteratorSpec;
use vstd::std_specs::cmp::OrdSpec;
use std::collections::{BTreeMap, BTreeSet};

verus! {

proof fn lemma_increasing<K: Ord>(s: Seq<K>)
    requires
        vstd::laws_cmp::obeys_cmp::<K>(),
        vstd::std_specs::btree::increasing_seq(s),
    ensures
        forall|i: int, j: int| #![trigger s[i], s[j]] 0 <= i < j < s.len() ==> s[i].cmp_spec(&s[j]) is Less,
{
    vstd::std_specs::btree::axiom_increasing_seq_meaning::<K>(s);
}

/// The keys of a map, each once, in increasing order.
fn ordered_map_keys<K: Copy + Ord, V>(m: &BTreeMap<K, V>) -> (ks: Vec<K>)
    requires
        vstd::laws_cmp::obeys_cmp::<K>(),
        vstd::laws_cmp::obeys_cmp::<&K>(),
    ensures
        ks@.to_set() == m@.dom(),
        ks@.no_duplicates(),
        forall|i: int, j: int| #![trigger ks@[i], ks@[j]] 0 <= i < j < ks@.len() ==> ks@[i].cmp_spec(&ks@[j]) is Less,
{
    let mut ks: Vec<K> = Vec::new();
    let ghost r = vstd::std_specs::btree::spec_keys_iter(m).remaining();
    let ghost g = r.unref();
    proof {
        lemma_increasing::<&K>(r);
        assert forall|i: int, j: int| #![trigger g[i], g[j]] 0 <= i < j < g.len() implies g[i].cmp_spec(&g[j]) is Less by {
            assert(r[i].cmp_spec(&r[j]) is Less);
        }
    }
    for k in it: m.keys()
        invariant
            it.seq().unref() == g,
            ks@.len() == it.index(),
            forall|i: int| 0 <= i < it.index() ==> ks@[i] == g[i],
        ensures
            ks@ =~= g,
    {
        ks.push(*k);
    }
    ks
}

/// The elements of a set, each once, in increasing order.
fn ordered_set_keys<K: Copy + Ord>(m: &BTreeSet<K>) -> (ks: Vec<K>)
    requires
        vstd::laws_cmp::obeys_cmp::<K>(),
        vstd::laws_cmp::obeys_cmp::<&K>(),
    ensures
        ks@.to_set() == m@,
        ks@.no_duplicates(),
        forall|i: int, j: int| #![trigger ks@[i], ks@[j]] 0 <= i < j < ks@.len() ==> ks@[i].cmp_spec(&ks@[j]) is Less,
{
    let mut ks: Vec<K> = Vec::new();
    let ghost r = vstd::std_specs::btree::spec_btree_keys_iter(m).remaining();
    let ghost g = r.unref();
    proof {
        lemma_increasing::<&K>(r);
        assert forall|i: int, j: int| #![trigger g[i], g[j]] 0 <= i < j < g.len() implies g[i].cmp_spec(&g[j]) is Less by {
            assert(r[i].cmp_spec(&r[j]) is Less);
        }
    }
    for k in it: m.iter()
        invariant
            it.seq().unref() == g,
            ks@.len() == it.index(),
            forall|i: int| 0 <= i < it.index() ==> ks@[i] == g[i],
        ensures
            ks@ =~= g,
    {
        ks.push(*k);
    }
    ks
}

/// The keys of a map, each once, in increasing order.
pub(crate) fn map_keys<V>(m: &BTreeMap<u64, V>) -> (ks: Vec<u64>)
    ensures
        ks@.to_set() == m@.dom(),
        ks@.no_duplicates(),
        forall|i: int, j: int| 0 <= i < j < ks@.len() ==> ks@[i] < ks@[j],
{
    let ks = ordered_map_keys(m);
    assert forall|i: int, j: int| 0 <= i < j < ks@.len() implies ks@[i] < ks@[j] by {
        assert(ks@[i].cmp_spec(&ks@[j]) is Less);
    }
    ks
}

/// The keys of a map, each once, in increasing order.
pub(crate) fn map_keys_u16<V>(m: &BTreeMap<u16, V>) -> (ks: Vec<u16>)
    ensures
        ks@.to_set() == m@.dom(),
        ks@.no_duplicates(),
        forall|i: int, j: int| 0 <= i < j < ks@.len() ==> ks@[i] < ks@[j],
{
    let ks = ordered_map_keys(m);
    assert forall|i: int, j: int| 0 <= i < j < ks@.len() implies ks@[i] < ks@[j] by {
        assert(ks@[i].cmp_spec(&ks@[j]) is Less);
    }
    ks
}

/// The elements of a set, each once, in increasing order.
pub(crate) fn set_keys(m: &BTreeSet<u64>) -> (ks: Vec<u64>)
    ensures
        ks@.to_set() == m@,
        ks@.no_duplicates(),
        forall|i: int, j: int| 0 <= i < j < ks@.len() ==> ks@[i] < ks@[j],
{
    let ks = ordered_set_keys(m);
    assert forall|i: int, j: int| 0 <= i < j < ks@.len() implies ks@[i] < ks@[j] by {
        assert(ks@[i].cmp_spec(&ks@[j]) is Less);
    }
    ks
}

} // verus!
