//! The concurrent per-token stores of the ledger: `dashmap::DashMap` keyed by
//! token identity, seen through the map of entries it holds.
use vstd::prelude::*;
use crate::amount::Id256;
use dashmap::DashMap;

verus! {

#[verifier::external_type_specification]
#[verifier::external_body]
#[verifier::reject_recursive_types(K)]
#[verifier::reject_recursive_types(V)]
#[verifier::reject_recursive_types(S)]
pub struct ExDashMap<K, V, S>(DashMap<K, V, S>);

/// The entries that a token store holds.
pub uninterp spec fn entries(m: DashMap<Id256, i64>) -> Map<Id256, i64>;

/// Relies on `DashMap::new`: a new map holds no entry.
#[verifier::external_body]
pub(crate) fn store_new() -> (r: DashMap<Id256, i64>)
    ensures
        entries(r).dom() == Set::<Id256>::empty(),
{
    DashMap::new()
}

/// Relies on `DashMap::get`: the value stored under `k`, if any.
#[verifier::external_body]
pub(crate) fn store_get(m: &DashMap<Id256, i64>, k: &Id256) -> (r: Option<i64>)
    ensures
        r == (if entries(*m).contains_key(*k) { Some(entries(*m)[*k]) } else { None::<i64> }),
{
    m.get(k).map(|v| *v.value())
}

/// Relies on `DashMap::insert`: `k` maps to `v` afterwards, other keys keep theirs.
#[verifier::external_body]
pub(crate) fn store_insert(m: &mut DashMap<Id256, i64>, k: Id256, v: i64)
    ensures
        entries(*final(m)) == entries(*old(m)).insert(k, v),
{
    m.insert(k, v);
}

/// Relies on `DashMap::remove`: `k` has no entry afterwards, other keys keep theirs.
#[verifier::external_body]
pub(crate) fn store_remove(m: &mut DashMap<Id256, i64>, k: &Id256)
    ensures
        entries(*final(m)) == entries(*old(m)).remove(*k),
{
    m.remove(k);
}

/// Relies on `DashMap::iter`: a copy of every entry, each key once.
#[verifier::external_body]
pub(crate) fn store_snapshot(m: &DashMap<Id256, i64>) -> (r: Vec<(Id256, i64)>)
    ensures
        forall|i: int|
            0 <= i < r@.len() ==> entries(*m).contains_key(#[trigger] r@[i].0) && entries(*m)[r@[i].0]
                == r@[i].1,
        forall|i: int, j: int| 0 <= i < j < r@.len() ==> r@[i].0 != r@[j].0,
        forall|k: Id256| entries(*m).contains_key(k) ==> exists|i: int| 0 <= i < r@.len() && #[trigger] r@[i].0 == k,
{
    m.iter().map(|e| (*e.key(), *e.value())).collect()
}

} // verus!
