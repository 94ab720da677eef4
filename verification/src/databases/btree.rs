//! What the caches need of `BTreeMap` beyond what vstd specifies.

use std::collections::BTreeMap;
use vstd::laws_cmp::obeys_cmp;
use vstd::prelude::*;

verus! {

/// `BTreeMap::get_mut`: a mutable reference to the value stored under `key`,
/// or `None` where the map has no such key. What the caller writes through
/// the reference is what the map holds under `key` afterwards; nothing else
/// in the map changes.
#[verifier::external_body]
pub(crate) fn get_mut<'a, K: Ord, V>(map: &'a mut BTreeMap<K, V>, key: &K) -> (value: Option<
    &'a mut V,
>)
    ensures
        obeys_cmp::<K>() ==> match value {
            Some(v) => old(map)@.contains_key(*key) && *v == old(map)@[*key] && final(map)@ == old(
                map,
            )@.insert(*key, *final(v)),
            None => !old(map)@.contains_key(*key) && final(map)@ == old(map)@,
        },
{
    map.get_mut(key)
}

} // verus!
