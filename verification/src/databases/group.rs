//! What the database groups share: the flush of all their shards.

use crate::databases::database_heed::HeedDatabase;
use crate::error::StorageError;
use crate::storage::is_write_plan;
use crate::storage::WriteOp;
use std::collections::BTreeMap;
use std::collections::BTreeSet;
use vstd::laws_cmp::obeys_cmp;
use vstd::prelude::*;
use vstd::std_specs::cmp::OrdSpec;
use vstd::std_specs::iter::IteratorSpec;

verus! {

/// The writes that the flush of a group commits to one shard, in one
/// transaction of the store in the directory `path`.
pub struct ShardWrites<S, K, V> {
    pub shard: S,
    pub path: String,
    pub ops: Vec<WriteOp<K, V>>,
}

/// Whether `plan` is the flush of `shards`: one transaction for each shard
/// that has writes pending, none for the others, in ascending order of the
/// shards, each with the write plan of its shard and the directory of its
/// store.
pub open spec fn is_export_plan<S: Ord, K: Ord, V>(
    plan: Seq<ShardWrites<S, K, V>>,
    shards: Map<S, HeedDatabase<K, V>>,
) -> bool {
    &&& forall|i: int|
        0 <= i < plan.len() ==> {
            let writes = #[trigger] plan[i];
            &&& shards.contains_key(writes.shard)
            &&& !shards[writes.shard]@.is_empty()
            &&& writes.path@ == shards[writes.shard].path@
            &&& is_write_plan(
                writes.ops@,
                shards[writes.shard]@.dels,
                shards[writes.shard]@.puts,
            )
        }
    &&& forall|i: int, j: int|
        #![trigger plan[i], plan[j]]
        0 <= i < j < plan.len() ==> plan[i].shard != plan[j].shard && plan[i].shard.cmp_spec(
            &plan[j].shard,
        ) is Less
    &&& forall|shard: S|
        #![trigger shards.contains_key(shard)]
        shards.contains_key(shard) && !shards[shard]@.is_empty() ==> exists|i: int|
            0 <= i < plan.len() && (#[trigger] plan[i]).shard == shard
}

/// Whether the flush of `shard` is settled: it had nothing pending, or its
/// transaction is among those that committed.
pub open spec fn is_settled<S, K, V>(
    shards: Map<S, HeedDatabase<K, V>>,
    flushed: Set<S>,
    shard: S,
) -> bool {
    shards.contains_key(shard) && (shards[shard]@.is_empty() || flushed.contains(shard))
}

/// The shards that are left after a flush: those whose writes are still
/// pending, each as it was.
pub open spec fn unsettled<S, K, V>(shards: Map<S, HeedDatabase<K, V>>, flushed: Set<S>) -> Map<
    S,
    HeedDatabase<K, V>,
> {
    shards.remove_keys(Set::new(|shard: S| is_settled(shards, flushed, shard)))
}

/// Plans the flush of every shard.
pub fn plan_export<S: Ord + Copy, K: Ord + Copy, V: Copy>(
    shards: &BTreeMap<S, HeedDatabase<K, V>>,
) -> (plan: Vec<ShardWrites<S, K, V>>)
    requires
        obeys_cmp::<S>(),
        obeys_cmp::<K>(),
    ensures
        is_export_plan(plan@, shards@),
{
    let mut plan: Vec<ShardWrites<S, K, V>> = Vec::new();
    let entries = shards.iter();
    let ghost items = entries.remaining();
    let ghost order = items.map_values(|entry: (&S, &HeedDatabase<K, V>)| *entry.0);
    proof {
        assert(order =~= entries.remaining().map_values(
            |entry: (&S, &HeedDatabase<K, V>)| *entry.0,
        ));
        assert forall|i: int, j: int|
            #![trigger items[i], items[j]]
            0 <= i < j < items.len() implies (*items[i].0).cmp_spec(&*items[j].0) is Less by {
            assert(order[i] == *items[i].0);
            assert(order[j] == *items[j].0);
        }
    }
    let ghost mut origin: Seq<int> = Seq::empty();
    for entry in it: entries
        invariant
            obeys_cmp::<K>(),
            it.seq() == items,
            items.no_duplicates(),
            forall|i: int, j: int|
                #![trigger items[i], items[j]]
                0 <= i < j < items.len() ==> (*items[i].0).cmp_spec(&*items[j].0) is Less,
            forall|i: int|
                0 <= i < items.len() ==> shards@.contains_pair(
                    *(#[trigger] items[i]).0,
                    *items[i].1,
                ),
            origin.len() == plan@.len(),
            forall|i: int|
                0 <= i < plan@.len() ==> 0 <= #[trigger] origin[i] < it.index() && plan@[i].shard
                    == *items[origin[i]].0,
            forall|i: int, j: int|
                0 <= i < j < plan@.len() ==> #[trigger] origin[i] < #[trigger] origin[j],
            forall|i: int|
                0 <= i < plan@.len() ==> {
                    let writes = #[trigger] plan@[i];
                    &&& shards@.contains_key(writes.shard)
                    &&& !shards@[writes.shard]@.is_empty()
                    &&& writes.path@ == shards@[writes.shard].path@
                    &&& is_write_plan(
                        writes.ops@,
                        shards@[writes.shard]@.dels,
                        shards@[writes.shard]@.puts,
                    )
                },
            forall|k: int|
                0 <= k < it.index() && !(*(#[trigger] items[k]).1)@.is_empty() ==> exists|i: int|
                    0 <= i < plan@.len() && (#[trigger] plan@[i]).shard == *items[k].0,
    {
        let ghost index = it.index();
        assert(items[index] == entry);
        assert(shards@.contains_pair(*items[index].0, *items[index].1));
        let shard = *entry.0;
        let db = entry.1;
        if !db.is_empty() {
            let ghost before = plan@;
            let writes = ShardWrites { shard, path: db.path.clone(), ops: db.pending_writes() };
            plan.push(writes);
            proof {
                origin = origin.push(index);
                assert forall|k: int|
                    0 <= k < index + 1 && !(*(#[trigger] items[k]).1)@.is_empty() implies exists|
                    i: int,
                |
                    0 <= i < plan@.len() && (#[trigger] plan@[i]).shard == *items[k].0 by {
                    if k < index {
                        let i = choose|i: int|
                            0 <= i < before.len() && (#[trigger] before[i]).shard == *items[k].0;
                        assert(plan@[i] == before[i]);
                    } else {
                        assert(plan@[plan@.len() - 1].shard == *items[k].0);
                    }
                }
            }
        }
    }
    proof {
        assert forall|i: int, j: int|
            #![trigger plan@[i], plan@[j]]
            0 <= i < j < plan@.len() implies plan@[i].shard != plan@[j].shard
            && plan@[i].shard.cmp_spec(&plan@[j].shard) is Less by {
            assert(origin[i] < origin[j]);
            let a = items[origin[i]];
            let b = items[origin[j]];
            assert(a != b);
            if *a.0 == *b.0 {
                assert(shards@.contains_pair(*a.0, *a.1));
                assert(shards@.contains_pair(*b.0, *b.1));
                assert(*a.1 == *b.1);
                assert(a == b);
            }
        }
        assert forall|shard: S|
            #![trigger shards@.contains_key(shard)]
            shards@.contains_key(shard) && !shards@[shard]@.is_empty() implies exists|i: int|
            0 <= i < plan@.len() && (#[trigger] plan@[i]).shard == shard by {
            assert(items.contains((&shard, &shards@[shard])));
            let k = choose|k: int| 0 <= k < items.len() && items[k] == (&shard, &shards@[shard]);
            assert(!(*items[k].1)@.is_empty());
        }
    }
    plan
}

/// Settles the flush of every shard: `flushed` names the shards whose
/// transaction committed. Each shard settles its own flush; those that
/// succeed are closed and leave the map, the others stay, with their writes
/// still pending. The flush as a whole succeeds when no shard stays, and
/// fails with the first failure otherwise.
pub fn settle_export<S: Ord + Copy, K: Ord + Copy, V: Copy>(
    shards: &mut BTreeMap<S, HeedDatabase<K, V>>,
    flushed: &BTreeSet<S>,
) -> (settled: Result<(), StorageError>)
    requires
        obeys_cmp::<S>(),
    ensures
        final(shards)@ == unsettled(old(shards)@, flushed@),
        settled == (if final(shards)@.is_empty() {
            Ok::<(), StorageError>(())
        } else {
            Err::<(), StorageError>(StorageError::CommitFailed)
        }),
{
    let mut taken: BTreeMap<S, HeedDatabase<K, V>> = BTreeMap::new();
    std::mem::swap(shards, &mut taken);
    let ghost all = taken@;
    let ghost keys = taken.keys().remaining();
    let mut ids: Vec<S> = Vec::new();
    for shard in it: taken.keys()
        invariant
            it.seq() == keys,
            ids@.len() == it.index(),
            forall|i: int| 0 <= i < ids@.len() ==> ids@[i] == *keys[i],
    {
        ids.push(*shard);
    }
    proof {
        assert(ids@ =~= keys.unref());
        assert(ids@.to_set() == all.dom());
    }
    let mut settled: Result<(), StorageError> = Ok(());
    let ghost mut seen: Set<S> = Set::empty();
    let mut i: usize = 0;
    while i < ids.len()
        invariant
            obeys_cmp::<S>(),
            0 <= i <= ids@.len(),
            ids@.to_set() == all.dom(),
            forall|j: int| 0 <= j < i ==> seen.contains(#[trigger] ids@[j]),
            seen.subset_of(all.dom()),
            taken@ == all.remove_keys(seen),
            shards@ == unsettled(all, flushed@).restrict(seen),
            settled == (if shards@.is_empty() {
                Ok::<(), StorageError>(())
            } else {
                Err::<(), StorageError>(StorageError::CommitFailed)
            }),
        decreases ids@.len() - i,
    {
        let shard = ids[i];
        match taken.remove(&shard) {
            Some(mut db) => {
                let committed = if flushed.contains(&shard) {
                    Ok(())
                } else {
                    Err(StorageError::CommitFailed)
                };
                match db.export(committed) {
                    Ok(_) => {},
                    Err(failure) => {
                        if settled.is_ok() {
                            settled = Err(failure);
                        }
                        shards.insert(shard, db);
                    },
                }
            },
            None => {},
        }
        proof {
            assert(ids@.to_set().contains(shard));
            assert(taken@ =~= all.remove_keys(seen.insert(shard)));
            assert(shards@ =~= unsettled(all, flushed@).restrict(seen.insert(shard)));
            seen = seen.insert(shard);
        }
        i = i + 1;
    }
    proof {
        assert forall|shard: S| all.contains_key(shard) implies seen.contains(shard) by {
            assert(ids@.to_set().contains(shard));
            let j = choose|j: int| 0 <= j < ids@.len() && ids@[j] == shard;
            assert(seen.contains(ids@[j]));
        }
        assert(shards@ =~= unsettled(all, flushed@));
    }
    settled
}

} // verus!
