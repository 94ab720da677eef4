//! What holds of a cached store and the transactional store behind it,
//! whatever is pending and whatever the store holds.

use crate::databases::database_heed::HeedDatabase;
use crate::databases::database_heed::Pending;
use crate::databases::group::is_export_plan;
use crate::databases::group::ShardWrites;
use crate::databases::txid_to_tx_data::TxidToTxData;
use crate::databases::txout_index_to_address_index::TxoutIndexToAddressIndex;
use crate::storage::apply_ops;
use crate::storage::is_write_plan;
use crate::storage::lemma_write_plan_commits;
use crate::storage::Store;
use crate::storage::WriteOp;
use crate::structs::txid::Txid;
use crate::structs::txout_index::TxoutIndex;
use vstd::prelude::*;

verus! {

/// A read sees the write before it: after `insert(key, value)` a read of
/// `key` answers `value`, whatever the store holds for the key.
pub proof fn law_read_your_writes<K, V>(pending: Pending<K, V>, key: K, value: V, stored: Option<V>)
    ensures
        pending.insert(key, value).get(key, stored) == Some(value),
        pending.insert(key, value).cached(key) == Some(value),
{
}

/// An insert that is removed again before the flush never reaches the store:
/// the flush leaves what the store holds for `key` as it was, so a store
/// without the key is still without it.
pub proof fn law_cancel_before_export<K, V>(
    pending: Pending<K, V>,
    store: Store<K, V>,
    key: K,
    value: V,
)
    ensures
        pending.insert(key, value).remove(key).flush(store).committed.get(key)
            == store.committed.get(key),
        !store.committed.contains_key(key) ==> !pending.insert(key, value).remove(key).flush(
            store,
        ).committed.contains_key(key),
{
}

/// What was inserted and flushed is read back: the store holds `value` for
/// `key` after the flush, and a cached store with nothing pending answers
/// `value`, be it the one that was flushed or one opened anew on what the
/// store holds.
pub proof fn law_round_trip<K, V>(pending: Pending<K, V>, store: Store<K, V>, key: K, value: V)
    ensures
        ({
            let flushed = pending.insert(key, value).flush(store);
            let reloaded = Store::open(flushed.committed);
            &&& flushed.committed.get(key) == Some(value)
            &&& Pending::<K, V>::empty().get(key, flushed.read(key)) == Some(value)
            &&& Pending::<K, V>::empty().get(key, reloaded.read(key)) == Some(value)
        }),
{
}

/// An update replaces what an earlier flush stored: after `insert(key,
/// first)`, a flush, `update(key, second)` and a second flush, the store
/// differs from its state after the first flush in the entry of `key` alone,
/// which is `second`, and that is what a read answers.
pub proof fn law_update_overwrites<K, V>(
    pending: Pending<K, V>,
    store: Store<K, V>,
    key: K,
    first: V,
    second: V,
)
    ensures
        ({
            let flushed_once = pending.insert(key, first).flush(store);
            let flushed_twice = Pending::<K, V>::empty().update(key, second).flush(flushed_once);
            &&& flushed_twice.committed == flushed_once.committed.insert(key, second)
            &&& Pending::<K, V>::empty().get(key, flushed_twice.read(key)) == Some(second)
        }),
{
    let flushed_once = pending.insert(key, first).flush(store);
    let flushed_twice = Pending::<K, V>::empty().update(key, second).flush(flushed_once);
    assert(flushed_twice.committed =~= flushed_once.committed.insert(key, second));
}

/// A flush with nothing pending changes nothing: its write plan is empty,
/// so no transaction is due, and the store holds what it held. This is the
/// state of a cache right after a flush that committed, so a second flush in
/// a row is idle.
pub proof fn law_empty_export_is_idle<K: Ord, V>(store: Store<K, V>, ops: Seq<WriteOp<K, V>>)
    requires
        is_write_plan(ops, Pending::<K, V>::empty().dels, Pending::<K, V>::empty().puts),
    ensures
        ops.len() == 0,
        store.commit(ops) == store,
        Pending::<K, V>::empty().flush(store).committed == store.committed,
{
    lemma_write_plan_commits(
        store.committed,
        ops,
        Pending::<K, V>::empty().dels,
        Pending::<K, V>::empty().puts,
    );
    assert(Pending::<K, V>::empty().flush(store).committed =~= store.committed);
}

/// A flush is what its plan does: one transaction that applies the writes
/// in the order of the plan, and a new snapshot.
pub proof fn law_flush_follows_plan<K: Ord, V>(
    pending: Pending<K, V>,
    store: Store<K, V>,
    ops: Seq<WriteOp<K, V>>,
)
    requires
        is_write_plan(ops, pending.dels, pending.puts),
    ensures
        store.commit(ops).reopen() == pending.flush(store),
{
    lemma_write_plan_commits(store.committed, ops, pending.dels, pending.puts);
}

/// Until the snapshot is replaced, a read does not see what a transaction
/// has committed since the snapshot was opened.
pub proof fn law_snapshot_is_fixed<K, V>(store: Store<K, V>, ops: Seq<WriteOp<K, V>>, key: K)
    ensures
        store.commit(ops).read(key) == store.read(key),
        store.commit(ops).reopen().read(key) == apply_ops(store.committed, ops).get(key),
{
}

/// The flush of a group flushes every shard: for each shard with writes
/// pending the plan holds one transaction, and that transaction and a new
/// snapshot are the flush of the shard; a shard with nothing pending has no
/// transaction, and its flush leaves what its store holds as it is.
pub proof fn law_export_plan_flushes_every_shard<S: Ord, K: Ord, V>(
    plan: Seq<ShardWrites<S, K, V>>,
    shards: Map<S, HeedDatabase<K, V>>,
    shard: S,
    store: Store<K, V>,
)
    requires
        is_export_plan(plan, shards),
        shards.contains_key(shard),
    ensures
        shards[shard]@.is_empty() ==> shards[shard]@.flush(store).committed == store.committed
            && forall|i: int| 0 <= i < plan.len() ==> (#[trigger] plan[i]).shard != shard,
        !shards[shard]@.is_empty() ==> exists|i: int|
            0 <= i < plan.len() && (#[trigger] plan[i]).shard == shard && store.commit(
                plan[i].ops@,
            ).reopen() == shards[shard]@.flush(store),
{
    if shards[shard]@.is_empty() {
        assert(shards[shard]@.puts =~= Map::<K, V>::empty());
        assert(shards[shard]@.dels =~= Set::<K>::empty());
        assert(shards[shard]@.flush(store).committed =~= store.committed);
    } else {
        let i = choose|i: int| 0 <= i < plan.len() && (#[trigger] plan[i]).shard == shard;
        law_flush_follows_plan(shards[shard]@, store, plan[i].ops@);
    }
}

/// A transaction always belongs to the same shard and has the same key
/// there, and a shard always lives in the same directory: whenever an
/// identifier is looked up, in this run or after the group was opened anew,
/// it is looked up where it was inserted.
pub proof fn law_transaction_shard_is_determined(first: Txid, second: Txid)
    requires
        first@ == second@,
    ensures
        TxidToTxData::shard_of(first@) == TxidToTxData::shard_of(second@),
        TxidToTxData::key_of(first@) == TxidToTxData::key_of(second@),
        TxidToTxData::shard_name(TxidToTxData::shard_of(first@)) == TxidToTxData::shard_name(
            TxidToTxData::shard_of(second@),
        ),
{
}

/// Shard and key together say which transaction is meant: two identifiers
/// with the same shard and the same key are the same identifier.
pub proof fn law_shard_and_key_identify_transaction(first: Txid, second: Txid)
    requires
        TxidToTxData::shard_of(first@) == TxidToTxData::shard_of(second@),
        TxidToTxData::key_of(first@) == TxidToTxData::key_of(second@),
    ensures
        first@ == second@,
{
    TxidToTxData::lemma_key_bytes_of_key(first@);
    TxidToTxData::lemma_key_bytes_of_key(second@);
    assert(first@ =~= seq![first@[0]] + first@.subrange(1, 32));
    assert(second@ =~= seq![second@[0]] + second@.subrange(1, 32));
}

/// An output always belongs to the same shard and has the same key there,
/// and a shard always lives in the same directory.
pub proof fn law_output_shard_is_determined(first: TxoutIndex, second: TxoutIndex)
    requires
        first == second,
    ensures
        TxoutIndexToAddressIndex::shard_of(first) == TxoutIndexToAddressIndex::shard_of(second),
        first.number() == second.number(),
        TxoutIndexToAddressIndex::shard_name(TxoutIndexToAddressIndex::shard_of(first))
            == TxoutIndexToAddressIndex::shard_name(TxoutIndexToAddressIndex::shard_of(second)),
{
}

/// The number of an output says which output is meant, and the shard of an
/// output spans the numbers from its first to the first of the next shard.
pub proof fn law_number_identifies_output(first: TxoutIndex, second: TxoutIndex)
    ensures
        first.number() == second.number() ==> first == second,
        TxoutIndexToAddressIndex::shard_of(first) * 10_000_000_000 <= first.number()
            < (TxoutIndexToAddressIndex::shard_of(first) + 1) * 10_000_000_000,
{
}

} // verus!
