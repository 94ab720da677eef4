use chain_store::databases::Metadata;
use chain_store::databases::ShardWrites;
use chain_store::databases::TxidToTxData;
use chain_store::databases::TxoutIndexToAddressIndex;
use chain_store::error::StorageError;
use chain_store::storage::WriteOp;
use chain_store::structs::BlockPath;
use chain_store::structs::Date;
use chain_store::structs::Height;
use chain_store::structs::TxData;
use chain_store::structs::Txid;
use chain_store::structs::TxoutIndex;
use std::collections::BTreeMap;
use std::collections::BTreeSet;

type Disk<K, V> = BTreeMap<String, BTreeMap<K, V>>;

/// Commits the transaction of every shard of a plan to directories in
/// memory, and says which shards committed.
fn commit_all<S: Ord + Copy, K: Ord + Copy, V: Copy>(
    disk: &mut Disk<K, V>,
    plan: &[ShardWrites<S, K, V>],
) -> BTreeSet<S> {
    let mut flushed = BTreeSet::new();
    for writes in plan {
        let store = disk.entry(writes.path.clone()).or_default();
        for op in &writes.ops {
            match op {
                WriteOp::Delete(key) => {
                    store.remove(key);
                }
                WriteOp::Put(key, value) => {
                    store.insert(*key, *value);
                }
            }
        }
        flushed.insert(writes.shard);
    }
    flushed
}

fn first_txid() -> Txid {
    let mut bytes = [0u8; 32];
    bytes[0] = 0x01;
    Txid::new(bytes)
}

fn tx_data() -> TxData {
    TxData::new(5, BlockPath { date_index: 0, block_index: 0 }, 2)
}

#[test]
fn prefix_sharded_scenario() {
    let txid = first_txid();
    let value = tx_data();
    let mut disk: Disk<(u128, u128), TxData> = BTreeMap::new();

    let mut group = TxidToTxData::import(None).unwrap();
    assert_eq!(group.insert(&txid, value), None);
    assert_eq!(group.unsafe_get(&txid, None), Some(value));
    assert_eq!(group.map.len(), 1);
    assert!(group.map.contains_key(&1));

    let plan = group.export_plan();
    assert_eq!(plan.len(), 1);
    assert_eq!(plan[0].shard, 1);
    assert_eq!(plan[0].path, "./target/outputs/databases/txid_to_tx_data/1");
    assert_eq!(plan[0].ops, vec![WriteOp::Put((0, 0), value)]);
    let flushed = commit_all(&mut disk, &plan);
    let file = group.export(&flushed, Height::new(100), Date::new(2024, 1, 1)).unwrap();
    assert!(group.map.is_empty());
    assert_eq!(group.metadata.last_height(), Some(Height::new(100)));
    assert_eq!(group.metadata.last_date(), Some(Date::new(2024, 1, 1)));
    assert_eq!(group.metadata.insert_count, 1);

    // the group as it comes back from disk
    let mut reopened = TxidToTxData::import(Some(&file)).unwrap();
    assert_eq!(reopened.metadata, group.metadata);
    assert_eq!(reopened.unsafe_get(&txid, None), None);
    let key = TxidToTxData::txid_to_key(&txid);
    let shard = reopened.open_db(&txid).path.clone();
    let stored = disk.get(&shard).and_then(|store| store.get(&key)).copied();
    assert_eq!(stored, Some(value));
    assert_eq!(reopened.get(&txid, stored), Some(value));
    assert_eq!(reopened.unsafe_get(&txid, stored), Some(value));
}

#[test]
fn range_sharding_scenario() {
    let key = TxoutIndex::new(381_469, 47_616);
    assert_eq!(key.as_u64(), 25_000_000_000);
    assert_eq!(TxoutIndexToAddressIndex::db_index(&key), 2);
    assert_eq!(TxoutIndexToAddressIndex::db_name(2), "20000000000..30000000000");
    let mut group = TxoutIndexToAddressIndex::import(None).unwrap();
    assert_eq!(group.unsafe_insert(key, 9), None);
    assert!(group.map.contains_key(&2));
    assert_eq!(
        group.map[&2].path,
        "./target/outputs/databases/txout_index_to_address_index/20000000000..30000000000"
    );
    assert_eq!(group.unsafe_get(&key, None), Some(9));
}

#[test]
fn range_shard_names() {
    assert_eq!(TxoutIndexToAddressIndex::db_name(0), "0..10000000000");
    assert_eq!(TxoutIndexToAddressIndex::db_name(1), "10000000000..20000000000");
    assert_eq!(TxoutIndexToAddressIndex::db_name(28_147), "281470000000000..281480000000000");
    assert_eq!(TxoutIndexToAddressIndex::db_index(&TxoutIndex::new(0, 0)), 0);
    assert_eq!(TxoutIndexToAddressIndex::db_index(&TxoutIndex::new(152_587, 58_367)), 0);
    assert_eq!(TxoutIndex::new(152_587, 58_368).as_u64(), 10_000_000_000);
    assert_eq!(TxoutIndexToAddressIndex::db_index(&TxoutIndex::new(152_587, 58_368)), 1);
    assert_eq!(TxoutIndexToAddressIndex::db_index(&TxoutIndex::new(u32::MAX, u16::MAX)), 28_147);
}

#[test]
fn shard_of_a_key_is_always_the_same() {
    let mut bytes = [7u8; 32];
    bytes[0] = 200;
    let txid = Txid::new(bytes);
    assert_eq!(TxidToTxData::db_index(&txid), 200);
    assert_eq!(TxidToTxData::db_index(&txid), TxidToTxData::db_index(&txid));
    assert_eq!(TxidToTxData::txid_to_key(&txid), TxidToTxData::txid_to_key(&txid));

    let mut group = TxidToTxData::import(None).unwrap();
    group.insert(&txid, tx_data());
    let shards: Vec<u8> = group.map.keys().copied().collect();
    assert_eq!(shards, vec![200]);
    assert_eq!(group.open_db(&txid).path, "./target/outputs/databases/txid_to_tx_data/200");
    assert_eq!(group.find_db(&txid).unwrap().get_from_puts(&TxidToTxData::txid_to_key(&txid)), Some(&tx_data()));
}

#[test]
fn txid_key_holds_the_bytes_after_the_first() {
    let mut bytes = [0u8; 32];
    for i in 0..32 {
        bytes[i] = (i as u8) * 3 + 1;
    }
    let txid = Txid::new(bytes);
    let key = TxidToTxData::txid_to_key(&txid);
    assert_eq!(TxidToTxData::key_to_bytes(&key), bytes[1..].to_vec());
    // the first byte is the shard, not the key
    let mut other = bytes;
    other[0] = 0;
    assert_eq!(TxidToTxData::txid_to_key(&Txid::new(other)), key);
    assert_ne!(TxidToTxData::db_index(&Txid::new(other)), TxidToTxData::db_index(&txid));
    // every other byte counts
    for i in 1..32 {
        let mut changed = bytes;
        changed[i] ^= 0x80;
        assert_ne!(TxidToTxData::txid_to_key(&Txid::new(changed)), key);
    }
    let mut low = [0u8; 32];
    low[1] = 1;
    assert_eq!(TxidToTxData::txid_to_key(&Txid::new(low)), (1, 0));
    let mut high = [0u8; 32];
    high[16] = 2;
    assert_eq!(TxidToTxData::txid_to_key(&Txid::new(high)), (0, 2));
}

#[test]
fn unsafe_get_on_a_shard_that_is_not_open_is_none() {
    let group = TxidToTxData::import(None).unwrap();
    let txid = first_txid();
    assert_eq!(group.unsafe_get(&txid, Some(tx_data())), None);
    assert!(matches!(group.find_db(&txid), Err(StorageError::ShardNotFound)));
    assert!(group.map.is_empty());

    let group = TxoutIndexToAddressIndex::import(None).unwrap();
    let key = TxoutIndex::new(1, 2);
    assert_eq!(group.unsafe_get(&key, Some(3)), None);
    assert!(matches!(group.find_db(&key), Err(StorageError::ShardNotFound)));
}

#[test]
fn get_opens_the_shard() {
    let mut group = TxidToTxData::import(None).unwrap();
    let txid = first_txid();
    assert_eq!(group.get(&txid, Some(tx_data())), Some(tx_data()));
    assert!(group.map.contains_key(&1));
    assert!(group.map[&1].is_empty());
    assert_eq!(group.get(&txid, None), None);
    assert_eq!(group.metadata, Metadata::default());

    let mut group = TxoutIndexToAddressIndex::import(None).unwrap();
    let key = TxoutIndex::new(1, 2);
    assert_eq!(group.get(&key, Some(3)), Some(3));
    assert!(group.map.contains_key(&0));
}

#[test]
fn removals_and_updates_of_transactions() {
    let mut group = TxidToTxData::import(None).unwrap();
    let txid = first_txid();
    let key = TxidToTxData::txid_to_key(&txid);
    group.insert(&txid, tx_data());
    group.remove_from_puts(&txid);
    assert_eq!(group.unsafe_get(&txid, None), None);
    assert!(group.map[&1].is_empty());
    group.remove_from_db(&txid);
    assert!(group.map[&1].cached_dels.contains(&key));
    assert_eq!(group.metadata.insert_count, 1);
    assert_eq!(group.metadata.remove_count, 2);
    let changed = TxData::new(5, BlockPath { date_index: 0, block_index: 0 }, 1);
    group.update(&txid, changed);
    assert_eq!(group.metadata.insert_count, 1);
    assert_eq!(group.unsafe_get(&txid, None), Some(changed));
    assert_eq!(group.export_plan()[0].ops, vec![WriteOp::Delete(key), WriteOp::Put(key, changed)]);
}

#[test]
fn cached_transaction_is_changed_in_place() {
    let mut group = TxidToTxData::import(None).unwrap();
    let txid = first_txid();
    assert!(group.unsafe_get_mut_from_puts(&txid).is_none());
    assert!(group.map.is_empty());
    group.insert(&txid, tx_data());
    match group.unsafe_get_mut_from_puts(&txid) {
        Some(data) => data.utxos -= 1,
        None => panic!("the transaction is cached"),
    }
    assert_eq!(group.unsafe_get(&txid, None).map(|data| data.utxos), Some(1));
    let mut absent = [0u8; 32];
    absent[0] = 0x01;
    absent[31] = 9;
    assert!(group.unsafe_get_mut_from_puts(&Txid::new(absent)).is_none());
}

#[test]
fn outputs_insert_remove_update() {
    let mut group = TxoutIndexToAddressIndex::import(None).unwrap();
    let key = TxoutIndex::new(10, 1);
    assert_eq!(group.unsafe_insert(key, 4), None);
    assert_eq!(group.insert(key, 5), Some(4));
    assert_eq!(group.update(key, 6), Some(5));
    assert_eq!(group.remove(&key), Some(6));
    assert_eq!(group.remove(&key), None);
    assert_eq!(group.metadata.insert_count, 2);
    assert_eq!(group.metadata.remove_count, 2);
    assert_eq!(group.export_plan()[0].ops, vec![WriteOp::Delete(key.as_u64())]);
}

#[test]
fn export_closes_the_shards_that_committed_and_keeps_the_others() {
    let mut group = TxidToTxData::import(None).unwrap();
    let mut a = [0u8; 32];
    a[0] = 3;
    let mut b = [0u8; 32];
    b[0] = 4;
    let mut c = [0u8; 32];
    c[0] = 5;
    group.insert(&Txid::new(a), tx_data());
    group.insert(&Txid::new(b), tx_data());
    // a shard that is open with nothing pending needs no transaction
    group.get(&Txid::new(c), None);
    let plan = group.export_plan();
    let shards: Vec<u8> = plan.iter().map(|writes| writes.shard).collect();
    assert_eq!(shards, vec![3, 4]);

    let mut flushed: BTreeSet<u8> = BTreeSet::new();
    flushed.insert(3);
    let failed = group.export(&flushed, Height::new(7), Date::new(2024, 1, 2));
    assert_eq!(failed, Err(StorageError::CommitFailed));
    let open: Vec<u8> = group.map.keys().copied().collect();
    assert_eq!(open, vec![4]);
    assert_eq!(group.unsafe_get(&Txid::new(b), None), Some(tx_data()));
    assert_eq!(group.metadata.last_height(), None);
    assert_eq!(group.metadata.insert_count, 2);

    // the next attempt flushes what is left
    let plan = group.export_plan();
    assert_eq!(plan.len(), 1);
    assert_eq!(plan[0].shard, 4);
    flushed.clear();
    flushed.insert(4);
    let file = group.export(&flushed, Height::new(7), Date::new(2024, 1, 2)).unwrap();
    assert!(group.map.is_empty());
    assert_eq!(Metadata::decode(&file), Some(group.metadata));
    assert_eq!(group.metadata.last_height(), Some(Height::new(7)));
}

#[test]
fn export_of_an_idle_group_advances_the_checkpoint() {
    let mut group = TxoutIndexToAddressIndex::import(None).unwrap();
    assert!(group.export_plan().is_empty());
    let flushed: BTreeSet<u64> = BTreeSet::new();
    let file = group.export(&flushed, Height::new(1), Date::new(2009, 1, 9)).unwrap();
    assert_eq!(Metadata::decode(&file).unwrap().last_height(), Some(Height::new(1)));
    // twice in a row: nothing to commit, no error
    assert!(group.export_plan().is_empty());
    assert!(group.export(&flushed, Height::new(1), Date::new(2009, 1, 9)).is_ok());
}

#[test]
fn import_of_a_damaged_checkpoint_fails() {
    assert!(matches!(TxidToTxData::import(Some(&[1, 2, 3])), Err(StorageError::EncodeDecodeFailed)));
    assert!(matches!(
        TxoutIndexToAddressIndex::import(Some(&[0u8; 30])),
        Err(StorageError::EncodeDecodeFailed)
    ));
}

#[test]
fn reset_metadata_leaves_the_data() {
    let mut group = TxidToTxData::import(None).unwrap();
    let txid = first_txid();
    group.insert(&txid, tx_data());
    group.reset_metadata();
    assert_eq!(group.metadata, Metadata::default());
    assert_eq!(group.unsafe_get(&txid, None), Some(tx_data()));
    assert_eq!(TxidToTxData::folder(), "txid_to_tx_data");
    assert_eq!(TxoutIndexToAddressIndex::folder(), "txout_index_to_address_index");
}
