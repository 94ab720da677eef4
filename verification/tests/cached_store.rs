use chain_store::databases::Flushed;
use chain_store::databases::HeedDatabase;
use chain_store::error::StorageError;
use chain_store::storage::commit_batch;
use chain_store::storage::databases_folder_path;
use chain_store::storage::WriteOp;
use chain_store::storage::OUTPUTS_FOLDER_PATH;
use std::collections::BTreeMap;
use std::collections::BTreeSet;

/// A store in memory: one write transaction applies the writes in order.
fn commit(store: &mut BTreeMap<u64, u32>, ops: &[WriteOp<u64, u32>]) {
    for op in ops {
        match op {
            WriteOp::Delete(key) => {
                store.remove(key);
            }
            WriteOp::Put(key, value) => {
                store.insert(*key, *value);
            }
        }
    }
}

/// A flush as a caller drives it: plan, commit, settle.
fn flush(db: &mut HeedDatabase<u64, u32>, store: &mut BTreeMap<u64, u32>) -> Result<Flushed, StorageError> {
    let ops = db.pending_writes();
    commit(store, &ops);
    db.export(Ok(()))
}

fn read(db: &HeedDatabase<u64, u32>, store: &BTreeMap<u64, u32>, key: u64) -> Option<u32> {
    db.get(&key, store.get(&key).copied())
}

#[test]
fn open_starts_empty_in_its_directory() {
    let db: HeedDatabase<u64, u32> = HeedDatabase::open("txid_to_tx_data", "17");
    assert!(db.is_empty());
    assert!(db.cached_puts.is_empty());
    assert!(db.cached_dels.is_empty());
    assert_eq!(db.path, format!("{}/databases/txid_to_tx_data/17", OUTPUTS_FOLDER_PATH));
    assert_eq!(db.path, "./target/outputs/databases/txid_to_tx_data/17");
}

#[test]
fn databases_folder_path_is_under_outputs() {
    assert_eq!(databases_folder_path("a/b"), "./target/outputs/databases/a/b");
    assert_eq!(databases_folder_path(""), "./target/outputs/databases/");
}

#[test]
fn read_your_writes() {
    let mut db: HeedDatabase<u64, u32> = HeedDatabase::open("g", "0");
    assert_eq!(db.insert(7, 70), None);
    assert_eq!(db.get(&7, None), Some(70));
    // the cache comes before what the store holds
    assert_eq!(db.get(&7, Some(1)), Some(70));
    assert_eq!(db.get_from_puts(&7), Some(&70));
    assert_eq!(db.insert(7, 71), Some(70));
    assert_eq!(db.get(&7, None), Some(71));
}

#[test]
fn get_falls_back_to_the_store() {
    let db: HeedDatabase<u64, u32> = HeedDatabase::open("g", "0");
    assert_eq!(db.get(&7, Some(3)), Some(3));
    assert_eq!(db.get(&7, None), None);
    assert_eq!(db.get_from_puts(&7), None);
}

#[test]
fn cancel_before_export() {
    let mut store: BTreeMap<u64, u32> = BTreeMap::new();
    store.insert(1, 10);
    let mut db: HeedDatabase<u64, u32> = HeedDatabase::open("g", "0");
    db.insert(7, 70);
    assert_eq!(db.remove(&7), Some(70));
    assert!(db.cached_dels.is_empty());
    assert_eq!(flush(&mut db, &mut store), Ok(Flushed::Nothing));
    assert!(!store.contains_key(&7));
    assert_eq!(store.get(&1), Some(&10));
    assert_eq!(store.len(), 1);
}

#[test]
fn round_trip_durability() {
    let mut store: BTreeMap<u64, u32> = BTreeMap::new();
    let mut db: HeedDatabase<u64, u32> = HeedDatabase::open("g", "0");
    db.insert(7, 70);
    assert_eq!(flush(&mut db, &mut store), Ok(Flushed::Committed));
    assert!(db.is_empty());
    assert_eq!(read(&db, &store, 7), Some(70));
    // a store opened anew on the same data
    let reopened: HeedDatabase<u64, u32> = HeedDatabase::open("g", "0");
    assert_eq!(read(&reopened, &store, 7), Some(70));
}

#[test]
fn update_overwrites_stale_store_state() {
    let mut store: BTreeMap<u64, u32> = BTreeMap::new();
    let mut db: HeedDatabase<u64, u32> = HeedDatabase::open("g", "0");
    db.insert(7, 70);
    assert_eq!(flush(&mut db, &mut store), Ok(Flushed::Committed));
    assert_eq!(db.update(7, 71), None);
    assert_eq!(db.pending_writes(), vec![WriteOp::Delete(7), WriteOp::Put(7, 71)]);
    assert_eq!(flush(&mut db, &mut store), Ok(Flushed::Committed));
    assert_eq!(read(&db, &store, 7), Some(71));
    assert_eq!(store.len(), 1);
}

#[test]
fn idempotent_empty_export() {
    let mut store: BTreeMap<u64, u32> = BTreeMap::new();
    let mut db: HeedDatabase<u64, u32> = HeedDatabase::open("g", "0");
    db.insert(7, 70);
    assert_eq!(flush(&mut db, &mut store), Ok(Flushed::Committed));
    let after_first = store.clone();
    assert_eq!(db.pending_writes(), vec![]);
    assert_eq!(flush(&mut db, &mut store), Ok(Flushed::Nothing));
    assert_eq!(store, after_first);
    // with nothing pending no transaction ran, so there is nothing that failed
    assert_eq!(db.export(Err(StorageError::CommitFailed)), Ok(Flushed::Nothing));
}

#[test]
fn failed_export_keeps_the_pending_writes() {
    let mut db: HeedDatabase<u64, u32> = HeedDatabase::open("g", "0");
    db.insert(7, 70);
    db.db_remove(&9);
    assert_eq!(db.export(Err(StorageError::EncodeDecodeFailed)), Err(StorageError::CommitFailed));
    assert_eq!(db.export(Err(StorageError::CommitFailed)), Err(StorageError::CommitFailed));
    assert_eq!(db.get_from_puts(&7), Some(&70));
    assert!(db.cached_dels.contains(&9));
    assert_eq!(db.pending_writes(), vec![WriteOp::Delete(9), WriteOp::Put(7, 70)]);
    assert_eq!(db.export(Ok(())), Ok(Flushed::Committed));
    assert!(db.is_empty());
    assert_eq!(db.path, "./target/outputs/databases/g/0");
}

#[test]
fn remove_of_an_uncached_key_schedules_a_delete() {
    let mut store: BTreeMap<u64, u32> = BTreeMap::new();
    store.insert(7, 70);
    let mut db: HeedDatabase<u64, u32> = HeedDatabase::open("g", "0");
    assert_eq!(db.remove(&7), None);
    assert!(db.cached_dels.contains(&7));
    // until the flush the store still answers
    assert_eq!(read(&db, &store, 7), Some(70));
    assert_eq!(flush(&mut db, &mut store), Ok(Flushed::Committed));
    assert_eq!(read(&db, &store, 7), None);
}

#[test]
fn insert_withdraws_a_scheduled_delete() {
    let mut db: HeedDatabase<u64, u32> = HeedDatabase::open("g", "0");
    db.db_remove(&7);
    assert!(db.cached_dels.contains(&7));
    db.insert(7, 70);
    assert!(!db.cached_dels.contains(&7));
    assert_eq!(db.pending_writes(), vec![WriteOp::Put(7, 70)]);
}

#[test]
fn unsafe_insert_leaves_a_scheduled_delete() {
    let mut db: HeedDatabase<u64, u32> = HeedDatabase::open("g", "0");
    db.db_remove(&7);
    assert_eq!(db.unsafe_insert(7, 70), None);
    assert_eq!(db.unsafe_insert(7, 71), Some(70));
    assert!(db.cached_dels.contains(&7));
    assert_eq!(db.pending_writes(), vec![WriteOp::Delete(7), WriteOp::Put(7, 71)]);
}

#[test]
fn delete_then_put_of_one_key_ends_present() {
    let mut store: BTreeMap<u64, u32> = BTreeMap::new();
    store.insert(7, 1);
    let mut db: HeedDatabase<u64, u32> = HeedDatabase::open("g", "0");
    db.update(7, 2);
    assert_eq!(flush(&mut db, &mut store), Ok(Flushed::Committed));
    assert_eq!(store.get(&7), Some(&2));
}

#[test]
fn remove_from_puts_touches_the_cache_alone() {
    let mut db: HeedDatabase<u64, u32> = HeedDatabase::open("g", "0");
    db.insert(7, 70);
    assert_eq!(db.remove_from_puts(&8), None);
    assert_eq!(db.remove_from_puts(&7), Some(70));
    assert!(db.is_empty());
}

#[test]
fn get_mut_from_puts_changes_the_cached_value_in_place() {
    let mut db: HeedDatabase<u64, u32> = HeedDatabase::open("g", "0");
    db.insert(7, 70);
    assert!(db.get_mut_from_puts(&8).is_none());
    match db.get_mut_from_puts(&7) {
        Some(value) => {
            assert_eq!(*value, 70);
            *value = 99;
        }
        None => panic!("the key is cached"),
    }
    assert_eq!(db.get(&7, None), Some(99));
    assert_eq!(db.cached_puts.len(), 1);
}

#[test]
fn commit_batch_puts_deletes_first_and_keys_in_order() {
    let mut deletes: BTreeSet<u64> = BTreeSet::new();
    deletes.insert(30);
    deletes.insert(10);
    deletes.insert(20);
    let mut puts: BTreeMap<u64, u32> = BTreeMap::new();
    puts.insert(25, 2);
    puts.insert(10, 1);
    let ops = commit_batch(&deletes, &puts);
    assert_eq!(
        ops,
        vec![
            WriteOp::Delete(10),
            WriteOp::Delete(20),
            WriteOp::Delete(30),
            WriteOp::Put(10, 1),
            WriteOp::Put(25, 2),
        ]
    );
    let mut store: BTreeMap<u64, u32> = BTreeMap::new();
    store.insert(10, 0);
    store.insert(20, 0);
    store.insert(40, 4);
    commit(&mut store, &ops);
    let mut expected: BTreeMap<u64, u32> = BTreeMap::new();
    expected.insert(10, 1);
    expected.insert(25, 2);
    expected.insert(40, 4);
    assert_eq!(store, expected);
}

#[test]
fn commit_batch_of_nothing_is_empty() {
    let deletes: BTreeSet<u64> = BTreeSet::new();
    let puts: BTreeMap<u64, u32> = BTreeMap::new();
    assert_eq!(commit_batch(&deletes, &puts), vec![]);
}
