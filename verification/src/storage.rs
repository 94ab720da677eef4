//! The transactional store as the caches see it: a map from keys to values
//! that changes only by committed batches of writes.

use crate::error::StorageError;
use std::collections::BTreeMap;
use std::collections::BTreeSet;
use vstd::laws_cmp::obeys_cmp;
use vstd::prelude::*;
use vstd::std_specs::cmp::OrdSpec;
use vstd::std_specs::iter::IteratorSpec;
use vstd::string::StringExecFns;

verus! {

/// Where everything that this program writes goes.
pub const OUTPUTS_FOLDER_PATH: &'static str = "./target/outputs";

/// The directory of the databases of `folder`.
pub open spec fn databases_folder(folder: Seq<char>) -> Seq<char> {
    OUTPUTS_FOLDER_PATH@ + "/databases/"@ + folder
}

/// The directory of the store `name` of the group `folder`.
pub open spec fn store_path(folder: Seq<char>, name: Seq<char>) -> Seq<char> {
    databases_folder(folder + "/"@ + name)
}

pub fn databases_folder_path(folder: &str) -> (path: String)
    ensures
        path@ == databases_folder(folder@),
{
    let mut path = String::from_str(OUTPUTS_FOLDER_PATH);
    path.append("/databases/");
    path.append(folder);
    path
}

/// The steps of opening a store, in the order in which they are taken. The
/// table is created in a write transaction of its own, which commits before
/// the snapshot is opened.
#[derive(Debug, Clone, Copy, PartialEq, Eq, Structural)]
pub enum OpenStep {
    CreateDirectory,
    OpenEnvironment,
    CreateTable,
    OpenSnapshot,
}

impl OpenStep {
    /// The error of an open that failed at this step: a directory that
    /// cannot be created is told apart from a store that cannot be opened
    /// in it.
    pub fn failure(self) -> (error: StorageError)
        ensures
            error == (match self {
                OpenStep::CreateDirectory => StorageError::DirectoryCreateFailed,
                OpenStep::OpenEnvironment => StorageError::EnvironmentOpenFailed,
                OpenStep::CreateTable => StorageError::EnvironmentOpenFailed,
                OpenStep::OpenSnapshot => StorageError::EnvironmentOpenFailed,
            }),
    {
        match self {
            OpenStep::CreateDirectory => StorageError::DirectoryCreateFailed,
            _ => StorageError::EnvironmentOpenFailed,
        }
    }
}

/// One write of a batch.
#[derive(Debug, PartialEq, Eq)]
pub enum WriteOp<K, V> {
    Delete(K),
    Put(K, V),
}

/// The store after one write.
pub open spec fn apply_op<K, V>(store: Map<K, V>, op: WriteOp<K, V>) -> Map<K, V> {
    match op {
        WriteOp::Delete(k) => store.remove(k),
        WriteOp::Put(k, v) => store.insert(k, v),
    }
}

/// The store after a sequence of writes, applied first to last.
pub open spec fn apply_ops<K, V>(store: Map<K, V>, ops: Seq<WriteOp<K, V>>) -> Map<K, V>
    decreases ops.len(),
{
    if ops.len() == 0 {
        store
    } else {
        apply_op(apply_ops(store, ops.drop_last()), ops.last())
    }
}

/// The store after a committed batch: every delete is applied, then every
/// put, so a key that is in both ends up present with the value put.
pub open spec fn apply_batch<K, V>(store: Map<K, V>, deletes: Set<K>, puts: Map<K, V>) -> Map<
    K,
    V,
> {
    store.remove_keys(deletes).union_prefer_right(puts)
}

/// A transactional store and the snapshot through which it is read. A
/// snapshot is fixed when it is opened: what is committed afterwards is not
/// seen through it until it is replaced.
#[verifier::reject_recursive_types(K)]
pub struct Store<K, V> {
    /// What the store holds durably.
    pub committed: Map<K, V>,
    /// What reads see.
    pub snapshot: Map<K, V>,
}

impl<K, V> Store<K, V> {
    /// A store that holds `committed`, with a snapshot opened on it.
    pub open spec fn open(committed: Map<K, V>) -> Self {
        Store { committed, snapshot: committed }
    }

    /// What a read of `key` finds.
    pub open spec fn read(self, key: K) -> Option<V> {
        self.snapshot.get(key)
    }

    /// The store after one write transaction has applied `ops` and
    /// committed. The snapshot is the one that was open before.
    pub open spec fn commit(self, ops: Seq<WriteOp<K, V>>) -> Self {
        Store { committed: apply_ops(self.committed, ops), snapshot: self.snapshot }
    }

    /// The store with its snapshot replaced by one of the current state.
    pub open spec fn reopen(self) -> Self {
        Store { committed: self.committed, snapshot: self.committed }
    }
}

/// The keys that a sequence of writes leaves deleted, whatever the store held.
pub open spec fn keys_deleted<K, V>(ops: Seq<WriteOp<K, V>>) -> Set<K>
    decreases ops.len(),
{
    if ops.len() == 0 {
        Set::empty()
    } else {
        match ops.last() {
            WriteOp::Delete(k) => keys_deleted(ops.drop_last()).insert(k),
            WriteOp::Put(_, _) => keys_deleted(ops.drop_last()),
        }
    }
}

/// The entries that a sequence of writes leaves put, whatever the store held.
pub open spec fn entries_put<K, V>(ops: Seq<WriteOp<K, V>>) -> Map<K, V>
    decreases ops.len(),
{
    if ops.len() == 0 {
        Map::empty()
    } else {
        match ops.last() {
            WriteOp::Delete(k) => entries_put(ops.drop_last()).remove(k),
            WriteOp::Put(k, v) => entries_put(ops.drop_last()).insert(k, v),
        }
    }
}

/// Applying writes one by one is the same as deleting the keys they leave
/// deleted and then putting the entries they leave put.
pub proof fn lemma_apply_ops_is_batch<K, V>(store: Map<K, V>, ops: Seq<WriteOp<K, V>>)
    ensures
        apply_ops(store, ops) == apply_batch(store, keys_deleted(ops), entries_put(ops)),
    decreases ops.len(),
{
    if ops.len() == 0 {
        assert(apply_batch(store, keys_deleted(ops), entries_put(ops)) =~= store);
    } else {
        let rest = ops.drop_last();
        lemma_apply_ops_is_batch(store, rest);
        match ops.last() {
            WriteOp::Delete(k) => {
                assert(apply_batch(store, keys_deleted(rest), entries_put(rest)).remove(k)
                    =~= apply_batch(store, keys_deleted(ops), entries_put(ops)));
            },
            WriteOp::Put(k, v) => {
                assert(apply_batch(store, keys_deleted(rest), entries_put(rest)).insert(k, v)
                    =~= apply_batch(store, keys_deleted(ops), entries_put(ops)));
            },
        }
    }
}

/// The key that a write is about.
pub open spec fn op_key<K, V>(op: WriteOp<K, V>) -> K {
    match op {
        WriteOp::Delete(k) => k,
        WriteOp::Put(k, _) => k,
    }
}

/// Whether the writes from position `from` up to position `to` come in
/// ascending order of their keys.
pub open spec fn keys_ascend<K: Ord, V>(ops: Seq<WriteOp<K, V>>, from: nat, to: nat) -> bool {
    forall|i: int, j: int|
        #![trigger ops[i], ops[j]]
        from <= i < j < to ==> op_key(ops[i]).cmp_spec(&op_key(ops[j])) is Less
}

/// Whether `ops` is the write plan of a batch: one delete for each key of
/// `deletes`, in ascending order of the keys, then one put for each entry of
/// `puts`, in ascending order of the keys.
pub open spec fn is_write_plan<K: Ord, V>(
    ops: Seq<WriteOp<K, V>>,
    deletes: Set<K>,
    puts: Map<K, V>,
) -> bool {
    &&& ops.len() == deletes.len() + puts.len()
    &&& forall|i: int|
        0 <= i < deletes.len() ==> (#[trigger] ops[i] matches WriteOp::Delete(k)
            && deletes.contains(k))
    &&& forall|i: int|
        deletes.len() <= i < ops.len() ==> (#[trigger] ops[i] matches WriteOp::Put(k, v)
            && puts.contains_pair(k, v))
    &&& keys_ascend(ops, 0, deletes.len())
    &&& keys_ascend(ops, deletes.len(), ops.len())
    &&& keys_deleted(ops) == deletes
    &&& entries_put(ops) == puts
}

/// A write plan brings any store to the state that the batch describes.
pub proof fn lemma_write_plan_commits<K: Ord, V>(
    store: Map<K, V>,
    ops: Seq<WriteOp<K, V>>,
    deletes: Set<K>,
    puts: Map<K, V>,
)
    requires
        is_write_plan(ops, deletes, puts),
    ensures
        apply_ops(store, ops) == apply_batch(store, deletes, puts),
{
    lemma_apply_ops_is_batch(store, ops);
}

proof fn lemma_push_delete<K, V>(ops: Seq<WriteOp<K, V>>, k: K)
    ensures
        keys_deleted(ops.push(WriteOp::Delete(k))) == keys_deleted(ops).insert(k),
        entries_put(ops.push(WriteOp::Delete(k))) == entries_put(ops).remove(k),
{
    assert(ops.push(WriteOp::Delete(k)).drop_last() =~= ops);
}

proof fn lemma_push_put<K, V>(ops: Seq<WriteOp<K, V>>, k: K, v: V)
    ensures
        keys_deleted(ops.push(WriteOp::Put(k, v))) == keys_deleted(ops),
        entries_put(ops.push(WriteOp::Put(k, v))) == entries_put(ops).insert(k, v),
{
    assert(ops.push(WriteOp::Put(k, v)).drop_last() =~= ops);
}

/// Lays out the writes of one batch in the order in which a single write
/// transaction applies them: the deletes first, then the puts. Nothing is
/// pending exactly when the plan is empty, and then no transaction is needed.
pub fn commit_batch<K: Ord + Copy, V: Copy>(deletes: &BTreeSet<K>, puts: &BTreeMap<K, V>) -> (ops:
    Vec<WriteOp<K, V>>)
    requires
        obeys_cmp::<K>(),
    ensures
        is_write_plan(ops@, deletes@, puts@),
        ops@.len() == 0 <==> deletes@.is_empty() && puts@.is_empty(),
{
    let mut ops: Vec<WriteOp<K, V>> = Vec::new();
    let ghost keys = deletes.iter().remaining();
    let ghost mut seen: Set<K> = Set::empty();
    assert(keys.unref().to_set() == deletes@);
    proof {
        assert forall|i: int, j: int|
            #![trigger keys[i], keys[j]]
            0 <= i < j < keys.len() implies keys[i].cmp_spec(&keys[j]) is Less by {
            assert(OrdSpec::cmp_spec(&keys[i], &keys[j]) is Less);
        }
    }
    for key in it: deletes.iter()
        invariant
            it.seq() == keys,
            keys.len() == deletes@.len(),
            keys.unref().to_set() == deletes@,
            ops@.len() == it.index(),
            forall|i: int, j: int|
                #![trigger keys[i], keys[j]]
                0 <= i < j < keys.len() ==> keys[i].cmp_spec(&keys[j]) is Less,
            forall|i: int| 0 <= i < ops@.len() ==> ops@[i] == WriteOp::<K, V>::Delete(*keys[i]),
            forall|i: int| 0 <= i < ops@.len() ==> seen.contains(*#[trigger] keys[i]),
            seen.subset_of(deletes@),
            keys_deleted(ops@) == seen,
            entries_put(ops@) == Map::<K, V>::empty(),
    {
        proof {
            lemma_push_delete(ops@, *key);
            assert(keys.unref()[it.index()] == *key);
            assert(keys.unref().to_set().contains(*key));
            seen = seen.insert(*key);
            assert(entries_put(ops@).remove(*key) =~= Map::<K, V>::empty());
        }
        ops.push(WriteOp::Delete(*key));
    }
    proof {
        assert forall|k: K| deletes@.contains(k) implies seen.contains(k) by {
            assert(keys.unref().to_set().contains(k));
            let i = choose|i: int| 0 <= i < keys.unref().len() && keys.unref()[i] == k;
            assert(seen.contains(*keys[i]));
        }
        assert(seen =~= deletes@);
    }
    assert(keys_ascend(ops@, 0, deletes@.len()));
    let entries = puts.iter();
    let ghost items = entries.remaining();
    let ghost put_order = items.map_values(|kv: (&K, &V)| *kv.0);
    proof {
        assert(put_order =~= entries.remaining().map_values(|kv: (&K, &V)| *kv.0));
        assert forall|i: int, j: int|
            #![trigger items[i], items[j]]
            0 <= i < j < items.len() implies (*items[i].0).cmp_spec(&*items[j].0) is Less by {
            assert(put_order[i] == *items[i].0);
            assert(put_order[j] == *items[j].0);
        }
    }
    let ghost mut put_keys: Set<K> = Set::empty();
    let ghost n: nat = deletes@.len();
    for entry in it: entries
        invariant
            it.seq() == items,
            items.len() == puts@.len(),
            n == deletes@.len(),
            forall|i: int|
                0 <= i < items.len() ==> puts@.contains_pair(
                    *(#[trigger] items[i]).0,
                    *items[i].1,
                ),
            ops@.len() == n + it.index(),
            keys_ascend(ops@, 0, deletes@.len()),
            forall|i: int, j: int|
                #![trigger items[i], items[j]]
                0 <= i < j < items.len() ==> (*items[i].0).cmp_spec(&*items[j].0) is Less,
            forall|i: int|
                0 <= i < n ==> (#[trigger] ops@[i] matches WriteOp::Delete(k) && deletes@.contains(
                    k,
                )),
            forall|i: int|
                n <= i < ops@.len() ==> #[trigger] ops@[i] == WriteOp::Put(
                    *items[i - n].0,
                    *items[i - n].1,
                ),
            forall|i: int| 0 <= i < it.index() ==> put_keys.contains(*(#[trigger] items[i]).0),
            put_keys.subset_of(puts@.dom()),
            keys_deleted(ops@) == deletes@,
            entries_put(ops@) == puts@.restrict(put_keys),
    {
        proof {
            lemma_push_put(ops@, *entry.0, *entry.1);
            assert(items[it.index()] == entry);
            assert(puts@.contains_pair(*items[it.index()].0, *items[it.index()].1));
            assert(puts@.restrict(put_keys).insert(*entry.0, *entry.1) =~= puts@.restrict(
                put_keys.insert(*entry.0),
            ));
            put_keys = put_keys.insert(*entry.0);
        }
        ops.push(WriteOp::Put(*entry.0, *entry.1));
    }
    proof {
        assert forall|k: K| puts@.contains_key(k) implies put_keys.contains(k) by {
            assert(items.contains((&k, &puts@[k])));
            let i = choose|i: int| 0 <= i < items.len() && items[i] == (&k, &puts@[k]);
            assert(put_keys.contains(*items[i].0));
        }
        assert(puts@.restrict(put_keys) =~= puts@);
        assert forall|i: int| deletes@.len() <= i < ops@.len() implies (
        #[trigger] ops@[i] matches WriteOp::Put(k, v) && puts@.contains_pair(k, v)) by {
            assert(puts@.contains_pair(*items[i - n].0, *items[i - n].1));
        }
        if ops@.len() == 0 {
            assert(deletes@.len() == 0 && puts@.len() == 0);
            assert(deletes@ =~= Set::<K>::empty());
            assert(puts@.dom() =~= Set::<K>::empty());
        }
    }
    ops
}

} // verus!
