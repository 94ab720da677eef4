//! A store with a write-behind cache: writes are held in memory until a flush
//! commits them to the transactional store in one batch.

use crate::databases::btree::get_mut;
use crate::error::StorageError;
use crate::storage::apply_batch;
use crate::storage::commit_batch;
use crate::storage::databases_folder_path;
use crate::storage::is_write_plan;
use crate::storage::store_path;
use crate::storage::Store;
use crate::storage::WriteOp;
use std::collections::BTreeMap;
use std::collections::BTreeSet;
use vstd::laws_cmp::obeys_cmp;
use vstd::prelude::*;
use vstd::string::StringExecFns;

verus! {

/// The writes that a cached store holds in memory: the entries to put, and the
/// keys to delete from the transactional store.
#[verifier::reject_recursive_types(K)]
pub struct Pending<K, V> {
    pub puts: Map<K, V>,
    pub dels: Set<K>,
}

impl<K, V> Pending<K, V> {
    /// Nothing pending.
    pub open spec fn empty() -> Self {
        Pending { puts: Map::empty(), dels: Set::empty() }
    }

    pub open spec fn is_empty(self) -> bool {
        self.puts.is_empty() && self.dels.is_empty()
    }

    /// The value cached for `key`, if one is.
    pub open spec fn cached(self, key: K) -> Option<V> {
        self.puts.get(key)
    }

    /// What a read of `key` answers when the store's snapshot holds `stored`
    /// for it: the cached value comes first.
    pub open spec fn get(self, key: K, stored: Option<V>) -> Option<V> {
        if self.puts.contains_key(key) {
            Some(self.puts[key])
        } else {
            stored
        }
    }

    /// Caches `value` without touching the deletions.
    pub open spec fn unsafe_insert(self, key: K, value: V) -> Self {
        Pending { puts: self.puts.insert(key, value), dels: self.dels }
    }

    /// Caches `value` and withdraws a deletion of `key`.
    pub open spec fn insert(self, key: K, value: V) -> Self {
        Pending { puts: self.puts.insert(key, value), dels: self.dels.remove(key) }
    }

    /// Caches `value` and schedules the stored entry of `key` for deletion.
    pub open spec fn update(self, key: K, value: V) -> Self {
        Pending { puts: self.puts.insert(key, value), dels: self.dels.insert(key) }
    }

    /// Drops the cached value of `key`.
    pub open spec fn remove_from_puts(self, key: K) -> Self {
        Pending { puts: self.puts.remove(key), dels: self.dels }
    }

    /// Schedules the stored entry of `key` for deletion.
    pub open spec fn db_remove(self, key: K) -> Self {
        Pending { puts: self.puts, dels: self.dels.insert(key) }
    }

    /// Removes `key`: from the cache alone where it is cached, else from the
    /// store at the next flush.
    pub open spec fn remove(self, key: K) -> Self {
        if self.puts.contains_key(key) {
            self.remove_from_puts(key)
        } else {
            self.db_remove(key)
        }
    }

    /// The store after a flush of these writes: they are committed in one
    /// batch, and the snapshot is replaced so that reads see them.
    pub open spec fn flush(self, store: Store<K, V>) -> Store<K, V> {
        Store::open(apply_batch(store.committed, self.dels, self.puts))
    }
}

/// What a flush that succeeded has done.
#[derive(Debug, Clone, Copy, PartialEq, Eq, Structural)]
pub enum Flushed {
    /// Nothing was pending: the store was not touched.
    Nothing,
    /// The pending writes are committed. The snapshot that was open does not
    /// see them: it is to be replaced before the next read.
    Committed,
}

/// There is no cache of reads: looking a key up in the store's snapshot is
/// cheap next to keeping what was read.
pub struct HeedDatabase<Key, Value> {
    pub cached_puts: BTreeMap<Key, Value>,
    pub cached_dels: BTreeSet<Key>,
    /// The directory of the transactional store behind this cache.
    pub path: String,
}

impl<Key, Value> View for HeedDatabase<Key, Value> {
    type V = Pending<Key, Value>;

    open spec fn view(&self) -> Pending<Key, Value> {
        Pending { puts: self.cached_puts@, dels: self.cached_dels@ }
    }
}

impl<Key: Ord + Copy, Value: Copy> HeedDatabase<Key, Value> {
    /// A store named `name` in `folder`, with nothing cached. The
    /// transactional store behind it lives in the directory `path`.
    pub fn open(folder: &str, name: &str) -> (db: Self)
        ensures
            db@ == Pending::<Key, Value>::empty(),
            db.path@ == store_path(folder@, name@),
    {
        let mut joined = String::from_str(folder);
        joined.append("/");
        joined.append(name);
        let path = databases_folder_path(joined.as_str());
        proof {
            assert(path@ =~= store_path(folder@, name@));
        }
        Self { cached_puts: BTreeMap::new(), cached_dels: BTreeSet::new(), path }
    }

    /// Reads `key`: the cached value if there is one, else `stored`, which is
    /// what the store's snapshot holds for the key.
    #[inline(always)]
    pub fn get(&self, key: &Key, stored: Option<Value>) -> (value: Option<Value>)
        requires
            obeys_cmp::<Key>(),
        ensures
            value == self@.get(*key, stored),
    {
        match self.get_from_puts(key) {
            Some(cached_put) => Some(*cached_put),
            None => stored,
        }
    }

    /// The cached value of `key`, if one is. The store is not asked.
    #[inline(always)]
    pub fn get_from_puts(&self, key: &Key) -> (value: Option<&Value>)
        requires
            obeys_cmp::<Key>(),
        ensures
            match value {
                Some(v) => self@.cached(*key) == Some(*v),
                None => self@.cached(*key) is None,
            },
    {
        self.cached_puts.get(key)
    }

    /// The cached value of `key`, to be changed in place: what the caller
    /// writes through the reference is what the cache holds afterwards.
    #[inline(always)]
    pub fn get_mut_from_puts(&mut self, key: &Key) -> (value: Option<&mut Value>)
        requires
            obeys_cmp::<Key>(),
        ensures
            match value {
                Some(v) => old(self)@.cached(*key) == Some(*v) && final(self)@ == old(
                    self,
                )@.unsafe_insert(*key, *final(v)),
                None => old(self)@.cached(*key) is None && final(self)@ == old(self)@,
            },
            final(self).path == old(self).path,
    {
        get_mut(&mut self.cached_puts, key)
    }

    /// Removes `key`. A key that is cached is dropped from the cache, and
    /// the store is left as it is; any other key is scheduled for deletion
    /// from the store.
    #[inline(always)]
    pub fn remove(&mut self, key: &Key) -> (removed: Option<Value>)
        requires
            obeys_cmp::<Key>(),
        ensures
            final(self)@ == old(self)@.remove(*key),
            removed == old(self)@.cached(*key),
            final(self).path == old(self).path,
    {
        match self.remove_from_puts(key) {
            Some(value) => Some(value),
            None => {
                proof {
                    assert(old(self)@.puts.remove(*key) =~= old(self)@.puts);
                }
                self.db_remove(key);
                None
            },
        }
    }

    /// Drops the cached value of `key`. The store is left as it is.
    #[inline(always)]
    pub fn remove_from_puts(&mut self, key: &Key) -> (removed: Option<Value>)
        requires
            obeys_cmp::<Key>(),
        ensures
            final(self)@ == old(self)@.remove_from_puts(*key),
            removed == old(self)@.cached(*key),
            final(self).path == old(self).path,
    {
        self.cached_puts.remove(key)
    }

    /// Schedules `key` for deletion from the store at the next flush.
    #[inline(always)]
    pub fn db_remove(&mut self, key: &Key)
        requires
            obeys_cmp::<Key>(),
        ensures
            final(self)@ == old(self)@.db_remove(*key),
            final(self).path == old(self).path,
    {
        self.cached_dels.insert(*key);
    }

    /// Replaces the value of `key`: the store may hold an older value, which
    /// the next flush deletes before it puts the new one.
    #[inline(always)]
    pub fn update(&mut self, key: Key, value: Value) -> (previous: Option<Value>)
        requires
            obeys_cmp::<Key>(),
        ensures
            final(self)@ == old(self)@.update(key, value),
            previous == old(self)@.cached(key),
            final(self).path == old(self).path,
    {
        self.cached_dels.insert(key);
        self.cached_puts.insert(key, value)
    }

    /// Caches `value` for `key` and withdraws a deletion that was scheduled
    /// for it. For a key that the store is known not to hold under another
    /// value.
    #[inline(always)]
    pub fn insert(&mut self, key: Key, value: Value) -> (previous: Option<Value>)
        requires
            obeys_cmp::<Key>(),
        ensures
            final(self)@ == old(self)@.insert(key, value),
            previous == old(self)@.cached(key),
            final(self).path == old(self).path,
    {
        self.cached_dels.remove(&key);
        self.unsafe_insert(key, value)
    }

    /// Caches `value` for `key` and leaves the scheduled deletions as they
    /// are.
    #[inline(always)]
    pub fn unsafe_insert(&mut self, key: Key, value: Value) -> (previous: Option<Value>)
        requires
            obeys_cmp::<Key>(),
        ensures
            final(self)@ == old(self)@.unsafe_insert(key, value),
            previous == old(self)@.cached(key),
            final(self).path == old(self).path,
    {
        self.cached_puts.insert(key, value)
    }

    /// Whether nothing is pending.
    pub fn is_empty(&self) -> (empty: bool)
        ensures
            empty == self@.is_empty(),
    {
        self.cached_dels.is_empty() && self.cached_puts.is_empty()
    }

    /// The writes that the next flush commits, in the order in which one
    /// write transaction applies them. The plan is empty exactly when
    /// nothing is pending, and then no transaction is opened.
    pub fn pending_writes(&self) -> (ops: Vec<WriteOp<Key, Value>>)
        requires
            obeys_cmp::<Key>(),
        ensures
            is_write_plan(ops@, self@.dels, self@.puts),
            ops@.len() == 0 <==> self@.is_empty(),
    {
        commit_batch(&self.cached_dels, &self.cached_puts)
    }

    /// Settles a flush. With nothing pending there was nothing to commit,
    /// and the flush succeeds whatever `committed` says. Otherwise
    /// `committed` says how the transaction of the pending writes ended:
    /// once it has committed both caches are cleared; when it failed they
    /// stay as they are, for the next attempt.
    pub fn export(&mut self, committed: Result<(), StorageError>) -> (flushed: Result<
        Flushed,
        StorageError,
    >)
        ensures
            flushed == (if old(self)@.is_empty() {
                Ok::<Flushed, StorageError>(Flushed::Nothing)
            } else if committed is Ok {
                Ok::<Flushed, StorageError>(Flushed::Committed)
            } else {
                Err::<Flushed, StorageError>(StorageError::CommitFailed)
            }),
            final(self)@ == (if committed is Ok {
                Pending::<Key, Value>::empty()
            } else {
                old(self)@
            }),
            flushed != Ok::<Flushed, StorageError>(Flushed::Committed) ==> *final(self) == *old(
                self,
            ),
            final(self).path == old(self).path,
    {
        if self.is_empty() {
            proof {
                assert(self@.puts =~= Map::<Key, Value>::empty());
                assert(self@.dels =~= Set::<Key>::empty());
            }
            return Ok(Flushed::Nothing);
        }
        match committed {
            Ok(()) => {
                self.cached_dels.clear();
                self.cached_puts.clear();
                Ok(Flushed::Committed)
            },
            Err(_) => Err(StorageError::CommitFailed),
        }
    }
}

} // verus!
