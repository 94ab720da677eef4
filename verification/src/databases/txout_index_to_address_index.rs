//! Address indexes by output position, sharded by ranges of the output's
//! number.

use crate::databases::btree::get_mut;
use crate::databases::database_heed::HeedDatabase;
use crate::databases::database_heed::Pending;
use crate::databases::group::is_export_plan;
use crate::databases::group::plan_export;
use crate::databases::group::settle_export;
use crate::databases::group::unsettled;
use crate::databases::group::ShardWrites;
use crate::databases::metadata::Metadata;
use crate::error::StorageError;
use crate::storage::store_path;
use crate::structs::date::Date;
use crate::structs::height::Height;
use crate::structs::txout_index::TxoutIndex;
use crate::text::decimal;
use crate::text::push_decimal;
use std::collections::BTreeMap;
use std::collections::BTreeSet;
use vstd::prelude::*;
use vstd::string::StringExecFns;

verus! {

pub type Key = TxoutIndex;

pub type Value = u32;

/// A shard holds its outputs under their numbers.
pub type Database = HeedDatabase<u64, Value>;

pub struct TxoutIndexToAddressIndex {
    pub metadata: Metadata,
    pub map: BTreeMap<u64, Database>,
}

/// How many output numbers one shard spans.
pub const DB_MAX_SIZE: u64 = 10_000_000_000;

impl TxoutIndexToAddressIndex {
    /// The shard of an output: the range of numbers that its number is in.
    pub open spec fn shard_of(key: Key) -> u64 {
        (key.number() / 10_000_000_000) as u64
    }

    /// The name of the group's directory.
    pub open spec fn folder_name() -> Seq<char> {
        "txout_index_to_address_index"@
    }

    /// The name of a shard's directory: the range of numbers that it spans,
    /// from its first number to the first of the next shard.
    pub open spec fn shard_name(shard: u64) -> Seq<char> {
        decimal((shard * 10_000_000_000) as nat) + ".."@ + decimal(
            ((shard + 1) * 10_000_000_000) as nat,
        )
    }

    /// Every open shard is the store of its own directory.
    pub open spec fn wf(&self) -> bool {
        forall|shard: u64| #[trigger]
            self.map@.contains_key(shard) ==> self.map@[shard].path@ == store_path(
                Self::folder_name(),
                Self::shard_name(shard),
            )
    }

    /// What is pending in a shard. A shard that is not open has nothing
    /// pending.
    pub open spec fn pending(&self, shard: u64) -> Pending<u64, Value> {
        if self.map@.contains_key(shard) {
            self.map@[shard]@
        } else {
            Pending::empty()
        }
    }

    /// Whether `self` differs from `before` in the one shard `shard` at most,
    /// which is open in `self`: in the directory that it had in `before`, or
    /// in its own directory if it was opened since.
    pub open spec fn touches(&self, before: &Self, shard: u64) -> bool {
        &&& self.map@.dom() == before.map@.dom().insert(shard)
        &&& forall|other: u64|
            other != shard && #[trigger] before.map@.contains_key(other) ==> self.map@[other]
                == before.map@[other]
        &&& self.map@[shard].path@ == (if before.map@.contains_key(shard) {
            before.map@[shard].path@
        } else {
            store_path(Self::folder_name(), Self::shard_name(shard))
        })
    }

    /// The group as it was last persisted, with no shard open. `stored` is
    /// the content of the group's checkpoint file, if there is one.
    pub fn import(stored: Option<&[u8]>) -> (imported: Result<Self, StorageError>)
        ensures
            match imported {
                Ok(group) => Metadata::import_of(stored) == Ok::<Metadata, StorageError>(
                    group.metadata,
                ) && group.map@ == Map::<u64, Database>::empty() && group.wf(),
                Err(e) => Metadata::import_of(stored) == Err::<Metadata, StorageError>(e),
            },
    {
        match Metadata::import(stored) {
            Ok(metadata) => Ok(Self { map: BTreeMap::new(), metadata }),
            Err(e) => Err(e),
        }
    }

    /// Caches `value` for an output that the store is known not to hold.
    pub fn unsafe_insert(&mut self, key: Key, value: Value) -> (previous: Option<Value>)
        requires
            old(self).metadata.insert_count < u64::MAX,
        ensures
            old(self).wf() ==> final(self).wf(),
            final(self).metadata == old(self).metadata.after_insert(),
            final(self).touches(old(self), Self::shard_of(key)),
            final(self).pending(Self::shard_of(key)) == old(self).pending(
                Self::shard_of(key),
            ).unsafe_insert(key.number() as u64, value),
            previous == old(self).pending(Self::shard_of(key)).cached(key.number() as u64),
    {
        self.metadata.called_insert();
        self.open_db(&key).unsafe_insert(key.as_u64(), value)
    }

    pub fn insert(&mut self, key: Key, value: Value) -> (previous: Option<Value>)
        requires
            old(self).metadata.insert_count < u64::MAX,
        ensures
            old(self).wf() ==> final(self).wf(),
            final(self).metadata == old(self).metadata.after_insert(),
            final(self).touches(old(self), Self::shard_of(key)),
            final(self).pending(Self::shard_of(key)) == old(self).pending(
                Self::shard_of(key),
            ).insert(key.number() as u64, value),
            previous == old(self).pending(Self::shard_of(key)).cached(key.number() as u64),
    {
        self.metadata.called_insert();
        self.open_db(&key).insert(key.as_u64(), value)
    }

    pub fn update(&mut self, key: Key, value: Value) -> (previous: Option<Value>)
        ensures
            old(self).wf() ==> final(self).wf(),
            final(self).metadata == old(self).metadata,
            final(self).touches(old(self), Self::shard_of(key)),
            final(self).pending(Self::shard_of(key)) == old(self).pending(
                Self::shard_of(key),
            ).update(key.number() as u64, value),
            previous == old(self).pending(Self::shard_of(key)).cached(key.number() as u64),
    {
        self.open_db(&key).update(key.as_u64(), value)
    }

    pub fn remove(&mut self, key: &Key) -> (removed: Option<Value>)
        requires
            old(self).metadata.remove_count < u64::MAX,
        ensures
            old(self).wf() ==> final(self).wf(),
            final(self).metadata == old(self).metadata.after_remove(),
            final(self).touches(old(self), Self::shard_of(*key)),
            final(self).pending(Self::shard_of(*key)) == old(self).pending(
                Self::shard_of(*key),
            ).remove(key.number() as u64),
            removed == old(self).pending(Self::shard_of(*key)).cached(key.number() as u64),
    {
        self.metadata.called_remove();
        let number = key.as_u64();
        self.open_db(key).remove(&number)
    }

    /// Reads an output, opening its shard if need be. `stored` is what the
    /// snapshot of the shard's store holds for the key.
    pub fn get(&mut self, key: &Key, stored: Option<Value>) -> (value: Option<Value>)
        ensures
            old(self).wf() ==> final(self).wf(),
            final(self).metadata == old(self).metadata,
            final(self).touches(old(self), Self::shard_of(*key)),
            final(self).pending(Self::shard_of(*key)) == old(self).pending(Self::shard_of(*key)),
            value == old(self).pending(Self::shard_of(*key)).get(key.number() as u64, stored),
    {
        let number = key.as_u64();
        self.open_db(key).get(&number, stored)
    }

    /// The shard of an output, if it is open.
    pub fn find_db(&self, key: &Key) -> (found: Result<&Database, StorageError>)
        ensures
            match found {
                Ok(db) => self.map@.contains_key(Self::shard_of(*key)) && *db
                    == self.map@[Self::shard_of(*key)],
                Err(e) => !self.map@.contains_key(Self::shard_of(*key)) && e
                    == StorageError::ShardNotFound,
            },
    {
        let db_index = Self::db_index(key);
        match self.map.get(&db_index) {
            Some(db) => Ok(db),
            None => Err(StorageError::ShardNotFound),
        }
    }

    /// Reads an output without opening its shard: where the shard is not
    /// open the answer is `None`, as for an output that is not there.
    /// `stored` is what the snapshot of the shard's store holds for the key.
    pub fn unsafe_get(&self, key: &Key, stored: Option<Value>) -> (value: Option<Value>)
        ensures
            value == (if self.map@.contains_key(Self::shard_of(*key)) {
                self.pending(Self::shard_of(*key)).get(key.number() as u64, stored)
            } else {
                None
            }),
    {
        let number = key.as_u64();
        match self.find_db(key) {
            Ok(db) => db.get(&number, stored),
            Err(_) => None,
        }
    }

    /// The shard of an output, opened with nothing pending if it was not
    /// open.
    pub fn open_db(&mut self, key: &Key) -> (db: &mut Database)
        ensures
            db@ == old(self).pending(Self::shard_of(*key)),
            old(self).wf() || !old(self).map@.contains_key(Self::shard_of(*key)) ==> db.path@ == store_path(
                Self::folder_name(),
                Self::shard_name(Self::shard_of(*key)),
            ),
            old(self).map@.contains_key(Self::shard_of(*key)) ==> *db == old(
                self,
            ).map@[Self::shard_of(*key)],
            final(self).map@ == old(self).map@.insert(Self::shard_of(*key), *final(db)),
            final(self).metadata == old(self).metadata,
    {
        let db_index = Self::db_index(key);
        if !self.map.contains_key(&db_index) {
            let db_name = Self::db_name(db_index);
            self.map.insert(db_index, Database::open(Self::folder(), db_name.as_str()));
        }
        get_mut(&mut self.map, &db_index).unwrap()
    }

    /// The name of the directory of the shard `db_index`.
    pub fn db_name(db_index: u64) -> (name: String)
        requires
            (db_index + 1) * 10_000_000_000 <= u64::MAX,
        ensures
            name@ == Self::shard_name(db_index),
    {
        let mut name = String::new();
        push_decimal(&mut name, db_index * DB_MAX_SIZE);
        name.append("..");
        push_decimal(&mut name, (db_index + 1) * DB_MAX_SIZE);
        proof {
            assert(name@ =~= Self::shard_name(db_index));
        }
        name
    }

    pub fn db_index(key: &Key) -> (index: u64)
        ensures
            index == Self::shard_of(*key),
    {
        key.as_u64() / DB_MAX_SIZE
    }

    /// The flush of every shard that has writes pending.
    pub fn export_plan(&self) -> (plan: Vec<ShardWrites<u64, u64, Value>>)
        ensures
            is_export_plan(plan@, self.map@),
    {
        plan_export(&self.map)
    }

    /// Settles a flush at `height` and `date`: `flushed` names the shards
    /// whose transaction committed. The shards that are settled are closed;
    /// a shard whose writes are still pending stays open, as it was. When no
    /// shard stays the flush has succeeded: the checkpoint advances, and the
    /// content of the checkpoint file to persist is returned.
    pub fn export(&mut self, flushed: &BTreeSet<u64>, height: Height, date: Date) -> (file: Result<
        Vec<u8>,
        StorageError,
    >)
        ensures
            old(self).wf() ==> final(self).wf(),
            final(self).map@ == unsettled(old(self).map@, flushed@),
            match file {
                Ok(bytes) => {
                    &&& final(self).map@.is_empty()
                    &&& final(self).metadata == old(self).metadata.after_export(height, date)
                    &&& bytes@ == final(self).metadata.encoding()
                },
                Err(e) => {
                    &&& !final(self).map@.is_empty()
                    &&& final(self).metadata == old(self).metadata
                    &&& e == StorageError::CommitFailed
                },
            },
    {
        match settle_export(&mut self.map, flushed) {
            Ok(()) => Ok(self.metadata.export(height, date)),
            Err(failure) => Err(failure),
        }
    }

    pub fn reset_metadata(&mut self)
        ensures
            final(self).metadata == Metadata::fresh(),
            final(self).map == old(self).map,
    {
        self.metadata.reset();
    }

    pub fn folder() -> (name: &'static str)
        ensures
            name@ == Self::folder_name(),
    {
        "txout_index_to_address_index"
    }
}

} // verus!
