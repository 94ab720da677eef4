//! Transaction data by transaction identifier, sharded by the identifier's
//! first byte.

use crate::databases::btree::get_mut;
use crate::databases::database_heed::HeedDatabase;
use crate::databases::database_heed::Pending;
use crate::databases::group::is_export_plan;
use crate::databases::group::plan_export;
use crate::databases::group::settle_export;
use crate::databases::group::unsettled;
use crate::databases::group::ShardWrites;
use crate::databases::metadata::Metadata;
use crate::error::StorageError;
use crate::storage::store_path;
use crate::structs::date::Date;
use crate::structs::height::Height;
use crate::structs::tx_data::TxData;
use crate::structs::txid::Txid;
use crate::text::decimal;
use crate::text::decimal_string;
use std::collections::BTreeMap;
use std::collections::BTreeSet;
use vstd::bytes::lemma_auto_spec_u128_to_from_le_bytes;
use vstd::bytes::spec_u128_from_le_bytes;
use vstd::bytes::spec_u128_to_le_bytes;
use vstd::bytes::u128_from_le_bytes;
use vstd::bytes::u128_to_le_bytes;
use vstd::prelude::*;
use vstd::slice::slice_subrange;

verus! {

/// The key of a transaction within its shard: the thirty-one bytes that
/// follow the first, as two numbers.
pub type Key = (u128, u128);

pub type Value = TxData;

pub type Database = HeedDatabase<Key, Value>;

pub struct TxidToTxData {
    pub metadata: Metadata,
    pub map: BTreeMap<u8, Database>,
}

impl TxidToTxData {
    /// The shard of a transaction: the first byte of its identifier.
    pub open spec fn shard_of(txid: Seq<u8>) -> u8 {
        txid[0]
    }

    /// The key of a transaction within its shard: bytes one to fifteen of
    /// its identifier, read as a little-endian number, and bytes sixteen to
    /// thirty-one, read likewise.
    pub open spec fn key_of(txid: Seq<u8>) -> Key {
        (
            spec_u128_from_le_bytes(txid.subrange(1, 16).push(0)),
            spec_u128_from_le_bytes(txid.subrange(16, 32)),
        )
    }

    /// The thirty-one bytes under which the store holds `key`.
    pub open spec fn key_bytes(key: Key) -> Seq<u8> {
        spec_u128_to_le_bytes(key.0).subrange(0, 15) + spec_u128_to_le_bytes(key.1)
    }

    /// The name of the group's directory.
    pub open spec fn folder_name() -> Seq<char> {
        "txid_to_tx_data"@
    }

    /// The name of a shard's directory: its index.
    pub open spec fn shard_name(shard: u8) -> Seq<char> {
        decimal(shard as nat)
    }

    /// Every open shard is the store of its own directory.
    pub open spec fn wf(&self) -> bool {
        forall|shard: u8| #[trigger]
            self.map@.contains_key(shard) ==> self.map@[shard].path@ == store_path(
                Self::folder_name(),
                Self::shard_name(shard),
            )
    }

    /// What is pending in a shard. A shard that is not open has nothing
    /// pending.
    pub open spec fn pending(&self, shard: u8) -> Pending<Key, Value> {
        if self.map@.contains_key(shard) {
            self.map@[shard]@
        } else {
            Pending::empty()
        }
    }

    /// Whether `self` differs from `before` in the one shard `shard` at most,
    /// which is open in `self`: in the directory that it had in `before`, or
    /// in its own directory if it was opened since.
    pub open spec fn touches(&self, before: &Self, shard: u8) -> bool {
        &&& self.map@.dom() == before.map@.dom().insert(shard)
        &&& forall|other: u8|
            other != shard && #[trigger] before.map@.contains_key(other) ==> self.map@[other]
                == before.map@[other]
        &&& self.map@[shard].path@ == (if before.map@.contains_key(shard) {
            before.map@[shard].path@
        } else {
            store_path(Self::folder_name(), Self::shard_name(shard))
        })
    }

    /// The key of a transaction is given back by its bytes: together with
    /// the shard it says which transaction is meant.
    pub proof fn lemma_key_bytes_of_key(txid: Seq<u8>)
        requires
            txid.len() == 32,
        ensures
            Self::key_bytes(Self::key_of(txid)) == txid.subrange(1, 32),
    {
        lemma_auto_spec_u128_to_from_le_bytes();
        let low = txid.subrange(1, 16).push(0);
        assert(spec_u128_to_le_bytes(spec_u128_from_le_bytes(low)) == low);
        assert(spec_u128_to_le_bytes(spec_u128_from_le_bytes(txid.subrange(16, 32)))
            == txid.subrange(16, 32));
        assert(low.subrange(0, 15) + txid.subrange(16, 32) =~= txid.subrange(1, 32));
    }

    /// The group as it was last persisted, with no shard open. `stored` is
    /// the content of the group's checkpoint file, if there is one.
    pub fn import(stored: Option<&[u8]>) -> (imported: Result<Self, StorageError>)
        ensures
            match imported {
                Ok(group) => Metadata::import_of(stored) == Ok::<Metadata, StorageError>(
                    group.metadata,
                ) && group.map@ == Map::<u8, Database>::empty() && group.wf(),
                Err(e) => Metadata::import_of(stored) == Err::<Metadata, StorageError>(e),
            },
    {
        match Metadata::import(stored) {
            Ok(metadata) => Ok(Self { map: BTreeMap::new(), metadata }),
            Err(e) => Err(e),
        }
    }

    pub fn insert(&mut self, txid: &Txid, tx_index: Value) -> (previous: Option<Value>)
        requires
            old(self).metadata.insert_count < u64::MAX,
        ensures
            old(self).wf() ==> final(self).wf(),
            final(self).metadata == old(self).metadata.after_insert(),
            final(self).touches(old(self), Self::shard_of(txid@)),
            final(self).pending(Self::shard_of(txid@)) == old(self).pending(
                Self::shard_of(txid@),
            ).insert(Self::key_of(txid@), tx_index),
            previous == old(self).pending(Self::shard_of(txid@)).cached(Self::key_of(txid@)),
    {
        self.metadata.called_insert();
        let txid_key = Self::txid_to_key(txid);
        self.open_db(txid).insert(txid_key, tx_index)
    }

    /// Reads a transaction, opening its shard if need be. `stored` is what
    /// the snapshot of the shard's store holds for the key.
    pub fn get(&mut self, txid: &Txid, stored: Option<Value>) -> (value: Option<Value>)
        ensures
            old(self).wf() ==> final(self).wf(),
            final(self).metadata == old(self).metadata,
            final(self).touches(old(self), Self::shard_of(txid@)),
            final(self).pending(Self::shard_of(txid@)) == old(self).pending(Self::shard_of(txid@)),
            value == old(self).pending(Self::shard_of(txid@)).get(Self::key_of(txid@), stored),
    {
        let txid_key = Self::txid_to_key(txid);
        self.open_db(txid).get(&txid_key, stored)
    }

    /// The shard of a transaction, if it is open.
    pub fn find_db(&self, txid: &Txid) -> (found: Result<&Database, StorageError>)
        ensures
            match found {
                Ok(db) => self.map@.contains_key(Self::shard_of(txid@)) && *db
                    == self.map@[Self::shard_of(txid@)],
                Err(e) => !self.map@.contains_key(Self::shard_of(txid@)) && e
                    == StorageError::ShardNotFound,
            },
    {
        let db_index = Self::db_index(txid);
        match self.map.get(&db_index) {
            Some(db) => Ok(db),
            None => Err(StorageError::ShardNotFound),
        }
    }

    /// Reads a transaction without opening its shard: where the shard is not
    /// open the answer is `None`, as for a transaction that is not there.
    /// `stored` is what the snapshot of the shard's store holds for the key.
    pub fn unsafe_get(&self, txid: &Txid, stored: Option<Value>) -> (value: Option<Value>)
        ensures
            value == (if self.map@.contains_key(Self::shard_of(txid@)) {
                self.pending(Self::shard_of(txid@)).get(Self::key_of(txid@), stored)
            } else {
                None
            }),
    {
        let txid_key = Self::txid_to_key(txid);
        match self.find_db(txid) {
            Ok(db) => db.get(&txid_key, stored),
            Err(_) => None,
        }
    }

    /// The cached data of a transaction, to be changed in place. There is
    /// none where the shard is not open.
    pub fn unsafe_get_mut_from_puts(&mut self, txid: &Txid) -> (value: Option<&mut Value>)
        ensures
            final(self).metadata == old(self).metadata,
            old(self).map@.contains_key(Self::shard_of(txid@)) ==> final(self).touches(
                old(self),
                Self::shard_of(txid@),
            ),
            !old(self).map@.contains_key(Self::shard_of(txid@)) ==> value is None
                && final(self).map@ == old(self).map@,
            match value {
                Some(v) => {
                    &&& old(self).pending(Self::shard_of(txid@)).cached(Self::key_of(txid@))
                        == Some(*v)
                    &&& final(self).pending(Self::shard_of(txid@)) == old(self).pending(
                        Self::shard_of(txid@),
                    ).unsafe_insert(Self::key_of(txid@), *final(v))
                },
                None => {
                    &&& old(self).pending(Self::shard_of(txid@)).cached(Self::key_of(txid@))
                        is None
                    &&& final(self).pending(Self::shard_of(txid@)) == old(self).pending(
                        Self::shard_of(txid@),
                    )
                },
            },
    {
        let txid_key = Self::txid_to_key(txid);
        let db_index = Self::db_index(txid);
        match get_mut(&mut self.map, &db_index) {
            Some(db) => db.get_mut_from_puts(&txid_key),
            None => None,
        }
    }

    pub fn remove_from_db(&mut self, txid: &Txid)
        requires
            old(self).metadata.remove_count < u64::MAX,
        ensures
            old(self).wf() ==> final(self).wf(),
            final(self).metadata == old(self).metadata.after_remove(),
            final(self).touches(old(self), Self::shard_of(txid@)),
            final(self).pending(Self::shard_of(txid@)) == old(self).pending(
                Self::shard_of(txid@),
            ).db_remove(Self::key_of(txid@)),
    {
        self.metadata.called_remove();
        let txid_key = Self::txid_to_key(txid);
        self.open_db(txid).db_remove(&txid_key);
    }

    pub fn remove_from_puts(&mut self, txid: &Txid)
        requires
            old(self).metadata.remove_count < u64::MAX,
        ensures
            old(self).wf() ==> final(self).wf(),
            final(self).metadata == old(self).metadata.after_remove(),
            final(self).touches(old(self), Self::shard_of(txid@)),
            final(self).pending(Self::shard_of(txid@)) == old(self).pending(
                Self::shard_of(txid@),
            ).remove_from_puts(Self::key_of(txid@)),
    {
        self.metadata.called_remove();
        let txid_key = Self::txid_to_key(txid);
        self.open_db(txid).remove_from_puts(&txid_key);
    }

    pub fn update(&mut self, txid: &Txid, tx_data: TxData)
        ensures
            old(self).wf() ==> final(self).wf(),
            final(self).metadata == old(self).metadata,
            final(self).touches(old(self), Self::shard_of(txid@)),
            final(self).pending(Self::shard_of(txid@)) == old(self).pending(
                Self::shard_of(txid@),
            ).update(Self::key_of(txid@), tx_data),
    {
        let txid_key = Self::txid_to_key(txid);
        self.open_db(txid).update(txid_key, tx_data);
    }

    /// The shard of a transaction, opened with nothing pending if it was not
    /// open.
    #[inline(always)]
    pub fn open_db(&mut self, txid: &Txid) -> (db: &mut Database)
        ensures
            db@ == old(self).pending(Self::shard_of(txid@)),
            old(self).wf() || !old(self).map@.contains_key(Self::shard_of(txid@)) ==> db.path@ == store_path(
                Self::folder_name(),
                Self::shard_name(Self::shard_of(txid@)),
            ),
            old(self).map@.contains_key(Self::shard_of(txid@)) ==> *db == old(
                self,
            ).map@[Self::shard_of(txid@)],
            final(self).map@ == old(self).map@.insert(Self::shard_of(txid@), *final(db)),
            final(self).metadata == old(self).metadata,
    {
        let db_index = Self::db_index(txid);
        if !self.map.contains_key(&db_index) {
            let name = decimal_string(db_index as u64);
            self.map.insert(db_index, Database::open(Self::folder(), name.as_str()));
        }
        get_mut(&mut self.map, &db_index).unwrap()
    }

    pub fn txid_to_key(txid: &Txid) -> (key: Key)
        ensures
            key == Self::key_of(txid@),
            Self::key_bytes(key) == txid@.subrange(1, 32),
    {
        proof {
            Self::lemma_key_bytes_of_key(txid@);
        }
        let mut low: Vec<u8> = Vec::new();
        let mut i: usize = 1;
        while i < 16
            invariant
                1 <= i <= 16,
                low@ == txid@.subrange(1, i as int),
            decreases 16 - i,
        {
            low.push(txid.bytes[i]);
            i = i + 1;
            proof {
                assert(low@ =~= txid@.subrange(1, i as int));
            }
        }
        low.push(0);
        let high = slice_subrange(txid.bytes.as_slice(), 16, 32);
        (u128_from_le_bytes(low.as_slice()), u128_from_le_bytes(high))
    }

    /// The bytes under which the store holds `key`.
    pub fn key_to_bytes(key: &Key) -> (bytes: Vec<u8>)
        ensures
            bytes@ == Self::key_bytes(*key),
            bytes@.len() == 31,
    {
        let mut bytes = u128_to_le_bytes(key.0);
        bytes.truncate(15);
        let mut high = u128_to_le_bytes(key.1);
        bytes.append(&mut high);
        proof {
            assert(bytes@ =~= Self::key_bytes(*key));
        }
        bytes
    }

    pub fn db_index(txid: &Txid) -> (index: u8)
        ensures
            index == Self::shard_of(txid@),
    {
        txid.bytes[0]
    }

    /// The flush of every shard that has writes pending.
    pub fn export_plan(&self) -> (plan: Vec<ShardWrites<u8, Key, Value>>)
        ensures
            is_export_plan(plan@, self.map@),
    {
        plan_export(&self.map)
    }

    /// Settles a flush at `height` and `date`: `flushed` names the shards
    /// whose transaction committed. The shards that are settled are closed;
    /// a shard whose writes are still pending stays open, as it was. When no
    /// shard stays the flush has succeeded: the checkpoint advances, and the
    /// content of the checkpoint file to persist is returned.
    pub fn export(&mut self, flushed: &BTreeSet<u8>, height: Height, date: Date) -> (file: Result<
        Vec<u8>,
        StorageError,
    >)
        ensures
            old(self).wf() ==> final(self).wf(),
            final(self).map@ == unsettled(old(self).map@, flushed@),
            match file {
                Ok(bytes) => {
                    &&& final(self).map@.is_empty()
                    &&& final(self).metadata == old(self).metadata.after_export(height, date)
                    &&& bytes@ == final(self).metadata.encoding()
                },
                Err(e) => {
                    &&& !final(self).map@.is_empty()
                    &&& final(self).metadata == old(self).metadata
                    &&& e == StorageError::CommitFailed
                },
            },
    {
        match settle_export(&mut self.map, flushed) {
            Ok(()) => Ok(self.metadata.export(height, date)),
            Err(failure) => Err(failure),
        }
    }

    pub fn reset_metadata(&mut self)
        ensures
            final(self).metadata == Metadata::fresh(),
            final(self).map == old(self).map,
    {
        self.metadata.reset();
    }

    pub fn folder() -> (name: &'static str)
        ensures
            name@ == Self::folder_name(),
    {
        "txid_to_tx_data"
    }
}

} // verus!
