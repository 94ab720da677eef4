//! Cached stores and the groups that shard a key space over them.

mod btree;
pub mod database_heed;
pub mod group;
pub mod metadata;
pub mod txid_to_tx_data;
pub mod txout_index_to_address_index;

pub use database_heed::Flushed;
pub use database_heed::HeedDatabase;
pub use database_heed::Pending;
pub use metadata::Checkpoint;
pub use metadata::Metadata;
pub use group::ShardWrites;
pub use txid_to_tx_data::TxidToTxData;
pub use txout_index_to_address_index::TxoutIndexToAddressIndex;
