//! Record types stored by the database groups, and the positions in the
//! chain that checkpoints refer to.

pub mod address_data;
pub mod address_type;
pub mod date;
pub mod empty_address_data;
pub mod height;
pub mod tx_data;
pub mod txid;
pub mod txout_index;

pub use address_data::AddressData;
pub use address_data::Amount;
pub use address_type::AddressType;
pub use date::Date;
pub use empty_address_data::EmptyAddressData;
pub use height::Height;
pub use tx_data::BlockPath;
pub use tx_data::TxData;
pub use txid::Txid;
pub use txout_index::TxoutIndex;
