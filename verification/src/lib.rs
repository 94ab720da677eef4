//! Write-behind cached, sharded key-value storage for derived chain state.
//!
//! The library holds everything that decides: what a cached store answers,
//! which writes a flush applies and in which order, which shard a key
//! belongs to, how shard directories are named and what the checkpoint file
//! holds. The transactional store itself is driven by the caller, who hands
//! the library what it read and how a commit ended.

pub mod error;
pub mod storage;
pub mod structs;
pub mod databases;
pub mod laws;
pub mod text;
