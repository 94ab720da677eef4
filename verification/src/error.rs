//! Errors of the storage layer.

use vstd::prelude::*;

verus! {

/// What can go wrong between the caches and the transactional store.
#[derive(Debug, Clone, Copy, PartialEq, Eq, Structural)]
pub enum StorageError {
    /// The directory of a shard could not be created.
    DirectoryCreateFailed,
    /// The transactional store could not open or map the directory.
    EnvironmentOpenFailed,
    /// A key or a value could not be turned into bytes, or back.
    EncodeDecodeFailed,
    /// The write transaction of a flush did not commit.
    CommitFailed,
    /// A shard was asked for that was never opened.
    ShardNotFound,
}

/// A record was asked to become something that its contents do not allow.
#[derive(Debug, Clone, Copy, PartialEq, Eq, Structural)]
pub enum InvariantViolation {
    /// An address that still holds coins was taken for an empty one.
    AddressNotEmpty,
}

impl StorageError {
    /// A short description of the error.
    pub fn message(&self) -> (text: &'static str)
        ensures
            text@ == self.message_text(),
    {
        match self {
            StorageError::DirectoryCreateFailed => "cannot create the shard directory",
            StorageError::EnvironmentOpenFailed => "cannot open the storage environment",
            StorageError::EncodeDecodeFailed => "cannot encode or decode a key or a value",
            StorageError::CommitFailed => "the write transaction did not commit",
            StorageError::ShardNotFound => "the shard was never opened",
        }
    }

    pub open spec fn message_text(&self) -> Seq<char> {
        match self {
            StorageError::DirectoryCreateFailed => "cannot create the shard directory"@,
            StorageError::EnvironmentOpenFailed => "cannot open the storage environment"@,
            StorageError::EncodeDecodeFailed => "cannot encode or decode a key or a value"@,
            StorageError::CommitFailed => "the write transaction did not commit"@,
            StorageError::ShardNotFound => "the shard was never opened"@,
        }
    }
}

} // verus!
