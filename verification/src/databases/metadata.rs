//! The checkpoint of a database group: how often it was written to, and the
//! position in the chain of its last flush.

use crate::error::StorageError;
use crate::structs::date::Date;
use crate::structs::height::Height;
use vstd::bytes::lemma_auto_spec_u16_to_from_le_bytes;
use vstd::bytes::lemma_auto_spec_u32_to_from_le_bytes;
use vstd::bytes::lemma_auto_spec_u64_to_from_le_bytes;
use vstd::bytes::spec_u16_from_le_bytes;
use vstd::bytes::spec_u16_to_le_bytes;
use vstd::bytes::spec_u32_from_le_bytes;
use vstd::bytes::spec_u32_to_le_bytes;
use vstd::bytes::spec_u64_from_le_bytes;
use vstd::bytes::spec_u64_to_le_bytes;
use vstd::bytes::u16_from_le_bytes;
use vstd::bytes::u16_to_le_bytes;
use vstd::bytes::u32_from_le_bytes;
use vstd::bytes::u32_to_le_bytes;
use vstd::bytes::u64_from_le_bytes;
use vstd::bytes::u64_to_le_bytes;
use vstd::prelude::*;
use vstd::slice::slice_subrange;

verus! {

/// The position in the chain up to which a flush is known to have completed.
/// Height and date always come together.
#[derive(Debug, Copy, Clone, PartialEq, Eq, Structural)]
pub struct Checkpoint {
    pub height: Height,
    pub date: Date,
}

#[derive(Debug, Copy, Clone, PartialEq, Eq, Structural)]
pub struct Metadata {
    /// How many inserts the group was asked for, over its whole life.
    pub insert_count: u64,
    /// How many removals the group was asked for, over its whole life.
    pub remove_count: u64,
    /// The last flush that completed, if one ever did.
    pub checkpoint: Option<Checkpoint>,
}

/// The length of a checkpoint file.
pub const METADATA_LEN: usize = 25;

impl Default for Metadata {
    fn default() -> (metadata: Self)
        ensures
            metadata == Metadata::fresh(),
    {
        Metadata { insert_count: 0, remove_count: 0, checkpoint: None }
    }
}

impl Metadata {
    /// The metadata of a group that was never written to or flushed.
    pub open spec fn fresh() -> Self {
        Metadata { insert_count: 0, remove_count: 0, checkpoint: None }
    }

    /// The bytes of the checkpoint file: the two counts in eight bytes each,
    /// one byte that says whether a flush ever completed, then height, year,
    /// month and day of the last one, all zero where there is none. Numbers
    /// are little-endian.
    pub open spec fn encoding(self) -> Seq<u8> {
        let position = match self.checkpoint {
            Some(c) => seq![1u8] + spec_u32_to_le_bytes(c.height.value) + spec_u16_to_le_bytes(
                c.date.year,
            ) + seq![c.date.month, c.date.day],
            None => seq![0u8] + spec_u32_to_le_bytes(0) + spec_u16_to_le_bytes(0) + seq![0u8, 0u8],
        };
        spec_u64_to_le_bytes(self.insert_count) + spec_u64_to_le_bytes(self.remove_count)
            + position
    }

    /// The metadata that a checkpoint file stands for, if it stands for any.
    pub open spec fn decoding(bytes: Seq<u8>) -> Option<Self> {
        if bytes.len() != 25 {
            None
        } else {
            let insert_count = spec_u64_from_le_bytes(bytes.subrange(0, 8));
            let remove_count = spec_u64_from_le_bytes(bytes.subrange(8, 16));
            let height = spec_u32_from_le_bytes(bytes.subrange(17, 21));
            let year = spec_u16_from_le_bytes(bytes.subrange(21, 23));
            let month = bytes[23];
            let day = bytes[24];
            if bytes[16] == 1 {
                Some(
                    Metadata {
                        insert_count,
                        remove_count,
                        checkpoint: Some(
                            Checkpoint {
                                height: Height { value: height },
                                date: Date { year, month, day },
                            },
                        ),
                    },
                )
            } else if bytes[16] == 0 && height == 0 && year == 0 && month == 0 && day == 0 {
                Some(Metadata { insert_count, remove_count, checkpoint: None })
            } else {
                None
            }
        }
    }

    /// What an import answers: a fresh start where nothing was persisted,
    /// the metadata that the file stands for where there is a file, and an
    /// error where the file stands for none.
    pub open spec fn import_of(stored: Option<&[u8]>) -> Result<Self, StorageError> {
        match stored {
            None => Ok(Metadata::fresh()),
            Some(bytes) => match Metadata::decoding(bytes@) {
                Some(metadata) => Ok(metadata),
                None => Err(StorageError::EncodeDecodeFailed),
            },
        }
    }

    /// The metadata after one more insert was asked for.
    pub open spec fn after_insert(self) -> Self {
        Metadata { insert_count: (self.insert_count + 1) as u64, ..self }
    }

    /// The metadata after one more removal was asked for.
    pub open spec fn after_remove(self) -> Self {
        Metadata { remove_count: (self.remove_count + 1) as u64, ..self }
    }

    /// The metadata after a flush completed at `height` and `date`.
    pub open spec fn after_export(self, height: Height, date: Date) -> Self {
        Metadata { checkpoint: Some(Checkpoint { height, date }), ..self }
    }

    /// Every checkpoint file is read back as the metadata it was written for.
    pub proof fn lemma_decoding_inverts_encoding(self)
        ensures
            self.encoding().len() == 25,
            Self::decoding(self.encoding()) == Some(self),
    {
        lemma_auto_spec_u64_to_from_le_bytes();
        lemma_auto_spec_u32_to_from_le_bytes();
        lemma_auto_spec_u16_to_from_le_bytes();
        let bytes = self.encoding();
        assert(bytes.subrange(0, 8) =~= spec_u64_to_le_bytes(self.insert_count));
        assert(bytes.subrange(8, 16) =~= spec_u64_to_le_bytes(self.remove_count));
        match self.checkpoint {
            Some(c) => {
                assert(bytes.subrange(17, 21) =~= spec_u32_to_le_bytes(c.height.value));
                assert(bytes.subrange(21, 23) =~= spec_u16_to_le_bytes(c.date.year));
            },
            None => {
                assert(bytes.subrange(17, 21) =~= spec_u32_to_le_bytes(0));
                assert(bytes.subrange(21, 23) =~= spec_u16_to_le_bytes(0));
            },
        }
    }

    /// No two files stand for the same metadata: a file that is read as some
    /// metadata is the file that is written for it.
    pub proof fn lemma_encoding_inverts_decoding(bytes: Seq<u8>)
        requires
            Self::decoding(bytes) is Some,
        ensures
            Self::decoding(bytes)->0.encoding() == bytes,
    {
        lemma_auto_spec_u64_to_from_le_bytes();
        lemma_auto_spec_u32_to_from_le_bytes();
        lemma_auto_spec_u16_to_from_le_bytes();
        let metadata = Self::decoding(bytes)->0;
        assert(spec_u64_to_le_bytes(metadata.insert_count) == bytes.subrange(0, 8));
        assert(spec_u64_to_le_bytes(metadata.remove_count) == bytes.subrange(8, 16));
        let height = spec_u32_from_le_bytes(bytes.subrange(17, 21));
        let year = spec_u16_from_le_bytes(bytes.subrange(21, 23));
        assert(spec_u32_to_le_bytes(height) == bytes.subrange(17, 21));
        assert(spec_u16_to_le_bytes(year) == bytes.subrange(21, 23));
        assert(metadata.encoding() =~= bytes.subrange(0, 8) + bytes.subrange(8, 16) + seq![
            bytes[16],
        ] + bytes.subrange(17, 21) + bytes.subrange(21, 23) + seq![bytes[23], bytes[24]]);
        assert(metadata.encoding() =~= bytes);
    }

    /// The metadata of a group as it was last persisted: `stored` is the
    /// content of its checkpoint file, or `None` where there is no such file,
    /// in which case the group starts afresh. A file that is not a
    /// checkpoint file is an error, not a fresh start.
    pub fn import(stored: Option<&[u8]>) -> (imported: Result<Self, StorageError>)
        ensures
            imported == Metadata::import_of(stored),
    {
        match stored {
            None => Ok(Metadata { insert_count: 0, remove_count: 0, checkpoint: None }),
            Some(bytes) => match Metadata::decode(bytes) {
                Some(metadata) => Ok(metadata),
                None => Err(StorageError::EncodeDecodeFailed),
            },
        }
    }

    /// Counts one insert.
    pub fn called_insert(&mut self)
        requires
            old(self).insert_count < u64::MAX,
        ensures
            *final(self) == old(self).after_insert(),
    {
        self.insert_count = self.insert_count + 1;
    }

    /// Counts one removal.
    pub fn called_remove(&mut self)
        requires
            old(self).remove_count < u64::MAX,
        ensures
            *final(self) == old(self).after_remove(),
    {
        self.remove_count = self.remove_count + 1;
    }

    /// Records that a flush completed at `height` and `date`, and gives the
    /// content of the checkpoint file that says so. To be called only once
    /// the data of that flush is durable.
    pub fn export(&mut self, height: Height, date: Date) -> (file: Vec<u8>)
        ensures
            *final(self) == old(self).after_export(height, date),
            file@ == final(self).encoding(),
            Metadata::decoding(file@) == Some(*final(self)),
    {
        self.checkpoint = Some(Checkpoint { height, date });
        self.encode()
    }

    /// Forgets the counts and the checkpoint. The data is not touched.
    pub fn reset(&mut self)
        ensures
            *final(self) == Metadata::fresh(),
    {
        self.insert_count = 0;
        self.remove_count = 0;
        self.checkpoint = None;
    }

    /// The height of the last flush that completed.
    pub fn last_height(&self) -> (height: Option<Height>)
        ensures
            height == (match self.checkpoint {
                Some(c) => Some(c.height),
                None => None,
            }),
    {
        match self.checkpoint {
            Some(c) => Some(c.height),
            None => None,
        }
    }

    /// The date of the last flush that completed.
    pub fn last_date(&self) -> (date: Option<Date>)
        ensures
            date == (match self.checkpoint {
                Some(c) => Some(c.date),
                None => None,
            }),
    {
        match self.checkpoint {
            Some(c) => Some(c.date),
            None => None,
        }
    }

    /// The content of the checkpoint file of this metadata.
    pub fn encode(&self) -> (file: Vec<u8>)
        ensures
            file@ == self.encoding(),
            file@.len() == 25,
            Metadata::decoding(file@) == Some(*self),
    {
        let mut file = u64_to_le_bytes(self.insert_count);
        let mut removes = u64_to_le_bytes(self.remove_count);
        file.append(&mut removes);
        let (flag, height, date) = match self.checkpoint {
            Some(c) => (1u8, c.height.value, c.date),
            None => (0u8, 0u32, Date { year: 0, month: 0, day: 0 }),
        };
        file.push(flag);
        let mut height_bytes = u32_to_le_bytes(height);
        file.append(&mut height_bytes);
        let mut year_bytes = u16_to_le_bytes(date.year);
        file.append(&mut year_bytes);
        file.push(date.month);
        file.push(date.day);
        proof {
            assert(file@ =~= self.encoding());
            self.lemma_decoding_inverts_encoding();
        }
        file
    }

    /// Reads a checkpoint file.
    pub fn decode(bytes: &[u8]) -> (metadata: Option<Self>)
        ensures
            metadata == Metadata::decoding(bytes@),
            metadata is Some ==> metadata->0.encoding() == bytes@,
    {
        if bytes.len() != METADATA_LEN {
            return None;
        }
        proof {
            if Metadata::decoding(bytes@) is Some {
                Metadata::lemma_encoding_inverts_decoding(bytes@);
            }
        }
        let insert_count = u64_from_le_bytes(slice_subrange(bytes, 0, 8));
        let remove_count = u64_from_le_bytes(slice_subrange(bytes, 8, 16));
        let flag = bytes[16];
        let height = u32_from_le_bytes(slice_subrange(bytes, 17, 21));
        let year = u16_from_le_bytes(slice_subrange(bytes, 21, 23));
        let month = bytes[23];
        let day = bytes[24];
        if flag == 1 {
            Some(
                Metadata {
                    insert_count,
                    remove_count,
                    checkpoint: Some(
                        Checkpoint { height: Height { value: height }, date: Date {
                            year,
                            month,
                            day,
                        } },
                    ),
                },
            )
        } else if flag == 0 && height == 0 && year == 0 && month == 0 && day == 0 {
            Some(Metadata { insert_count, remove_count, checkpoint: None })
        } else {
            None
        }
    }
}

} // verus!
