use vstd::prelude::*;

verus! {

/// Position of a block: the index of its date and its index within that date.
#[derive(Debug, Clone, Copy, PartialEq, Eq, Structural, PartialOrd, Ord)]
pub struct BlockPath {
    pub date_index: u16,
    pub block_index: u16,
}

/// What is remembered of a transaction: its index, the block that holds it and
/// the number of its outputs that are still unspent.
#[derive(Debug, Clone, Copy, PartialEq, Eq, Structural, PartialOrd, Ord)]
pub struct TxData {
    pub index: u32,
    pub block_path: BlockPath,
    pub utxos: u16,
}

impl TxData {
    pub fn new(index: u32, block_path: BlockPath, utxos: u16) -> (data: Self)
        ensures
            data == (TxData { index, block_path, utxos }),
    {
        Self { index, block_path, utxos }
    }

    /// A transaction is empty once all of its outputs are spent.
    #[inline(always)]
    pub fn is_empty(&self) -> (empty: bool)
        ensures
            empty == (self.utxos == 0),
    {
        self.utxos == 0
    }
}

} // verus!
