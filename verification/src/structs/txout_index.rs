use vstd::prelude::*;

verus! {

/// The position of an output: the index of its transaction and its rank
/// among that transaction's outputs.
#[derive(Debug, Copy, Clone, PartialEq, Eq, Structural, PartialOrd, Ord)]
pub struct TxoutIndex {
    pub tx_index: u32,
    pub vout: u16,
}

impl TxoutIndex {
    /// The number by which an output is ordered and found again: the
    /// transaction's index in the high bits, the rank in the low sixteen.
    pub open spec fn number(self) -> int {
        self.tx_index * 0x1_0000 + self.vout
    }

    pub fn new(tx_index: u32, vout: u16) -> (index: Self)
        ensures
            index == (TxoutIndex { tx_index, vout }),
    {
        TxoutIndex { tx_index, vout }
    }

    /// The position that `number` stands for, if it stands for one.
    pub open spec fn of_number(number: int) -> Option<Self> {
        if 0 <= number < 0x1_0000_0000_0000 {
            Some(
                TxoutIndex {
                    tx_index: (number / 0x1_0000) as u32,
                    vout: (number % 0x1_0000) as u16,
                },
            )
        } else {
            None
        }
    }

    pub fn as_u64(&self) -> (number: u64)
        ensures
            number == self.number(),
            Self::of_number(number as int) == Some(*self),
    {
        (self.tx_index as u64) * 0x1_0000 + (self.vout as u64)
    }

    /// The position that `number` stands for, if it stands for one.
    pub fn from_u64(number: u64) -> (index: Option<Self>)
        ensures
            index == Self::of_number(number as int),
            index is Some ==> index->0.number() == number,
    {
        if number >= 0x1_0000_0000_0000 {
            return None;
        }
        let tx_index: u64 = number / 0x1_0000;
        let vout: u64 = number % 0x1_0000;
        Some(TxoutIndex { tx_index: tx_index as u32, vout: vout as u16 })
    }

}

} // verus!
