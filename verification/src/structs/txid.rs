use vstd::prelude::*;

verus! {

/// The identifier of a transaction: the thirty-two bytes of its hash.
#[derive(Debug, Copy, Clone, PartialEq, Eq)]
pub struct Txid {
    pub bytes: [u8; 32],
}

impl View for Txid {
    type V = Seq<u8>;

    open spec fn view(&self) -> Seq<u8> {
        self.bytes@
    }
}

impl Txid {
    pub fn new(bytes: [u8; 32]) -> (txid: Self)
        ensures
            txid@ == bytes@,
            txid.bytes == bytes,
    {
        Txid { bytes }
    }
}

} // verus!
