use vstd::prelude::*;

verus! {

/// The kind of script that an output pays to.
#[derive(Debug, Copy, Clone, PartialEq, Eq, Structural, PartialOrd, Ord)]
pub enum AddressType {
    Empty,
    OpReturn,
    PushOnly,
    Unknown,
    MultiSig,
    P2PK,
    P2PKH,
    P2SH,
    P2WPKH,
    P2WSH,
    P2TR,
}

impl Default for AddressType {
    fn default() -> (kind: Self)
        ensures
            kind == AddressType::Unknown,
    {
        AddressType::Unknown
    }
}

} // verus!
