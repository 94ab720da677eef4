use crate::structs::address_type::AddressType;
use vstd::prelude::*;

verus! {

/// An amount of coins, in the smallest unit.
#[derive(Debug, Copy, Clone, PartialEq, Eq, Structural, PartialOrd, Ord)]
pub struct Amount {
    pub sats: u64,
}

impl Amount {
    pub fn new(sats: u64) -> (amount: Self)
        ensures
            amount.sats == sats,
    {
        Amount { sats }
    }
}

/// What is known of an address that is in use: its kind and what it has
/// sent and received so far.
#[derive(Debug, Copy, Clone, PartialEq, Eq, Structural)]
pub struct AddressData {
    pub address_type: AddressType,
    pub sent: Amount,
    pub received: Amount,
}

impl AddressData {
    /// An address holds nothing once it has sent all that it received.
    pub open spec fn is_spent(&self) -> bool {
        self.sent == self.received
    }
}

} // verus!
