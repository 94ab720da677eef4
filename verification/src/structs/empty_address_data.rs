use crate::error::InvariantViolation;
use crate::structs::address_data::AddressData;
use crate::structs::address_data::Amount;
use crate::structs::address_type::AddressType;
use vstd::prelude::*;

verus! {

/// What is kept of an address once it holds nothing: its kind and how much
/// passed through it.
#[derive(Debug, PartialEq, Eq, Structural, PartialOrd, Ord, Clone, Copy)]
pub struct EmptyAddressData {
    pub address_type: AddressType,
    pub transfered: Amount,
}

impl Default for EmptyAddressData {
    fn default() -> (data: Self)
        ensures
            data == (EmptyAddressData {
                address_type: AddressType::Unknown,
                transfered: Amount { sats: 0 },
            }),
    {
        EmptyAddressData { address_type: AddressType::Unknown, transfered: Amount { sats: 0 } }
    }
}

impl EmptyAddressData {
    /// The record of an address that has sent all that it received. An
    /// address that still holds something has no such record.
    pub fn from_non_empty(non_empty: &AddressData) -> (converted: Result<
        Self,
        InvariantViolation,
    >)
        ensures
            non_empty.is_spent() ==> converted == Ok::<Self, InvariantViolation>(
                EmptyAddressData {
                    address_type: non_empty.address_type,
                    transfered: non_empty.sent,
                },
            ),
            !non_empty.is_spent() ==> converted == Err::<Self, InvariantViolation>(
                InvariantViolation::AddressNotEmpty,
            ),
    {
        if non_empty.sent != non_empty.received {
            return Err(InvariantViolation::AddressNotEmpty);
        }
        Ok(Self { address_type: non_empty.address_type, transfered: non_empty.sent })
    }
}

} // verus!
