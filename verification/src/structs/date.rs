use vstd::prelude::*;

verus! {

/// A calendar day. The storage layer only records it; it does no arithmetic
/// on it.
#[derive(Debug, Copy, Clone, PartialEq, Eq, Structural, PartialOrd, Ord)]
pub struct Date {
    pub year: u16,
    pub month: u8,
    pub day: u8,
}

impl Date {
    pub fn new(year: u16, month: u8, day: u8) -> (date: Self)
        ensures
            date == (Date { year, month, day }),
    {
        Date { year, month, day }
    }
}

} // verus!
