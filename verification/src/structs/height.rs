use vstd::prelude::*;

verus! {

/// The height of a block in the chain.
#[derive(Debug, Copy, Clone, PartialEq, Eq, Structural, PartialOrd, Ord)]
pub struct Height {
    pub value: u32,
}

impl Height {
    pub fn new(value: u32) -> (height: Self)
        ensures
            height.value == value,
    {
        Height { value }
    }
}

} // verus!
