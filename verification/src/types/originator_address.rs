use vstd::prelude::*;

verus! {

/// Originator address — identifies the source of an ASDU.
///
/// Present in the COT field when `size_of_cot == 2`.
#[derive(Debug, Clone, Copy, PartialEq, Eq, Hash, Structural)]
pub struct OriginatorAddress(pub u8);

impl OriginatorAddress {
    pub fn new(value: u8) -> (r: Self)
        ensures
            r.0 == value,
    {
        OriginatorAddress(value)
    }

    pub fn value(self) -> (r: u8)
        ensures
            r == self.0,
    {
        self.0
    }
}

impl Default for OriginatorAddress {
    fn default() -> (r: Self)
        ensures
            r.0 == 0,
    {
        OriginatorAddress(0)
    }
}

impl From<u8> for OriginatorAddress {
    fn from(value: u8) -> (r: Self) {
        OriginatorAddress(value)
    }
}

impl vstd::std_specs::convert::FromSpecImpl<u8> for OriginatorAddress {
    open spec fn obeys_from_spec() -> bool {
        true
    }

    open spec fn from_spec(value: u8) -> OriginatorAddress {
        OriginatorAddress(value)
    }
}

} // verus!
