use vstd::prelude::*;

verus! {

/// Common address of ASDU (CA) — identifies the station.
///
/// Encoded as 1 or 2 bytes on the wire depending on `size_of_ca`.
#[derive(Debug, Clone, Copy, PartialEq, Eq, Hash, Structural)]
pub struct CommonAddress(pub u16);

impl CommonAddress {
    /// Broadcast / global address.
    pub fn global() -> (r: Self)
        ensures
            r.0 == 0xFFFF,
    {
        CommonAddress(0xFFFF)
    }

    pub fn new(value: u16) -> (r: Self)
        ensures
            r.0 == value,
    {
        CommonAddress(value)
    }

    pub fn value(self) -> (r: u16)
        ensures
            r == self.0,
    {
        self.0
    }
}

impl From<u16> for CommonAddress {
    fn from(value: u16) -> (r: Self) {
        CommonAddress(value)
    }
}

impl vstd::std_specs::convert::FromSpecImpl<u16> for CommonAddress {
    open spec fn obeys_from_spec() -> bool {
        true
    }

    open spec fn from_spec(value: u16) -> CommonAddress {
        CommonAddress(value)
    }
}

impl From<u8> for CommonAddress {
    fn from(value: u8) -> (r: Self) {
        CommonAddress(value as u16)
    }
}

impl vstd::std_specs::convert::FromSpecImpl<u8> for CommonAddress {
    open spec fn obeys_from_spec() -> bool {
        true
    }

    open spec fn from_spec(value: u8) -> CommonAddress {
        CommonAddress(value as u16)
    }
}

} // verus!
