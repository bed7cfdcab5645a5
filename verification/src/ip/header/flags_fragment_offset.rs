use vstd::prelude::*;

use crate::util::byte_extension::{be16, u16_from_be};

verus! {

/// The flags (top 3 bits) and fragment offset (low 13 bits) of an IPv4 header.
#[derive(Clone, Copy, PartialEq, Eq, Structural, Debug)]
pub struct FlagsFragmentOffset(pub u16);

impl FlagsFragmentOffset {
    /// Reads the field from its two bytes in network order.
    pub fn new(data: [u8; 2]) -> (r: Self)
        ensures
            r.0 == be16(data@[0], data@[1]),
    {
        Self(u16_from_be(data[0], data[1]))
    }

    /// The raw value.
    pub fn value(&self) -> (r: u16)
        ensures
            r == self.0,
    {
        self.0
    }

    /// The three flag bits.
    pub fn flags(&self) -> (r: u8)
        ensures
            r == self.0 / 0x2000,
    {
        let v = self.0;
        assert((v >> 13) as u8 == v / 0x2000) by (bit_vector);
        (v >> 13) as u8
    }

    /// The fragment offset.
    pub fn fragment_offset(&self) -> (r: u16)
        ensures
            r == self.0 % 0x2000,
    {
        let v = self.0;
        assert(v & 0x1fff == v % 0x2000) by (bit_vector);
        v & 0x1fff
    }
}

impl From<FlagsFragmentOffset> for u16 {
    fn from(value: FlagsFragmentOffset) -> (r: u16)
        ensures
            r == value.0,
    {
        value.0
    }
}

impl vstd::std_specs::convert::FromSpecImpl<FlagsFragmentOffset> for u16 {
    open spec fn obeys_from_spec() -> bool {
        true
    }

    open spec fn from_spec(value: FlagsFragmentOffset) -> u16 {
        value.0
    }
}

impl From<u16> for FlagsFragmentOffset {
    fn from(value: u16) -> (r: Self)
        ensures
            r.0 == value,
    {
        Self(value)
    }
}

impl vstd::std_specs::convert::FromSpecImpl<u16> for FlagsFragmentOffset {
    open spec fn obeys_from_spec() -> bool {
        true
    }

    open spec fn from_spec(value: u16) -> FlagsFragmentOffset {
        FlagsFragmentOffset(value)
    }
}

} // verus!
