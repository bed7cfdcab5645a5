use vstd::prelude::*;

verus! {

/// The byte of a TCP header that holds the data offset (high nibble, in
/// 32-bit words) and reserved bits.
#[derive(Clone, Copy, PartialEq, Eq, Structural, Debug)]
pub struct DataOffsetReserved(pub u8);

impl DataOffsetReserved {
    pub fn new(data_offset: u8) -> (r: Self)
        ensures
            r.0 == data_offset,
    {
        DataOffsetReserved(data_offset)
    }

    /// The raw byte.
    pub fn value(&self) -> (r: u8)
        ensures
            r == self.0,
    {
        self.0
    }

    /// The header length in bytes.
    pub open spec fn offset(self) -> nat {
        (self.0 / 16) as nat * 4
    }

    /// The header length in bytes.
    pub fn data_offset(&self) -> (r: u8)
        ensures
            r == self.offset(),
            r <= 60,
    {
        let v = self.0;
        assert(v >> 4 == v / 16) by (bit_vector);
        (v >> 4) * 4
    }
}

/// The control bits of a TCP header.
#[derive(Clone, Copy, PartialEq, Eq, Structural, Debug)]
pub struct TcpFlags(pub u8);

impl TcpFlags {
    pub const FIN: u8 = 0b0000_0001;
    pub const SYN: u8 = 0b0000_0010;
    pub const RST: u8 = 0b0000_0100;
    pub const PSH: u8 = 0b0000_1000;
    pub const ACK: u8 = 0b0001_0000;
    pub const URG: u8 = 0b0010_0000;
    pub const ECE: u8 = 0b0100_0000;
    pub const CWR: u8 = 0b1000_0000;

    /// Whether every bit of `other` is set.
    pub open spec fn has(self, other: u8) -> bool {
        self.0 & other == other
    }

    /// Whether every bit of `other` is set.
    pub fn contains(&self, other: u8) -> (r: bool)
        ensures
            r == self.has(other),
    {
        self.0 & other == other
    }

    /// The raw bits.
    pub fn bits(&self) -> (r: u8)
        ensures
            r == self.0,
    {
        self.0
    }

    /// The flags of `bits`; every bit names a flag, so none is dropped.
    pub fn from_bits_truncate(bits: u8) -> (r: Self)
        ensures
            r.0 == bits,
    {
        TcpFlags(bits)
    }

    /// The flags set in either.
    pub fn union(self, other: TcpFlags) -> (r: Self)
        ensures
            r.0 == self.0 | other.0,
    {
        TcpFlags(self.0 | other.0)
    }
}

} // verus!
