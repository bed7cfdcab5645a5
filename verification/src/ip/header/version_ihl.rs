use vstd::prelude::*;

verus! {

/// The version number of IPv4.
pub const IP_VERSION_IPV4: u8 = 4;

/// The first byte of an IPv4 header: version (high nibble) and header length
/// in 32-bit words (low nibble).
#[derive(Clone, Copy, PartialEq, Eq, Structural, Debug)]
pub struct VersionIhl(pub u8);

impl VersionIhl {
    pub fn new(data: u8) -> (r: Self)
        ensures
            r.0 == data,
    {
        Self(data)
    }

    /// The IP version.
    pub fn version(&self) -> (r: u8)
        ensures
            r == self.0 / 16,
    {
        let v = self.0;
        assert(v >> 4 == v / 16) by (bit_vector);
        v >> 4
    }

    /// Whether the version is IPv4.
    pub fn is_supported(&self) -> (r: bool)
        ensures
            r <==> self.0 / 16 == IP_VERSION_IPV4,
    {
        VersionIhl::new(self.0).version() == IP_VERSION_IPV4
    }

    /// The header length in 32-bit words.
    pub fn ihl(&self) -> (r: u8)
        ensures
            r == self.0 % 16,
    {
        let v = self.0;
        assert(v & 0x0f == v % 16) by (bit_vector);
        v & 0x0f
    }

    /// The raw byte.
    pub fn value(&self) -> (r: u8)
        ensures
            r == self.0,
    {
        self.0
    }
}

} // verus!
