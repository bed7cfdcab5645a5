use vstd::prelude::*;

use crate::util::byte_extension::{be32, u32_from_be};

verus! {

/// An IPv4 address.
#[derive(Clone, Copy, PartialEq, Eq, Structural, Hash, PartialOrd, Ord, Debug)]
pub struct Addr(pub u32);

impl Addr {
    /// The address as a number.
    pub fn value(&self) -> (r: u32)
        ensures
            r == self.0,
    {
        self.0
    }

    /// The address from its number.
    pub fn from_u32(addr: u32) -> (r: Self)
        ensures
            r.0 == addr,
    {
        Addr(addr)
    }

    /// The address from its four bytes in network order.
    pub fn from_octets(addr: [u8; 4]) -> (r: Self)
        ensures
            r.0 == be32(addr@[0], addr@[1], addr@[2], addr@[3]),
    {
        Addr(u32_from_be(addr[0], addr[1], addr[2], addr[3]))
    }

    /// The four bytes of the address in network order.
    pub fn octets(&self) -> (r: [u8; 4])
        ensures
            be32(r@[0], r@[1], r@[2], r@[3]) == self.0,
            r@[0] == self.0 / 0x100_0000,
            r@[1] == self.0 / 0x1_0000 % 256,
            r@[2] == self.0 / 0x100 % 256,
            r@[3] == self.0 % 256,
    {
        let x = self.0;
        [(x / 0x100_0000) as u8, (x / 0x1_0000 % 256) as u8, (x / 0x100 % 256) as u8, (x % 256) as u8]
    }
}

impl From<u32> for Addr {
    fn from(addr: u32) -> (r: Self)
        ensures
            r.0 == addr,
    {
        Addr(addr)
    }
}

impl vstd::std_specs::convert::FromSpecImpl<u32> for Addr {
    open spec fn obeys_from_spec() -> bool {
        true
    }

    open spec fn from_spec(addr: u32) -> Addr {
        Addr(addr)
    }
}

impl From<[u8; 4]> for Addr {
    fn from(addr: [u8; 4]) -> (r: Self)
        ensures
            r.0 == be32(addr@[0], addr@[1], addr@[2], addr@[3]),
    {
        Addr::from_octets(addr)
    }
}

impl vstd::std_specs::convert::FromSpecImpl<[u8; 4]> for Addr {
    open spec fn obeys_from_spec() -> bool {
        true
    }

    open spec fn from_spec(addr: [u8; 4]) -> Addr {
        Addr(be32(addr@[0], addr@[1], addr@[2], addr@[3]))
    }
}

/// The source and destination of a packet.
#[derive(Clone, Copy, PartialEq, Eq, Structural, Debug)]
pub struct AddrPair {
    pub src_addr: Addr,
    pub dst_addr: Addr,
}

impl AddrPair {
    pub fn new(src_addr: Addr, dst_addr: Addr) -> (r: Self)
        ensures
            r.src_addr == src_addr,
            r.dst_addr == dst_addr,
    {
        AddrPair { src_addr, dst_addr }
    }
}

} // verus!
