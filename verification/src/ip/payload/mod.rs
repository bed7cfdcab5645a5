pub mod handle;
pub mod icmp;
pub mod tcp;
pub mod udp;

use vstd::prelude::*;

use crate::error::PacketError;
use crate::util::byte_extension::{byte_count, copy_all};

use self::{
    handle::{HandlePacket, HandleStatus, HandleStatusView},
    icmp::{IcmpPacket, IcmpPacketView},
    tcp::connection::{Connection, ConnectionPool, SockAddr},
    tcp::{TcpPacket, TcpPacketView},
    udp::{UdpPacket, UdpPacketView},
};
use super::{addr::AddrPair, protocol::Protocol, Deserialize, Serialize};

verus! {

/// The payload of an IPv4 packet.
#[derive(Debug)]
pub enum IpPayload {
    Icmp(IcmpPacket),
    Udp(UdpPacket),
    Tcp(TcpPacket),
    /// The bytes of a payload of another protocol.
    Undefined(Vec<u8>),
}

/// The contents of the payload of an IPv4 packet.
pub enum IpPayloadView {
    Icmp(IcmpPacketView),
    Udp(UdpPacketView),
    Tcp(TcpPacketView),
    Undefined(Seq<u8>),
}

impl View for IpPayload {
    type V = IpPayloadView;

    open spec fn view(&self) -> IpPayloadView {
        match self {
            IpPayload::Icmp(p) => IpPayloadView::Icmp(p@),
            IpPayload::Udp(p) => IpPayloadView::Udp(p@),
            IpPayload::Tcp(p) => IpPayloadView::Tcp(p@),
            IpPayload::Undefined(d) => IpPayloadView::Undefined(d@),
        }
    }
}

/// Whether the stack takes a received packet in.
#[derive(Clone, Copy, PartialEq, Eq, Structural, Debug)]
pub enum PacketFilter {
    Pass,
    Drop,
}

impl IpPayloadView {
    /// The length of the payload on the wire.
    pub open spec fn size(self) -> int {
        match self {
            IpPayloadView::Icmp(p) => p.size(),
            IpPayloadView::Udp(p) => p.size(),
            IpPayloadView::Tcp(p) => p.size(),
            IpPayloadView::Undefined(d) => byte_count(d),
        }
    }

    /// The payload on the wire.
    pub open spec fn bytes(self) -> Seq<u8> {
        match self {
            IpPayloadView::Icmp(p) => p.bytes(),
            IpPayloadView::Udp(p) => p.bytes(),
            IpPayloadView::Tcp(p) => p.bytes(),
            IpPayloadView::Undefined(d) => d,
        }
    }

    /// Which packets addressed to `port` the stack takes in: every ICMP
    /// message, UDP and TCP to `port`, nothing else.
    pub open spec fn filter(self, port: u16) -> PacketFilter {
        match self {
            IpPayloadView::Icmp(_) => PacketFilter::Pass,
            IpPayloadView::Udp(p) => if p.destination_port == port {
                PacketFilter::Pass
            } else {
                PacketFilter::Drop
            },
            IpPayloadView::Tcp(p) => if p.destination_port == port {
                PacketFilter::Pass
            } else {
                PacketFilter::Drop
            },
            IpPayloadView::Undefined(_) => PacketFilter::Drop,
        }
    }

    /// Whether reading a payload of `protocol` from `buf` does not fail
    /// outright.
    pub open spec fn parse_requires(protocol: Protocol, buf: Seq<u8>) -> bool {
        protocol == Protocol::Tcp ==> TcpPacketView::parse_requires(buf)
    }

    /// What reading a payload of `protocol` from `buf` gives.
    pub open spec fn parse(protocol: Protocol, buf: Seq<u8>) -> Result<IpPayloadView, PacketError> {
        match protocol {
            Protocol::Icmp => match IcmpPacketView::parse(buf) {
                Ok(p) => Ok(IpPayloadView::Icmp(p)),
                Err(e) => Err(e),
            },
            Protocol::Udp => match UdpPacketView::parse(buf) {
                Ok(p) => Ok(IpPayloadView::Udp(p)),
                Err(e) => Err(e),
            },
            Protocol::Tcp => match TcpPacketView::parse(buf) {
                Ok(p) => Ok(IpPayloadView::Tcp(p)),
                Err(e) => Err(e),
            },
            Protocol::Unknown => Ok(IpPayloadView::Undefined(buf)),
        }
    }

    /// The stack takes in every ICMP message, UDP datagrams and TCP segments
    /// exactly when they are addressed to the served port, and nothing of
    /// another protocol.
    pub proof fn lemma_filter_by_port(self, port: u16)
        ensures
            self is Icmp ==> self.filter(port) == PacketFilter::Pass,
            self is Udp ==> (self.filter(port) == PacketFilter::Pass <==> self->Udp_0.destination_port
                == port),
            self is Tcp ==> (self.filter(port) == PacketFilter::Pass <==> self->Tcp_0.destination_port
                == port),
            self is Undefined ==> self.filter(port) == PacketFilter::Drop,
    {
    }

    /// Whether this payload is what a header naming `protocol` carries.
    pub open spec fn carried_by(self, protocol: Protocol) -> bool {
        match self {
            IpPayloadView::Icmp(_) => protocol == Protocol::Icmp,
            IpPayloadView::Udp(_) => protocol == Protocol::Udp,
            IpPayloadView::Tcp(p) => protocol == Protocol::Tcp
                && p.data_offset_reserved.offset() == tcp::HEADER_MIN_LEN + p.options.len(),
            IpPayloadView::Undefined(_) => protocol == Protocol::Unknown,
        }
    }

    /// The length of a payload is the length of its bytes on the wire.
    pub proof fn lemma_size_is_length(self)
        ensures
            self.bytes().len() == self.size(),
    {
        match self {
            IpPayloadView::Tcp(p) => {
                assert(p.bytes().len() == p.size());
            },
            _ => {},
        }
    }

    /// Reading back a written payload, as the protocol that carries it,
    /// gives the same payload.
    pub proof fn lemma_parse_serialize(self, protocol: Protocol)
        requires
            self.carried_by(protocol),
        ensures
            IpPayloadView::parse_requires(protocol, self.bytes()),
            IpPayloadView::parse(protocol, self.bytes()) == Ok::<IpPayloadView, PacketError>(self),
    {
        match self {
            IpPayloadView::Icmp(p) => p.lemma_parse_serialize(),
            IpPayloadView::Udp(p) => p.lemma_parse_serialize(),
            IpPayloadView::Tcp(p) => p.lemma_parse_serialize(),
            IpPayloadView::Undefined(_) => {},
        }
    }

    /// The payloads and connection states for which handling does not fail
    /// outright.
    pub open spec fn handle_requires(self, conns: Map<u64, Connection>, addr_pair: AddrPair) -> bool {
        match self {
            IpPayloadView::Icmp(p) => p.handle_requires(),
            IpPayloadView::Tcp(p) => p.handle_requires(conns, addr_pair),
            _ => true,
        }
    }

    /// The connections and answer after this payload is handled.
    pub open spec fn handle_result(self, conns: Map<u64, Connection>, addr_pair: AddrPair) -> (
        Map<u64, Connection>,
        HandleStatusView,
    ) {
        match self {
            IpPayloadView::Icmp(p) => (conns, p.handle_result()),
            IpPayloadView::Tcp(p) => p.handle_result(conns, addr_pair),
            _ => (conns, HandleStatusView::Stop),
        }
    }
}

impl IpPayload {
    /// The length of the payload on the wire.
    pub fn size(&self) -> (r: usize)
        requires
            self@.size() <= usize::MAX,
        ensures
            r == self@.size(),
    {
        match self {
            IpPayload::Icmp(icmp) => icmp.size(),
            IpPayload::Udp(udp) => udp.size(),
            IpPayload::Tcp(tcp) => tcp.size(),
            IpPayload::Undefined(data) => data.len(),
        }
    }

    /// Whether the stack, serving `port`, takes the packet in.
    pub fn filter(&self, port: u16) -> (r: PacketFilter)
        ensures
            r == self@.filter(port),
    {
        match self {
            IpPayload::Icmp(_) => PacketFilter::Pass,
            IpPayload::Udp(udp) => udp.filter(port),
            IpPayload::Tcp(tcp) => tcp.filter(port),
            _ => PacketFilter::Drop,
        }
    }

    /// Whether the payload is at most `limit` bytes long on the wire.
    pub fn size_at_most(&self, limit: usize) -> (r: bool)
        ensures
            r == (self@.size() <= limit),
    {
        match self {
            IpPayload::Icmp(p) => limit >= icmp::HEADER_LEN && p.payload.len() <= limit
                - icmp::HEADER_LEN,
            IpPayload::Udp(p) => limit >= udp::HEADER_LEN && p.payload.len() <= limit
                - udp::HEADER_LEN,
            IpPayload::Tcp(p) => limit >= tcp::HEADER_MIN_LEN && p.options.len() <= limit
                - tcp::HEADER_MIN_LEN && p.payload.len() <= limit - tcp::HEADER_MIN_LEN
                - p.options.len(),
            IpPayload::Undefined(data) => data.len() <= limit,
        }
    }

    /// Whether handling the payload of a packet from `addr_pair.src_addr`
    /// does not fail outright, given the connections that `pool` holds.
    pub fn can_handle(&self, pool: &ConnectionPool, addr_pair: AddrPair) -> (r: bool)
        ensures
            r == self@.handle_requires(pool@, addr_pair),
    {
        match self {
            IpPayload::Icmp(icmp) => icmp.can_handle(),
            IpPayload::Tcp(tcp) => {
                let con = pool.peek(SockAddr::new(addr_pair.src_addr, tcp.source_port));
                tcp.can_handle(con.state, addr_pair)
            },
            _ => true,
        }
    }

    /// Answers the payload of a packet from `addr_pair.src_addr`.
    pub fn handle(&self, addr_pair: AddrPair, pool: &mut ConnectionPool) -> (r: HandleStatus)
        requires
            self@.handle_requires(old(pool)@, addr_pair),
        ensures
            final(pool)@ == self@.handle_result(old(pool)@, addr_pair).0,
            r@ == self@.handle_result(old(pool)@, addr_pair).1,
    {
        match self {
            IpPayload::Icmp(icmp) => icmp.handle_packet(addr_pair, pool),
            IpPayload::Udp(udp) => udp.handle_packet(addr_pair, pool),
            IpPayload::Tcp(tcp) => tcp.handle_packet(addr_pair, pool),
            _ => HandleStatus::Stop,
        }
    }

    /// Reads a payload of `protocol` from `buf`.
    pub fn deserialize(protocol: &Protocol, buf: &[u8]) -> (r: Result<Self, PacketError>)
        requires
            IpPayloadView::parse_requires(*protocol, buf@),
        ensures
            match r {
                Ok(p) => IpPayloadView::parse(*protocol, buf@) == Ok::<
                    IpPayloadView,
                    PacketError,
                >(p@),
                Err(e) => IpPayloadView::parse(*protocol, buf@) == Err::<
                    IpPayloadView,
                    PacketError,
                >(e),
            },
    {
        match protocol {
            Protocol::Icmp => match IcmpPacket::deserialize(buf) {
                Ok(p) => Ok(IpPayload::Icmp(p)),
                Err(e) => Err(e),
            },
            Protocol::Udp => match UdpPacket::deserialize(buf) {
                Ok(p) => Ok(IpPayload::Udp(p)),
                Err(e) => Err(e),
            },
            Protocol::Tcp => match TcpPacket::deserialize(buf) {
                Ok(p) => Ok(IpPayload::Tcp(p)),
                Err(e) => Err(e),
            },
            _ => Ok(IpPayload::Undefined(copy_all(buf))),
        }
    }
}

impl Serialize for IpPayload {
    open spec fn wire(&self) -> Seq<u8> {
        self@.bytes()
    }

    fn serialize(self, buf: &mut Vec<u8>) {
        match self {
            IpPayload::Icmp(icmp) => icmp.serialize(buf),
            IpPayload::Udp(udp) => udp.serialize(buf),
            IpPayload::Tcp(tcp) => tcp.serialize(buf),
            IpPayload::Undefined(data) => crate::util::byte_extension::push_bytes(
                buf,
                data.as_slice(),
            ),
        }
    }
}

} // verus!
