use chibi_protocol_stack::device::tun::{classify_frame, FrameAction, TunDeviceBuilder};
use chibi_protocol_stack::error::PacketError;
use chibi_protocol_stack::ip::addr::{Addr, AddrPair};
use chibi_protocol_stack::ip::header::flags_fragment_offset::FlagsFragmentOffset;
use chibi_protocol_stack::ip::header::version_ihl::VersionIhl;
use chibi_protocol_stack::ip::header::IpHeader;
use chibi_protocol_stack::ip::packet::{respond, IpPacket};
use chibi_protocol_stack::ip::payload::handle::{HandlePacket, HandleStatus};
use chibi_protocol_stack::ip::payload::icmp::{IcmpPacket, IcmpType};
use chibi_protocol_stack::ip::payload::tcp::connection::{
    Connection, ConnectionPool, SockAddr, TcpState,
};
use chibi_protocol_stack::ip::payload::tcp::types::{DataOffsetReserved, TcpFlags};
use chibi_protocol_stack::ip::payload::tcp::TcpPacket;
use chibi_protocol_stack::ip::payload::udp::UdpPacket;
use chibi_protocol_stack::ip::payload::{IpPayload, PacketFilter};
use chibi_protocol_stack::ip::protocol::Protocol;
use chibi_protocol_stack::ip::{Deserialize, Serialize};
use chibi_protocol_stack::util::byte_extension::DivideBytes;
use chibi_protocol_stack::util::checksum::Checksum;

const REMOTE: [u8; 4] = [192, 0, 2, 2];
const LOCAL: [u8; 4] = [192, 0, 2, 1];
const PORT: u16 = 3000;

fn ipv4(protocol: u8, src: [u8; 4], dst: [u8; 4], payload: &[u8]) -> Vec<u8> {
    let total = (20 + payload.len()) as u16;
    let mut f = vec![0x45, 0, (total >> 8) as u8, total as u8, 0x12, 0x34, 0x40, 0x00, 64, protocol, 0, 0];
    f.extend_from_slice(&src);
    f.extend_from_slice(&dst);
    f.extend_from_slice(payload);
    f
}

fn icmp_echo_request(id: u16, seq: u16, data: &[u8]) -> Vec<u8> {
    let mut m = vec![8, 0, 0, 0, (id >> 8) as u8, id as u8, (seq >> 8) as u8, seq as u8];
    m.extend_from_slice(data);
    let c = Checksum::new().vec(&m).export();
    m[2] = (c >> 8) as u8;
    m[3] = c as u8;
    m
}

fn tcp_segment(sport: u16, dport: u16, seq: u32, ack: u32, flags: u8, data: &[u8]) -> Vec<u8> {
    let mut s = Vec::new();
    s.extend_from_slice(&sport.to_be_bytes());
    s.extend_from_slice(&dport.to_be_bytes());
    s.extend_from_slice(&seq.to_be_bytes());
    s.extend_from_slice(&ack.to_be_bytes());
    s.push(0x50);
    s.push(flags);
    s.extend_from_slice(&64240u16.to_be_bytes());
    s.extend_from_slice(&[0, 0, 0, 0]);
    s.extend_from_slice(data);
    s
}

fn udp_datagram(sport: u16, dport: u16, data: &[u8]) -> Vec<u8> {
    let mut s = Vec::new();
    s.extend_from_slice(&sport.to_be_bytes());
    s.extend_from_slice(&dport.to_be_bytes());
    s.extend_from_slice(&((8 + data.len()) as u16).to_be_bytes());
    s.extend_from_slice(&[0, 0]);
    s.extend_from_slice(data);
    s
}

fn deliver(frame: &[u8]) -> IpPacket {
    match classify_frame(frame, PORT) {
        FrameAction::Deliver(p) => p,
        _ => panic!("frame not delivered"),
    }
}

fn be32(b: &[u8]) -> u32 {
    u32::from_be_bytes([b[0], b[1], b[2], b[3]])
}

fn be16(b: &[u8]) -> u16 {
    u16::from_be_bytes([b[0], b[1]])
}

fn header_checks(frame: &[u8]) -> bool {
    Checksum::new().vec(&frame[..20]).export() == 0
}

fn tcp_checks(frame: &[u8]) -> bool {
    let seg = &frame[20..];
    Checksum::new()
        .u32(be32(&frame[12..16]))
        .u32(be32(&frame[16..20]))
        .u8((0, 6))
        .u32(seg.len() as u32)
        .vec(seg)
        .export()
        == 0
}

#[test]
fn checksum_rfc1071_example() {
    let c = Checksum::new().u16(0x0001).u16(0xf203).u16(0xf4f5).u16(0xf6f7).export();
    assert_eq!(c, 0x220d);
    let c2 = Checksum::new().vec(&[0x00, 0x01, 0xf2, 0x03, 0xf4, 0xf5, 0xf6, 0xf7]).export();
    assert_eq!(c2, 0x220d);
}

#[test]
fn checksum_odd_length_pads_with_zero() {
    let a = Checksum::new().vec(&[0x12, 0x34, 0x56]).export();
    let b = Checksum::new().u16(0x1234).u16(0x5600).export();
    assert_eq!(a, b);
    assert_eq!(a, !(0x1234u16 + 0x5600));
}

#[test]
fn checksum_u8_u32_and_empty() {
    assert_eq!(Checksum::new().export(), 0xffff);
    let a = Checksum::new().u8((0x12, 0x34)).export();
    assert_eq!(a, !0x1234u16);
    let b = Checksum::new().u32(0x1234_5678).export();
    assert_eq!(b, Checksum::new().u16(0x1234).u16(0x5678).export());
    // carries are folded back in
    let c = Checksum::new().u16(0xffff).u16(0x0002).export();
    assert_eq!(c, !0x0002u16);
}

#[test]
fn divide_bytes_splits_halves() {
    assert_eq!(0x1234_5678u32.divide_bytes(), (0x1234, 0x5678));
    assert_eq!(0xffff_0000u32.divide_bytes(), (0xffff, 0));
}

#[test]
fn ip_header_checksum_known_value() {
    let bytes = [
        0x45, 0x00, 0x00, 0x73, 0x00, 0x00, 0x40, 0x00, 0x40, 0x11, 0x00, 0x00, 0xc0, 0xa8, 0x00,
        0x01, 0xc0, 0xa8, 0x00, 0xc7,
    ];
    let mut h = IpHeader::deserialize(&bytes).unwrap();
    h.update_checksum();
    assert_eq!(h.header_checksum, 0xb861);
    let mut out = Vec::new();
    h.serialize(&mut out);
    assert!(header_checks(&out));
}

#[test]
fn ip_header_fields_and_roundtrip() {
    let frame = ipv4(17, REMOTE, LOCAL, &udp_datagram(1, 2, b"x"));
    let h = IpHeader::deserialize(&frame[..20]).unwrap();
    assert_eq!(h.version_ihl.version(), 4);
    assert_eq!(h.version_ihl.ihl(), 5);
    assert!(h.version_ihl.is_supported());
    assert_eq!(h.total_length, 29);
    assert_eq!(h.identification, 0x1234);
    assert_eq!(h.flags_fragment_offset.flags(), 2);
    assert_eq!(h.flags_fragment_offset.fragment_offset(), 0);
    assert_eq!(h.ttl, 64);
    assert_eq!(*h.protocol(), Protocol::Udp);
    assert_eq!(h.size(), 20);
    let pair = h.create_addr_pair();
    assert_eq!(pair.src_addr.octets(), REMOTE);
    assert_eq!(pair.dst_addr.octets(), LOCAL);
    let mut out = Vec::new();
    h.serialize(&mut out);
    assert_eq!(out, frame[..20].to_vec());
}

#[test]
fn ip_header_unknown_protocol_written_as_18() {
    let frame = ipv4(99, REMOTE, LOCAL, &[]);
    let h = IpHeader::deserialize(&frame).unwrap();
    assert_eq!(h.protocol, Protocol::Unknown);
    let mut out = Vec::new();
    h.serialize(&mut out);
    assert_eq!(out[9], 18);
}

#[test]
fn ip_header_rejects_short_and_non_ipv4() {
    assert_eq!(IpHeader::deserialize(&[0x45; 19]).err(), Some(PacketError::PacketDropSilent));
    let mut v6 = ipv4(1, REMOTE, LOCAL, &[]);
    v6[0] = 0x65;
    assert_eq!(IpHeader::deserialize(&v6).err(), Some(PacketError::PacketDropSilent));
}

#[test]
fn ip_header_prepare_reply_and_lengths() {
    let frame = ipv4(1, REMOTE, LOCAL, &[]);
    let h = IpHeader::deserialize(&frame).unwrap();
    let r = h.prepare_reply();
    assert_eq!(r.source_address.octets(), LOCAL);
    assert_eq!(r.destination_address.octets(), REMOTE);
    assert_eq!(r.total_length, 0);
    assert_eq!(r.header_checksum, 0);
    assert_eq!(r.identification, h.identification);
    let back = r.prepare_reply();
    assert_eq!(back.source_address, h.source_address);
    assert_eq!(back.destination_address, h.destination_address);
    let mut m = r;
    m.update_payload_length(100);
    assert_eq!(m.total_length, 120);
    m.update_payload_length(65530);
    assert_eq!(m.total_length, ((65530 + 20) % 65536) as u16);
}

#[test]
fn small_fields() {
    assert_eq!(VersionIhl::new(0x46).version(), 4);
    assert_eq!(VersionIhl::new(0x46).ihl(), 6);
    assert_eq!(VersionIhl::new(0x46).value(), 0x46);
    assert!(!VersionIhl::new(0x60).is_supported());
    let f = FlagsFragmentOffset::new([0x5f, 0xff]);
    assert_eq!(f.value(), 0x5fff);
    assert_eq!(f.flags(), 2);
    assert_eq!(f.fragment_offset(), 0x1fff);
    assert_eq!(DataOffsetReserved::new(0x80).data_offset(), 32);
    assert_eq!(DataOffsetReserved::new(0xf0).data_offset(), 60);
    assert_eq!(DataOffsetReserved::new(0x80).value(), 0x80);
    let fl = TcpFlags::from_bits_truncate(TcpFlags::SYN | TcpFlags::ACK);
    assert!(fl.contains(TcpFlags::SYN));
    assert!(fl.contains(TcpFlags::ACK));
    assert!(!fl.contains(TcpFlags::FIN));
    assert_eq!(fl.bits(), 0x12);
    assert_eq!(TcpFlags(TcpFlags::FIN).union(TcpFlags(TcpFlags::ACK)).bits(), 0x11);
}

#[test]
fn protocol_and_icmp_type_numbers() {
    assert_eq!(Protocol::from_u8(1), Protocol::Icmp);
    assert_eq!(Protocol::from_u8(6), Protocol::Tcp);
    assert_eq!(Protocol::from_u8(17), Protocol::Udp);
    assert_eq!(Protocol::from_u8(2), Protocol::Unknown);
    assert_eq!(Protocol::Icmp.to_u8(), 1);
    assert_eq!(Protocol::Tcp.to_u8(), 6);
    assert_eq!(Protocol::Udp.to_u8(), 17);
    assert_eq!(Protocol::Unknown.to_u8(), 18);
    assert_eq!(IcmpType::from_u8(0), IcmpType::EchoReply);
    assert_eq!(IcmpType::from_u8(8), IcmpType::EchoRequest);
    assert_eq!(IcmpType::from_u8(3), IcmpType::Unknown);
    assert_eq!(IcmpType::EchoReply.to_u8(), 0);
    assert_eq!(IcmpType::EchoRequest.to_u8(), 8);
    assert_eq!(IcmpType::Unknown.to_u8(), 9);
}

#[test]
fn addresses() {
    let a = Addr::from_octets([192, 0, 2, 1]);
    assert_eq!(a.value(), 0xc000_0201);
    assert_eq!(Addr::from_u32(0xc000_0201), a);
    assert_eq!(a.octets(), [192, 0, 2, 1]);
    let p = AddrPair::new(a, Addr(7));
    assert_eq!(p.src_addr, a);
    assert_eq!(p.dst_addr, Addr(7));
}

#[test]
fn icmp_roundtrip_and_size() {
    let m = icmp_echo_request(0x1234, 7, b"hello");
    let p = IcmpPacket::deserialize(&m).unwrap();
    assert_eq!(p.icmp_type, IcmpType::EchoRequest);
    assert_eq!(p.identifier, 0x1234);
    assert_eq!(p.sequence_number, 7);
    assert_eq!(p.payload, b"hello".to_vec());
    assert_eq!(p.size(), 13);
    let mut out = Vec::new();
    p.serialize(&mut out);
    assert_eq!(out, m);
}

#[test]
fn icmp_too_short() {
    assert_eq!(IcmpPacket::deserialize(&[8, 0, 0, 0, 0, 0, 0]).err(), Some(PacketError::IcmpTooShort));
}

#[test]
fn udp_roundtrip_filter_and_size() {
    let d = udp_datagram(5000, PORT, b"hi");
    let p = UdpPacket::deserialize(&d).unwrap();
    assert_eq!(p.source_port, 5000);
    assert_eq!(p.destination_port, PORT);
    assert_eq!(p.length, 10);
    assert_eq!(p.size(), 10);
    assert_eq!(p.filter(PORT), PacketFilter::Pass);
    assert_eq!(p.filter(PORT + 1), PacketFilter::Drop);
    let mut out = Vec::new();
    p.serialize(&mut out);
    assert_eq!(out, d);
    assert_eq!(UdpPacket::deserialize(&[0; 7]).err(), Some(PacketError::InvalidUdp));
}

#[test]
fn tcp_roundtrip_with_options() {
    let mut s = tcp_segment(40000, PORT, 100, 0, TcpFlags::SYN, &[]);
    s[12] = 0x60;
    s.extend_from_slice(&[2, 4, 5, 0xb4]);
    s.extend_from_slice(b"data");
    let p = TcpPacket::deserialize(&s).unwrap();
    assert_eq!(p.options, vec![2, 4, 5, 0xb4]);
    assert_eq!(p.payload, b"data".to_vec());
    assert_eq!(p.sequence_number, 100);
    assert_eq!(p.size(), 28);
    assert_eq!(p.filter(PORT), PacketFilter::Pass);
    assert_eq!(p.filter(1), PacketFilter::Drop);
    let mut out = Vec::new();
    p.serialize(&mut out);
    assert_eq!(out, s);
    assert_eq!(TcpPacket::deserialize(&[0; 19]).err(), Some(PacketError::InvalidTcp));
}

#[test]
fn tcp_update_checksum_verifies() {
    let s = tcp_segment(40000, PORT, 100, 0, TcpFlags::SYN, b"abc");
    let mut p = TcpPacket::deserialize(&s).unwrap();
    let pair = AddrPair::new(Addr::from_octets(REMOTE), Addr::from_octets(LOCAL));
    p.update_checksum(pair);
    let mut seg = Vec::new();
    p.serialize(&mut seg);
    let frame = ipv4(6, REMOTE, LOCAL, &seg);
    assert!(tcp_checks(&frame));
}

#[test]
fn frame_classification() {
    assert!(matches!(classify_frame(&[], PORT), FrameAction::Ignore));
    // header length pointing past the frame
    assert!(matches!(classify_frame(&[0x4f, 0, 0], PORT), FrameAction::Malformed));
    // header length below 20 bytes
    let short = ipv4(1, REMOTE, LOCAL, &icmp_echo_request(1, 1, &[]));
    let mut s2 = short.clone();
    s2[0] = 0x44;
    assert!(matches!(classify_frame(&s2, PORT), FrameAction::Reject(PacketError::PacketDropSilent)));
    let mut v6 = short.clone();
    v6[0] = 0x65;
    assert!(matches!(classify_frame(&v6, PORT), FrameAction::Reject(PacketError::PacketDropSilent)));
    let bad_icmp = ipv4(1, REMOTE, LOCAL, &[8, 0, 0]);
    assert!(matches!(classify_frame(&bad_icmp, PORT), FrameAction::Reject(PacketError::IcmpTooShort)));
    let bad_udp = ipv4(17, REMOTE, LOCAL, &[0; 4]);
    assert!(matches!(classify_frame(&bad_udp, PORT), FrameAction::Reject(PacketError::InvalidUdp)));
    let bad_tcp = ipv4(6, REMOTE, LOCAL, &[0; 10]);
    assert!(matches!(classify_frame(&bad_tcp, PORT), FrameAction::Reject(PacketError::InvalidTcp)));
    // data offset below 20 bytes
    let mut off = tcp_segment(1, PORT, 0, 0, 0, &[]);
    off[12] = 0x40;
    assert!(matches!(classify_frame(&ipv4(6, REMOTE, LOCAL, &off), PORT), FrameAction::Malformed));
    // data offset past the end
    off[12] = 0xf0;
    assert!(matches!(classify_frame(&ipv4(6, REMOTE, LOCAL, &off), PORT), FrameAction::Malformed));
    assert!(!IpPacket::is_well_framed(&ipv4(6, REMOTE, LOCAL, &off)));
    assert!(IpPacket::is_well_framed(&short));
    // not for this port, or an unknown protocol
    let other = ipv4(17, REMOTE, LOCAL, &udp_datagram(1, PORT + 1, &[]));
    assert!(matches!(classify_frame(&other, PORT), FrameAction::Ignore));
    let unknown = ipv4(50, REMOTE, LOCAL, &[1, 2, 3]);
    assert!(matches!(classify_frame(&unknown, PORT), FrameAction::Ignore));
    let p = IpPacket::deserialize(&unknown).unwrap();
    assert!(matches!(p.payload, IpPayload::Undefined(ref d) if d == &vec![1, 2, 3]));
    assert_eq!(p.payload.filter(PORT), PacketFilter::Drop);
    assert_eq!(p.payload.size(), 3);
}

#[test]
fn packet_roundtrip() {
    let frame = ipv4(1, REMOTE, LOCAL, &icmp_echo_request(3, 4, b"ping"));
    let p = IpPacket::deserialize(&frame).unwrap();
    let mut out = Vec::new();
    p.serialize(&mut out);
    assert_eq!(out, frame);
}

#[test]
fn icmp_echo_scenario() {
    let request = icmp_echo_request(0xbeef, 1, b"abcdefg");
    let frame = ipv4(1, REMOTE, LOCAL, &request);
    let packet = deliver(&frame);
    let mut pool = ConnectionPool::new();
    let frames = respond(&packet, &mut pool).unwrap();
    assert_eq!(frames.len(), 1);
    let r = &frames[0];
    assert_eq!(r.len(), 20 + request.len());
    assert_eq!(be16(&r[2..4]) as usize, r.len());
    assert_eq!(&r[12..16], &LOCAL);
    assert_eq!(&r[16..20], &REMOTE);
    assert!(header_checks(r));
    let icmp = &r[20..];
    assert_eq!(icmp[0], 0);
    assert_eq!(icmp[1], 0);
    assert_eq!(&icmp[4..], &request[4..]);
    assert_eq!(Checksum::new().vec(icmp).export(), 0);
}

#[test]
fn icmp_handle_packet_directly() {
    let req = IcmpPacket::deserialize(&icmp_echo_request(9, 9, b"zz")).unwrap();
    let mut pool = ConnectionPool::new();
    let pair = AddrPair::new(Addr::from_octets(REMOTE), Addr::from_octets(LOCAL));
    match req.handle_packet(pair, &mut pool) {
        HandleStatus::Send(v) => {
            assert_eq!(v.len(), 1);
            match &v[0] {
                IpPayload::Icmp(r) => {
                    assert_eq!(r.icmp_type, IcmpType::EchoReply);
                    assert_eq!(r.identifier, 9);
                    assert_eq!(r.payload, b"zz".to_vec());
                }
                _ => panic!("not icmp"),
            }
        }
        HandleStatus::Stop => panic!("no reply"),
    }
    let reply = IcmpPacket::deserialize(&[0, 0, 0, 0, 0, 9, 0, 9]).unwrap();
    assert!(matches!(reply.handle_packet(pair, &mut pool), HandleStatus::Stop));
}

#[test]
fn udp_gets_no_answer() {
    let frame = ipv4(17, REMOTE, LOCAL, &udp_datagram(5000, PORT, b"hello\n"));
    let packet = deliver(&frame);
    let mut pool = ConnectionPool::new();
    assert_eq!(respond(&packet, &mut pool).unwrap().len(), 0);
}

#[test]
fn tcp_connection_lifecycle() {
    let mut pool = ConnectionPool::new();
    let remote = SockAddr::new(Addr::from_octets(REMOTE), 40000);

    // SYN -> SYN+ACK
    let syn = deliver(&ipv4(6, REMOTE, LOCAL, &tcp_segment(40000, PORT, 1000, 0, TcpFlags::SYN, &[])));
    let frames = respond(&syn, &mut pool).unwrap();
    assert_eq!(frames.len(), 1);
    let r = &frames[0];
    assert!(header_checks(r));
    assert!(tcp_checks(r));
    let seg = &r[20..];
    assert_eq!(be16(&seg[0..2]), PORT);
    assert_eq!(be16(&seg[2..4]), 40000);
    assert_eq!(be32(&seg[4..8]), 1);
    assert_eq!(be32(&seg[8..12]), 1001);
    assert_eq!(seg[12], 0x50);
    assert_eq!(seg[13], 0x12);
    assert_eq!(be16(&seg[14..16]), 64240);
    assert_eq!(seg.len(), 20);
    assert_eq!(pool.peek(remote).state, TcpState::SynReceived);

    // ACK -> established, no answer
    let ack = deliver(&ipv4(6, REMOTE, LOCAL, &tcp_segment(40000, PORT, 1001, 2, TcpFlags::ACK, &[])));
    assert_eq!(respond(&ack, &mut pool).unwrap().len(), 0);
    assert_eq!(pool.peek(remote).state, TcpState::Established);

    // data -> acknowledged up to its end
    let data = deliver(&ipv4(6, REMOTE, LOCAL, &tcp_segment(40000, PORT, 1001, 2, TcpFlags::ACK | TcpFlags::PSH, b"hello\n")));
    let frames = respond(&data, &mut pool).unwrap();
    let seg = &frames[0][20..];
    assert!(tcp_checks(&frames[0]));
    assert_eq!(be32(&seg[4..8]), 2);
    assert_eq!(be32(&seg[8..12]), 1007);
    assert_eq!(seg[13], TcpFlags::ACK);
    assert_eq!(pool.peek(remote).state, TcpState::Established);

    // FIN+ACK -> ACK and closed
    let fin = deliver(&ipv4(6, REMOTE, LOCAL, &tcp_segment(40000, PORT, 1007, 2, TcpFlags::FIN | TcpFlags::ACK, &[])));
    let frames = respond(&fin, &mut pool).unwrap();
    let seg = &frames[0][20..];
    assert_eq!(be32(&seg[4..8]), 2);
    assert_eq!(be32(&seg[8..12]), 1008);
    assert_eq!(seg[13], TcpFlags::ACK);
    assert_eq!(pool.peek(remote).state, TcpState::Closed);

    // closed: everything is ignored, even a new SYN
    let syn2 = deliver(&ipv4(6, REMOTE, LOCAL, &tcp_segment(40000, PORT, 5, 0, TcpFlags::SYN, &[])));
    assert_eq!(respond(&syn2, &mut pool).unwrap().len(), 0);
    assert_eq!(pool.peek(remote).state, TcpState::Closed);
}

#[test]
fn tcp_fin_without_ack_waits_for_last_ack() {
    let mut pool = ConnectionPool::new();
    let remote = SockAddr::new(Addr::from_octets(REMOTE), 1234);
    let mut con = pool.get(remote);
    assert_eq!(con.state, TcpState::Listen);
    con.state = TcpState::Established;
    pool.update(remote, con);
    let fin = deliver(&ipv4(6, REMOTE, LOCAL, &tcp_segment(1234, PORT, 50, 9, TcpFlags::FIN, &[])));
    let frames = respond(&fin, &mut pool).unwrap();
    assert_eq!(be32(&frames[0][28..32]), 51);
    assert_eq!(pool.peek(remote).state, TcpState::LastAck);
    let not_ack = deliver(&ipv4(6, REMOTE, LOCAL, &tcp_segment(1234, PORT, 51, 9, TcpFlags::PSH, &[])));
    assert_eq!(respond(&not_ack, &mut pool).unwrap().len(), 0);
    assert_eq!(pool.peek(remote).state, TcpState::LastAck);
    let last = deliver(&ipv4(6, REMOTE, LOCAL, &tcp_segment(1234, PORT, 51, 9, TcpFlags::ACK, &[])));
    assert_eq!(respond(&last, &mut pool).unwrap().len(), 0);
    assert_eq!(pool.peek(remote).state, TcpState::Closed);
}

#[test]
fn tcp_listen_ignores_non_syn_and_syn_received_waits_for_ack() {
    let mut pool = ConnectionPool::new();
    let remote = SockAddr::new(Addr::from_octets(REMOTE), 7);
    let plain = deliver(&ipv4(6, REMOTE, LOCAL, &tcp_segment(7, PORT, 1, 0, TcpFlags::ACK, &[])));
    assert_eq!(respond(&plain, &mut pool).unwrap().len(), 0);
    assert_eq!(pool.peek(remote).state, TcpState::Listen);
    let syn = deliver(&ipv4(6, REMOTE, LOCAL, &tcp_segment(7, PORT, 1, 0, TcpFlags::SYN, &[])));
    respond(&syn, &mut pool).unwrap();
    let again = deliver(&ipv4(6, REMOTE, LOCAL, &tcp_segment(7, PORT, 1, 0, TcpFlags::SYN, &[])));
    assert_eq!(respond(&again, &mut pool).unwrap().len(), 0);
    assert_eq!(pool.peek(remote).state, TcpState::SynReceived);
}

#[test]
fn tcp_connections_are_kept_per_endpoint() {
    let mut pool = ConnectionPool::new();
    let a = SockAddr::new(Addr::from_octets(REMOTE), 1);
    let b = SockAddr::new(Addr::from_octets(REMOTE), 2);
    let syn = deliver(&ipv4(6, REMOTE, LOCAL, &tcp_segment(1, PORT, 1, 0, TcpFlags::SYN, &[])));
    respond(&syn, &mut pool).unwrap();
    assert_eq!(pool.peek(a).state, TcpState::SynReceived);
    assert_eq!(pool.peek(b).state, TcpState::Listen);
    assert_eq!(pool.get(b), Connection::new_server());
    assert_ne!(a.pool_key(), b.pool_key());
}

#[test]
fn tcp_sequence_overflow_is_refused() {
    let mut pool = ConnectionPool::new();
    let syn = deliver(&ipv4(6, REMOTE, LOCAL, &tcp_segment(9, PORT, u32::MAX, 0, TcpFlags::SYN, &[])));
    assert!(!syn.payload.can_handle(&pool, syn.header.create_addr_pair()));
    assert!(respond(&syn, &mut pool).is_none());
    let remote = SockAddr::new(Addr::from_octets(REMOTE), 9);
    assert_eq!(pool.peek(remote).state, TcpState::Listen);
}

#[test]
fn prepare_send_fills_length_and_checksum() {
    let frame = ipv4(17, REMOTE, LOCAL, &udp_datagram(1, PORT, b"abc"));
    let mut p = IpPacket::deserialize(&frame).unwrap();
    p.header.total_length = 0;
    p.header.header_checksum = 0;
    p.prepare_send();
    assert_eq!(p.header.total_length, 31);
    let mut out = Vec::new();
    p.serialize(&mut out);
    assert!(header_checks(&out));
}

#[test]
fn errors_and_builder() {
    assert!(PacketError::PacketDropSilent.is_silent());
    assert!(!PacketError::InvalidTcp.is_silent());
    let b = TunDeviceBuilder::new().address((192, 0, 2, 2)).netmask((255, 255, 255, 0));
    assert_eq!(b.address, Some((192, 0, 2, 2)));
    assert_eq!(b.netmask, Some((255, 255, 255, 0)));
    assert_eq!(TunDeviceBuilder::new().address, None);
}

#[test]
fn from_conversions() {
    assert_eq!(Addr::from(0x0a00_0001u32), Addr(0x0a00_0001));
    assert_eq!(Addr::from([10, 0, 0, 1]), Addr(0x0a00_0001));
    let f = FlagsFragmentOffset::from(0x4000u16);
    assert_eq!(u16::from(f), 0x4000);
}

#[test]
fn checksum_export_added_back_verifies() {
    let data = [0x12u8, 0x34, 0xab, 0xcd, 0xff];
    let c = Checksum::new().vec(&data).export();
    assert_eq!(Checksum::new().vec(&data).u16(c).export(), 0);
}

#[test]
fn tcp_checksum_same_for_either_address_order() {
    let s = tcp_segment(40000, PORT, 100, 0, TcpFlags::SYN, b"abc");
    let mut p1 = TcpPacket::deserialize(&s).unwrap();
    let mut p2 = TcpPacket::deserialize(&s).unwrap();
    let a = Addr::from_octets(REMOTE);
    let b = Addr::from_octets(LOCAL);
    p1.update_checksum(AddrPair::new(a, b));
    p2.update_checksum(AddrPair::new(b, a));
    assert_eq!(p1.checksum, p2.checksum);
}
