//! A tiny IPv4 protocol stack: packet parsing and serialisation for IPv4,
//! ICMP, UDP and TCP, the Internet checksum, ICMP echo replies and a small
//! server-side TCP connection state machine.

pub mod device;
pub mod error;
pub mod ip;
pub mod util;
