use vstd::prelude::*;

use crate::error::PacketError;
use crate::ip::packet::{IpPacket, IpPacketView};
use crate::ip::payload::PacketFilter;
use crate::ip::Deserialize;

verus! {

/// The settings of the virtual network device that the stack runs on.
#[derive(Clone, Copy, Debug)]
pub struct TunDeviceBuilder {
    /// The device's own address.
    pub address: Option<(u8, u8, u8, u8)>,
    /// The device's network mask.
    pub netmask: Option<(u8, u8, u8, u8)>,
}

impl TunDeviceBuilder {
    /// Settings with neither address nor mask.
    pub fn new() -> (r: Self)
        ensures
            r.address is None,
            r.netmask is None,
    {
        Self { address: None, netmask: None }
    }

    /// Sets the device's address.
    pub fn address(self, addr: (u8, u8, u8, u8)) -> (r: Self)
        ensures
            r.address == Some(addr),
            r.netmask == self.netmask,
    {
        Self { address: Some(addr), ..self }
    }

    /// Sets the device's network mask.
    pub fn netmask(self, mask: (u8, u8, u8, u8)) -> (r: Self)
        ensures
            r.address == self.address,
            r.netmask == Some(mask),
    {
        Self { netmask: Some(mask), ..self }
    }
}

/// What the receiving side does with a frame read from the device.
pub enum FrameAction {
    /// Nothing: the frame is empty, or its packet is not for this stack.
    Ignore,
    /// The frame is not a packet; the error tells why.
    Reject(PacketError),
    /// Hand the packet to the stack.
    Deliver(IpPacket),
    /// The frame's lengths point outside it; reading it fails outright.
    Malformed,
}

/// Decides what to do with a frame read from the device by a stack serving
/// `port`.
pub fn classify_frame(buf: &[u8], port: u16) -> (r: FrameAction)
    ensures
        buf@.len() == 0 ==> r is Ignore,
        buf@.len() > 0 && !IpPacketView::parse_requires(buf@) ==> r is Malformed,
        buf@.len() > 0 && IpPacketView::parse_requires(buf@) ==> match IpPacketView::parse(buf@) {
            Err(e) => r == FrameAction::Reject(e),
            Ok(p) => if p.payload.filter(port) == PacketFilter::Pass {
                r matches FrameAction::Deliver(q) && q@ == p
            } else {
                r is Ignore
            },
        },
{
    if buf.len() == 0 {
        return FrameAction::Ignore;
    }
    if !IpPacket::is_well_framed(buf) {
        return FrameAction::Malformed;
    }
    match IpPacket::deserialize(buf) {
        Err(e) => FrameAction::Reject(e),
        Ok(packet) => {
            if packet.payload.filter(port) == PacketFilter::Pass {
                FrameAction::Deliver(packet)
            } else {
                FrameAction::Ignore
            }
        },
    }
}

} // verus!
