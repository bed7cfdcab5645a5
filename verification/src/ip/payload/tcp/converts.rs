use vstd::prelude::*;

use crate::ip::payload::IpPayload;

use super::TcpPacket;

verus! {

impl From<TcpPacket> for IpPayload {
    fn from(packet: TcpPacket) -> (r: IpPayload)
        ensures
            r == IpPayload::Tcp(packet),
    {
        IpPayload::Tcp(packet)
    }
}

impl vstd::std_specs::convert::FromSpecImpl<TcpPacket> for IpPayload {
    open spec fn obeys_from_spec() -> bool {
        true
    }

    open spec fn from_spec(packet: TcpPacket) -> IpPayload {
        IpPayload::Tcp(packet)
    }
}

} // verus!
