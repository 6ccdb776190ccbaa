//! The frame decoder: Ethernet II framing.

use vstd::prelude::*;
use crate::address::MacAddress;
use crate::bytes::copy_range;
use crate::bytes::read_be16;
use crate::bytes::word16_at;
use crate::error::decoded_as;
use crate::error::DecodeError;

verus! {

/// Length of an Ethernet II header: two addresses and the ethertype.
pub const ETHERNET_HEADER_LEN: usize = 14;

/// The ethertype of IPv4.
pub const ETHERTYPE_IPV4: u16 = 0x0800;

/// The fixed fields of an Ethernet II frame.
#[derive(Clone, Copy, Debug, PartialEq, Eq, Structural)]
pub struct EthernetHeader {
    pub destination: MacAddress,
    pub source: MacAddress,
    pub ethertype: u16,
}

/// A decoded frame: its header and a copy of the bytes that follow it.
#[derive(Clone, Debug, PartialEq, Eq)]
pub struct EthernetFrame {
    pub header: EthernetHeader,
    pub payload: Vec<u8>,
}

/// What an [`EthernetFrame`] stands for.
pub struct EthernetFrameView {
    pub header: EthernetHeader,
    pub payload: Seq<u8>,
}

impl View for EthernetFrame {
    type V = EthernetFrameView;

    open spec fn view(&self) -> EthernetFrameView {
        EthernetFrameView { header: self.header, payload: self.payload@ }
    }
}

/// The hardware address in the six bytes of `b` from offset `at`.
pub open spec fn mac_at(b: Seq<u8>, at: int) -> MacAddress
    recommends
        0 <= at,
        at + 6 <= b.len(),
{
    MacAddress(b[at], b[at + 1], b[at + 2], b[at + 3], b[at + 4], b[at + 5])
}

/// The header in the first 14 bytes of `b`: destination, source, and the
/// ethertype as a big-endian number in the 13th and 14th byte.
pub open spec fn ethernet_header_of(b: Seq<u8>) -> EthernetHeader
    recommends
        b.len() >= 14,
{
    EthernetHeader { destination: mac_at(b, 0), source: mac_at(b, 6), ethertype: word16_at(b, 12) }
}

/// The Ethernet II reading of `b`: a header and everything after it, provided
/// that `b` holds at least a header.
pub open spec fn parse_ethernet(b: Seq<u8>) -> Result<EthernetFrameView, DecodeError> {
    if b.len() < 14 {
        Err(DecodeError::FrameTooShort)
    } else {
        Ok(EthernetFrameView { header: ethernet_header_of(b), payload: b.subrange(14, b.len() as int) })
    }
}

fn read_mac(b: &[u8], at: usize) -> (mac: MacAddress)
    requires
        at + 6 <= b@.len(),
    ensures
        mac == mac_at(b@, at as int),
{
    MacAddress(b[at], b[at + 1], b[at + 2], b[at + 3], b[at + 4], b[at + 5])
}

impl EthernetFrame {
    /// Decodes one raw link-layer frame.
    ///
    /// Fails with `FrameTooShort` exactly when fewer than 14 bytes are given.
    pub fn decode(frame: &[u8]) -> (res: Result<EthernetFrame, DecodeError>)
        ensures
            decoded_as(res, parse_ethernet(frame@)),
            res is Err <==> frame@.len() < 14,
            res matches Err(e) ==> e == DecodeError::FrameTooShort,
    {
        if frame.len() < ETHERNET_HEADER_LEN {
            return Err(DecodeError::FrameTooShort);
        }
        let header = EthernetHeader {
            destination: read_mac(frame, 0),
            source: read_mac(frame, 6),
            ethertype: read_be16(frame, 12),
        };
        let payload = copy_range(frame, ETHERNET_HEADER_LEN, frame.len());
        Ok(EthernetFrame { header, payload })
    }
}

} // verus!
