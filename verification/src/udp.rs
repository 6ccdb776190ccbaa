//! The UDP half of the transport decoder.

use vstd::prelude::*;
use crate::bytes::copy_range;
use crate::bytes::read_be16;
use crate::bytes::word16_at;
use crate::error::decoded_as;
use crate::error::DecodeError;

verus! {

/// Length of the UDP header.
pub const UDP_HEADER_LEN: usize = 8;

/// The four fields of a UDP header.
#[derive(Clone, Copy, Debug, PartialEq, Eq, Structural)]
pub struct UdpHeader {
    pub source: u16,
    pub destination: u16,
    pub length: u16,
    pub checksum: u16,
}

/// A decoded UDP datagram.
#[derive(Clone, Debug, PartialEq, Eq)]
pub struct UdpDatagram {
    pub header: UdpHeader,
    pub payload: Vec<u8>,
}

/// What a [`UdpDatagram`] stands for.
pub struct UdpDatagramView {
    pub header: UdpHeader,
    pub payload: Seq<u8>,
}

impl View for UdpDatagram {
    type V = UdpDatagramView;

    open spec fn view(&self) -> UdpDatagramView {
        UdpDatagramView { header: self.header, payload: self.payload@ }
    }
}

/// The header in the first eight bytes of `b`, all fields big-endian.
pub open spec fn udp_header_of(b: Seq<u8>) -> UdpHeader
    recommends
        b.len() >= 8,
{
    UdpHeader {
        source: word16_at(b, 0),
        destination: word16_at(b, 2),
        length: word16_at(b, 4),
        checksum: word16_at(b, 6),
    }
}

/// The UDP reading of `b`: the header and everything after its eighth byte.
/// It fails only where `b` cannot hold the header. No checksum is looked at.
pub open spec fn parse_udp(b: Seq<u8>) -> Result<UdpDatagramView, DecodeError> {
    if b.len() < 8 {
        Err(DecodeError::HeaderTooShort)
    } else {
        Ok(UdpDatagramView { header: udp_header_of(b), payload: b.subrange(8, b.len() as int) })
    }
}

impl UdpDatagram {
    /// Decodes a UDP datagram from the payload of a network-layer packet.
    ///
    /// Fails with `HeaderTooShort` exactly when fewer than eight bytes are
    /// given.
    pub fn decode(b: &[u8]) -> (res: Result<UdpDatagram, DecodeError>)
        ensures
            decoded_as(res, parse_udp(b@)),
            res is Err <==> b@.len() < 8,
            res matches Err(e) ==> e == DecodeError::HeaderTooShort,
    {
        if b.len() < UDP_HEADER_LEN {
            return Err(DecodeError::HeaderTooShort);
        }
        let header = UdpHeader {
            source: read_be16(b, 0),
            destination: read_be16(b, 2),
            length: read_be16(b, 4),
            checksum: read_be16(b, 6),
        };
        let payload = copy_range(b, UDP_HEADER_LEN, b.len());
        Ok(UdpDatagram { header, payload })
    }
}

} // verus!
