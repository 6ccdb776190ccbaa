//! The network decoder: IPv4 headers with their variable-length options.

use vstd::prelude::*;
use crate::bytes::copy_range;
use crate::bytes::high_nibble;
use crate::bytes::low_nibble;
use crate::bytes::read_be16;
use crate::bytes::read_be32;
use crate::bytes::word16_at;
use crate::bytes::word32_at;
use crate::error::decoded_as;
use crate::error::DecodeError;
use crate::ethernet::EthernetFrame;
use crate::ethernet::EthernetFrameView;
use crate::ethernet::ETHERTYPE_IPV4;

verus! {

/// Length of an IPv4 header without options.
pub const IPV4_MIN_HEADER_LEN: usize = 20;

/// The fixed fields of an IPv4 header.
#[derive(Clone, Copy, Debug, PartialEq, Eq, Structural)]
pub struct Ipv4Header {
    pub version: u8,
    /// Header length in 32-bit words, as the header states it.
    pub header_length: u8,
    pub dscp: u8,
    pub ecn: u8,
    pub total_length: u16,
    pub identification: u16,
    pub flags: u8,
    pub fragment_offset: u16,
    pub ttl: u8,
    pub protocol: u8,
    pub checksum: u16,
    pub source: u32,
    pub destination: u32,
}

/// A decoded IPv4 packet. Options are kept as raw bytes.
#[derive(Clone, Debug, PartialEq, Eq)]
pub struct Ipv4Packet {
    pub header: Ipv4Header,
    pub options: Vec<u8>,
    pub payload: Vec<u8>,
}

/// What an [`Ipv4Packet`] stands for.
pub struct Ipv4PacketView {
    pub header: Ipv4Header,
    pub options: Seq<u8>,
    pub payload: Seq<u8>,
}

impl View for Ipv4Packet {
    type V = Ipv4PacketView;

    open spec fn view(&self) -> Ipv4PacketView {
        Ipv4PacketView { header: self.header, options: self.options@, payload: self.payload@ }
    }
}

/// The header in the first 20 bytes of `b`. Multi-byte fields are big-endian;
/// the first byte holds version and header length, the second DSCP and ECN,
/// the seventh and eighth three flag bits and a 13-bit fragment offset.
pub open spec fn ipv4_header_of(b: Seq<u8>) -> Ipv4Header
    recommends
        b.len() >= 20,
{
    Ipv4Header {
        version: high_nibble(b[0]),
        header_length: low_nibble(b[0]),
        dscp: b[1] / 4,
        ecn: b[1] % 4,
        total_length: word16_at(b, 2),
        identification: word16_at(b, 4),
        flags: b[6] / 32,
        fragment_offset: ((b[6] % 32) as int * 0x100 + b[7] as int) as u16,
        ttl: b[8],
        protocol: b[9],
        checksum: word16_at(b, 10),
        source: word32_at(b, 12),
        destination: word32_at(b, 16),
    }
}

/// The header length in bytes that the header itself states.
pub open spec fn ipv4_stated_header_len(b: Seq<u8>) -> int
    recommends
        b.len() >= 1,
{
    low_nibble(b[0]) as int * 4
}

/// Offset of the payload: the stated header length, but never less than the
/// 20 bytes of the fixed fields.
pub open spec fn ipv4_payload_start(b: Seq<u8>) -> int
    recommends
        b.len() >= 1,
{
    if ipv4_stated_header_len(b) > 20 {
        ipv4_stated_header_len(b)
    } else {
        20
    }
}

/// Number of payload bytes that the header announces: the total length less
/// the stated header length, or nothing where the total length is smaller.
pub open spec fn ipv4_announced_payload_len(b: Seq<u8>) -> int
    recommends
        b.len() >= 4,
{
    let total = word16_at(b, 2) as int;
    if total > ipv4_stated_header_len(b) {
        total - ipv4_stated_header_len(b)
    } else {
        0
    }
}

/// Offset just past the payload: where the announced payload ends, or the end
/// of `b` if that comes first.
pub open spec fn ipv4_payload_end(b: Seq<u8>) -> int
    recommends
        b.len() >= 20,
{
    let announced_end = ipv4_payload_start(b) + ipv4_announced_payload_len(b);
    if announced_end < b.len() {
        announced_end
    } else {
        b.len() as int
    }
}

/// The IPv4 reading of `b`.
///
/// The bytes between the fixed fields and the payload offset are the options.
/// The reading fails where `b` cannot hold the fixed fields, or where the
/// payload offset lies beyond the end of `b`. No checksum is looked at.
pub open spec fn parse_ipv4(b: Seq<u8>) -> Result<Ipv4PacketView, DecodeError> {
    if b.len() < 20 {
        Err(DecodeError::HeaderTooShort)
    } else if ipv4_payload_start(b) > b.len() {
        Err(DecodeError::HeaderTooShort)
    } else {
        Ok(
            Ipv4PacketView {
                header: ipv4_header_of(b),
                options: b.subrange(20, ipv4_payload_start(b)),
                payload: b.subrange(ipv4_payload_start(b), ipv4_payload_end(b)),
            },
        )
    }
}

/// The network-layer reading of a frame: IPv4, and nothing else.
pub open spec fn parse_network(frame: EthernetFrameView) -> Result<Ipv4PacketView, DecodeError> {
    if frame.header.ethertype != 0x0800 {
        Err(DecodeError::UnsupportedLinkProtocol)
    } else {
        parse_ipv4(frame.payload)
    }
}

/// Options and payload of a decoded packet lie within the buffer, in this
/// order, directly after the fixed fields.
pub proof fn ipv4_parts_lie_within(b: Seq<u8>)
    requires
        parse_ipv4(b) is Ok,
    ensures
        20 <= ipv4_payload_start(b) <= ipv4_payload_end(b) <= b.len(),
        ipv4_payload_start(b) <= 60,
        parse_ipv4(b)->Ok_0.options.len() == ipv4_payload_start(b) - 20,
        parse_ipv4(b)->Ok_0.payload.len() == ipv4_payload_end(b) - ipv4_payload_start(b),
        parse_ipv4(b)->Ok_0.payload.len() <= ipv4_announced_payload_len(b),
{
}

fn read_header(b: &[u8]) -> (header: Ipv4Header)
    requires
        b@.len() >= 20,
    ensures
        header == ipv4_header_of(b@),
{
    let high: u16 = (b[6] % 32) as u16;
    let low: u16 = b[7] as u16;
    Ipv4Header {
        version: b[0] / 16,
        header_length: b[0] % 16,
        dscp: b[1] / 4,
        ecn: b[1] % 4,
        total_length: read_be16(b, 2),
        identification: read_be16(b, 4),
        flags: b[6] / 32,
        fragment_offset: high * 0x100 + low,
        ttl: b[8],
        protocol: b[9],
        checksum: read_be16(b, 10),
        source: read_be32(b, 12),
        destination: read_be32(b, 16),
    }
}

impl Ipv4Packet {
    /// Decodes an IPv4 packet from the bytes that follow the link-layer
    /// header.
    ///
    /// Fails with `HeaderTooShort` exactly when fewer than 20 bytes are given
    /// or the payload offset exceeds their number.
    pub fn decode(b: &[u8]) -> (res: Result<Ipv4Packet, DecodeError>)
        ensures
            decoded_as(res, parse_ipv4(b@)),
            b@.len() < 20 ==> res == Err::<Ipv4Packet, DecodeError>(DecodeError::HeaderTooShort),
            res is Err <==> b@.len() < 20 || ipv4_payload_start(b@) > b@.len(),
            res matches Err(e) ==> e == DecodeError::HeaderTooShort,
    {
        if b.len() < IPV4_MIN_HEADER_LEN {
            return Err(DecodeError::HeaderTooShort);
        }
        let header = read_header(b);
        let stated: usize = (header.header_length as usize) * 4;
        let start: usize = if stated > IPV4_MIN_HEADER_LEN {
            stated
        } else {
            IPV4_MIN_HEADER_LEN
        };
        if start > b.len() {
            return Err(DecodeError::HeaderTooShort);
        }
        let total: usize = header.total_length as usize;
        let announced: usize = if total > stated {
            total - stated
        } else {
            0
        };
        let end: usize = if announced < b.len() - start {
            start + announced
        } else {
            b.len()
        };
        let options = copy_range(b, IPV4_MIN_HEADER_LEN, start);
        let payload = copy_range(b, start, end);
        Ok(Ipv4Packet { header, options, payload })
    }

    /// Decodes the network layer of a frame.
    ///
    /// Fails with `UnsupportedLinkProtocol` exactly when the ethertype is not
    /// IPv4, and otherwise as [`Ipv4Packet::decode`] does on the payload.
    pub fn from_ethernet(frame: &EthernetFrame) -> (res: Result<Ipv4Packet, DecodeError>)
        ensures
            decoded_as(res, parse_network(frame@)),
            frame@.header.ethertype != 0x0800 ==> res == Err::<Ipv4Packet, DecodeError>(
                DecodeError::UnsupportedLinkProtocol,
            ),
            frame@.header.ethertype == 0x0800 ==> decoded_as(res, parse_ipv4(frame@.payload)),
    {
        if frame.header.ethertype != ETHERTYPE_IPV4 {
            return Err(DecodeError::UnsupportedLinkProtocol);
        }
        Ipv4Packet::decode(frame.payload.as_slice())
    }
}

} // verus!
