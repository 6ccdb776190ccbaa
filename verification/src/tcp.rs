//! The TCP half of the transport decoder.

use vstd::prelude::*;
use crate::bytes::copy_range;
use crate::bytes::high_nibble;
use crate::bytes::low_nibble;
use crate::bytes::read_be16;
use crate::bytes::read_be32;
use crate::bytes::word16_at;
use crate::bytes::word32_at;
use crate::error::decoded_as;
use crate::error::DecodeError;

verus! {

/// Length of a TCP header without options.
pub const TCP_MIN_HEADER_LEN: usize = 20;

/// The fixed fields of a TCP header.
#[derive(Clone, Copy, Debug, PartialEq, Eq, Structural)]
pub struct TcpHeader {
    pub source: u16,
    pub destination: u16,
    pub sequence: u32,
    pub acknowledgement: u32,
    /// Header length in 32-bit words, as the header states it.
    pub data_offset: u8,
    pub reserved: u8,
    pub flags: u8,
    pub window: u16,
    pub checksum: u16,
    pub urgent_ptr: u16,
}

/// A decoded TCP segment. Options are kept as raw bytes.
#[derive(Clone, Debug, PartialEq, Eq)]
pub struct TcpSegment {
    pub header: TcpHeader,
    pub options: Vec<u8>,
    pub payload: Vec<u8>,
}

/// What a [`TcpSegment`] stands for.
pub struct TcpSegmentView {
    pub header: TcpHeader,
    pub options: Seq<u8>,
    pub payload: Seq<u8>,
}

impl View for TcpSegment {
    type V = TcpSegmentView;

    open spec fn view(&self) -> TcpSegmentView {
        TcpSegmentView { header: self.header, options: self.options@, payload: self.payload@ }
    }
}

/// The header in the first 20 bytes of `b`, all fields big-endian. The upper
/// half of the 13th byte is the data offset, the following byte the flags.
pub open spec fn tcp_header_of(b: Seq<u8>) -> TcpHeader
    recommends
        b.len() >= 20,
{
    TcpHeader {
        source: word16_at(b, 0),
        destination: word16_at(b, 2),
        sequence: word32_at(b, 4),
        acknowledgement: word32_at(b, 8),
        data_offset: high_nibble(b[12]),
        reserved: low_nibble(b[12]),
        flags: b[13],
        window: word16_at(b, 14),
        checksum: word16_at(b, 16),
        urgent_ptr: word16_at(b, 18),
    }
}

/// The header length in bytes: four times the data offset where that is more
/// than five words, and the 20 bytes of the fixed fields otherwise.
pub open spec fn tcp_header_len(b: Seq<u8>) -> int
    recommends
        b.len() >= 13,
{
    if high_nibble(b[12]) > 5 {
        high_nibble(b[12]) as int * 4
    } else {
        20
    }
}

/// Offset at which the options end and the payload begins: the header length,
/// or the end of `b` where the segment is cut off inside its options.
pub open spec fn tcp_payload_start(b: Seq<u8>) -> int
    recommends
        b.len() >= 20,
{
    if tcp_header_len(b) < b.len() {
        tcp_header_len(b)
    } else {
        b.len() as int
    }
}

/// The TCP reading of `b`: fixed fields, then options up to the header
/// length, then the payload. It fails only where `b` cannot hold the fixed
/// fields. No checksum is looked at.
pub open spec fn parse_tcp(b: Seq<u8>) -> Result<TcpSegmentView, DecodeError> {
    if b.len() < 20 {
        Err(DecodeError::HeaderTooShort)
    } else {
        Ok(
            TcpSegmentView {
                header: tcp_header_of(b),
                options: b.subrange(20, tcp_payload_start(b)),
                payload: b.subrange(tcp_payload_start(b), b.len() as int),
            },
        )
    }
}

/// A TCP header takes 20 to 60 bytes, and header, options and payload of a
/// decoded segment make up the whole buffer.
pub proof fn tcp_parts_cover_buffer(b: Seq<u8>)
    requires
        parse_tcp(b) is Ok,
    ensures
        20 <= tcp_header_len(b) <= 60,
        20 <= tcp_payload_start(b) <= b.len(),
        b.subrange(0, 20) + parse_tcp(b)->Ok_0.options + parse_tcp(b)->Ok_0.payload == b,
{
    let seg = parse_tcp(b)->Ok_0;
    assert(b.subrange(0, 20) + seg.options + seg.payload =~= b);
}

fn read_header(b: &[u8]) -> (header: TcpHeader)
    requires
        b@.len() >= 20,
    ensures
        header == tcp_header_of(b@),
{
    TcpHeader {
        source: read_be16(b, 0),
        destination: read_be16(b, 2),
        sequence: read_be32(b, 4),
        acknowledgement: read_be32(b, 8),
        data_offset: b[12] / 16,
        reserved: b[12] % 16,
        flags: b[13],
        window: read_be16(b, 14),
        checksum: read_be16(b, 16),
        urgent_ptr: read_be16(b, 18),
    }
}

impl TcpSegment {
    /// Decodes a TCP segment from the payload of a network-layer packet.
    ///
    /// Fails with `HeaderTooShort` exactly when fewer than 20 bytes are given.
    pub fn decode(b: &[u8]) -> (res: Result<TcpSegment, DecodeError>)
        ensures
            decoded_as(res, parse_tcp(b@)),
            res is Err <==> b@.len() < 20,
            res matches Err(e) ==> e == DecodeError::HeaderTooShort,
    {
        if b.len() < TCP_MIN_HEADER_LEN {
            return Err(DecodeError::HeaderTooShort);
        }
        let header = read_header(b);
        let header_len: usize = if header.data_offset > 5 {
            (header.data_offset as usize) * 4
        } else {
            TCP_MIN_HEADER_LEN
        };
        let start: usize = if header_len < b.len() {
            header_len
        } else {
            b.len()
        };
        let options = copy_range(b, TCP_MIN_HEADER_LEN, start);
        let payload = copy_range(b, start, b.len());
        Ok(TcpSegment { header, options, payload })
    }
}

} // verus!
