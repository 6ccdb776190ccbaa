//! What a capture source hands over, and the decoding of one captured frame
//! through all three layers.

use vstd::prelude::*;
use crate::address::IpAddress;
use crate::error::decoded_as;
use crate::error::DecodeError;
use crate::ethernet::parse_ethernet;
use crate::ethernet::EthernetFrame;
use crate::ipv4::parse_network;
use crate::ipv4::Ipv4Packet;
use crate::packet::packet_data::parse_transport;
use crate::packet::packet_data::ReplayPacketData;
use crate::packet::packet_data::TransportPayload;
use crate::packet::packet_host::Endpoint;
use crate::packet::packet_host::ReplayPacketHost;
use crate::time::nanos_of;

verus! {

/// One frame as the capture source recorded it: the raw bytes and the time of
/// capture in whole seconds and microseconds.
#[derive(Clone, Debug, PartialEq, Eq)]
pub struct CapturedFrame {
    pub ts_sec: u64,
    pub ts_usec: u64,
    pub data: Vec<u8>,
}

impl CapturedFrame {
    /// A frame of `data` captured at `ts_sec` seconds and `ts_usec`
    /// microseconds.
    pub fn new(ts_sec: u64, ts_usec: u64, data: Vec<u8>) -> (frame: CapturedFrame)
        ensures
            frame == (CapturedFrame { ts_sec, ts_usec, data }),
    {
        CapturedFrame { ts_sec, ts_usec, data }
    }

    /// The time of capture in nanoseconds.
    pub open spec fn time(self) -> nat {
        nanos_of(self.ts_sec, self.ts_usec)
    }
}

/// What a capture source reports, one event after the other. The end of the
/// events is the end of the capture.
#[derive(Clone, Debug, PartialEq, Eq)]
pub enum CaptureEvent {
    /// The next frame of the capture.
    Frame(CapturedFrame),
    /// The source could not be opened, or failed while it was read.
    ReadError,
}

/// A frame that was left out of the replay sequence: its position among the
/// events of the capture, and why it could not be decoded.
#[derive(Clone, Copy, Debug, PartialEq, Eq, Structural)]
pub struct SkippedFrame {
    pub index: usize,
    pub error: DecodeError,
}

/// A frame decoded through all layers: both endpoints and the transport data.
#[derive(Clone, Debug, PartialEq, Eq)]
pub struct DecodedFrame {
    pub source: ReplayPacketHost,
    pub destination: ReplayPacketHost,
    pub packet: ReplayPacketData,
}

/// What a [`DecodedFrame`] stands for.
pub struct DecodedFrameView {
    pub source: Endpoint,
    pub destination: Endpoint,
    pub packet: TransportPayload,
}

impl View for DecodedFrame {
    type V = DecodedFrameView;

    open spec fn view(&self) -> DecodedFrameView {
        DecodedFrameView {
            source: self.source@,
            destination: self.destination@,
            packet: self.packet@,
        }
    }
}

/// The reading of a raw frame: Ethernet II, then IPv4, then TCP or UDP. The
/// first layer that fails decides the error. The endpoints pair the IPv4
/// addresses with the ports of the transport header.
#[verifier::opaque]
pub open spec fn parse_frame(b: Seq<u8>) -> Result<DecodedFrameView, DecodeError> {
    match parse_ethernet(b) {
        Err(e) => Err(e),
        Ok(frame) => match parse_network(frame) {
            Err(e) => Err(e),
            Ok(ip) => match parse_transport(ip.header.protocol, ip.payload) {
                Err(e) => Err(e),
                Ok(transport) => Ok(
                    DecodedFrameView {
                        source: Endpoint {
                            addr: IpAddress::V4(ip.header.source),
                            port: transport.source_port(),
                        },
                        destination: Endpoint {
                            addr: IpAddress::V4(ip.header.destination),
                            port: transport.destination_port(),
                        },
                        packet: transport,
                    },
                ),
            },
        },
    }
}

/// A frame of fewer than 14 bytes has no reading, for want of a link-layer
/// header; one of fewer than 34 bytes has none either, since an IPv4 header
/// cannot follow the link-layer header.
pub proof fn short_frames_have_no_reading(b: Seq<u8>)
    ensures
        b.len() < 14 ==> parse_frame(b) == Err::<DecodedFrameView, DecodeError>(
            DecodeError::FrameTooShort,
        ),
        14 <= b.len() < 34 ==> parse_frame(b) is Err,
        14 <= b.len() < 34 && parse_ethernet(b)->Ok_0.header.ethertype == 0x0800 ==> parse_frame(b)
            == Err::<DecodedFrameView, DecodeError>(DecodeError::HeaderTooShort),
{
    reveal(parse_frame);
}

/// Decodes one raw frame through the link, network and transport layer.
///
/// The result is an error exactly when one of the layers has no reading of
/// its bytes, and then the error of the first such layer.
pub fn decode_frame(data: &[u8]) -> (res: Result<DecodedFrame, DecodeError>)
    ensures
        decoded_as(res, parse_frame(data@)),
        data@.len() < 14 ==> res == Err::<DecodedFrame, DecodeError>(DecodeError::FrameTooShort),
{
    proof {
        reveal(parse_frame);
    }
    let frame = match EthernetFrame::decode(data) {
        Ok(frame) => frame,
        Err(e) => {
            return Err(e);
        },
    };
    let ip = match Ipv4Packet::from_ethernet(&frame) {
        Ok(ip) => ip,
        Err(e) => {
            return Err(e);
        },
    };
    let source_addr = IpAddress::V4(ip.header.source);
    let destination_addr = IpAddress::V4(ip.header.destination);
    let packet = match ReplayPacketData::from_proto(ip.header.protocol, ip.payload) {
        Ok(packet) => packet,
        Err(e) => {
            return Err(e);
        },
    };
    let source = ReplayPacketHost::new(source_addr, packet.source_port());
    let destination = ReplayPacketHost::new(destination_addr, packet.destination_port());
    Ok(DecodedFrame { source, destination, packet })
}

} // verus!
