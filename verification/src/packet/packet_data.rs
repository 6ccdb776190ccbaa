use vstd::prelude::*;
use crate::error::decoded_as;
use crate::error::DecodeError;
use crate::tcp::parse_tcp;
use crate::tcp::TcpSegment;
use crate::tcp::TcpSegmentView;
use crate::udp::parse_udp;
use crate::udp::UdpDatagram;
use crate::udp::UdpDatagramView;

verus! {

/// The IPv4 protocol number of TCP.
pub const PROTOCOL_TCP: u8 = 6;

/// The IPv4 protocol number of UDP.
pub const PROTOCOL_UDP: u8 = 17;

/// The decoded transport layer of a packet: a UDP datagram or a TCP segment.
#[derive(Clone, Debug, PartialEq, Eq)]
pub enum ReplayPacketData {
    Udp(UdpDatagram),
    Tcp(TcpSegment),
}

/// What a [`ReplayPacketData`] stands for.
pub enum TransportPayload {
    Udp(UdpDatagramView),
    Tcp(TcpSegmentView),
}

impl View for ReplayPacketData {
    type V = TransportPayload;

    open spec fn view(&self) -> TransportPayload {
        match self {
            ReplayPacketData::Udp(datagram) => TransportPayload::Udp(datagram@),
            ReplayPacketData::Tcp(segment) => TransportPayload::Tcp(segment@),
        }
    }
}

impl TransportPayload {
    /// The port that the packet was sent from.
    pub open spec fn source_port(self) -> u16 {
        match self {
            TransportPayload::Udp(datagram) => datagram.header.source,
            TransportPayload::Tcp(segment) => segment.header.source,
        }
    }

    /// The port that the packet was sent to.
    pub open spec fn destination_port(self) -> u16 {
        match self {
            TransportPayload::Udp(datagram) => datagram.header.destination,
            TransportPayload::Tcp(segment) => segment.header.destination,
        }
    }

    /// The application bytes that follow the transport header.
    pub open spec fn payload(self) -> Seq<u8> {
        match self {
            TransportPayload::Udp(datagram) => datagram.payload,
            TransportPayload::Tcp(segment) => segment.payload,
        }
    }
}

/// The transport-layer reading of `b` under protocol number `proto`: TCP for
/// 6, UDP for 17, and no reading for any other number.
pub open spec fn parse_transport(proto: u8, b: Seq<u8>) -> Result<TransportPayload, DecodeError> {
    if proto == 6 {
        match parse_tcp(b) {
            Ok(segment) => Ok(TransportPayload::Tcp(segment)),
            Err(e) => Err(e),
        }
    } else if proto == 17 {
        match parse_udp(b) {
            Ok(datagram) => Ok(TransportPayload::Udp(datagram)),
            Err(e) => Err(e),
        }
    } else {
        Err(DecodeError::UnsupportedTransportProtocol)
    }
}

impl ReplayPacketData {
    /// Decodes the payload of a network-layer packet as the protocol number
    /// says.
    ///
    /// Fails with `UnsupportedTransportProtocol` exactly when `proto` is
    /// neither 6 (TCP) nor 17 (UDP), and with `HeaderTooShort` exactly when a
    /// TCP segment has fewer than 20 bytes or a UDP datagram fewer than eight.
    pub fn from_proto(proto: u8, buffer: Vec<u8>) -> (res: Result<ReplayPacketData, DecodeError>)
        ensures
            decoded_as(res, parse_transport(proto, buffer@)),
            res matches Ok(data) ==> (data is Tcp <==> proto == 6) && (data is Udp <==> proto == 17),
            res matches Err(e) ==> (e == DecodeError::UnsupportedTransportProtocol <==> proto != 6
                && proto != 17),
            res matches Err(e) ==> (e == DecodeError::HeaderTooShort <==> (proto == 6
                && buffer@.len() < 20) || (proto == 17 && buffer@.len() < 8)),
            res is Err <==> (proto != 6 && proto != 17) || (proto == 6 && buffer@.len() < 20) || (
            proto == 17 && buffer@.len() < 8),
    {
        if proto == PROTOCOL_TCP {
            match TcpSegment::decode(buffer.as_slice()) {
                Ok(segment) => Ok(ReplayPacketData::Tcp(segment)),
                Err(e) => Err(e),
            }
        } else if proto == PROTOCOL_UDP {
            match UdpDatagram::decode(buffer.as_slice()) {
                Ok(datagram) => Ok(ReplayPacketData::Udp(datagram)),
                Err(e) => Err(e),
            }
        } else {
            Err(DecodeError::UnsupportedTransportProtocol)
        }
    }

    /// The port that the packet was sent from.
    pub fn source_port(&self) -> (port: u16)
        ensures
            port == self@.source_port(),
    {
        match self {
            ReplayPacketData::Udp(datagram) => datagram.header.source,
            ReplayPacketData::Tcp(segment) => segment.header.source,
        }
    }

    /// The port that the packet was sent to.
    pub fn destination_port(&self) -> (port: u16)
        ensures
            port == self@.destination_port(),
    {
        match self {
            ReplayPacketData::Udp(datagram) => datagram.header.destination,
            ReplayPacketData::Tcp(segment) => segment.header.destination,
        }
    }

    /// The application bytes that follow the transport header.
    pub fn payload(&self) -> (bytes: &Vec<u8>)
        ensures
            bytes@ == self@.payload(),
    {
        match self {
            ReplayPacketData::Udp(datagram) => &datagram.payload,
            ReplayPacketData::Tcp(segment) => &segment.payload,
        }
    }
}

} // verus!
