use rewind::address::IpAddress;
use rewind::address::MacAddress;
use rewind::capture::decode_frame;
use rewind::error::DecodeError;
use rewind::ethernet::EthernetFrame;
use rewind::ethernet::EthernetHeader;
use rewind::ipv4::Ipv4Header;
use rewind::ipv4::Ipv4Packet;
use rewind::packet::ReplayPacketData;
use rewind::packet::ReplayPacketHost;
use rewind::tcp::TcpHeader;
use rewind::tcp::TcpSegment;
use rewind::udp::UdpDatagram;
use rewind::udp::UdpHeader;

fn ethernet(ethertype: u16, payload: &[u8]) -> Vec<u8> {
    let mut frame = vec![0x00, 0x11, 0x22, 0x33, 0x44, 0x55, 0x66, 0x77, 0x88, 0x99, 0xaa, 0xbb];
    frame.extend_from_slice(&ethertype.to_be_bytes());
    frame.extend_from_slice(payload);
    frame
}

/// An IPv4 packet from 127.0.0.1 to 192.168.1.100 whose length fields agree
/// with its options and payload.
fn ipv4(protocol: u8, options: &[u8], payload: &[u8]) -> Vec<u8> {
    let header_len = 20 + options.len();
    let total = (header_len + payload.len()) as u16;
    let mut packet = vec![0x40 | (header_len / 4) as u8, 0xb9];
    packet.extend_from_slice(&total.to_be_bytes());
    packet.extend_from_slice(&[0x12, 0x34, 0x5f, 0xfe, 64, protocol, 0xca, 0xfe]);
    packet.extend_from_slice(&[127, 0, 0, 1]);
    packet.extend_from_slice(&[192, 168, 1, 100]);
    packet.extend_from_slice(options);
    packet.extend_from_slice(payload);
    packet
}

fn tcp(data_offset: u8, rest: &[u8]) -> Vec<u8> {
    let mut segment = vec![0x01, 0xbb, 0xf3, 0xee];
    segment.extend_from_slice(&0x0102_0304u32.to_be_bytes());
    segment.extend_from_slice(&0xfffe_fdfcu32.to_be_bytes());
    segment.extend_from_slice(&[(data_offset << 4) | 0x0a, 0x18, 0xff, 0xf0, 0xab, 0xcd, 0x00, 0x07]);
    segment.extend_from_slice(rest);
    segment
}

fn udp(payload: &[u8]) -> Vec<u8> {
    let length = (8 + payload.len()) as u16;
    let mut datagram = vec![0x13, 0x88, 0x17, 0x70];
    datagram.extend_from_slice(&length.to_be_bytes());
    datagram.extend_from_slice(&[0xbe, 0xef]);
    datagram.extend_from_slice(payload);
    datagram
}

fn tcp_header(data_offset: u8) -> TcpHeader {
    TcpHeader {
        source: 443,
        destination: 62446,
        sequence: 0x0102_0304,
        acknowledgement: 0xfffe_fdfc,
        data_offset,
        reserved: 0x0a,
        flags: 0x18,
        window: 0xfff0,
        checksum: 0xabcd,
        urgent_ptr: 7,
    }
}

#[test]
fn ethernet_fields_are_read_in_order() {
    let frame = EthernetFrame::decode(&ethernet(0x0800, &[1, 2, 3])).unwrap();
    assert_eq!(
        frame.header,
        EthernetHeader {
            destination: MacAddress(0x00, 0x11, 0x22, 0x33, 0x44, 0x55),
            source: MacAddress(0x66, 0x77, 0x88, 0x99, 0xaa, 0xbb),
            ethertype: 0x0800,
        }
    );
    assert_eq!(frame.payload, vec![1, 2, 3]);
}

#[test]
fn ethertype_is_big_endian() {
    let frame = EthernetFrame::decode(&ethernet(0x86dd, &[])).unwrap();
    assert_eq!(frame.header.ethertype, 0x86dd);
    let frame = EthernetFrame::decode(&ethernet(0x0001, &[])).unwrap();
    assert_eq!(frame.header.ethertype, 1);
    let frame = EthernetFrame::decode(&ethernet(0x0100, &[])).unwrap();
    assert_eq!(frame.header.ethertype, 256);
}

#[test]
fn frame_shorter_than_14_bytes_is_too_short() {
    for len in 0..14 {
        let bytes = vec![0xffu8; len];
        assert_eq!(EthernetFrame::decode(&bytes), Err(DecodeError::FrameTooShort));
        assert_eq!(decode_frame(&bytes).err(), Some(DecodeError::FrameTooShort));
    }
}

#[test]
fn frame_of_14_bytes_has_empty_payload() {
    let frame = EthernetFrame::decode(&ethernet(0x0806, &[])).unwrap();
    assert!(frame.payload.is_empty());
    assert_eq!(frame.header.ethertype, 0x0806);
}

#[test]
fn ipv4_fields_are_read_bit_by_bit() {
    let packet = Ipv4Packet::decode(&ipv4(6, &[], &[9, 8, 7])).unwrap();
    assert_eq!(
        packet.header,
        Ipv4Header {
            version: 4,
            header_length: 5,
            dscp: 0x2e,
            ecn: 1,
            total_length: 23,
            identification: 0x1234,
            flags: 2,
            fragment_offset: 0x1ffe,
            ttl: 64,
            protocol: 6,
            checksum: 0xcafe,
            source: 0x7f00_0001,
            destination: 0xc0a8_0164,
        }
    );
    assert!(packet.options.is_empty());
    assert_eq!(packet.payload, vec![9, 8, 7]);
}

#[test]
fn ipv4_addresses_match_dotted_form() {
    let packet = Ipv4Packet::decode(&ipv4(17, &[], &[])).unwrap();
    assert_eq!(IpAddress::V4(packet.header.source), IpAddress::v4(127, 0, 0, 1));
    assert_eq!(IpAddress::V4(packet.header.destination), IpAddress::v4(192, 168, 1, 100));
    assert_eq!(IpAddress::v4(1, 2, 3, 4), IpAddress::V4(0x0102_0304));
    assert!(IpAddress::v4(1, 2, 3, 4).is_ipv4());
    assert!(!IpAddress::V6(1).is_ipv4());
}

#[test]
fn ipv4_options_lie_between_header_and_payload() {
    let options = [0x94, 0x04, 0x00, 0x00, 0x01, 0x01, 0x01, 0x00];
    let packet = Ipv4Packet::decode(&ipv4(6, &options, &[0xaa, 0xbb])).unwrap();
    assert_eq!(packet.header.header_length, 7);
    assert_eq!(packet.header.total_length, 30);
    assert_eq!(packet.options, options.to_vec());
    assert_eq!(packet.payload, vec![0xaa, 0xbb]);
}

#[test]
fn ipv4_of_fewer_than_20_bytes_is_too_short() {
    let whole = ipv4(6, &[], &[]);
    for len in 0..20 {
        assert_eq!(Ipv4Packet::decode(&whole[..len]), Err(DecodeError::HeaderTooShort));
    }
    assert!(Ipv4Packet::decode(&whole).is_ok());
}

#[test]
fn ipv4_header_longer_than_buffer_is_too_short() {
    let mut bytes = ipv4(6, &[], &[1, 2, 3]);
    bytes[0] = 0x46;
    assert_eq!(Ipv4Packet::decode(&bytes), Err(DecodeError::HeaderTooShort));
    bytes[0] = 0x4f;
    assert_eq!(Ipv4Packet::decode(&bytes), Err(DecodeError::HeaderTooShort));
}

#[test]
fn ipv4_header_that_fills_the_buffer_has_empty_payload() {
    let mut bytes = ipv4(6, &[], &[1, 2, 3, 4]);
    bytes[0] = 0x46;
    let packet = Ipv4Packet::decode(&bytes).unwrap();
    assert_eq!(packet.options, vec![1, 2, 3, 4]);
    assert!(packet.payload.is_empty());
}

#[test]
fn ipv4_payload_ends_with_the_total_length() {
    let mut bytes = ipv4(17, &[], &[1, 2, 3]);
    bytes.extend_from_slice(&[0, 0, 0, 0, 0]);
    let packet = Ipv4Packet::decode(&bytes).unwrap();
    assert_eq!(packet.header.total_length, 23);
    assert_eq!(packet.payload, vec![1, 2, 3]);
}

#[test]
fn ipv4_payload_ends_with_the_buffer_at_the_latest() {
    let mut bytes = ipv4(17, &[], &[1, 2, 3]);
    bytes[2] = 0xff;
    bytes[3] = 0xff;
    let packet = Ipv4Packet::decode(&bytes).unwrap();
    assert_eq!(packet.header.total_length, 0xffff);
    assert_eq!(packet.payload, vec![1, 2, 3]);
}

#[test]
fn ipv4_total_length_below_header_length_gives_empty_payload() {
    let mut bytes = ipv4(17, &[], &[1, 2, 3]);
    bytes[2] = 0;
    bytes[3] = 19;
    let packet = Ipv4Packet::decode(&bytes).unwrap();
    assert!(packet.payload.is_empty());
    bytes[3] = 0;
    let packet = Ipv4Packet::decode(&bytes).unwrap();
    assert!(packet.payload.is_empty());
}

#[test]
fn ipv4_stated_header_below_20_bytes_still_takes_20() {
    let mut bytes = ipv4(17, &[], &[1, 2, 3]);
    bytes[0] = 0x43;
    bytes[3] = 14;
    let packet = Ipv4Packet::decode(&bytes).unwrap();
    assert_eq!(packet.header.header_length, 3);
    assert!(packet.options.is_empty());
    assert_eq!(packet.payload, vec![1, 2]);
}

#[test]
fn ipv4_version_is_not_checked() {
    let mut bytes = ipv4(17, &[], &[1]);
    bytes[0] = 0x65;
    let packet = Ipv4Packet::decode(&bytes).unwrap();
    assert_eq!(packet.header.version, 6);
    assert_eq!(packet.payload, vec![1]);
}

#[test]
fn other_ethertypes_are_unsupported() {
    for ethertype in [0x0806u16, 0x86dd, 0x8100, 0x0000, 0x0008, 0xffff] {
        let frame = EthernetFrame::decode(&ethernet(ethertype, &ipv4(6, &[], &[]))).unwrap();
        assert_eq!(Ipv4Packet::from_ethernet(&frame), Err(DecodeError::UnsupportedLinkProtocol));
    }
    let frame = EthernetFrame::decode(&ethernet(0x0806, &[])).unwrap();
    assert_eq!(Ipv4Packet::from_ethernet(&frame), Err(DecodeError::UnsupportedLinkProtocol));
}

#[test]
fn ipv4_ethertype_leads_to_the_network_decoder() {
    let frame = EthernetFrame::decode(&ethernet(0x0800, &ipv4(6, &[], &[5]))).unwrap();
    let packet = Ipv4Packet::from_ethernet(&frame).unwrap();
    assert_eq!(packet.header.protocol, 6);
    assert_eq!(packet.payload, vec![5]);
    let frame = EthernetFrame::decode(&ethernet(0x0800, &[0x45; 19])).unwrap();
    assert_eq!(Ipv4Packet::from_ethernet(&frame), Err(DecodeError::HeaderTooShort));
}

#[test]
fn tcp_fields_are_big_endian() {
    let segment = TcpSegment::decode(&tcp(5, b"data")).unwrap();
    assert_eq!(segment.header, tcp_header(5));
    assert!(segment.options.is_empty());
    assert_eq!(segment.payload, b"data".to_vec());
}

#[test]
fn tcp_options_follow_the_data_offset() {
    let mut rest = vec![2, 4, 5, 0xb4, 1, 1, 4, 2, 1, 3, 3, 7];
    rest.extend_from_slice(b"payload");
    let segment = TcpSegment::decode(&tcp(8, &rest)).unwrap();
    assert_eq!(segment.header.data_offset, 8);
    assert_eq!(segment.options, vec![2, 4, 5, 0xb4, 1, 1, 4, 2, 1, 3, 3, 7]);
    assert_eq!(segment.payload, b"payload".to_vec());
}

#[test]
fn tcp_largest_header_takes_60_bytes() {
    let rest: Vec<u8> = (0..45).collect();
    let segment = TcpSegment::decode(&tcp(15, &rest)).unwrap();
    assert_eq!(segment.options, (0..40).collect::<Vec<u8>>());
    assert_eq!(segment.payload, vec![40, 41, 42, 43, 44]);
}

#[test]
fn tcp_data_offset_below_five_means_no_options() {
    for data_offset in 0..5 {
        let segment = TcpSegment::decode(&tcp(data_offset, &[1, 2, 3])).unwrap();
        assert_eq!(segment.header, tcp_header(data_offset));
        assert!(segment.options.is_empty());
        assert_eq!(segment.payload, vec![1, 2, 3]);
    }
}

#[test]
fn tcp_options_cut_off_by_the_buffer() {
    let segment = TcpSegment::decode(&tcp(10, &[1, 2, 3, 4, 5, 6])).unwrap();
    assert_eq!(segment.options, vec![1, 2, 3, 4, 5, 6]);
    assert!(segment.payload.is_empty());
    let segment = TcpSegment::decode(&tcp(6, &[1, 2, 3, 4])).unwrap();
    assert_eq!(segment.options, vec![1, 2, 3, 4]);
    assert!(segment.payload.is_empty());
}

#[test]
fn tcp_of_fewer_than_20_bytes_is_too_short() {
    let whole = tcp(5, &[]);
    assert_eq!(whole.len(), 20);
    for len in 0..20 {
        assert_eq!(TcpSegment::decode(&whole[..len]), Err(DecodeError::HeaderTooShort));
    }
    assert!(TcpSegment::decode(&whole).unwrap().payload.is_empty());
}

#[test]
fn udp_header_has_four_fields() {
    let datagram = UdpDatagram::decode(&udp(b"abc")).unwrap();
    assert_eq!(
        datagram.header,
        UdpHeader { source: 5000, destination: 6000, length: 11, checksum: 0xbeef }
    );
    assert_eq!(datagram.payload, b"abc".to_vec());
}

#[test]
fn udp_payload_is_everything_after_the_header() {
    let mut bytes = udp(b"abc");
    bytes.extend_from_slice(&[0, 0, 0]);
    let datagram = UdpDatagram::decode(&bytes).unwrap();
    assert_eq!(datagram.header.length, 11);
    assert_eq!(datagram.payload, vec![b'a', b'b', b'c', 0, 0, 0]);
}

#[test]
fn udp_of_fewer_than_8_bytes_is_too_short() {
    let whole = udp(&[]);
    for len in 0..8 {
        assert_eq!(UdpDatagram::decode(&whole[..len]), Err(DecodeError::HeaderTooShort));
    }
    assert!(UdpDatagram::decode(&whole).unwrap().payload.is_empty());
}

#[test]
fn protocol_number_selects_the_transport_decoder() {
    let data = ReplayPacketData::from_proto(6, tcp(5, b"x")).unwrap();
    assert_eq!(data, ReplayPacketData::Tcp(TcpSegment::decode(&tcp(5, b"x")).unwrap()));
    assert_eq!(data.source_port(), 443);
    assert_eq!(data.destination_port(), 62446);
    assert_eq!(data.payload(), &vec![b'x']);

    let data = ReplayPacketData::from_proto(17, udp(b"yz")).unwrap();
    assert_eq!(data, ReplayPacketData::Udp(UdpDatagram::decode(&udp(b"yz")).unwrap()));
    assert_eq!(data.source_port(), 5000);
    assert_eq!(data.destination_port(), 6000);
    assert_eq!(data.payload(), &vec![b'y', b'z']);
}

#[test]
fn same_bytes_read_differently_under_each_protocol() {
    let bytes = tcp(5, b"x");
    let as_udp = ReplayPacketData::from_proto(17, bytes.clone()).unwrap();
    assert!(matches!(as_udp, ReplayPacketData::Udp(_)));
    assert_eq!(as_udp.payload().len(), 13);
    let as_tcp = ReplayPacketData::from_proto(6, bytes).unwrap();
    assert_eq!(as_tcp.payload().len(), 1);
}

#[test]
fn other_protocol_numbers_are_unsupported() {
    for proto in [0u8, 1, 2, 5, 7, 16, 18, 41, 47, 50, 58, 132, 255] {
        assert_eq!(
            ReplayPacketData::from_proto(proto, tcp(5, b"x")),
            Err(DecodeError::UnsupportedTransportProtocol)
        );
        assert_eq!(
            ReplayPacketData::from_proto(proto, Vec::new()),
            Err(DecodeError::UnsupportedTransportProtocol)
        );
    }
}

#[test]
fn short_transport_headers_are_too_short() {
    assert_eq!(ReplayPacketData::from_proto(6, vec![0; 19]), Err(DecodeError::HeaderTooShort));
    assert_eq!(ReplayPacketData::from_proto(17, vec![0; 7]), Err(DecodeError::HeaderTooShort));
    assert!(ReplayPacketData::from_proto(17, vec![0; 19]).is_ok());
}

#[test]
fn whole_frame_gives_endpoints_and_transport_data() {
    let bytes = ethernet(0x0800, &ipv4(6, &[], &tcp(5, b"hi")));
    let decoded = decode_frame(&bytes).unwrap();
    assert_eq!(decoded.source, ReplayPacketHost::new(IpAddress::v4(127, 0, 0, 1), 443));
    assert_eq!(decoded.destination, ReplayPacketHost::new(IpAddress::v4(192, 168, 1, 100), 62446));
    assert_eq!(decoded.packet, ReplayPacketData::from_proto(6, tcp(5, b"hi")).unwrap());

    let bytes = ethernet(0x0800, &ipv4(17, &[1, 1, 1, 0], &udp(b"hi")));
    let decoded = decode_frame(&bytes).unwrap();
    assert_eq!(decoded.source.get_port(), 5000);
    assert_eq!(decoded.destination.get_port(), 6000);
    assert_eq!(decoded.packet.payload(), &b"hi".to_vec());
}

#[test]
fn padding_after_the_packet_is_not_payload() {
    let mut bytes = ethernet(0x0800, &ipv4(6, &[], &tcp(5, &[])));
    assert_eq!(bytes.len(), 54);
    bytes.extend_from_slice(&[0u8; 6]);
    let decoded = decode_frame(&bytes).unwrap();
    assert!(decoded.packet.payload().is_empty());
}

#[test]
fn first_failing_layer_decides_the_error() {
    assert_eq!(decode_frame(&[0u8; 13]).err(), Some(DecodeError::FrameTooShort));
    assert_eq!(
        decode_frame(&ethernet(0x0806, &[0u8; 4])).err(),
        Some(DecodeError::UnsupportedLinkProtocol)
    );
    assert_eq!(
        decode_frame(&ethernet(0x0800, &[0x45u8; 19])).err(),
        Some(DecodeError::HeaderTooShort)
    );
    assert_eq!(
        decode_frame(&ethernet(0x0800, &ipv4(1, &[], &[0u8; 2]))).err(),
        Some(DecodeError::UnsupportedTransportProtocol)
    );
    assert_eq!(
        decode_frame(&ethernet(0x0800, &ipv4(6, &[], &[0u8; 19]))).err(),
        Some(DecodeError::HeaderTooShort)
    );
    assert_eq!(
        decode_frame(&ethernet(0x0800, &ipv4(17, &[], &[0u8; 7]))).err(),
        Some(DecodeError::HeaderTooShort)
    );
}
