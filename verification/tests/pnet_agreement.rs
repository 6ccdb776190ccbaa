use pnet::packet::ethernet::EthernetPacket;
use pnet::packet::ipv4::Ipv4Packet as PnetIpv4;
use pnet::packet::tcp::TcpPacket;
use pnet::packet::udp::UdpPacket;
use pnet::packet::Packet;
use rewind::address::MacAddress;
use rewind::ethernet::EthernetFrame;
use rewind::ipv4::Ipv4Packet;
use rewind::tcp::TcpSegment;
use rewind::udp::UdpDatagram;

/// Buffers of every length up to `longest`, filled with bytes that differ
/// from one place to the next and from one `seed` to the next.
fn samples(longest: usize) -> Vec<Vec<u8>> {
    let mut all = Vec::new();
    for seed in 0..40usize {
        for len in 0..=longest {
            let bytes: Vec<u8> =
                (0..len).map(|i| ((i * 37 + seed * 101 + (i * i) % 251 + 13) % 256) as u8).collect();
            all.push(bytes);
        }
    }
    all
}

#[test]
fn ethernet_agrees_with_pnet() {
    for bytes in samples(40) {
        let ours = EthernetFrame::decode(&bytes);
        match EthernetPacket::new(&bytes) {
            None => assert!(ours.is_err()),
            Some(theirs) => {
                let ours = ours.unwrap();
                let d = theirs.get_destination();
                let s = theirs.get_source();
                assert_eq!(ours.header.destination, MacAddress(d.0, d.1, d.2, d.3, d.4, d.5));
                assert_eq!(ours.header.source, MacAddress(s.0, s.1, s.2, s.3, s.4, s.5));
                assert_eq!(ours.header.ethertype, theirs.get_ethertype().0);
                assert_eq!(ours.payload, theirs.payload().to_vec());
            }
        }
    }
}

#[test]
fn ipv4_agrees_with_pnet_where_the_header_fits() {
    let mut compared = 0;
    for bytes in samples(70) {
        let ours = Ipv4Packet::decode(&bytes);
        let theirs = match PnetIpv4::new(&bytes) {
            None => {
                assert!(ours.is_err());
                continue;
            }
            Some(theirs) => theirs,
        };
        let stated = theirs.get_header_length() as usize * 4;
        if stated.max(20) > bytes.len() {
            assert!(ours.is_err());
            continue;
        }
        let ours = ours.unwrap();
        assert_eq!(ours.header.version, theirs.get_version());
        assert_eq!(ours.header.header_length, theirs.get_header_length());
        assert_eq!(ours.header.dscp, theirs.get_dscp());
        assert_eq!(ours.header.ecn, theirs.get_ecn());
        assert_eq!(ours.header.total_length, theirs.get_total_length());
        assert_eq!(ours.header.identification, theirs.get_identification());
        assert_eq!(ours.header.flags, theirs.get_flags());
        assert_eq!(ours.header.fragment_offset, theirs.get_fragment_offset());
        assert_eq!(ours.header.ttl, theirs.get_ttl());
        assert_eq!(ours.header.protocol, theirs.get_next_level_protocol().0);
        assert_eq!(ours.header.checksum, theirs.get_checksum());
        assert_eq!(ours.header.source, u32::from_be_bytes(theirs.get_source().octets()));
        assert_eq!(ours.header.destination, u32::from_be_bytes(theirs.get_destination().octets()));
        assert_eq!(ours.options, theirs.get_options_raw().to_vec());
        assert_eq!(ours.payload, theirs.payload().to_vec());
        compared += 1;
    }
    assert!(compared > 1000);
}

#[test]
fn tcp_agrees_with_pnet() {
    for bytes in samples(80) {
        let ours = TcpSegment::decode(&bytes);
        match TcpPacket::new(&bytes) {
            None => assert!(ours.is_err()),
            Some(theirs) => {
                let ours = ours.unwrap();
                assert_eq!(ours.header.source, theirs.get_source());
                assert_eq!(ours.header.destination, theirs.get_destination());
                assert_eq!(ours.header.sequence, theirs.get_sequence());
                assert_eq!(ours.header.acknowledgement, theirs.get_acknowledgement());
                assert_eq!(ours.header.data_offset, theirs.get_data_offset());
                assert_eq!(ours.header.reserved, theirs.get_reserved());
                assert_eq!(ours.header.flags, theirs.get_flags());
                assert_eq!(ours.header.window, theirs.get_window());
                assert_eq!(ours.header.checksum, theirs.get_checksum());
                assert_eq!(ours.header.urgent_ptr, theirs.get_urgent_ptr());
                assert_eq!(ours.options, theirs.get_options_raw().to_vec());
                assert_eq!(ours.payload, theirs.payload().to_vec());
            }
        }
    }
}

#[test]
fn udp_agrees_with_pnet() {
    for bytes in samples(30) {
        let ours = UdpDatagram::decode(&bytes);
        match UdpPacket::new(&bytes) {
            None => assert!(ours.is_err()),
            Some(theirs) => {
                let ours = ours.unwrap();
                assert_eq!(ours.header.source, theirs.get_source());
                assert_eq!(ours.header.destination, theirs.get_destination());
                assert_eq!(ours.header.length, theirs.get_length());
                assert_eq!(ours.header.checksum, theirs.get_checksum());
                assert_eq!(ours.payload, theirs.payload().to_vec());
            }
        }
    }
}
