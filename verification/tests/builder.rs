//! The byte-image builder layer: field setters with bit-exact effects, word
//! conversion, packet assembly with derived lengths and checksums, packet
//! parsing, and the software Ethernet CRC.

use catnip::builder::arp::{build_arp_msg_ipv4, ARPOperation};
use catnip::builder::enet::{EthernetFrameUDP, EthernetHeader, EthernetPacketUDP};
use catnip::builder::ip::{Flags, IPV4Header, Protocol, Version, DSCP};
use catnip::builder::udp::{parse_packet_bytes, UDPHeader, UDPPacket};
use catnip::builder::{Data, IPV4Addr, MACAddr};
use catnip::calc_ip_checksum;
use catnip::enet::EtherType;
use catnip::ParseError;

/// A default header starts as version 4, the declared length, TTL 100, UDP.
#[test]
fn test_ipv4_header_new_defaults() {
    let header: IPV4Header<0> = IPV4Header::<0>::new();
    assert_eq!(header.value.len(), 20);
    assert_eq!(header.value[0], 0x45);
    assert_eq!(header.value[8], 100);
    assert_eq!(header.value[9], 0x11);
    for i in [1usize, 2, 3, 4, 5, 6, 7, 10, 11, 12, 13, 14, 15, 16, 17, 18, 19] {
        assert_eq!(header.value[i], 0);
    }
    // One Options word widens the image and the declared length
    let extended: IPV4Header<1> = IPV4Header::<1>::new();
    assert_eq!(extended.value.len(), 24);
    assert_eq!(extended.value[0], 0x46);
}

/// Each setter touches exactly its field's bits.
#[test]
fn test_ipv4_header_setters() {
    let mut header: IPV4Header<0> = IPV4Header::<0>::new();
    header.version(Version::V6);
    assert_eq!(header.value[0], 0x65);
    header.version(Version::V4);
    assert_eq!(header.value[0], 0x45);
    header.header_length(15);
    assert_eq!(header.value[0], 0x4F);
    header.header_length(5);

    header.dscp(DSCP::Realtime);
    assert_eq!(header.value[1], 128);
    header.dscp(DSCP::AF11);
    assert_eq!(header.value[1], 40);

    header.total_length(1500);
    assert_eq!(&header.value[2..4], &[0x05, 0xDC]);
    header.identification(0x1c46);
    assert_eq!(&header.value[4..6], &[0x1c, 0x46]);

    header.flags(Flags::DF);
    assert_eq!(header.value[6], 0x40);
    header.flags(Flags::MF);
    assert_eq!(header.value[6], 0x60);
    header.frag_offs(0x1FFF);
    assert_eq!(&header.value[6..8], &[0x7F, 0xFF]);
    header.flags(Flags::Clear);
    assert_eq!(header.value[6], 0x1F);

    header.ttl(64);
    assert_eq!(header.value[8], 64);
    header.protocol(Protocol::TCP);
    assert_eq!(header.value[9], 0x06);

    header.src_ipaddr(IPV4Addr::new([10, 0, 0, 1]));
    assert_eq!(&header.value[12..16], &[10, 0, 0, 1]);
    header.dst_ipaddr(IPV4Addr::new([10, 0, 0, 2]));
    assert_eq!(&header.value[16..20], &[10, 0, 0, 2]);
}

/// Applying the header checksum makes the cyclic check fold to zero.
#[test]
fn test_ipv4_header_checksum_applied() {
    let mut header: IPV4Header<0> = IPV4Header::<0>::new();
    header.total_length(36);
    header.src_ipaddr(IPV4Addr::new([172, 16, 10, 99]));
    header.dst_ipaddr(IPV4Addr::new([172, 16, 10, 12]));
    header.header_checksum();
    assert_eq!(calc_ip_checksum(&header.value), 0);
}

/// Word-by-word construction matches the byte image.
#[test]
fn test_ipv4_header_from_words() {
    let words16: [u16; 10] = [
        0x4500, 0x003c, 0x1c46, 0x4000, 0x4006, 0xb1e6, 0xac10, 0x0a63, 0xac10, 0x0a0c,
    ];
    let header: IPV4Header<0> = IPV4Header::<0>::from_16bit_words(&words16[..]);
    assert_eq!(
        header.value,
        vec![
            0x45, 0x00, 0x00, 0x3c, 0x1c, 0x46, 0x40, 0x00, 0x40, 0x06, 0xb1, 0xe6, 0xac, 0x10,
            0x0a, 0x63, 0xac, 0x10, 0x0a, 0x0c
        ]
    );
    let words32: [u32; 5] = [0x4500003c, 0x1c464000, 0x4006b1e6, 0xac100a63, 0xac100a0c];
    let header32: IPV4Header<0> = IPV4Header::<0>::from_32bit_words(&words32[..]);
    assert_eq!(header32.value, header.value);
}

/// The header parser reads back what the builder wrote, Options included.
#[test]
fn test_parse_ip_header_bytes() {
    let mut header: IPV4Header<1> = IPV4Header::<1>::new();
    header.total_length(24);
    header.identification(7);
    header.src_ipaddr(IPV4Addr::new([10, 0, 0, 1]));
    header.dst_ipaddr(IPV4Addr::new([10, 0, 0, 2]));
    let (version, protocol, src, dst, header_length, total_length, options, identification) =
        catnip::builder::ip::parse_header_bytes::<1>(&header.value);
    assert_eq!(version, Version::V4);
    assert_eq!(protocol, Protocol::UDP);
    assert_eq!(src.value, [10, 0, 0, 1]);
    assert_eq!(dst.value, [10, 0, 0, 2]);
    assert_eq!(header_length, 6);
    assert_eq!(total_length, 24);
    assert_eq!(options, vec![0, 0, 0, 0]);
    assert_eq!(identification, 7);
}

/// Building a UDP packet populates the IP length, the IP checksum, and the
/// UDP length, and zeroes the UDP checksum.
#[test]
fn test_udp_packet_new() {
    let mut ip: IPV4Header<0> = IPV4Header::<0>::new();
    ip.src_ipaddr(IPV4Addr::new([10, 0, 0, 1]));
    ip.dst_ipaddr(IPV4Addr::new([10, 0, 0, 2]));
    let udp = UDPHeader::new(8123, 8125);
    assert_eq!(udp.value, [8123, 8125, 0, 0]);
    assert_eq!(udp.to_be_bytes(), vec![0x1f, 0xbb, 0x1f, 0xbd, 0, 0, 0, 0]);
    let data: Data<2> = Data::new(vec![0, 1, 2, 3, 4, 5, 6, 7]);
    let packet: UDPPacket<0, 2> = UDPPacket::new(ip, udp, data);
    // IP total length covers header + UDP header + data
    assert_eq!(&packet.ip_header.value[2..4], &[0, 36]);
    // The IP checksum folds the completed header to zero
    assert_eq!(calc_ip_checksum(&packet.ip_header.value), 0);
    // UDP length covers header + data; checksum zeroed
    assert_eq!(packet.udp_header.value[2], 16);
    assert_eq!(packet.udp_header.value[3], 0);
    assert_eq!(packet.len(), 36);
    let bytes = packet.to_be_bytes();
    assert_eq!(bytes.len(), 36);
    assert_eq!(&bytes[28..36], &[0, 1, 2, 3, 4, 5, 6, 7]);
}

/// A packet built by the builder parses back to its own fields, and each
/// malformed variation is rejected with the matching reason.
#[test]
fn test_parse_packet_bytes() {
    let mut ip: IPV4Header<0> = IPV4Header::<0>::new();
    ip.src_ipaddr(IPV4Addr::new([10, 0, 0, 1]));
    ip.dst_ipaddr(IPV4Addr::new([10, 0, 0, 2]));
    ip.identification(99);
    let udp = UDPHeader::new(8123, 8125);
    let data: Data<2> = Data::new(vec![0, 1, 2, 3, 4, 5, 6, 7]);
    let packet: UDPPacket<0, 2> = UDPPacket::new(ip, udp, data);
    let bytes = packet.to_be_bytes();

    let parsed = parse_packet_bytes(&bytes).unwrap();
    assert_eq!(parsed.data, vec![0, 1, 2, 3, 4, 5, 6, 7]);
    assert_eq!(parsed.options, Vec::<u8>::new());
    assert_eq!(parsed.src_ipaddr.value, [10, 0, 0, 1]);
    assert_eq!(parsed.dst_ipaddr.value, [10, 0, 0, 2]);
    assert_eq!(parsed.src_port, 8123);
    assert_eq!(parsed.dst_port, 8125);
    assert_eq!(parsed.version, Version::V4);
    assert_eq!(parsed.protocol, Protocol::UDP);
    assert_eq!(parsed.checksum, 0);
    assert_eq!(parsed.identification, 99);

    assert_eq!(
        parse_packet_bytes(&bytes[..10]),
        Err(ParseError::TooShort { expected: 20, actual: 10 })
    );
    assert_eq!(
        parse_packet_bytes(&bytes[..30]),
        Err(ParseError::LengthMismatch { expected: 30, actual: 36 })
    );
    let mut not_udp = bytes.clone();
    not_udp[9] = 0x06;
    assert_eq!(
        parse_packet_bytes(&not_udp),
        Err(ParseError::UnsupportedProtocol { actual: 0x06 })
    );
    let mut not_v4 = bytes.clone();
    not_v4[0] = 0x65;
    assert_eq!(parse_packet_bytes(&not_v4), Err(ParseError::UnsupportedVersion { actual: 6 }));
}

/// The Ethernet header builder writes destination, source and tag bytes in
/// wire order, and the parser reads them back.
#[test]
fn test_builder_ethernet_header() {
    let src = MACAddr::new([0x02, 0xAF, 0xFF, 0x1A, 0xE5, 0x3C]);
    let header = EthernetHeader::new(src, None, EtherType::IpV4);
    let bytes = header.to_be_bytes();
    assert_eq!(&bytes[0..6], &[0xFF; 6]);
    assert_eq!(&bytes[6..12], &[0x02, 0xAF, 0xFF, 0x1A, 0xE5, 0x3C]);
    assert_eq!(&bytes[12..14], &[0x08, 0x00]);
    assert_eq!(header.len(), 14);

    let (parsed_src, parsed_dst, tag) = catnip::builder::enet::parse_header_bytes(&bytes);
    assert_eq!(parsed_src.value, src.value);
    assert_eq!(parsed_dst.value, [0xFF; 6]);
    assert_eq!(tag, EtherType::IpV4);
}

/// A full software-assembled packet: preamble, frame, CRC-32 of the frame
/// bytes, inter-packet gap.
#[test]
fn test_ethernet_packet_with_crc() {
    let mut ip: IPV4Header<0> = IPV4Header::<0>::new();
    ip.src_ipaddr(IPV4Addr::new([10, 0, 0, 1]));
    ip.dst_ipaddr(IPV4Addr::new([10, 0, 0, 2]));
    let udp = UDPHeader::new(8123, 8125);
    let data: Data<2> = Data::new(vec![0, 1, 2, 3, 4, 5, 6, 7]);
    let payload: UDPPacket<0, 2> = UDPPacket::new(ip, udp, data);
    let header = EthernetHeader::new(
        MACAddr::new([0x02, 0xAF, 0xFF, 0x1A, 0xE5, 0x3C]),
        None,
        EtherType::IpV4,
    );
    let frame: EthernetFrameUDP<0, 2> = EthernetFrameUDP::new(header, payload);
    assert_eq!(frame.len(), 54);
    let frame_bytes = frame.to_be_bytes();
    assert_eq!(frame_bytes.len(), 54);

    let packet: EthernetPacketUDP<0, 2> = EthernetPacketUDP::new(frame);
    assert_eq!(packet.len(), 78);
    let bytes = packet.to_be_bytes();
    assert_eq!(bytes.len(), 78);
    // Clock-sync preamble and start-frame delimiter
    assert_eq!(&bytes[0..8], &[0xAA, 0xAA, 0xAA, 0xAA, 0xAA, 0xAA, 0xAA, 0xAB]);
    // The frame itself
    assert_eq!(&bytes[8..62], &frame_bytes[..]);
    // The CRC-32 of the frame bytes, big-endian
    let expected_crc = crc32fast::hash(&frame_bytes);
    assert_eq!(&bytes[62..66], &expected_crc.to_be_bytes());
    // The inter-packet gap
    assert_eq!(&bytes[66..78], &[0u8; 12]);
}

/// The software CRC matches the published IEEE CRC-32 check value.
#[test]
fn test_enet_checksum_known_answer() {
    let frame: EthernetFrameUDP<0, 0> = EthernetFrameUDP::new(
        EthernetHeader::new(MACAddr::new([0; 6]), None, EtherType::IpV4),
        UDPPacket::new(IPV4Header::<0>::new(), UDPHeader::new(1, 2), Data::new(vec![])),
    );
    let packet: EthernetPacketUDP<0, 0> = EthernetPacketUDP::new(frame);
    assert_eq!(packet.calc_enet_checksum(b"123456789"), 0xCBF43926);
    assert_ne!(packet.calc_enet_checksum(b"123456788"), 0xCBF43926);
}

/// The ARP message builder writes every field to its documented offset.
#[test]
fn test_build_arp_msg_ipv4() {
    let msg = build_arp_msg_ipv4(
        1,
        EtherType::IpV4,
        ARPOperation::Request,
        MACAddr::new([1, 2, 3, 4, 5, 6]),
        IPV4Addr::new([10, 0, 0, 1]),
        MACAddr::new([0; 6]),
        IPV4Addr::new([10, 0, 0, 2]),
    );
    assert_eq!(
        msg,
        [
            0x00, 0x01, 0x08, 0x00, 6, 4, 0x00, 0x01, 1, 2, 3, 4, 5, 6, 10, 0, 0, 1, 0, 0, 0,
            0, 0, 0, 10, 0, 0, 2
        ]
    );
    assert_eq!(ARPOperation::Response.code(), 2);
}
