//! Encode/decode round trips for every header and frame type, unknown-value
//! preservation for the enumerated fields, structural byte lengths, and the
//! end-to-end Ethernet/IPv4/UDP scenario.

use catnip::codec::WireCodec;
use catnip::enet::{EtherType, EthernetFrame, EthernetHeader};
use catnip::ip::{Fragmentation, IpV4Frame, IpV4Header, VersionAndHeaderLength};
use catnip::udp::{UdpFrame, UdpHeader};
use catnip::{ByteArray, IpV4Addr, MacAddr, ParseError, Protocol, DSCP};

fn sample_ipv4_udp_frame() -> EthernetFrame<IpV4Frame<UdpFrame<ByteArray<8>>>> {
    let data: ByteArray<8> = ByteArray([0, 1, 2, 3, 4, 5, 6, 7]);
    EthernetFrame::<IpV4Frame<UdpFrame<ByteArray<8>>>> {
        header: EthernetHeader {
            dst_macaddr: MacAddr::broadcast(),
            src_macaddr: MacAddr::new([0x02, 0xAF, 0xFF, 0x1A, 0xE5, 0x3C]),
            ethertype: EtherType::IpV4,
        },
        data: IpV4Frame::<UdpFrame<ByteArray<8>>> {
            header: IpV4Header {
                version_and_header_length: VersionAndHeaderLength::new()
                    .with_version(4)
                    .with_header_length(5),
                dscp: DSCP::Standard,
                total_length: 36,
                identification: 0,
                fragmentation: Fragmentation::default(),
                time_to_live: 10,
                protocol: Protocol::Udp,
                checksum: 0,
                src_ipaddr: IpV4Addr::new([10, 0, 0, 1]),
                dst_ipaddr: IpV4Addr::new([10, 0, 0, 2]),
            },
            data: UdpFrame::<ByteArray<8>> {
                header: UdpHeader { src_port: 8123, dst_port: 8125, length: 16, checksum: 0 },
                data,
            },
        },
        checksum: 0_u32,
    }
}

/// End-to-end scenario: build the frame, reduce to bytes, parse back, and
/// require structural equality with the original.
#[test]
fn test_enet_ip_udp() {
    let frame = sample_ipv4_udp_frame();
    let bytes = frame.to_be_bytes();
    assert_eq!(bytes.len(), 54);
    let frame_parsed = EthernetFrame::<IpV4Frame<UdpFrame<ByteArray<8>>>>::read_bytes(&bytes);
    assert_eq!(frame_parsed, frame);
}

/// The nested frame's byte length is derived structurally from its type
/// parameters: 14 + 20 + 8 + 8 + 4 == 54.
#[test]
fn test_frame_length_arithmetic() {
    assert_eq!(
        EthernetFrame::<IpV4Frame<UdpFrame<ByteArray<8>>>>::byte_len(),
        14 + 20 + 8 + 8 + 4
    );
    assert_eq!(IpV4Frame::<UdpFrame<ByteArray<8>>>::byte_len(), 36);
    assert_eq!(UdpFrame::<ByteArray<8>>::byte_len(), 16);
    assert_eq!(EthernetHeader::byte_len(), 14);
    assert_eq!(IpV4Header::byte_len(), 20);
    assert_eq!(UdpHeader::byte_len(), 8);
}

/// The first encoded bytes are bit-exact: destination MAC first, and the
/// version/header-length byte packs the version in its high nibble.
#[test]
fn test_wire_layout_bit_exact() {
    let frame = sample_ipv4_udp_frame();
    let bytes = frame.to_be_bytes();
    // Destination MAC: broadcast
    assert_eq!(&bytes[0..6], &[0xFF; 6]);
    // Source MAC
    assert_eq!(&bytes[6..12], &[0x02, 0xAF, 0xFF, 0x1A, 0xE5, 0x3C]);
    // EtherType: IPv4
    assert_eq!(&bytes[12..14], &[0x08, 0x00]);
    // Version 4, header length 5 words
    assert_eq!(bytes[14], 0x45);
    // Protocol: UDP
    assert_eq!(bytes[14 + 9], 0x11);
    // UDP ports in network order
    assert_eq!(&bytes[34..38], &[0x1f, 0xbb, 0x1f, 0xbd]);
}

/// Unknown preservation: an EtherType outside the known set round-trips
/// through its carry-all variant without losing the raw value.
#[test]
fn test_unknown_ethertype_preserved() {
    let tag = EtherType::from_code(0x1234);
    assert_eq!(tag, EtherType::Unknown(0x1234));
    let bytes = tag.to_be_bytes();
    assert_eq!(bytes, vec![0x12, 0x34]);
    let parsed = EtherType::decode(&bytes, 0);
    assert_eq!(parsed, EtherType::Unknown(0x1234));
    assert_eq!(parsed.code(), 0x1234);
}

/// Unknown preservation holds for the one-byte enumerations as well.
#[test]
fn test_unknown_protocol_and_dscp_preserved() {
    let p = Protocol::from_code(0x2a);
    assert_eq!(p, Protocol::Unknown(0x2a));
    assert_eq!(p.code(), 0x2a);
    assert_eq!(Protocol::from_code(0x11), Protocol::Udp);
    assert_eq!(Protocol::from_code(0x06), Protocol::Tcp);

    let d = DSCP::from_code(44);
    assert_eq!(d, DSCP::Unknown(44));
    assert_eq!(d.code(), 44);
    assert_eq!(DSCP::from_code(0), DSCP::Standard);
    assert_eq!(DSCP::from_code(128), DSCP::Realtime);
}

/// Round trips of the individual header types on representative values.
#[test]
fn test_header_round_trips() {
    let eth = EthernetHeader {
        dst_macaddr: MacAddr::new([1, 2, 3, 4, 5, 6]),
        src_macaddr: MacAddr::new([7, 8, 9, 10, 11, 12]),
        ethertype: EtherType::Arp,
    };
    let bytes = eth.to_be_bytes();
    assert_eq!(EthernetHeader::read_bytes(&bytes), eth);

    let udp = UdpHeader { src_port: 65535, dst_port: 0, length: 4660, checksum: 0xBEEF };
    let bytes = udp.to_be_bytes();
    assert_eq!(UdpHeader::read_bytes(&bytes), udp);

    let ip = IpV4Header {
        version_and_header_length: VersionAndHeaderLength::new()
            .with_version(4)
            .with_header_length(5),
        dscp: DSCP::Realtime,
        total_length: 1500,
        identification: 0x1c46,
        fragmentation: Fragmentation::new().with_do_not_fragment(true).with_offset(0x1FFF),
        time_to_live: 64,
        protocol: Protocol::Tcp,
        checksum: 0xb1e6,
        src_ipaddr: IpV4Addr::new([172, 16, 10, 99]),
        dst_ipaddr: IpV4Addr::new([172, 16, 10, 12]),
    };
    let bytes = ip.to_be_bytes();
    assert_eq!(IpV4Header::read_bytes(&bytes), ip);

    let block: ByteArray<8> = ByteArray([255, 0, 127, 128, 1, 2, 3, 4]);
    let bytes = block.to_be_bytes();
    assert_eq!(ByteArray::<8>::read_bytes(&bytes), block);
}

/// The bit-packed fields place each flag and nibble where the protocol
/// documents them.
#[test]
fn test_bit_packing_exact() {
    let vhl = VersionAndHeaderLength::new().with_version(4).with_header_length(5);
    assert_eq!(vhl.value, 0x45);
    assert_eq!(vhl.version(), 4);
    assert_eq!(vhl.header_length(), 5);

    // Do-not-fragment raises bit 14 of the packed word
    let frag = Fragmentation::new().with_do_not_fragment(true);
    let mut encoded: Vec<u8> = Vec::new();
    frag.encode(&mut encoded);
    assert_eq!(encoded, vec![0x40, 0x00]);
    // Both flags and a full 13-bit offset
    let frag = Fragmentation::new()
        .with_do_not_fragment(true)
        .with_more_fragments(true)
        .with_offset(0x1FFF);
    let mut encoded: Vec<u8> = Vec::new();
    frag.encode(&mut encoded);
    assert_eq!(encoded, vec![0x7F, 0xFF]);
    let parsed = Fragmentation::decode(&encoded, 0);
    assert_eq!(parsed, frag);
}

/// The validating IP and UDP parses accept a consistent frame and name the
/// reason a frame is rejected.
#[test]
fn test_frame_parse_validation() {
    let frame = sample_ipv4_udp_frame().data;
    let bytes = frame.to_be_bytes();
    assert_eq!(IpV4Frame::<UdpFrame<ByteArray<8>>>::parse(&bytes), Ok(frame));

    // Too short a buffer
    assert_eq!(
        IpV4Frame::<UdpFrame<ByteArray<8>>>::parse(&bytes[..20]),
        Err(ParseError::TooShort { expected: 36, actual: 20 })
    );

    // A declared total length that disagrees with the frame size
    let mut wrong_len = frame;
    wrong_len.header.total_length = 37;
    let bytes = wrong_len.to_be_bytes();
    assert_eq!(
        IpV4Frame::<UdpFrame<ByteArray<8>>>::parse(&bytes),
        Err(ParseError::LengthMismatch { expected: 36, actual: 37 })
    );

    // A version other than 4
    let mut wrong_version = frame;
    wrong_version.header.version_and_header_length =
        VersionAndHeaderLength::new().with_version(6).with_header_length(5);
    let bytes = wrong_version.to_be_bytes();
    assert_eq!(
        IpV4Frame::<UdpFrame<ByteArray<8>>>::parse(&bytes),
        Err(ParseError::UnsupportedVersion { actual: 6 })
    );

    // UDP length field must match the UDP frame length
    let udp = frame.data;
    let bytes = udp.to_be_bytes();
    assert_eq!(UdpFrame::<ByteArray<8>>::parse(&bytes), Ok(udp));
    let mut wrong_udp = udp;
    wrong_udp.header.length = 99;
    let bytes = wrong_udp.to_be_bytes();
    assert_eq!(
        UdpFrame::<ByteArray<8>>::parse(&bytes),
        Err(ParseError::LengthMismatch { expected: 16, actual: 99 })
    );
}
