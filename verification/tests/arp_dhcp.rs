//! ARP and DHCP payloads: serialization loops, fixed sizes, and the
//! semantic validation of address lengths, op codes and the magic cookie.

use catnip::arp::{ArpOperation, ArpPayload, ProtocolType};
use catnip::codec::WireCodec;
use catnip::dhcp::{
    DhcpFixedPayload, DhcpMessageKind, DhcpMessageKindOption, DhcpOperation, DhcpOptionKind,
    DHCP_COOKIE,
};
use catnip::{IpV4Addr, MacAddr, ParseError};

/// Build an ARP message and make sure the parser returns the same values
/// from its byte representation.
#[test]
fn arp_test_serialization_loop() {
    let msg = ArpPayload::new(
        MacAddr::new([7_u8; 6]),
        IpV4Addr::new([8_u8; 4]),
        MacAddr::new([9_u8; 6]),
        IpV4Addr::new([10_u8; 4]),
        ArpOperation::Request,
    );
    // Serialize
    let bytes = msg.to_be_bytes();
    // Deserialize
    let msg_parsed = ArpPayload::read_bytes(&bytes);

    assert_eq!(msg, msg_parsed);
}

/// The ARP payload is sized for the minimum Ethernet payload: 28 bytes of
/// fields plus 18 bytes of padding.
#[test]
fn test_arp_byte_len() {
    assert_eq!(ArpPayload::byte_len(), 46);
    let msg = ArpPayload::new(
        MacAddr::new([1, 2, 3, 4, 5, 6]),
        IpV4Addr::new([7, 8, 9, 10]),
        MacAddr::broadcast(),
        IpV4Addr::new([11, 12, 13, 14]),
        ArpOperation::Response,
    );
    let bytes = msg.to_be_bytes();
    assert_eq!(bytes.len(), 46);
    // Fixed fields: hardware type 1, IPv4 protocol type, lengths 6 and 4,
    // response op
    assert_eq!(&bytes[0..8], &[0x00, 0x01, 0x08, 0x00, 6, 4, 0x00, 0x02]);
    // The trailing padding stays zero
    assert_eq!(&bytes[28..46], &[0u8; 18]);
}

/// The ARP validating parse rejects declared address lengths other than the
/// fixed 6/4 layout, and too-short buffers.
#[test]
fn test_arp_parse_validation() {
    let msg = ArpPayload::new(
        MacAddr::new([7_u8; 6]),
        IpV4Addr::new([8_u8; 4]),
        MacAddr::new([9_u8; 6]),
        IpV4Addr::new([10_u8; 4]),
        ArpOperation::Request,
    );
    let bytes = msg.to_be_bytes();
    assert_eq!(ArpPayload::parse(&bytes), Ok(msg));

    assert_eq!(
        ArpPayload::parse(&bytes[..28]),
        Err(ParseError::TooShort { expected: 46, actual: 28 })
    );

    let mut wrong_hlen = bytes.clone();
    wrong_hlen[4] = 8;
    assert_eq!(
        ArpPayload::parse(&wrong_hlen),
        Err(ParseError::LengthMismatch { expected: 6, actual: 8 })
    );

    let mut wrong_plen = bytes.clone();
    wrong_plen[5] = 16;
    assert_eq!(
        ArpPayload::parse(&wrong_plen),
        Err(ParseError::LengthMismatch { expected: 4, actual: 16 })
    );
}

/// An unrecognized ARP operation or protocol type code is preserved
/// exactly through its carry-all variant.
#[test]
fn test_arp_unknown_codes_preserved() {
    assert_eq!(ArpOperation::from_code(7), ArpOperation::Unknown(7));
    assert_eq!(ArpOperation::from_code(7).code(), 7);
    assert_eq!(ArpOperation::from_code(1), ArpOperation::Request);
    assert_eq!(ArpOperation::from_code(2), ArpOperation::Response);
    assert_eq!(ProtocolType::from_code(0x1234), ProtocolType::Unknown(0x1234));
    assert_eq!(ProtocolType::from_code(0x1234).code(), 0x1234);
    assert_eq!(ProtocolType::from_code(0x0800), ProtocolType::IpV4);
}

fn dummy_payload() -> DhcpFixedPayload {
    let ip = IpV4Addr::new([0, 0, 0, 0]);
    let mac = MacAddr::new([1, 2, 3, 4, 5, 6]);
    DhcpFixedPayload::new(DhcpOperation::Request, DhcpMessageKind::Inform, 0, true, ip, ip, ip, mac)
}

/// Make sure the actual byte layout matches the field sizes summed by hand.
#[test]
fn dhcp_test_layout() {
    let data = dummy_payload();
    let size_expected =
        1 + 1 + 1 + 1 + 4 + 2 + 2 + 4 + 4 + 4 + 4 + 6 + 10 + 192 + 4 + 3 + 1;
    let size_sized = DhcpFixedPayload::byte_len();
    let size_actual = data.to_be_bytes().len();

    assert_eq!(size_sized, size_expected);
    assert_eq!(size_actual, size_expected);
}

/// Make sure we can successfully convert to a byte array.
#[test]
fn dhcp_test_to_be_bytes() {
    let data = dummy_payload();
    let bytes = data.to_be_bytes();
    let actual_size = bytes.len();
    let expected_size = DhcpFixedPayload::byte_len();
    assert_eq!(actual_size, expected_size);
}

/// Build a DHCP fixed payload and make sure the parser returns the same
/// values from the byte representation.
#[test]
fn dhcp_test_serialization_loop() {
    let fixed_part = DhcpFixedPayload::new(
        DhcpOperation::Request,
        DhcpMessageKind::Inform,
        12345,
        true,
        IpV4Addr::new([1, 2, 3, 4]),
        IpV4Addr::new([10, 20, 30, 40]),
        IpV4Addr::new([100, 200, 255, 40]),
        MacAddr::new([11, 21, 31, 41, 51, 123]),
    );

    let bytes = fixed_part.to_be_bytes();
    assert_eq!(bytes.len(), 244);

    let fixed_part_parsed = DhcpFixedPayload::read_bytes(&bytes);

    assert_eq!(fixed_part_parsed, fixed_part);
}

/// An INFORM message puts the cookie, the message-type option, and the
/// client's own address where RFC 2131 places them.
#[test]
fn test_dhcp_inform_layout() {
    let msg = DhcpFixedPayload::new_inform(
        IpV4Addr::new([1, 2, 3, 4]),
        MacAddr::new([5, 6, 7, 8, 9, 10]),
        12345,
    );
    assert_eq!(msg.op, DhcpOperation::Request);
    assert_eq!(msg.kind_option, DhcpMessageKindOption::new(DhcpMessageKind::Inform));
    let bytes = msg.to_be_bytes();
    // xid 12345 in network order
    assert_eq!(&bytes[4..8], &[0x00, 0x00, 0x30, 0x39]);
    // broadcast flag
    assert_eq!(&bytes[8..12], &[0, 0, 0, 1]);
    // client address being announced
    assert_eq!(&bytes[12..16], &[1, 2, 3, 4]);
    // magic cookie
    assert_eq!(&bytes[236..240], &[0x63, 0x82, 0x53, 0x63]);
    // message-type option: code 53, one byte, Inform (8), then a pad byte
    assert_eq!(&bytes[240..244], &[53, 1, 8, 0]);
    // round trip
    assert_eq!(DhcpFixedPayload::read_bytes(&bytes), msg);
}

/// Decoding a byte sequence with a corrupted cookie yields the magic-value
/// error, not a garbage-but-successful structure.
#[test]
fn test_dhcp_cookie_validation() {
    let bytes = dummy_payload().to_be_bytes();
    assert_eq!(DhcpFixedPayload::parse(&bytes), Ok(dummy_payload()));

    let mut corrupted = bytes.clone();
    corrupted[236] = 0xDE;
    assert_eq!(
        DhcpFixedPayload::parse(&corrupted),
        Err(ParseError::InvalidMagicValue { expected: DHCP_COOKIE, actual: 0xDE825363 })
    );

    let mut bad_op = bytes.clone();
    bad_op[0] = 7;
    assert_eq!(DhcpFixedPayload::parse(&bad_op), Err(ParseError::InvalidOperation { actual: 7 }));

    assert_eq!(
        DhcpFixedPayload::parse(&bytes[..100]),
        Err(ParseError::TooShort { expected: 244, actual: 100 })
    );
}

/// Unrecognized DHCP codes are preserved exactly through their carry-all
/// variants.
#[test]
fn test_dhcp_unknown_codes_preserved() {
    assert_eq!(DhcpOperation::from_code(9), DhcpOperation::Unknown(9));
    assert_eq!(DhcpOperation::from_code(9).code(), 9);
    assert_eq!(DhcpMessageKind::from_code(200), DhcpMessageKind::Unknown(200));
    assert_eq!(DhcpMessageKind::from_code(200).code(), 200);
    assert_eq!(DhcpMessageKind::from_code(8), DhcpMessageKind::Inform);
    assert_eq!(DhcpOptionKind::from_code(66), DhcpOptionKind::Unknown(66));
    assert_eq!(DhcpOptionKind::from_code(66).code(), 66);
    assert_eq!(DhcpOptionKind::from_code(53), DhcpOptionKind::DhcpMessageType);
    assert_eq!(DhcpOptionKind::from_code(255), DhcpOptionKind::End);
}
