//! Internet checksum behaviour: the worked IPv4 header example, odd-length
//! folding, incremental accumulation, and the UDP pseudo-header checksum.

use catnip::builder::ip::IPV4Header;
use catnip::codec::WireCodec;
use catnip::ip::{Fragmentation, IpV4Frame, IpV4Header, VersionAndHeaderLength};
use catnip::udp::{calc_udp_checksum, UdpFrame, UdpHeader};
use catnip::{
    calc_ip_checksum, calc_ip_checksum_finalize, calc_ip_checksum_incomplete, ByteArray,
    IpV4Addr, Protocol, DSCP,
};

/// Test the cyclic redundancy check following the worked example header
/// `4500 003c 1c46 4000 4006 b1e6 ac10 0a63 ac10 0a0c`.
#[test]
fn lib_test_calc_ip_checksum() {
    // Sample header with pre-calculated checksum in place
    let ipheader_example_16: &[u16; 10] = &[
        0x4500_u16, 0x003c_u16, 0x1c46_u16, 0x4000_u16, 0x4006_u16, 0xb1e6_u16, 0xac10_u16,
        0x0a63_u16, 0xac10_u16, 0x0a0c_u16,
    ];
    let header: IPV4Header<0> = IPV4Header::<0>::from_16bit_words(&ipheader_example_16[..]);

    // Expected outputs
    let checksum_expected = ipheader_example_16[5]; // The example already has a checksum in place
    let cyclic_checksum_expected: u16 = 0; // With the calculated checksum in place, the sum must fold to 0

    // Make sure that the checksum over the header that already includes a
    // checksum comes out correct
    let cyclic_checksum = calc_ip_checksum(&header.value);
    assert_eq!(cyclic_checksum, cyclic_checksum_expected);
    println!("Cyclic Checksum: {:x}", cyclic_checksum);

    // Make sure that the checksum over the header with the existing
    // checksum removed also comes out correct
    let mut ipheader_example_16_modified_checksum = ipheader_example_16.clone();
    ipheader_example_16_modified_checksum[5] = 0_u16; // Erase existing checksum
    let header: IPV4Header<0> =
        IPV4Header::<0>::from_16bit_words(&ipheader_example_16_modified_checksum[..]);
    let checksum = calc_ip_checksum(&header.value);
    assert_eq!(checksum, checksum_expected);

    // Make sure it errors if a value is changed
    ipheader_example_16_modified_checksum[5] = 1_u16;
    let header: IPV4Header<0> =
        IPV4Header::<0>::from_16bit_words(&ipheader_example_16_modified_checksum[..]);
    let checksum = calc_ip_checksum(&header.value);
    assert_ne!(checksum, 0_u16);

    // Make sure it works for odd-numbered Options length
    let ipheader_16_extended: &[u16; 12] = &[
        0x4500_u16, 0x003c_u16, 0x1c46_u16, 0x4000_u16, 0x4006_u16, 0_u16, 0xac10_u16,
        0x0a63_u16, 0xac10_u16, 0x0a0c_u16, 0x0F00_u16, 0_u16,
    ];
    let mut header: IPV4Header<1> = IPV4Header::<1>::from_16bit_words(&ipheader_16_extended[..]);
    header.header_checksum(); // Apply checksum value
    let cyclic_check = calc_ip_checksum(&header.value);
    assert_eq!(cyclic_check, 0_u16);
}

/// The worked example directly over the raw bytes: a header holding its own
/// correct checksum sums to zero, and the zeroed header reproduces it.
#[test]
fn test_checksum_example_bytes() {
    let with_checksum: [u8; 20] = [
        0x45, 0x00, 0x00, 0x3c, 0x1c, 0x46, 0x40, 0x00, 0x40, 0x06, 0xb1, 0xe6, 0xac, 0x10,
        0x0a, 0x63, 0xac, 0x10, 0x0a, 0x0c,
    ];
    assert_eq!(calc_ip_checksum(&with_checksum), 0x0000);

    let mut zeroed = with_checksum;
    zeroed[10] = 0;
    zeroed[11] = 0;
    assert_eq!(calc_ip_checksum(&zeroed), 0xb1e6);
}

/// Checksum computation over an odd number of bytes still folds correctly:
/// the final byte is paired with a zero low byte.
#[test]
fn test_checksum_odd_length() {
    let mut data: Vec<u8> = vec![
        0x45, 0x00, 0x00, 0x3c, 0x1c, 0x46, 0x40, 0x00, 0x40, 0x06, 0x00, 0x00, 0xac, 0x10,
        0x0a, 0x63, 0xac, 0x10, 0x0a, 0x0c,
    ];
    // 21 bytes: the trailing byte contributes its value shifted into the
    // high half of a zero-padded word
    data.push(0xab);
    assert_eq!(calc_ip_checksum(&data), 0x06e6);
    // Padding with an explicit zero low byte must not change the result
    data.push(0x00);
    assert_eq!(calc_ip_checksum(&data), 0x06e6);
}

/// A 22-byte header variant folds like the 20-byte one with an extra word.
#[test]
fn test_checksum_22_byte_variant() {
    let data: [u8; 22] = [
        0x45, 0x00, 0x00, 0x3c, 0x1c, 0x46, 0x40, 0x00, 0x40, 0x06, 0x00, 0x00, 0xac, 0x10,
        0x0a, 0x63, 0xac, 0x10, 0x0a, 0x0c, 0x0f, 0x00,
    ];
    assert_eq!(calc_ip_checksum(&data), 0xa2e6);
}

/// Folding and complementing the wide accumulator, including the carry
/// wrap-around.
#[test]
fn test_checksum_finalize() {
    assert_eq!(calc_ip_checksum_finalize(0), 0xffff);
    assert_eq!(calc_ip_checksum_finalize(0x0000_ffff), 0x0000);
    // One carry: 0xfffe + 1 = 0xffff
    assert_eq!(calc_ip_checksum_finalize(0x0001_fffe), 0x0000);
    // High half folds back into the low half
    assert_eq!(calc_ip_checksum_finalize(0x0001_0000), 0xfffe);
}

/// The incomplete accumulator sums big-endian words and may be split over
/// even-length regions.
#[test]
fn test_checksum_incomplete_accumulation() {
    assert_eq!(calc_ip_checksum_incomplete(&[0x45, 0x00]), 0x4500);
    // An odd trailing byte occupies the high half of its word
    assert_eq!(calc_ip_checksum_incomplete(&[0x45]), 0x4500);
    let whole = calc_ip_checksum_incomplete(&[0x45, 0x00, 0x12, 0x34]);
    let first = calc_ip_checksum_incomplete(&[0x45, 0x00]);
    let second = calc_ip_checksum_incomplete(&[0x12, 0x34]);
    assert_eq!(whole, first + second);
}

/// A typed IPv4 header whose checksum field holds the checksum computed
/// over its own zero-field encoding sums to zero.
#[test]
fn test_typed_header_checksum_self_consistency() {
    let mut sample_ipv4_header = IpV4Header {
        version_and_header_length: VersionAndHeaderLength::new()
            .with_version(4)
            .with_header_length((IpV4Header::byte_len() / 4) as u8),
        dscp: DSCP::Standard,
        total_length: IpV4Frame::<UdpFrame<ByteArray<8>>>::byte_len() as u16,
        identification: 0,
        fragmentation: Fragmentation::default(),
        time_to_live: 10,
        protocol: Protocol::Udp,
        checksum: 0,
        src_ipaddr: IpV4Addr::new([10, 0, 0, 1]),
        dst_ipaddr: IpV4Addr::new([10, 0, 0, 2]),
    };
    let checksum_pre = calc_ip_checksum(&sample_ipv4_header.to_be_bytes());
    sample_ipv4_header.checksum = checksum_pre;
    let checksum_post = calc_ip_checksum(&sample_ipv4_header.to_be_bytes());

    assert!(checksum_post == 0);
}

/// The UDP pseudo-header checksum over a complete IPv4/UDP datagram.
#[test]
fn test_calc_udp_checksum() {
    let data: ByteArray<8> = ByteArray([0, 1, 2, 3, 4, 5, 6, 7]);
    let frame = IpV4Frame::<UdpFrame<ByteArray<8>>> {
        header: IpV4Header {
            version_and_header_length: VersionAndHeaderLength::new()
                .with_version(4)
                .with_header_length(5),
            dscp: DSCP::Standard,
            total_length: 36,
            identification: 0,
            fragmentation: Fragmentation::default(),
            time_to_live: 10,
            protocol: Protocol::Udp,
            checksum: 0,
            src_ipaddr: IpV4Addr::new([10, 0, 0, 1]),
            dst_ipaddr: IpV4Addr::new([10, 0, 0, 2]),
        },
        data: UdpFrame::<ByteArray<8>> {
            header: UdpHeader { src_port: 8123, dst_port: 8125, length: 16, checksum: 0 },
            data,
        },
    };
    assert_eq!(calc_udp_checksum(&frame), 0xa043);
    // The UDP frame is 16 bytes long
    assert_eq!(UdpFrame::<ByteArray<8>>::byte_len(), 16);
}
