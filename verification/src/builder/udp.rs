//! User Datagram Protocol over the byte-image builder layer.
//!
//! A UDP packet here is the IPv4 header image, the UDP header words and the
//! word-aligned application data; building one populates the length and
//! checksum fields that depend on the combined data.

use vstd::prelude::*;

use crate::builder::ip::{IPV4Header, Protocol, Version};
use crate::builder::{Data, IPV4Addr};
use crate::checksum_of;
use crate::codec::{be16, push_bytes, read_be16, u16_from_be};
use crate::ParseError;

verus! {

/// UDP datagram header held as its four 16-bit words: source port,
/// destination port, total length in bytes (header + data), and checksum.
#[derive(Clone, Copy, Debug, PartialEq, Eq)]
pub struct UDPHeader {
    /// The four header words
    pub value: [u16; 4],
}

impl UDPHeader {
    /// The big-endian byte image of the four words.
    pub open spec fn spec_bytes(self) -> Seq<u8> {
        be16(self.value@[0]) + be16(self.value@[1]) + be16(self.value@[2]) + be16(self.value@[3])
    }

    /// Start a header with the ports populated; length and checksum are
    /// populated later, when the data they depend on is known.
    pub fn new(src_port: u16, dst_port: u16) -> (r: UDPHeader)
        ensures
            r.value@ == seq![src_port, dst_port, 0u16, 0u16],
    {
        let r = UDPHeader { value: [src_port, dst_port, 0, 0] };
        proof {
            assert(r.value@ =~= seq![src_port, dst_port, 0u16, 0u16]);
        }
        r
    }

    /// Get length of byte representation.
    pub fn len(&self) -> (n: usize)
        ensures
            n == 8,
    {
        8
    }

    /// Pack into big-endian (network) byte order.
    pub fn to_be_bytes(&self) -> (r: Vec<u8>)
        ensures
            r@ == self.spec_bytes(),
    {
        let mut out: Vec<u8> = Vec::new();
        crate::codec::push_be16(&mut out, self.value[0]);
        crate::codec::push_be16(&mut out, self.value[1]);
        crate::codec::push_be16(&mut out, self.value[2]);
        crate::codec::push_be16(&mut out, self.value[3]);
        proof {
            assert(out@ =~= self.spec_bytes());
        }
        out
    }
}

/// Parse a UDP header's four words from its byte image: source port,
/// destination port, total length, checksum.
pub fn parse_header_bytes(bytes: &[u8; 8]) -> (r: (u16, u16, u16, u16))
    ensures
        r.0 == u16_from_be(bytes@[0], bytes@[1]),
        r.1 == u16_from_be(bytes@[2], bytes@[3]),
        r.2 == u16_from_be(bytes@[4], bytes@[5]),
        r.3 == u16_from_be(bytes@[6], bytes@[7]),
{
    let s: &[u8] = bytes.as_slice();
    let src_port = read_be16(s, 0);
    let dst_port = read_be16(s, 2);
    let total_length = read_be16(s, 4);
    let checksum = read_be16(s, 6);
    (src_port, dst_port, total_length, checksum)
}

/// IPv4 message frame for the UDP protocol over the byte-image layer. `N` is
/// the size of the IP Options in 32-bit words, `M` the size of the UDP data
/// in 32-bit words.
#[derive(Clone, Debug, PartialEq, Eq)]
pub struct UDPPacket<const N: usize, const M: usize> {
    /// IPv4 packet header image
    pub ip_header: IPV4Header<N>,
    /// UDP datagram header words
    pub udp_header: UDPHeader,
    /// Data to transmit, in a multiple of 32-bit words
    pub udp_data: Data<M>,
}

impl<const N: usize, const M: usize> UDPPacket<N, M> {
    /// Whether the parts have their declared sizes and the whole packet
    /// fits the 16-bit IP length field.
    pub open spec fn wf(self) -> bool {
        self.ip_header.wf() && self.udp_data.wf() && 4 * N + 20 + 4 * M + 8 <= 65535
    }

    /// The byte image of the whole packet.
    pub open spec fn spec_bytes(self) -> Seq<u8> {
        self.ip_header.value@ + self.udp_header.spec_bytes() + self.udp_data.value@
    }

    /// Build a UDP packet and populate the components that depend on the
    /// combined data: the IP total length and header checksum, and the UDP
    /// length. The UDP checksum is zeroed here: it is optional for UDP and
    /// redundant where the Ethernet frame is checksummed; compute it
    /// explicitly where the network requires one.
    pub fn new(ip_header: IPV4Header<N>, udp_header: UDPHeader, udp_data: Data<M>) -> (r:
        UDPPacket<N, M>)
        requires
            ip_header.wf(),
            udp_data.wf(),
            4 * N + 20 + 4 * M + 8 <= 65535,
        ensures
            r.wf(),
            ({
                let with_len = ip_header.value@.update(2, (((4 * N + 20 + 4 * M + 8) as u16)
                    / 256) as u8).update(3, (((4 * N + 20 + 4 * M + 8) as u16) % 256) as u8);
                let zeroed = with_len.update(10, 0u8).update(11, 0u8);
                let c = checksum_of(zeroed);
                r.ip_header.value@ == zeroed.update(10, (c / 256) as u8).update(
                    11,
                    (c % 256) as u8,
                )
            }),
            r.udp_header.value@ == udp_header.value@.update(2, (4 * M + 8) as u16).update(
                3,
                0u16,
            ),
            r.udp_data == udp_data,
    {
        let mut ip_header = ip_header;
        let mut udp_header = udp_header;
        // Set IP frame length, then the checksum over the completed header
        let ip_length: u16 = (4 * N + 20 + 4 * M + 8) as u16;
        ip_header.total_length(ip_length);
        ip_header.header_checksum();
        // Set the UDP packet length in bytes and zero out the UDP checksum
        udp_header.value[2] = (4 * M + 8) as u16;
        udp_header.value[3] = 0;
        UDPPacket { ip_header, udp_header, udp_data }
    }

    /// Get length of byte representation.
    pub fn len(&self) -> (n: usize)
        requires
            self.wf(),
        ensures
            n == 4 * N + 20 + 4 * M + 8,
    {
        4 * N + 20 + 4 * M + 8
    }

    /// Pack into big-endian (network) byte order: IP header, UDP header,
    /// then the data.
    pub fn to_be_bytes(&self) -> (r: Vec<u8>)
        ensures
            r@ == self.spec_bytes(),
    {
        let mut out: Vec<u8> = Vec::new();
        push_bytes(&mut out, self.ip_header.value.as_slice());
        let header_bytes = self.udp_header.to_be_bytes();
        push_bytes(&mut out, header_bytes.as_slice());
        push_bytes(&mut out, self.udp_data.value.as_slice());
        proof {
            assert(out@ =~= self.spec_bytes());
        }
        out
    }
}

/// The fields parse_packet_bytes extracts from an IPv4 UDP packet.
#[derive(Clone, Debug, PartialEq, Eq)]
pub struct ParsedUdpPacket {
    /// The UDP application data
    pub data: Vec<u8>,
    /// The raw IP Options bytes, possibly empty, not interpreted
    pub options: Vec<u8>,
    /// Source IP address
    pub src_ipaddr: IPV4Addr,
    /// Source port
    pub src_port: u16,
    /// Destination IP address
    pub dst_ipaddr: IPV4Addr,
    /// Destination port
    pub dst_port: u16,
    /// IP version field
    pub version: Version,
    /// Transport protocol field
    pub protocol: Protocol,
    /// UDP checksum field
    pub checksum: u16,
    /// IP identification field
    pub identification: u16,
}

/// Attempt to parse an IPv4 UDP packet's components from bytes, checking
/// that this is in fact an IPv4 UDP packet whose length fields agree with
/// the byte count, and erring otherwise.
pub fn parse_packet_bytes(bytes: &[u8]) -> (r: Result<ParsedUdpPacket, ParseError>)
    ensures
        ({
            let p = bytes@.len();
            let total_length = u16_from_be(bytes@[2], bytes@[3]) as int;
            let hl = (bytes@[0] % 16) * 4;
            let udp_at = hl as int;
            if p < 20 {
                r == Err::<ParsedUdpPacket, ParseError>(
                    ParseError::TooShort { expected: 20usize, actual: p as usize },
                )
            } else if p != total_length {
                r == Err::<ParsedUdpPacket, ParseError>(
                    ParseError::LengthMismatch {
                        expected: p as usize,
                        actual: total_length as usize,
                    },
                )
            } else if hl < 20 {
                r == Err::<ParsedUdpPacket, ParseError>(
                    ParseError::LengthMismatch { expected: 20usize, actual: hl as usize },
                )
            } else if p < hl {
                r == Err::<ParsedUdpPacket, ParseError>(
                    ParseError::TooShort { expected: hl as usize, actual: p as usize },
                )
            } else if bytes@[9] != 0x11 {
                r == Err::<ParsedUdpPacket, ParseError>(
                    ParseError::UnsupportedProtocol { actual: bytes@[9] },
                )
            } else if bytes@[0] / 16 != 4 {
                r == Err::<ParsedUdpPacket, ParseError>(
                    ParseError::UnsupportedVersion { actual: (bytes@[0] / 16) as u8 },
                )
            } else if p < udp_at + 8 {
                r == Err::<ParsedUdpPacket, ParseError>(
                    ParseError::TooShort { expected: (udp_at + 8) as usize, actual: p as usize },
                )
            } else {
                r matches Ok(v) && v.data@ == bytes@.subrange(udp_at + 8, p as int) && v.options@
                    == bytes@.subrange(20, udp_at) && v.src_ipaddr.value@ == bytes@.subrange(
                    12,
                    16,
                ) && v.src_port == u16_from_be(bytes@[udp_at], bytes@[udp_at + 1])
                    && v.dst_ipaddr.value@ == bytes@.subrange(16, 20) && v.dst_port == u16_from_be(
                    bytes@[udp_at + 2],
                    bytes@[udp_at + 3],
                ) && v.version == Version::V4 && v.protocol == Protocol::UDP && v.checksum
                    == u16_from_be(bytes@[udp_at + 6], bytes@[udp_at + 7]) && v.identification
                    == u16_from_be(bytes@[4], bytes@[5])
            }
        }),
{
    let p: usize = bytes.len();
    // Check that there is enough data for an IP header at all
    if p < 20 {
        return Err(ParseError::TooShort { expected: 20, actual: p });
    }
    let total_length: u16 = read_be16(bytes, 2);
    // Make sure the length field matches reality
    if p != total_length as usize {
        return Err(ParseError::LengthMismatch { expected: p, actual: total_length as usize });
    }
    // Convert the declared header length to bytes from words; a declared
    // header shorter than the fixed fields is inconsistent
    let header_length: usize = ((bytes[0] % 16) as usize) * 4;
    if header_length < 20 {
        return Err(ParseError::LengthMismatch { expected: 20, actual: header_length });
    }
    // Do we have the full header including Options?
    if p < header_length {
        return Err(ParseError::TooShort { expected: header_length, actual: p });
    }
    // Check what protocol defines the structure of the payload
    let protocol_code: u8 = bytes[9];
    if protocol_code != 0x11 {
        return Err(ParseError::UnsupportedProtocol { actual: protocol_code });
    }
    // Check the IP version
    let version_code: u8 = bytes[0] / 16;
    if version_code != 4 {
        return Err(ParseError::UnsupportedVersion { actual: version_code });
    }
    // Make sure there is at least a full UDP header worth of data left
    if p - header_length < 8 {
        return Err(ParseError::TooShort { expected: header_length + 8, actual: p });
    }
    let identification: u16 = read_be16(bytes, 4);
    let mut src: [u8; 4] = [0u8; 4];
    let mut dst: [u8; 4] = [0u8; 4];
    let mut i: usize = 0;
    while i < 4
        invariant
            i <= 4,
            20 <= bytes@.len(),
            forall|j: int| 0 <= j < i ==> src@[j] == bytes@[12 + j],
            forall|j: int| 0 <= j < i ==> dst@[j] == bytes@[16 + j],
        decreases 4 - i,
    {
        src[i] = bytes[12 + i];
        dst[i] = bytes[16 + i];
        i = i + 1;
    }
    // If there is an IP Options segment, keep it as a chunk but do not
    // interpret it
    let mut options: Vec<u8> = Vec::new();
    let mut k: usize = 20;
    while k < header_length
        invariant
            20 <= k <= header_length <= bytes@.len(),
            options@ == bytes@.subrange(20, k as int),
        decreases header_length - k,
    {
        options.push(bytes[k]);
        proof {
            assert(bytes@.subrange(20, k as int) + seq![bytes@[k as int]] =~= bytes@.subrange(
                20,
                k as int + 1,
            ));
        }
        k = k + 1;
    }
    // This is an IPv4 UDP packet: read the UDP header words
    let src_port: u16 = read_be16(bytes, header_length);
    let dst_port: u16 = read_be16(bytes, header_length + 2);
    let checksum: u16 = read_be16(bytes, header_length + 6);
    // Extract the UDP application data
    let mut data: Vec<u8> = Vec::new();
    let mut d: usize = header_length + 8;
    while d < p
        invariant
            header_length + 8 <= d <= p,
            p == bytes@.len(),
            data@ == bytes@.subrange(header_length + 8, d as int),
        decreases p - d,
    {
        data.push(bytes[d]);
        proof {
            assert(bytes@.subrange(header_length + 8, d as int) + seq![bytes@[d as int]]
                =~= bytes@.subrange(header_length + 8, d as int + 1));
        }
        d = d + 1;
    }
    let parsed = ParsedUdpPacket {
        data,
        options,
        src_ipaddr: IPV4Addr { value: src },
        src_port,
        dst_ipaddr: IPV4Addr { value: dst },
        dst_port,
        version: Version::V4,
        protocol: Protocol::UDP,
        checksum,
        identification,
    };
    proof {
        assert(parsed.src_ipaddr.value@ =~= bytes@.subrange(12, 16));
        assert(parsed.dst_ipaddr.value@ =~= bytes@.subrange(16, 20));
    }
    Ok(parsed)
}

} // verus!
