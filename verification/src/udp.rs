//! Transport layer: User Datagram Protocol.
//!
//! The 8-byte UDP header and the UDP frame around an arbitrary payload. The
//! UDP checksum is computed over a synthesized pseudo-header (IP addresses,
//! protocol, UDP length) followed by the real header and data; it is optional
//! for UDP and may be legitimately zero, a policy the caller chooses.

use vstd::prelude::*;

use crate::codec::{be16, push_be16, read_be16, u16_from_be, WireCodec};
use crate::ip::IpV4Frame;
use crate::{calc_ip_checksum_finalize, calc_ip_checksum_incomplete, checksum_sum, fold16,
    lemma_checksum_concat_even, lemma_checksum_sum_bound, ParseError};

verus! {

/// UDP datagram header structure for IPv4.
#[derive(Clone, Copy, Debug, PartialEq, Eq, Structural)]
pub struct UdpHeader {
    /// Source port
    pub src_port: u16,
    /// Destination port
    pub dst_port: u16,
    /// Total frame length including header and data, in bytes
    pub length: u16,
    /// IP-style checksum, calculated from a pseudo-header rather than the
    /// actual header; optional for UDP and usually supplied by hardware
    pub checksum: u16,
}

impl WireCodec for UdpHeader {
    open spec fn spec_byte_len() -> nat {
        8
    }

    open spec fn wire(self) -> Seq<u8> {
        be16(self.src_port) + be16(self.dst_port) + be16(self.length) + be16(self.checksum)
    }

    open spec fn from_wire(b: Seq<u8>) -> Self {
        UdpHeader {
            src_port: u16_from_be(b[0], b[1]),
            dst_port: u16_from_be(b[2], b[3]),
            length: u16_from_be(b[4], b[5]),
            checksum: u16_from_be(b[6], b[7]),
        }
    }

    open spec fn wf(self) -> bool {
        true
    }

    proof fn lemma_wire_len(self) {
    }

    proof fn lemma_round_trip(self) {
        crate::codec::lemma_be16_round_trip(self.src_port);
        crate::codec::lemma_be16_round_trip(self.dst_port);
        crate::codec::lemma_be16_round_trip(self.length);
        crate::codec::lemma_be16_round_trip(self.checksum);
    }

    proof fn lemma_from_wire_wf(b: Seq<u8>) {
    }

    fn byte_len() -> usize {
        8
    }

    fn encode(&self, buf: &mut Vec<u8>) {
        push_be16(buf, self.src_port);
        push_be16(buf, self.dst_port);
        push_be16(buf, self.length);
        push_be16(buf, self.checksum);
        proof {
            assert(buf@ =~= old(buf)@ + self.wire());
        }
    }

    fn decode(bytes: &[u8], at: usize) -> (r: Self) {
        let _n: usize = bytes.len();
        UdpHeader {
            src_port: read_be16(bytes, at),
            dst_port: read_be16(bytes, at + 2),
            length: read_be16(bytes, at + 4),
            checksum: read_be16(bytes, at + 6),
        }
    }
}

impl UdpHeader {
    /// Get length of byte representation.
    pub fn len(&self) -> (n: usize)
        ensures
            n == Self::spec_byte_len(),
    {
        8
    }

    /// Pack into big-endian (network) byte order.
    pub fn to_be_bytes(&self) -> (r: Vec<u8>)
        ensures
            r@ == self.wire(),
    {
        let mut out: Vec<u8> = Vec::new();
        self.encode(&mut out);
        out
    }

    /// Decode from a buffer holding at least the header's 8 bytes.
    pub fn read_bytes(bytes: &[u8]) -> (r: Self)
        requires
            8 <= bytes@.len(),
        ensures
            r == Self::from_wire(bytes@.subrange(0, 8)),
    {
        Self::decode(bytes, 0)
    }
}

/// UDP message frame around an arbitrary wire-codec payload. The header's
/// `length` field must equal the frame's encoded length; builders set it
/// explicitly, and [`UdpFrame::parse`] validates it after decoding.
#[derive(Clone, Copy, Debug, PartialEq, Eq)]
pub struct UdpFrame<T> where T: WireCodec {
    /// UDP packet header
    pub header: UdpHeader,
    /// Data to transmit
    pub data: T,
}

impl<T: WireCodec> WireCodec for UdpFrame<T> {
    open spec fn spec_byte_len() -> nat {
        8 + T::spec_byte_len()
    }

    open spec fn wire(self) -> Seq<u8> {
        self.header.wire() + self.data.wire()
    }

    open spec fn from_wire(b: Seq<u8>) -> Self {
        UdpFrame {
            header: UdpHeader::from_wire(b.subrange(0, 8)),
            data: T::from_wire(b.subrange(8, 8 + T::spec_byte_len() as int)),
        }
    }

    open spec fn wf(self) -> bool {
        self.data.wf()
    }

    proof fn lemma_wire_len(self) {
        self.data.lemma_wire_len();
    }

    proof fn lemma_round_trip(self) {
        let w = self.wire();
        self.data.lemma_wire_len();
        assert(w.subrange(0, 8) =~= self.header.wire());
        assert(w.subrange(8, 8 + T::spec_byte_len() as int) =~= self.data.wire());
        self.header.lemma_round_trip();
        self.data.lemma_round_trip();
    }

    proof fn lemma_from_wire_wf(b: Seq<u8>) {
        T::lemma_from_wire_wf(b.subrange(8, 8 + T::spec_byte_len() as int));
    }

    fn byte_len() -> (n: usize)
        ensures
            n == Self::spec_byte_len(),
    {
        8 + T::byte_len()
    }

    fn encode(&self, buf: &mut Vec<u8>) {
        self.header.encode(buf);
        self.data.encode(buf);
        proof {
            assert(buf@ =~= old(buf)@ + self.wire());
        }
    }

    fn decode(bytes: &[u8], at: usize) -> (r: Self) {
        let _n: usize = bytes.len();
        let header = UdpHeader::decode(bytes, at);
        let data = T::decode(bytes, at + 8);
        let r = UdpFrame { header, data };
        proof {
            let m = 8 + T::spec_byte_len() as int;
            let w = bytes@.subrange(at as int, at as int + m);
            assert(w.subrange(0, 8) =~= bytes@.subrange(at as int, at as int + 8));
            assert(w.subrange(8, m) =~= bytes@.subrange(at as int + 8, at as int + m));
        }
        r
    }
}

impl<T: WireCodec> UdpFrame<T> {
    /// Pack into big-endian (network) byte order.
    pub fn to_be_bytes(&self) -> (r: Vec<u8>)
        ensures
            r@ == self.wire(),
    {
        let mut out: Vec<u8> = Vec::new();
        self.encode(&mut out);
        out
    }

    /// Decode from a buffer holding at least the frame's bytes.
    pub fn read_bytes(bytes: &[u8]) -> (r: Self)
        requires
            Self::spec_byte_len() <= bytes@.len(),
        ensures
            r == Self::from_wire(bytes@.subrange(0, Self::spec_byte_len() as int)),
    {
        Self::decode(bytes, 0)
    }

    /// Validating parse: decode, then check the `length` field against the
    /// frame's actual byte count. Succeeds exactly on buffers that hold the
    /// frame and declare the frame's own length.
    pub fn parse(bytes: &[u8]) -> (r: Result<Self, ParseError>)
        requires
            Self::spec_byte_len() <= usize::MAX,
        ensures
            ({
                let len = Self::spec_byte_len() as int;
                let h = UdpHeader::from_wire(bytes@.subrange(0, 8));
                if bytes@.len() < len {
                    r == Err::<Self, ParseError>(
                        ParseError::TooShort {
                            expected: Self::spec_byte_len() as usize,
                            actual: bytes@.len() as usize,
                        },
                    )
                } else if h.length != len {
                    r == Err::<Self, ParseError>(
                        ParseError::LengthMismatch {
                            expected: Self::spec_byte_len() as usize,
                            actual: h.length as usize,
                        },
                    )
                } else {
                    r == Ok::<Self, ParseError>(Self::from_wire(bytes@.subrange(0, len)))
                }
            }),
    {
        let len: usize = Self::byte_len();
        let n: usize = bytes.len();
        if n < len {
            return Err(ParseError::TooShort { expected: len, actual: n });
        }
        let frame = Self::decode(bytes, 0);
        proof {
            let w = bytes@.subrange(0, Self::spec_byte_len() as int);
            assert(w.subrange(0, 8) =~= bytes@.subrange(0, 8));
        }
        if frame.header.length as usize != len {
            return Err(
                ParseError::LengthMismatch { expected: len, actual: frame.header.length as usize },
            );
        }
        Ok(frame)
    }
}

/// The byte sequence the UDP checksum is computed over: the pseudo-header
/// (source address, destination address, a zero byte, the protocol code, the
/// UDP length field) followed by the encoded UDP frame, clipped to the length
/// the header declares so that junk past a short datagram is not consumed.
pub open spec fn udp_checksum_input<T: WireCodec>(f: IpV4Frame<UdpFrame<T>>) -> Seq<u8> {
    let udp_len = f.data.header.length as int;
    let frame_len = UdpFrame::<T>::spec_byte_len() as int;
    let clip = if udp_len <= frame_len {
        udp_len
    } else {
        frame_len
    };
    f.header.src_ipaddr@ + f.header.dst_ipaddr@ + seq![
        0u8,
        f.header.protocol.spec_code(),
        (f.data.header.length / 256) as u8,
        (f.data.header.length % 256) as u8,
    ] + f.data.wire().subrange(0, clip)
}

/// UDP checksum calculation with the pseudo-header that borrows from the IP
/// header. Whether the computed value is stored or the field is left zero
/// (legitimate for UDP, and redundant where hardware checksums the frame) is
/// the caller's choice.
pub fn calc_udp_checksum<T: WireCodec>(ipframe: &IpV4Frame<UdpFrame<T>>) -> (checksum: u16)
    requires
        UdpFrame::<T>::spec_byte_len() <= 65535,
    ensures
        checksum == 0xffff - fold16(checksum_sum(udp_checksum_input(*ipframe))),
{
    proof {
        ipframe.data.lemma_wire_len();
    }
    let udp_len: u16 = ipframe.data.header.length;
    // The pseudo-header word that has no direct field: a zero byte, the
    // protocol code, and the UDP length in big-endian order
    let pseudo: [u8; 4] = [0u8, ipframe.header.protocol.code(), (udp_len / 256) as u8, (
    udp_len % 256) as u8];
    let src_bytes = ipframe.header.src_ipaddr.to_be_bytes();
    let dst_bytes = ipframe.header.dst_ipaddr.to_be_bytes();
    let mut udp_bytes = ipframe.data.to_be_bytes();
    // Clip to the declared length so a short datagram does not checksum
    // bytes past its own end
    let frame_len: usize = UdpFrame::<T>::byte_len();
    let index: usize = if (udp_len as usize) < frame_len {
        udp_len as usize
    } else {
        frame_len
    };
    udp_bytes.truncate(index);
    let sum_src = calc_ip_checksum_incomplete(src_bytes.as_slice());
    let sum_dst = calc_ip_checksum_incomplete(dst_bytes.as_slice());
    let sum_pseudo = calc_ip_checksum_incomplete(pseudo.as_slice());
    proof {
        lemma_checksum_sum_bound(src_bytes@);
        lemma_checksum_sum_bound(dst_bytes@);
        lemma_checksum_sum_bound(pseudo@);
        lemma_checksum_sum_bound(udp_bytes@);
    }
    let sum_udp = calc_ip_checksum_incomplete(udp_bytes.as_slice());
    let sum: u32 = sum_src + sum_dst + sum_pseudo + sum_udp;
    let checksum: u16 = calc_ip_checksum_finalize(sum);
    proof {
        let all = udp_checksum_input(*ipframe);
        let pseudo_word = seq![
            0u8,
            ipframe.header.protocol.spec_code(),
            (ipframe.data.header.length / 256) as u8,
            (ipframe.data.header.length % 256) as u8,
        ];
        assert(pseudo@ =~= pseudo_word);
        lemma_checksum_concat_even(
            ipframe.header.src_ipaddr@,
            ipframe.header.dst_ipaddr@ + pseudo_word + udp_bytes@,
        );
        lemma_checksum_concat_even(ipframe.header.dst_ipaddr@, pseudo_word + udp_bytes@);
        lemma_checksum_concat_even(pseudo_word, udp_bytes@);
        assert(ipframe.header.src_ipaddr@ + (ipframe.header.dst_ipaddr@ + pseudo_word
            + udp_bytes@) =~= all);
        assert(ipframe.header.dst_ipaddr@ + (pseudo_word + udp_bytes@)
            =~= ipframe.header.dst_ipaddr@ + pseudo_word + udp_bytes@);
        assert(pseudo_word + udp_bytes@ =~= pseudo_word + udp_bytes@);
    }
    checksum
}

} // verus!
