//! Internet layer: Internet Protocol message header construction.
//!
//! The 20-byte IPv4 header (no Options segment) with its two bit-packed
//! fields: the combined version/header-length byte and the 16-bit
//! fragmentation word.

use vstd::prelude::*;

use crate::codec::{be16, push_be16, read_be16, u16_from_be, WireCodec};
use crate::{IpV4Addr, ParseError, Protocol, DSCP};

verus! {

/// Combined IP version and header length in a single byte: the version
/// occupies the high nibble (bits 4-7) and the header length in 32-bit words
/// the low nibble (bits 0-3), as the protocol documents them.
#[derive(Clone, Copy, Debug, PartialEq, Eq, Structural)]
pub struct VersionAndHeaderLength {
    /// The packed byte. Every bit pattern is a valid value.
    pub value: u8,
}

impl VersionAndHeaderLength {
    /// IP version number held in the high nibble.
    pub open spec fn spec_version(self) -> u8 {
        (self.value / 16) as u8
    }

    /// Header length in 32-bit words held in the low nibble (usually 5
    /// words, or 20 bytes).
    pub open spec fn spec_header_length(self) -> u8 {
        (self.value % 16) as u8
    }

    /// A zeroed version/header-length byte to fill in from.
    pub fn new() -> (r: Self)
        ensures
            r.value == 0,
    {
        VersionAndHeaderLength { value: 0 }
    }

    /// The same byte with the version nibble replaced.
    pub fn with_version(self, v: u8) -> (r: Self)
        requires
            v < 16,
        ensures
            r.spec_version() == v,
            r.spec_header_length() == self.spec_header_length(),
    {
        VersionAndHeaderLength { value: self.value % 16 + v * 16 }
    }

    /// The same byte with the header-length nibble replaced.
    pub fn with_header_length(self, v: u8) -> (r: Self)
        requires
            v < 16,
        ensures
            r.spec_header_length() == v,
            r.spec_version() == self.spec_version(),
    {
        VersionAndHeaderLength { value: self.value - self.value % 16 + v }
    }

    /// IP version number held in the high nibble.
    pub fn version(&self) -> (r: u8)
        ensures
            r == self.spec_version(),
    {
        self.value / 16
    }

    /// Header length in 32-bit words held in the low nibble.
    pub fn header_length(&self) -> (r: u8)
        ensures
            r == self.spec_header_length(),
    {
        self.value % 16
    }
}

impl WireCodec for VersionAndHeaderLength {
    open spec fn spec_byte_len() -> nat {
        1
    }

    open spec fn wire(self) -> Seq<u8> {
        seq![self.value]
    }

    open spec fn from_wire(b: Seq<u8>) -> Self {
        VersionAndHeaderLength { value: b[0] }
    }

    open spec fn wf(self) -> bool {
        true
    }

    proof fn lemma_wire_len(self) {
    }

    proof fn lemma_round_trip(self) {
    }

    proof fn lemma_from_wire_wf(b: Seq<u8>) {
    }

    fn byte_len() -> usize {
        1
    }

    fn encode(&self, buf: &mut Vec<u8>) {
        buf.push(self.value);
        proof {
            assert(buf@ =~= old(buf)@ + self.wire());
        }
    }

    fn decode(bytes: &[u8], at: usize) -> (r: Self) {
        VersionAndHeaderLength { value: bytes[at] }
    }
}

/// Fragmentation flags and offset info packed into a 16-bit word: one
/// reserved bit, the do-not-fragment flag, the more-fragments flag, then the
/// 13-bit fragment offset, most significant field first.
#[derive(Clone, Copy, Debug, PartialEq, Eq, Structural)]
pub struct Fragmentation {
    /// Flag for routers to drop packets instead of fragmenting
    pub do_not_fragment: bool,
    /// Flag that there are more fragments coming
    pub more_fragments: bool,
    /// Where we are in a set of fragments; at most 13 bits (under 8192)
    pub offset: u16,
}

impl Fragmentation {
    /// The packed 16-bit word, with the reserved bit zero.
    pub open spec fn spec_packed(self) -> u16 {
        ((if self.do_not_fragment {
            0x4000int
        } else {
            0int
        }) + (if self.more_fragments {
            0x2000int
        } else {
            0int
        }) + (self.offset % 0x2000) as int) as u16
    }

    /// Cleared flags and a zero offset.
    pub fn new() -> (r: Self)
        ensures
            r == (Fragmentation { do_not_fragment: false, more_fragments: false, offset: 0u16 }),
    {
        Fragmentation { do_not_fragment: false, more_fragments: false, offset: 0 }
    }

    /// The same word with the do-not-fragment flag replaced.
    pub fn with_do_not_fragment(self, v: bool) -> (r: Self)
        ensures
            r == (Fragmentation { do_not_fragment: v, ..self }),
    {
        Fragmentation { do_not_fragment: v, ..self }
    }

    /// The same word with the more-fragments flag replaced.
    pub fn with_more_fragments(self, v: bool) -> (r: Self)
        ensures
            r == (Fragmentation { more_fragments: v, ..self }),
    {
        Fragmentation { more_fragments: v, ..self }
    }

    /// The same word with the fragment offset replaced.
    pub fn with_offset(self, v: u16) -> (r: Self)
        requires
            v < 0x2000,
        ensures
            r == (Fragmentation { offset: v, ..self }),
    {
        Fragmentation { offset: v, ..self }
    }
}

impl Default for Fragmentation {
    /// Cleared flags and a zero offset.
    fn default() -> (r: Self)
        ensures
            r == (Fragmentation { do_not_fragment: false, more_fragments: false, offset: 0u16 }),
    {
        Fragmentation { do_not_fragment: false, more_fragments: false, offset: 0 }
    }
}

impl WireCodec for Fragmentation {
    open spec fn spec_byte_len() -> nat {
        2
    }

    open spec fn wire(self) -> Seq<u8> {
        be16(self.spec_packed())
    }

    open spec fn from_wire(b: Seq<u8>) -> Self {
        let x = u16_from_be(b[0], b[1]);
        Fragmentation {
            do_not_fragment: x / 0x4000 % 2 == 1,
            more_fragments: x / 0x2000 % 2 == 1,
            offset: (x % 0x2000) as u16,
        }
    }

    open spec fn wf(self) -> bool {
        self.offset < 0x2000
    }

    proof fn lemma_wire_len(self) {
    }

    proof fn lemma_round_trip(self) {
        crate::codec::lemma_be16_round_trip(self.spec_packed());
    }

    proof fn lemma_from_wire_wf(b: Seq<u8>) {
    }

    fn byte_len() -> usize {
        2
    }

    fn encode(&self, buf: &mut Vec<u8>) {
        let packed: u16 = (if self.do_not_fragment {
            0x4000u16
        } else {
            0u16
        }) + (if self.more_fragments {
            0x2000u16
        } else {
            0u16
        }) + self.offset % 0x2000;
        push_be16(buf, packed);
    }

    fn decode(bytes: &[u8], at: usize) -> (r: Self) {
        let x: u16 = read_be16(bytes, at);
        Fragmentation {
            do_not_fragment: x / 0x4000 % 2 == 1,
            more_fragments: x / 0x2000 % 2 == 1,
            offset: x % 0x2000,
        }
    }
}

/// IPv4 header per IETF-RFC-791, 20 bytes, with no Options segment.
#[derive(Clone, Copy, Debug, PartialEq, Eq)]
pub struct IpV4Header {
    /// Combined version and header length info in a single byte
    pub version_and_header_length: VersionAndHeaderLength,
    /// Type of Service / Differentiated-Service
    pub dscp: DSCP,
    /// Total length including header and data
    pub total_length: u16,
    /// Mostly-legacy id field
    pub identification: u16,
    /// Mostly-legacy packet fragmentation info
    pub fragmentation: Fragmentation,
    /// TTL counter
    pub time_to_live: u8,
    /// Transport-layer protocol
    pub protocol: Protocol,
    /// Header checksum; zero-able and independently verifiable
    pub checksum: u16,
    /// Source IP address
    pub src_ipaddr: IpV4Addr,
    /// Destination IP address
    pub dst_ipaddr: IpV4Addr,
}

impl WireCodec for IpV4Header {
    open spec fn spec_byte_len() -> nat {
        20
    }

    open spec fn wire(self) -> Seq<u8> {
        self.version_and_header_length.wire() + self.dscp.wire() + be16(self.total_length)
            + be16(self.identification) + self.fragmentation.wire() + seq![self.time_to_live]
            + self.protocol.wire() + be16(self.checksum) + self.src_ipaddr@ + self.dst_ipaddr@
    }

    open spec fn from_wire(b: Seq<u8>) -> Self {
        IpV4Header {
            version_and_header_length: VersionAndHeaderLength { value: b[0] },
            dscp: DSCP::spec_from_code(b[1]),
            total_length: u16_from_be(b[2], b[3]),
            identification: u16_from_be(b[4], b[5]),
            fragmentation: Fragmentation::from_wire(b.subrange(6, 8)),
            time_to_live: b[8],
            protocol: Protocol::spec_from_code(b[9]),
            checksum: u16_from_be(b[10], b[11]),
            src_ipaddr: IpV4Addr::from_wire(b.subrange(12, 16)),
            dst_ipaddr: IpV4Addr::from_wire(b.subrange(16, 20)),
        }
    }

    open spec fn wf(self) -> bool {
        self.dscp.wf() && self.fragmentation.wf() && self.protocol.wf()
    }

    proof fn lemma_wire_len(self) {
    }

    proof fn lemma_round_trip(self) {
        let w = self.wire();
        assert(w.subrange(6, 8) =~= self.fragmentation.wire());
        assert(w.subrange(12, 16) =~= self.src_ipaddr@);
        assert(w.subrange(16, 20) =~= self.dst_ipaddr@);
        self.fragmentation.lemma_round_trip();
        self.src_ipaddr.lemma_round_trip();
        self.dst_ipaddr.lemma_round_trip();
        crate::codec::lemma_be16_round_trip(self.total_length);
        crate::codec::lemma_be16_round_trip(self.identification);
        crate::codec::lemma_be16_round_trip(self.checksum);
    }

    proof fn lemma_from_wire_wf(b: Seq<u8>) {
    }

    fn byte_len() -> usize {
        20
    }

    fn encode(&self, buf: &mut Vec<u8>) {
        self.version_and_header_length.encode(buf);
        self.dscp.encode(buf);
        push_be16(buf, self.total_length);
        push_be16(buf, self.identification);
        self.fragmentation.encode(buf);
        buf.push(self.time_to_live);
        self.protocol.encode(buf);
        push_be16(buf, self.checksum);
        self.src_ipaddr.encode(buf);
        self.dst_ipaddr.encode(buf);
        proof {
            assert(buf@ =~= old(buf)@ + self.wire());
        }
    }

    fn decode(bytes: &[u8], at: usize) -> (r: Self) {
        let _n: usize = bytes.len();
        let r = IpV4Header {
            version_and_header_length: VersionAndHeaderLength { value: bytes[at] },
            dscp: DSCP::from_code(bytes[at + 1]),
            total_length: read_be16(bytes, at + 2),
            identification: read_be16(bytes, at + 4),
            fragmentation: Fragmentation::decode(bytes, at + 6),
            time_to_live: bytes[at + 8],
            protocol: Protocol::from_code(bytes[at + 9]),
            checksum: read_be16(bytes, at + 10),
            src_ipaddr: IpV4Addr::decode(bytes, at + 12),
            dst_ipaddr: IpV4Addr::decode(bytes, at + 16),
        };
        proof {
            let w = bytes@.subrange(at as int, at as int + 20);
            assert(w.subrange(6, 8) =~= bytes@.subrange(at as int + 6, at as int + 8));
            assert(w.subrange(12, 16) =~= bytes@.subrange(at as int + 12, at as int + 16));
            assert(w.subrange(16, 20) =~= bytes@.subrange(at as int + 16, at as int + 20));
        }
        r
    }
}

impl IpV4Header {
    /// Pack into big-endian (network) byte order.
    pub fn to_be_bytes(&self) -> (r: Vec<u8>)
        ensures
            r@ == self.wire(),
    {
        let mut out: Vec<u8> = Vec::new();
        self.encode(&mut out);
        out
    }

    /// Decode from a buffer holding at least the header's 20 bytes.
    pub fn read_bytes(bytes: &[u8]) -> (r: Self)
        requires
            20 <= bytes@.len(),
        ensures
            r == Self::from_wire(bytes@.subrange(0, 20)),
    {
        Self::decode(bytes, 0)
    }
}

/// IPv4 frame with header and an arbitrary wire-codec payload. The header's
/// `total_length` field must equal the frame's encoded length; builders set
/// it explicitly, and [`IpV4Frame::parse`] validates it after decoding.
#[derive(Clone, Copy, Debug, PartialEq, Eq)]
pub struct IpV4Frame<T> where T: WireCodec {
    /// IP header
    pub header: IpV4Header,
    /// Data such as a UDP frame
    pub data: T,
}

impl<T: WireCodec> WireCodec for IpV4Frame<T> {
    open spec fn spec_byte_len() -> nat {
        20 + T::spec_byte_len()
    }

    open spec fn wire(self) -> Seq<u8> {
        self.header.wire() + self.data.wire()
    }

    open spec fn from_wire(b: Seq<u8>) -> Self {
        IpV4Frame {
            header: IpV4Header::from_wire(b.subrange(0, 20)),
            data: T::from_wire(b.subrange(20, 20 + T::spec_byte_len() as int)),
        }
    }

    open spec fn wf(self) -> bool {
        self.header.wf() && self.data.wf()
    }

    proof fn lemma_wire_len(self) {
        self.header.lemma_wire_len();
        self.data.lemma_wire_len();
    }

    proof fn lemma_round_trip(self) {
        let w = self.wire();
        self.header.lemma_wire_len();
        self.data.lemma_wire_len();
        assert(w.subrange(0, 20) =~= self.header.wire());
        assert(w.subrange(20, 20 + T::spec_byte_len() as int) =~= self.data.wire());
        self.header.lemma_round_trip();
        self.data.lemma_round_trip();
    }

    proof fn lemma_from_wire_wf(b: Seq<u8>) {
        IpV4Header::lemma_from_wire_wf(b.subrange(0, 20));
        T::lemma_from_wire_wf(b.subrange(20, 20 + T::spec_byte_len() as int));
    }

    fn byte_len() -> (n: usize)
        ensures
            n == Self::spec_byte_len(),
    {
        20 + T::byte_len()
    }

    fn encode(&self, buf: &mut Vec<u8>) {
        self.header.encode(buf);
        self.data.encode(buf);
        proof {
            assert(buf@ =~= old(buf)@ + self.wire());
        }
    }

    fn decode(bytes: &[u8], at: usize) -> (r: Self) {
        let _n: usize = bytes.len();
        let header = IpV4Header::decode(bytes, at);
        let data = T::decode(bytes, at + 20);
        let r = IpV4Frame { header, data };
        proof {
            let m = 20 + T::spec_byte_len() as int;
            let w = bytes@.subrange(at as int, at as int + m);
            assert(w.subrange(0, 20) =~= bytes@.subrange(at as int, at as int + 20));
            assert(w.subrange(20, m) =~= bytes@.subrange(at as int + 20, at as int + m));
        }
        r
    }
}

impl<T: WireCodec> IpV4Frame<T> {
    /// Pack into big-endian (network) byte order.
    pub fn to_be_bytes(&self) -> (r: Vec<u8>)
        ensures
            r@ == self.wire(),
    {
        let mut out: Vec<u8> = Vec::new();
        self.encode(&mut out);
        out
    }

    /// Decode from a buffer holding at least the frame's bytes.
    pub fn read_bytes(bytes: &[u8]) -> (r: Self)
        requires
            Self::spec_byte_len() <= bytes@.len(),
        ensures
            r == Self::from_wire(bytes@.subrange(0, Self::spec_byte_len() as int)),
    {
        Self::decode(bytes, 0)
    }

    /// Validating parse: decode, then check the semantic invariants that the
    /// structural decode defers. Succeeds exactly on buffers that hold the
    /// frame, declare IP version 4 and carry a `total_length` field equal to
    /// the frame's byte length.
    pub fn parse(bytes: &[u8]) -> (r: Result<Self, ParseError>)
        requires
            Self::spec_byte_len() <= usize::MAX,
        ensures
            ({
                let len = Self::spec_byte_len() as int;
                let h = IpV4Header::from_wire(bytes@.subrange(0, 20));
                if bytes@.len() < len {
                    r == Err::<Self, ParseError>(
                        ParseError::TooShort {
                            expected: Self::spec_byte_len() as usize,
                            actual: bytes@.len() as usize,
                        },
                    )
                } else if h.version_and_header_length.spec_version() != 4 {
                    r == Err::<Self, ParseError>(
                        ParseError::UnsupportedVersion {
                            actual: h.version_and_header_length.spec_version(),
                        },
                    )
                } else if h.total_length != len {
                    r == Err::<Self, ParseError>(
                        ParseError::LengthMismatch {
                            expected: Self::spec_byte_len() as usize,
                            actual: h.total_length as usize,
                        },
                    )
                } else {
                    r == Ok::<Self, ParseError>(Self::from_wire(bytes@.subrange(0, len)))
                }
            }),
    {
        let len: usize = Self::byte_len();
        let n: usize = bytes.len();
        if n < len {
            return Err(ParseError::TooShort { expected: len, actual: n });
        }
        let frame = Self::decode(bytes, 0);
        proof {
            let w = bytes@.subrange(0, Self::spec_byte_len() as int);
            assert(w.subrange(0, 20) =~= bytes@.subrange(0, 20));
        }
        let version: u8 = frame.header.version_and_header_length.version();
        if version != 4 {
            return Err(ParseError::UnsupportedVersion { actual: version });
        }
        if frame.header.total_length as usize != len {
            return Err(
                ParseError::LengthMismatch {
                    expected: len,
                    actual: frame.header.total_length as usize,
                },
            );
        }
        Ok(frame)
    }
}

} // verus!
