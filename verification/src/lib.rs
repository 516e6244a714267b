//! A verified, allocation-light UDP/IP stack core for building and parsing
//! nested link/internet/transport-layer frames (Ethernet II, ARP, IPv4, UDP,
//! DHCP) as fixed-size, bit-exact byte sequences.
//!
//! Every protocol structure implements the [`codec::WireCodec`] contract: a
//! fixed byte length, a total (never-failing) structural decode, and an encode
//! that writes exactly that many bytes, with `decode(encode(v)) == v` proved
//! for every well-formed value - decoding only ever yields well-formed
//! values, where the carry-all variant of an enumerated field holds only
//! codes outside its known set.

use vstd::prelude::*;

pub mod codec;
pub mod arp;
pub mod builder;
pub mod dhcp;
pub mod enet;
pub mod ip;
pub mod udp;

use codec::WireCodec;

verus! {

/// Newtype for `[u8; N]` so that codec traits can be implemented for plain
/// byte blocks: addresses and opaque payloads. Every bit pattern is a valid
/// value, so its decode needs no validation.
#[derive(Clone, Copy, Debug, PartialEq, Eq, PartialOrd, Ord)]
pub struct ByteArray<const N: usize>(pub [u8; N]);

impl<const N: usize> View for ByteArray<N> {
    type V = Seq<u8>;

    open spec fn view(&self) -> Seq<u8> {
        self.0@
    }
}

impl<const N: usize> WireCodec for ByteArray<N> {
    open spec fn spec_byte_len() -> nat {
        N as nat
    }

    open spec fn wire(self) -> Seq<u8> {
        self@
    }

    open spec fn from_wire(b: Seq<u8>) -> Self {
        choose|r: ByteArray<N>| r@ == b
    }

    open spec fn wf(self) -> bool {
        true
    }

    proof fn lemma_wire_len(self) {
    }

    proof fn lemma_from_wire_wf(b: Seq<u8>) {
    }

    proof fn lemma_round_trip(self) {
        assert(self.0@ == self@);
        assert(exists|x: ByteArray<N>| x@ == self@);
        let r = Self::from_wire(self@);
        assert(r@ == self@);
        assert(r.0 =~= self.0);
    }

    fn byte_len() -> usize {
        N
    }

    fn encode(&self, buf: &mut Vec<u8>) {
        let mut i: usize = 0;
        while i < N
            invariant
                i <= N,
                buf@ == old(buf)@ + self@.subrange(0, i as int),
            decreases N - i,
        {
            buf.push(self.0[i]);
            proof {
                assert(old(buf)@ + self@.subrange(0, i as int) + seq![self.0@[i as int]]
                    =~= old(buf)@ + self@.subrange(0, i as int + 1));
            }
            i = i + 1;
        }
        proof {
            assert(self@.subrange(0, N as int) =~= self@);
        }
    }

    fn decode(bytes: &[u8], at: usize) -> (r: Self) {
        let n: usize = bytes.len();
        let mut out: [u8; N] = [0u8; N];
        let mut i: usize = 0;
        while i < N
            invariant
                i <= N,
                at + N <= n == bytes@.len(),
                forall|j: int| 0 <= j < i ==> out@[j] == bytes@[at + j],
            decreases N - i,
        {
            out[i] = bytes[at + i];
            i = i + 1;
        }
        let r = ByteArray(out);
        proof {
            let w = bytes@.subrange(at as int, at as int + N as int);
            assert(r@ =~= w);
            assert(exists|x: ByteArray<N>| x@ == w);
            let c = Self::from_wire(w);
            assert(c@ == w);
            assert(c.0 =~= r.0);
        }
        r
    }
}

impl<const N: usize> ByteArray<N> {
    /// Pack into big-endian (network) byte order; byte blocks are already in
    /// wire order, so this is the raw contents.
    pub fn to_be_bytes(&self) -> (r: Vec<u8>)
        ensures
            r@ == self@,
    {
        let mut out: Vec<u8> = Vec::new();
        self.encode(&mut out);
        out
    }

    /// Decode from a buffer holding at least `N` bytes.
    pub fn read_bytes(bytes: &[u8]) -> (r: Self)
        requires
            N <= bytes@.len(),
        ensures
            r == Self::from_wire(bytes@.subrange(0, N as int)),
    {
        Self::decode(bytes, 0)
    }
}

/// Standard 6-byte MAC address, split 24/24 format, Block ID | Device ID.
/// Locally-administered addresses are [0x02, ...], [0x06, ...], [0x0A, ...],
/// [0x0E, ...].
pub type MacAddr = ByteArray<6>;

impl MacAddr {
    /// New from bytes.
    pub fn new(v: [u8; 6]) -> (r: Self)
        ensures
            r@ == v@,
    {
        ByteArray(v)
    }

    /// Broadcast address (all ones).
    pub fn broadcast() -> (r: Self)
        ensures
            r@ == seq![0xFFu8, 0xFF, 0xFF, 0xFF, 0xFF, 0xFF],
    {
        let r = ByteArray([0xFF_u8; 6]);
        proof {
            assert(r@ =~= seq![0xFFu8, 0xFF, 0xFF, 0xFF, 0xFF, 0xFF]);
        }
        r
    }

    /// Any address (all zeroes).
    pub fn any() -> (r: Self)
        ensures
            r@ == seq![0u8, 0, 0, 0, 0, 0],
    {
        let r = ByteArray([0x0_u8; 6]);
        proof {
            assert(r@ =~= seq![0u8, 0, 0, 0, 0, 0]);
        }
        r
    }
}

/// IPv4 address as bytes.
pub type IpV4Addr = ByteArray<4>;

impl IpV4Addr {
    /// New from bytes.
    pub fn new(v: [u8; 4]) -> (r: Self)
        ensures
            r@ == v@,
    {
        ByteArray(v)
    }

    /// Broadcast address (all ones).
    pub fn broadcast() -> (r: Self)
        ensures
            r@ == seq![0xFFu8, 0xFF, 0xFF, 0xFF],
    {
        let r = ByteArray([0xFF_u8; 4]);
        proof {
            assert(r@ =~= seq![0xFFu8, 0xFF, 0xFF, 0xFF]);
        }
        r
    }

    /// LAN broadcast address.
    pub fn broadcast_local() -> (r: Self)
        ensures
            r@ == seq![0u8, 0, 0, 0xFF],
    {
        let r = ByteArray([0x0, 0x0, 0x0, 0xFF]);
        proof {
            assert(r@ =~= seq![0u8, 0, 0, 0xFF]);
        }
        r
    }

    /// Any address (all zeroes).
    pub fn any() -> (r: Self)
        ensures
            r@ == seq![0u8, 0, 0, 0],
    {
        let r = ByteArray([0x0_u8; 4]);
        proof {
            assert(r@ =~= seq![0u8, 0, 0, 0]);
        }
        r
    }
}

/// A nested frame's byte length is derived structurally from its type
/// parameters: an Ethernet frame carrying an IPv4/UDP datagram with an
/// 8-byte payload spans 14 + 20 + 8 + 8 + 4 == 54 bytes, with no manual
/// offset bookkeeping at any nesting level.
pub proof fn lemma_nested_frame_byte_len()
    ensures
        enet::EthernetFrame::<ip::IpV4Frame<udp::UdpFrame<ByteArray<8>>>>::spec_byte_len() == 54,
{
}

/// Semantic validation failure raised by the explicit validating parse entry
/// points. Structural decode itself never fails: unrecognized enumerated wire
/// values decode to carry-all variants instead. Each variant carries enough
/// context for the caller to log or discard the datagram.
#[derive(Clone, Copy, Debug, PartialEq, Eq, Structural)]
pub enum ParseError {
    /// The buffer is smaller than a required fixed or declared length
    TooShort {
        /// Bytes required
        expected: usize,
        /// Bytes present
        actual: usize,
    },
    /// A declared total/length field disagrees with the actual byte count
    LengthMismatch {
        /// Length the frame requires
        expected: usize,
        /// Length the field declares
        actual: usize,
    },
    /// A fixed magic value holds the wrong bytes
    InvalidMagicValue {
        /// The required magic value
        expected: u32,
        /// The value found
        actual: u32,
    },
    /// The IP version field names a version the consumer does not support
    UnsupportedVersion {
        /// The version found
        actual: u8,
    },
    /// The transport protocol field names a protocol the consumer does not
    /// support
    UnsupportedProtocol {
        /// The protocol code found
        actual: u8,
    },
    /// An operation field holds a code outside the valid set
    InvalidOperation {
        /// The operation code found
        actual: u8,
    },
}

/// Common choices of transport-layer protocols and their IP header values.
/// There are many more protocols not listed here. Any other code decodes to
/// the carry-all variant, which preserves the raw value.
#[derive(Clone, Copy, Debug, PartialEq, Eq, PartialOrd, Ord)]
pub enum Protocol {
    /// Transmission Control Protocol
    Tcp,
    /// User Datagram Protocol
    Udp,
    /// Carry-all for codes that do not match a named variant
    Unknown(u8),
}

impl Protocol {
    /// Numeric wire code of this protocol.
    pub open spec fn spec_code(self) -> u8 {
        match self {
            Protocol::Tcp => 0x06,
            Protocol::Udp => 0x11,
            Protocol::Unknown(x) => x,
        }
    }

    /// The protocol a numeric wire code names.
    pub open spec fn spec_from_code(x: u8) -> Protocol {
        if x == 0x06 {
            Protocol::Tcp
        } else if x == 0x11 {
            Protocol::Udp
        } else {
            Protocol::Unknown(x)
        }
    }

    /// Numeric wire code of this protocol.
    pub fn code(&self) -> (r: u8)
        ensures
            r == self.spec_code(),
    {
        match self {
            Protocol::Tcp => 0x06,
            Protocol::Udp => 0x11,
            Protocol::Unknown(x) => *x,
        }
    }

    /// The protocol a numeric wire code names.
    pub fn from_code(x: u8) -> (r: Self)
        ensures
            r == Self::spec_from_code(x),
    {
        if x == 0x06 {
            Protocol::Tcp
        } else if x == 0x11 {
            Protocol::Udp
        } else {
            Protocol::Unknown(x)
        }
    }

    /// Pack into big-endian (network) byte order.
    pub fn to_be_bytes(&self) -> (r: Vec<u8>)
        ensures
            r@ == self.wire(),
    {
        let mut out: Vec<u8> = Vec::new();
        self.encode(&mut out);
        out
    }
}

/// Encoding any decoded protocol code reproduces the code exactly, also for
/// codes outside the known set, which ride in the carry-all variant.
pub proof fn lemma_protocol_code_round_trip(x: u8)
    ensures
        Protocol::spec_from_code(x).spec_code() == x,
{
}

impl WireCodec for Protocol {
    open spec fn spec_byte_len() -> nat {
        1
    }

    open spec fn wire(self) -> Seq<u8> {
        seq![self.spec_code()]
    }

    open spec fn from_wire(b: Seq<u8>) -> Self {
        Self::spec_from_code(b[0])
    }

    open spec fn wf(self) -> bool {
        match self {
            Protocol::Unknown(x) => x != 0x06 && x != 0x11,
            _ => true,
        }
    }

    proof fn lemma_wire_len(self) {
    }

    proof fn lemma_round_trip(self) {
    }

    proof fn lemma_from_wire_wf(b: Seq<u8>) {
    }

    fn byte_len() -> usize {
        1
    }

    fn encode(&self, buf: &mut Vec<u8>) {
        buf.push(self.code());
        proof {
            assert(buf@ =~= old(buf)@ + self.wire());
        }
    }

    fn decode(bytes: &[u8], at: usize) -> (r: Self) {
        Self::from_code(bytes[at])
    }
}

/// Type-of-Service for networks with differentiated services. Any other code
/// decodes to the carry-all variant, which preserves the raw value.
#[derive(Clone, Copy, Debug, PartialEq, Eq, PartialOrd, Ord)]
pub enum DSCP {
    /// Standard is almost always fine
    Standard,
    /// Realtime is rarely used
    Realtime,
    /// Carry-all for the many other kinds of traffic class
    Unknown(u8),
}

impl DSCP {
    /// Numeric wire code of this traffic class.
    pub open spec fn spec_code(self) -> u8 {
        match self {
            DSCP::Standard => 0,
            DSCP::Realtime => 128,
            DSCP::Unknown(x) => x,
        }
    }

    /// The traffic class a numeric wire code names.
    pub open spec fn spec_from_code(x: u8) -> DSCP {
        if x == 0 {
            DSCP::Standard
        } else if x == 128 {
            DSCP::Realtime
        } else {
            DSCP::Unknown(x)
        }
    }

    /// Numeric wire code of this traffic class.
    pub fn code(&self) -> (r: u8)
        ensures
            r == self.spec_code(),
    {
        match self {
            DSCP::Standard => 0,
            DSCP::Realtime => 128,
            DSCP::Unknown(x) => *x,
        }
    }

    /// The traffic class a numeric wire code names.
    pub fn from_code(x: u8) -> (r: Self)
        ensures
            r == Self::spec_from_code(x),
    {
        if x == 0 {
            DSCP::Standard
        } else if x == 128 {
            DSCP::Realtime
        } else {
            DSCP::Unknown(x)
        }
    }

    /// Pack into big-endian (network) byte order.
    pub fn to_be_bytes(&self) -> (r: Vec<u8>)
        ensures
            r@ == self.wire(),
    {
        let mut out: Vec<u8> = Vec::new();
        self.encode(&mut out);
        out
    }
}

/// Encoding any decoded traffic-class code reproduces the code exactly, also
/// for codes outside the known set, which ride in the carry-all variant.
pub proof fn lemma_dscp_code_round_trip(x: u8)
    ensures
        DSCP::spec_from_code(x).spec_code() == x,
{
}

impl WireCodec for DSCP {
    open spec fn spec_byte_len() -> nat {
        1
    }

    open spec fn wire(self) -> Seq<u8> {
        seq![self.spec_code()]
    }

    open spec fn from_wire(b: Seq<u8>) -> Self {
        Self::spec_from_code(b[0])
    }

    open spec fn wf(self) -> bool {
        match self {
            DSCP::Unknown(x) => x != 0 && x != 128,
            _ => true,
        }
    }

    proof fn lemma_wire_len(self) {
    }

    proof fn lemma_round_trip(self) {
    }

    proof fn lemma_from_wire_wf(b: Seq<u8>) {
    }

    fn byte_len() -> usize {
        1
    }

    fn encode(&self, buf: &mut Vec<u8>) {
        buf.push(self.code());
        proof {
            assert(buf@ =~= old(buf)@ + self.wire());
        }
    }

    fn decode(bytes: &[u8], at: usize) -> (r: Self) {
        Self::from_code(bytes[at])
    }
}

/// Internet checksum accumulation of a byte sequence per RFC 1071:
/// bytes are summed pairwise as big-endian 16-bit words, with an odd trailing
/// byte occupying the high half of its (zero-padded) word.
pub open spec fn checksum_sum(data: Seq<u8>) -> int
    decreases data.len(),
{
    if data.len() == 0 {
        0
    } else {
        checksum_sum(data.drop_last())
            + if (data.len() - 1) % 2 == 0 {
                256 * (data.last() as int)
            } else {
                data.last() as int
            }
    }
}

/// Calculate an IP checksum on incomplete data, returning the unfolded
/// accumulator. May be called over successive disjoint regions (each of even
/// length except possibly the last) and the results added before folding.
pub fn calc_ip_checksum_incomplete(data: &[u8]) -> (sum: u32)
    requires
        data@.len() <= 131072,
    ensures
        sum == checksum_sum(data@),
{
    let n: usize = data.len();
    let mut sum: u32 = 0;
    let mut i: usize = 0;
    while i < n
        invariant
            i <= n,
            n == data@.len() <= 131072,
            sum == checksum_sum(data@.subrange(0, i as int)),
        decreases n - i,
    {
        proof {
            lemma_checksum_sum_bound(data@.subrange(0, i as int));
            assert(data@.subrange(0, i as int + 1).drop_last() =~= data@.subrange(
                0,
                i as int,
            ));
        }
        let x: u8 = data[i];
        if i % 2 == 0 {
            sum = sum + (x as u32) * 256;
        } else {
            sum = sum + (x as u32);
        }
        i = i + 1;
    }
    proof {
        assert(data@.subrange(0, n as int) =~= data@);
    }
    sum
}

/// Folding a wide checksum accumulator into 16 bits: bits above position 15
/// are repeatedly added back into the low 16 bits until none remain.
pub open spec fn fold16(sum: int) -> int
    decreases sum,
{
    if sum < 0x10000 {
        sum
    } else {
        fold16(sum % 0x10000 + sum / 0x10000)
    }
}

/// The RFC 1071 Internet checksum of a byte sequence: the accumulator,
/// folded to 16 bits and complemented.
pub open spec fn checksum_of(data: Seq<u8>) -> int {
    0xffff - fold16(checksum_sum(data))
}

/// Finalize an IP checksum by folding the accumulator into 16 bits and
/// taking the one's complement.
pub fn calc_ip_checksum_finalize(sum: u32) -> (checksum: u16)
    ensures
        checksum == 0xffff - fold16(sum as int),
{
    let mut s: u32 = sum;
    while s >= 0x10000
        invariant
            fold16(s as int) == fold16(sum as int),
        decreases s,
    {
        s = (s % 0x10000) + (s / 0x10000);
    }
    0xffff_u16 - (s as u16)
}

/// Calculate IP checksum per IETF-RFC-768 following the implementation guide
/// in IETF-RFC-1071 section 4.1. Used standalone for the IPv4 header and as
/// the final step of the UDP pseudo-header checksum.
pub fn calc_ip_checksum(data: &[u8]) -> (checksum: u16)
    requires
        data@.len() <= 131072,
    ensures
        checksum == checksum_of(data@),
{
    let sum = calc_ip_checksum_incomplete(data);
    let checksum = calc_ip_checksum_finalize(sum);
    checksum
}

/// Incremental accumulation: the checksum accumulator may be computed over
/// disjoint regions and the partial sums added, provided each region before
/// the last has even length, as when a pseudo-header is summed before the
/// real header and data without concatenating them into one buffer.
pub proof fn lemma_checksum_concat_even(a: Seq<u8>, b: Seq<u8>)
    requires
        a.len() % 2 == 0,
    ensures
        checksum_sum(a + b) == checksum_sum(a) + checksum_sum(b),
    decreases b.len(),
{
    if b.len() == 0 {
        assert(a + b =~= a);
    } else {
        lemma_checksum_concat_even(a, b.drop_last());
        assert((a + b).drop_last() =~= a + b.drop_last());
        assert((a + b).last() == b.last());
    }
}

/// Padding a buffer with a trailing zero byte never changes the checksum
/// accumulator, which is how odd-length input is treated as if its final
/// byte were paired with a zero low byte.
pub proof fn lemma_checksum_zero_pad(data: Seq<u8>)
    ensures
        checksum_sum(data.push(0)) == checksum_sum(data),
{
    assert(data.push(0).drop_last() =~= data);
}

/// The folded accumulator always fits in 16 bits, and folding a positive
/// accumulator never reaches zero.
pub proof fn lemma_fold16_bounds(sum: int)
    requires
        sum >= 0,
    ensures
        0 <= fold16(sum) <= 0xffff,
        sum > 0 ==> fold16(sum) > 0,
    decreases sum,
{
    if sum >= 0x10000 {
        lemma_fold16_bounds(sum % 0x10000 + sum / 0x10000);
    }
}

/// Folding preserves the accumulator's residue modulo 0xffff: carrying the
/// bits above position 15 back into the low 16 bits is addition of a
/// multiple of 0xffff less the carried amount.
proof fn lemma_fold16_congruent(sum: int)
    requires
        sum >= 0,
    ensures
        fold16(sum) % 0xffff == sum % 0xffff,
    decreases sum,
{
    if sum >= 0x10000 {
        let q = sum / 0x10000;
        let r = sum % 0x10000;
        lemma_fold16_congruent(r + q);
        vstd::arithmetic::div_mod::lemma_fundamental_div_mod(sum, 0x10000);
        assert(sum == 0xffff * q + (q + r));
        vstd::arithmetic::div_mod::lemma_mod_multiples_vanish(q, q + r, 0xffff);
    }
}

/// Checksum self-consistency: computing the checksum over a structure whose
/// checksum field already holds the correct value yields exactly 0. This is
/// the verification method for a received header: fill the field's two bytes
/// (at any even offset) with the checksum of the zero-field structure, and
/// the whole sums to all ones, which complements to zero.
pub proof fn lemma_checksum_self_consistency(pre: Seq<u8>, post: Seq<u8>)
    requires
        pre.len() % 2 == 0,
    ensures
        ({
            let c = checksum_of(pre + seq![0u8, 0u8] + post);
            checksum_of(pre + seq![(c / 256) as u8, (c % 256) as u8] + post) == 0
        }),
{
    let zeroed = pre + seq![0u8, 0u8] + post;
    let s0 = checksum_sum(zeroed);
    lemma_checksum_sum_bound(zeroed);
    lemma_fold16_bounds(s0);
    let f = fold16(s0);
    let c = 0xffff - f;
    let hi = ((c / 256) as u8);
    let lo = ((c % 256) as u8);
    let filled = pre + seq![hi, lo] + post;
    // Both sums decompose over the even-length regions around the field
    lemma_checksum_concat_even(pre, seq![0u8, 0u8] + post);
    lemma_checksum_concat_even(seq![0u8, 0u8], post);
    lemma_checksum_concat_even(pre, seq![hi, lo] + post);
    lemma_checksum_concat_even(seq![hi, lo], post);
    assert(pre + (seq![0u8, 0u8] + post) =~= zeroed);
    assert(pre + (seq![hi, lo] + post) =~= filled);
    // The two-byte field contributes exactly its big-endian value
    assert(checksum_sum(Seq::<u8>::empty()) == 0);
    assert(checksum_sum(seq![0u8]) == 0) by {
        assert(seq![0u8].drop_last() =~= Seq::<u8>::empty());
        assert(checksum_sum(Seq::<u8>::empty()) == 0);
    }
    assert(checksum_sum(seq![0u8, 0u8]) == 0) by {
        assert(seq![0u8, 0u8].drop_last() =~= seq![0u8]);
        assert(checksum_sum(seq![0u8]) == 0);
    }
    assert(checksum_sum(seq![hi]) == 256 * (hi as int)) by {
        assert(seq![hi].drop_last() =~= Seq::<u8>::empty());
        assert(checksum_sum(Seq::<u8>::empty()) == 0);
    }
    assert(checksum_sum(seq![hi, lo]) == 256 * (hi as int) + (lo as int)) by {
        assert(seq![hi, lo].drop_last() =~= seq![hi]);
        assert(checksum_sum(seq![hi]) == 256 * (hi as int));
    }
    assert(256 * (hi as int) + (lo as int) == c);
    let s1 = checksum_sum(filled);
    assert(s1 == s0 + c);
    // Both accumulators have the same residue as their folds, and the
    // filled one's residue vanishes
    lemma_fold16_congruent(s0);
    lemma_fold16_congruent(s1);
    lemma_fold16_bounds(s1);
    vstd::arithmetic::div_mod::lemma_add_mod_noop(s0, c, 0xffff);
    vstd::arithmetic::div_mod::lemma_add_mod_noop(f, c, 0xffff);
    assert((f + c) % 0xffff == 0);
    assert(s1 % 0xffff == 0);
    assert(fold16(s1) % 0xffff == 0);
    // A positive accumulator folds into [1, 0xffff], so a vanishing residue
    // pins the fold at all ones, which complements to zero
    assert(s1 > 0);
    assert(fold16(s1) == 0xffff);
}

/// The accumulator over a sequence is bounded by one full 16-bit word per
/// byte pair, so sums over buffers of up to 131072 bytes fit in a `u32`.
pub proof fn lemma_checksum_sum_bound(data: Seq<u8>)
    ensures
        0 <= checksum_sum(data),
        checksum_sum(data) <= 65535 * ((data.len() / 2) as int) + if data.len() % 2 == 1 {
            65280 as int
        } else {
            0 as int
        },
    decreases data.len(),
{
    if data.len() > 0 {
        lemma_checksum_sum_bound(data.drop_last());
    }
}

} // verus!

