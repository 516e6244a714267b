//! The wire-codec contract every protocol structure satisfies, and helpers
//! for big-endian (network order) integer fields.
//!
//! A codec type has a byte length fixed by the type alone, a total structural
//! decode, and an encode that appends exactly that many bytes. The round-trip
//! law `decode(encode(v)) == v` is part of the contract and is proved by
//! every implementation.

use vstd::prelude::*;

verus! {

/// Big-endian byte pair of a 16-bit value.
pub open spec fn be16(x: u16) -> Seq<u8> {
    seq![(x / 256) as u8, (x % 256) as u8]
}

/// The 16-bit value read back from a big-endian byte pair.
pub open spec fn u16_from_be(b0: u8, b1: u8) -> u16 {
    ((b0 as int) * 256 + (b1 as int)) as u16
}

/// Big-endian byte quadruple of a 32-bit value.
pub open spec fn be32(x: u32) -> Seq<u8> {
    be16((x / 0x10000) as u16) + be16((x % 0x10000) as u16)
}

/// The 32-bit value read back from a big-endian byte quadruple.
pub open spec fn u32_from_be(b0: u8, b1: u8, b2: u8, b3: u8) -> u32 {
    ((u16_from_be(b0, b1) as int) * 0x10000 + (u16_from_be(b2, b3) as int)) as u32
}

/// Reading back the bytes of a 16-bit value restores it.
pub proof fn lemma_be16_round_trip(x: u16)
    ensures
        u16_from_be(be16(x)[0], be16(x)[1]) == x,
{
}

/// Reading back the bytes of a 32-bit value restores it.
pub proof fn lemma_be32_round_trip(x: u32)
    ensures
        u32_from_be(be32(x)[0], be32(x)[1], be32(x)[2], be32(x)[3]) == x,
{
    lemma_be16_round_trip((x / 0x10000) as u16);
    lemma_be16_round_trip((x % 0x10000) as u16);
}

/// Append the two big-endian bytes of a 16-bit field.
pub fn push_be16(buf: &mut Vec<u8>, x: u16)
    ensures
        final(buf)@ == old(buf)@ + be16(x),
{
    buf.push((x / 256) as u8);
    buf.push((x % 256) as u8);
    proof {
        assert(buf@ =~= old(buf)@ + be16(x));
    }
}

/// Append the four big-endian bytes of a 32-bit field.
pub fn push_be32(buf: &mut Vec<u8>, x: u32)
    ensures
        final(buf)@ == old(buf)@ + be32(x),
{
    push_be16(buf, (x / 0x10000) as u16);
    push_be16(buf, (x % 0x10000) as u16);
    proof {
        assert(buf@ =~= old(buf)@ + be32(x));
    }
}

/// The all-zero byte sequence of the given length, as trailing padding is
/// specified.
pub open spec fn zeros(n: nat) -> Seq<u8> {
    Seq::new(n, |i: int| 0u8)
}

/// Append `n` zero padding bytes.
pub fn push_zeros(buf: &mut Vec<u8>, n: usize)
    ensures
        final(buf)@ == old(buf)@ + zeros(n as nat),
{
    let mut i: usize = 0;
    while i < n
        invariant
            i <= n,
            buf@ == old(buf)@ + zeros(i as nat),
        decreases n - i,
    {
        buf.push(0);
        proof {
            assert(old(buf)@ + zeros(i as nat) + seq![0u8] =~= old(buf)@ + zeros(
                i as nat + 1,
            ));
        }
        i = i + 1;
    }
}

/// Append a whole byte region.
pub fn push_bytes(buf: &mut Vec<u8>, src: &[u8])
    ensures
        final(buf)@ == old(buf)@ + src@,
{
    let n: usize = src.len();
    let mut i: usize = 0;
    while i < n
        invariant
            i <= n,
            n == src@.len(),
            buf@ == old(buf)@ + src@.subrange(0, i as int),
        decreases n - i,
    {
        buf.push(src[i]);
        proof {
            assert(old(buf)@ + src@.subrange(0, i as int) + seq![src@[i as int]] =~= old(
                buf,
            )@ + src@.subrange(0, i as int + 1));
        }
        i = i + 1;
    }
    proof {
        assert(src@.subrange(0, n as int) =~= src@);
    }
}

/// Read a big-endian 16-bit field.
pub fn read_be16(bytes: &[u8], at: usize) -> (r: u16)
    requires
        at + 2 <= bytes@.len(),
    ensures
        r == u16_from_be(bytes@[at as int], bytes@[at as int + 1]),
{
    let b0: u8 = bytes[at];
    let b1: u8 = bytes[at + 1];
    (b0 as u16) * 256 + (b1 as u16)
}

/// Read a big-endian 32-bit field.
pub fn read_be32(bytes: &[u8], at: usize) -> (r: u32)
    requires
        at + 4 <= bytes@.len(),
    ensures
        r == u32_from_be(
            bytes@[at as int],
            bytes@[at as int + 1],
            bytes@[at as int + 2],
            bytes@[at as int + 3],
        ),
{
    let n: usize = bytes.len();
    let hi: u16 = read_be16(bytes, at);
    let lo: u16 = read_be16(bytes, at + 2);
    (hi as u32) * 0x10000 + (lo as u32)
}

/// The contract every encodable/decodable protocol structure implements:
/// a byte length fixed by the type, a total decode over any buffer holding at
/// least that many bytes, and an encode appending exactly that many bytes.
pub trait WireCodec: Sized {
    /// Number of bytes of the wire representation, fixed by the type.
    spec fn spec_byte_len() -> nat;

    /// The wire representation as a mathematical byte sequence.
    spec fn wire(self) -> Seq<u8>;

    /// The value represented by a wire byte sequence of the type's length.
    spec fn from_wire(b: Seq<u8>) -> Self;

    /// Whether the value is well formed: the carry-all variant of an
    /// enumerated field holds only codes outside its known set. Decoding
    /// only ever produces well-formed values.
    spec fn wf(self) -> bool;

    /// An encoding is always exactly `spec_byte_len` bytes long.
    proof fn lemma_wire_len(self)
        ensures
            self.wire().len() == Self::spec_byte_len(),
    ;

    /// Decoding an encoding restores the value: `decode(encode(v)) == v`
    /// for every well-formed value.
    proof fn lemma_round_trip(self)
        requires
            self.wf(),
        ensures
            Self::from_wire(self.wire()) == self,
    ;

    /// Decoding is total and only yields well-formed values.
    proof fn lemma_from_wire_wf(b: Seq<u8>)
        ensures
            Self::from_wire(b).wf(),
    ;

    /// Byte length of the wire representation.
    fn byte_len() -> (n: usize)
        requires
            Self::spec_byte_len() <= usize::MAX,
        ensures
            n == Self::spec_byte_len(),
    ;

    /// Append the wire representation to a byte buffer.
    fn encode(&self, buf: &mut Vec<u8>)
        ensures
            final(buf)@ == old(buf)@ + self.wire(),
    ;

    /// Decode a value from its wire representation at `at`. Total: every byte
    /// pattern of the type's length decodes to some value.
    fn decode(bytes: &[u8], at: usize) -> (r: Self)
        requires
            at + Self::spec_byte_len() <= bytes@.len(),
        ensures
            r == Self::from_wire(
                bytes@.subrange(at as int, at as int + Self::spec_byte_len()),
            ),
    ;
}

} // verus!
