//! Ethernet II frames over the byte-image builder layer, including the
//! full on-the-line packet with preamble, frame check sequence and
//! inter-packet gap.
//!
//! A hardware MAC usually takes the frame as input and builds the packet
//! from it, so assembling the full packet is somewhat academic, but useful
//! for testing and for estimating network utilization.

use vstd::prelude::*;

use crate::builder::udp::UDPPacket;
use crate::builder::MACAddr;
use crate::codec::{be32, push_be32, push_bytes, push_zeros, read_be16, u16_from_be, zeros};
use crate::enet::EtherType;

verus! {

/// The combined 7-byte clock-sync preamble and 1-byte start-frame
/// delimiter, which are never changed or separated. Usually supplied by the
/// hardware.
pub open spec fn preamble() -> Seq<u8> {
    seq![0xAAu8, 0xAA, 0xAA, 0xAA, 0xAA, 0xAA, 0xAA, 0xAB]
}

/// The standard 96-bit inter-packet gap. Usually supplied by the hardware.
pub open spec fn interpacket_gap() -> Seq<u8> {
    zeros(12)
}

/// Header for an Ethernet II frame held as its 14 wire bytes: destination
/// MAC, source MAC, EtherType. Assumes no VLAN tag is present, which would
/// extend the header and reorder its components.
#[derive(Clone, Copy, Debug, PartialEq, Eq)]
pub struct EthernetHeader {
    /// The header bytes
    pub value: [u8; 14],
}

impl EthernetHeader {
    /// Make a complete Ethernet frame header with the specified values. If
    /// no destination MAC address is given it defaults to the broadcast
    /// address, always used when the payload is an IP packet.
    pub fn new(src_macaddr: MACAddr, dst_macaddr: Option<MACAddr>, ethertype: EtherType) -> (r:
        EthernetHeader)
        ensures
            r.value@ == (match dst_macaddr {
                Some(d) => d.value@,
                None => seq![0xFFu8, 0xFF, 0xFF, 0xFF, 0xFF, 0xFF],
            }) + src_macaddr.value@ + crate::codec::be16(ethertype.spec_code()),
    {
        let dst = match dst_macaddr {
            Some(x) => x,
            None => MACAddr { value: [0xFF_u8; 6] },
        };
        let mut header = EthernetHeader { value: [0u8; 14] };
        header.dst_macaddr(&dst.value);
        header.src_macaddr(&src_macaddr.value);
        header.ethertype(ethertype);
        proof {
            if dst_macaddr is None {
                assert(dst.value@ =~= seq![0xFFu8, 0xFF, 0xFF, 0xFF, 0xFF, 0xFF]);
            }
            assert(header.value@ =~= dst.value@ + src_macaddr.value@ + crate::codec::be16(
                ethertype.spec_code(),
            ));
        }
        header
    }

    /// Set the destination MAC address in bytes 0 to 5.
    pub fn dst_macaddr(&mut self, v: &[u8; 6])
        ensures
            forall|i: int| 0 <= i < 6 ==> final(self).value@[i] == v@[i],
            forall|i: int| 6 <= i < 14 ==> final(self).value@[i] == old(self).value@[i],
    {
        let mut i: usize = 0;
        while i < 6
            invariant
                i <= 6,
                forall|j: int| 0 <= j < i ==> self.value@[j] == v@[j],
                forall|j: int| i <= j < 14 ==> self.value@[j] == old(self).value@[j],
            decreases 6 - i,
        {
            self.value[i] = v[i];
            i = i + 1;
        }
    }

    /// Set the source MAC address in bytes 6 to 11.
    pub fn src_macaddr(&mut self, v: &[u8; 6])
        ensures
            forall|i: int| 0 <= i < 6 ==> final(self).value@[i + 6] == v@[i],
            forall|i: int|
                (0 <= i < 6 || 12 <= i < 14) ==> final(self).value@[i] == old(self).value@[i],
    {
        let mut i: usize = 0;
        while i < 6
            invariant
                i <= 6,
                forall|j: int| 0 <= j < i ==> self.value@[j + 6] == v@[j],
                forall|j: int|
                    (0 <= j < 6 || i + 6 <= j < 14) ==> self.value@[j] == old(self).value@[j],
            decreases 6 - i,
        {
            self.value[i + 6] = v[i];
            i = i + 1;
        }
    }

    /// Set the Ethernet service type in bytes 12 and 13.
    pub fn ethertype(&mut self, v: EtherType)
        ensures
            final(self).value@ == old(self).value@.update(
                12,
                (v.spec_code() / 256) as u8,
            ).update(13, (v.spec_code() % 256) as u8),
    {
        let code: u16 = v.code();
        self.value[12] = (code / 256) as u8;
        self.value[13] = (code % 256) as u8;
    }

    /// Copy out the completed header, so a builder chain can keep it.
    pub fn finalize(&self) -> (r: Self)
        ensures
            r == *self,
    {
        *self
    }

    /// Get length of byte representation.
    pub fn len(&self) -> (n: usize)
        ensures
            n == 14,
    {
        14
    }

    /// Pack into big-endian (network) byte order: the header is already a
    /// byte image, so this is a copy of the contents.
    pub fn to_be_bytes(&self) -> (r: [u8; 14])
        ensures
            r@ == self.value@,
    {
        self.value
    }
}

/// Parse the fields from an Ethernet header byte image: source MAC,
/// destination MAC, and EtherType.
pub fn parse_header_bytes(bytes: &[u8; 14]) -> (r: (MACAddr, MACAddr, EtherType))
    ensures
        r.0.value@ == bytes@.subrange(6, 12),
        r.1.value@ == bytes@.subrange(0, 6),
        r.2 == EtherType::spec_from_code(u16_from_be(bytes@[12], bytes@[13])),
{
    let mut src: [u8; 6] = [0u8; 6];
    let mut dst: [u8; 6] = [0u8; 6];
    let mut i: usize = 0;
    while i < 6
        invariant
            i <= 6,
            forall|j: int| 0 <= j < i ==> dst@[j] == bytes@[j],
            forall|j: int| 0 <= j < i ==> src@[j] == bytes@[6 + j],
        decreases 6 - i,
    {
        dst[i] = bytes[i];
        src[i] = bytes[i + 6];
        i = i + 1;
    }
    let ethertype = EtherType::from_code(read_be16(bytes.as_slice(), 12));
    let r = (MACAddr { value: src }, MACAddr { value: dst }, ethertype);
    proof {
        assert(r.0.value@ =~= bytes@.subrange(6, 12));
        assert(r.1.value@ =~= bytes@.subrange(0, 6));
    }
    r
}

/// Ethernet II frame containing a UDP packet over the byte-image layer.
/// `N` is the size of the IP Options in 32-bit words, `M` the size of the
/// UDP data in 32-bit words.
#[derive(Clone, Debug, PartialEq, Eq)]
pub struct EthernetFrameUDP<const N: usize, const M: usize> {
    /// Ethernet frame header
    pub header: EthernetHeader,
    /// Ethernet payload (a UDP packet, for now)
    pub payload: UDPPacket<N, M>,
}

impl<const N: usize, const M: usize> EthernetFrameUDP<N, M> {
    /// Whether the payload has its declared size.
    pub open spec fn wf(self) -> bool {
        self.payload.wf()
    }

    /// The byte image of the frame: header, payload, and the 4-byte frame
    /// check sequence field, deliberately left zero to be populated by
    /// hardware or by the packet assembler.
    pub open spec fn spec_bytes(self) -> Seq<u8> {
        self.header.value@ + self.payload.spec_bytes() + zeros(4)
    }

    /// Generate a new, complete frame from components.
    pub fn new(header: EthernetHeader, payload: UDPPacket<N, M>) -> (r: Self)
        ensures
            r.header == header,
            r.payload == payload,
    {
        EthernetFrameUDP { header, payload }
    }

    /// Get length of byte representation: header, IP and UDP payload, and
    /// the trailing frame check sequence field.
    pub fn len(&self) -> (n: usize)
        requires
            self.wf(),
        ensures
            n == 4 * N + 20 + 4 * M + 14 + 8 + 4,
    {
        let payload_len: usize = self.payload.len();
        14 + payload_len + 4
    }

    /// Pack into big-endian (network) byte order. The last 4 bytes are the
    /// frame check sequence field, deliberately left as zero.
    pub fn to_be_bytes(&self) -> (r: Vec<u8>)
        ensures
            r@ == self.spec_bytes(),
    {
        let mut out: Vec<u8> = Vec::new();
        push_bytes(&mut out, self.header.value.as_slice());
        let payload_bytes = self.payload.to_be_bytes();
        push_bytes(&mut out, payload_bytes.as_slice());
        push_zeros(&mut out, 4);
        proof {
            assert(out@ =~= self.spec_bytes());
        }
        out
    }
}

/// What a CRC-32 (IEEE) checksum of a byte sequence is. The value is a
/// function of the bytes alone; its definition lives in the checksum
/// implementation relied on below.
pub uninterp spec fn crc32_of(data: Seq<u8>) -> u32;

/// Ethernet II packet: preamble, start-frame delimiter, frame, frame check
/// sequence and inter-packet gap. A hardware MAC usually assembles this
/// itself from the frame.
#[derive(Clone, Debug, PartialEq, Eq)]
pub struct EthernetPacketUDP<const N: usize, const M: usize> {
    /// The frame the packet wraps
    pub frame: EthernetFrameUDP<N, M>,
}

impl<const N: usize, const M: usize> EthernetPacketUDP<N, M> {
    /// Whether the frame has its declared size.
    pub open spec fn wf(self) -> bool {
        self.frame.wf()
    }

    /// The frame this packet wraps.
    pub open spec fn spec_frame(self) -> EthernetFrameUDP<N, M> {
        self.frame
    }

    /// Build a new packet from a frame.
    pub fn new(frame: EthernetFrameUDP<N, M>) -> (r: Self)
        ensures
            r.spec_frame() == frame,
    {
        EthernetPacketUDP { frame }
    }

    /// Get length of byte representation: the frame plus the preamble,
    /// checksum and inter-packet gap around it.
    pub fn len(&self) -> (n: usize)
        requires
            self.wf(),
        ensures
            n == 4 * N + 20 + 4 * M + 14 + 8 + 4 + 24,
    {
        let frame_len: usize = self.frame.len();
        frame_len + 24
    }

    /// Calculate the Ethernet checksum in software.
    ///
    /// Relies on crc32fast::hash, which computes the IEEE CRC-32 of exactly
    /// the bytes given, a pure function of its input.
    #[verifier::external_body]
    pub fn calc_enet_checksum(&self, frame_bytes: &[u8]) -> (checksum: u32)
        ensures
            checksum == crc32_of(frame_bytes@),
    {
        crc32fast::hash(frame_bytes)
    }

    /// Pack into big-endian (network) byte order: the clock-sync preamble
    /// and start-frame delimiter, the frame bytes, the CRC-32 of those
    /// frame bytes, and the inter-packet gap.
    pub fn to_be_bytes(&self) -> (r: Vec<u8>)
        ensures
            r@ == preamble() + self.spec_frame().spec_bytes() + be32(
                crc32_of(self.spec_frame().spec_bytes()),
            ) + interpacket_gap(),
    {
        let frame_bytes = self.frame.to_be_bytes();
        let checksum: u32 = self.calc_enet_checksum(frame_bytes.as_slice());
        let mut out: Vec<u8> = Vec::new();
        out.push(0xAA);
        out.push(0xAA);
        out.push(0xAA);
        out.push(0xAA);
        out.push(0xAA);
        out.push(0xAA);
        out.push(0xAA);
        out.push(0xAB);
        push_bytes(&mut out, frame_bytes.as_slice());
        push_be32(&mut out, checksum);
        push_zeros(&mut out, 12);
        proof {
            assert(out@ =~= preamble() + self.spec_frame().spec_bytes() + be32(
                crc32_of(self.spec_frame().spec_bytes()),
            ) + interpacket_gap());
        }
        out
    }
}

} // verus!
