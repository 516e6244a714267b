//! Link layer: Ethernet II protocol.
//!
//! An Ethernet II frame wraps an arbitrary payload between a 14-byte header
//! (destination MAC, source MAC, EtherType) and a trailing 4-byte frame check
//! sequence, which is normally supplied by hardware and carried here as a
//! plain field.

use vstd::prelude::*;

use crate::codec::{be16, be32, push_be16, push_be32, read_be16, read_be32, u16_from_be,
    u32_from_be, WireCodec};
use crate::MacAddr;

verus! {

/// EtherType tag values (incomplete list - there are many more). Any other
/// code decodes to the carry-all variant, which preserves the raw value.
#[derive(Clone, Copy, Debug, PartialEq, Eq, PartialOrd, Ord)]
pub enum EtherType {
    /// Internet protocol version 4
    IpV4,
    /// Address resolution protocol
    Arp,
    /// Tagged virtual LAN - when this tag is encountered, the field is not
    /// the real ethertype but an 802.1Q VLAN tag, which this crate does not
    /// parse further
    Vlan,
    /// Internet protocol version 6
    IpV6,
    /// EtherCat
    EtherCat,
    /// Precision Time Protocol
    Ptp,
    /// Carry-all for uncommon types not named here
    Unknown(u16),
}

impl EtherType {
    /// Numeric wire code of this tag.
    pub open spec fn spec_code(self) -> u16 {
        match self {
            EtherType::IpV4 => 0x0800,
            EtherType::Arp => 0x0806,
            EtherType::Vlan => 0x8100,
            EtherType::IpV6 => 0x86DD,
            EtherType::EtherCat => 0x88A4,
            EtherType::Ptp => 0x88A7,
            EtherType::Unknown(x) => x,
        }
    }

    /// The tag a numeric wire code names.
    pub open spec fn spec_from_code(x: u16) -> EtherType {
        if x == 0x0800 {
            EtherType::IpV4
        } else if x == 0x0806 {
            EtherType::Arp
        } else if x == 0x8100 {
            EtherType::Vlan
        } else if x == 0x86DD {
            EtherType::IpV6
        } else if x == 0x88A4 {
            EtherType::EtherCat
        } else if x == 0x88A7 {
            EtherType::Ptp
        } else {
            EtherType::Unknown(x)
        }
    }

    /// Numeric wire code of this tag.
    pub fn code(&self) -> (r: u16)
        ensures
            r == self.spec_code(),
    {
        match self {
            EtherType::IpV4 => 0x0800,
            EtherType::Arp => 0x0806,
            EtherType::Vlan => 0x8100,
            EtherType::IpV6 => 0x86DD,
            EtherType::EtherCat => 0x88A4,
            EtherType::Ptp => 0x88A7,
            EtherType::Unknown(x) => *x,
        }
    }

    /// The tag a numeric wire code names.
    pub fn from_code(x: u16) -> (r: Self)
        ensures
            r == Self::spec_from_code(x),
    {
        if x == 0x0800 {
            EtherType::IpV4
        } else if x == 0x0806 {
            EtherType::Arp
        } else if x == 0x8100 {
            EtherType::Vlan
        } else if x == 0x86DD {
            EtherType::IpV6
        } else if x == 0x88A4 {
            EtherType::EtherCat
        } else if x == 0x88A7 {
            EtherType::Ptp
        } else {
            EtherType::Unknown(x)
        }
    }

    /// Pack into big-endian (network) byte order.
    pub fn to_be_bytes(&self) -> (r: Vec<u8>)
        ensures
            r@ == self.wire(),
    {
        let mut out: Vec<u8> = Vec::new();
        self.encode(&mut out);
        out
    }
}

/// Encoding any decoded EtherType code reproduces the code exactly, also for
/// codes outside the known set, which ride in the carry-all variant.
pub proof fn lemma_ether_type_code_round_trip(x: u16)
    ensures
        EtherType::spec_from_code(x).spec_code() == x,
{
}

impl WireCodec for EtherType {
    open spec fn spec_byte_len() -> nat {
        2
    }

    open spec fn wire(self) -> Seq<u8> {
        be16(self.spec_code())
    }

    open spec fn from_wire(b: Seq<u8>) -> Self {
        Self::spec_from_code(u16_from_be(b[0], b[1]))
    }

    open spec fn wf(self) -> bool {
        match self {
            EtherType::Unknown(x) => Self::spec_from_code(x) == EtherType::Unknown(x),
            _ => true,
        }
    }

    proof fn lemma_wire_len(self) {
    }

    proof fn lemma_round_trip(self) {
        crate::codec::lemma_be16_round_trip(self.spec_code());
    }

    proof fn lemma_from_wire_wf(b: Seq<u8>) {
    }

    fn byte_len() -> usize {
        2
    }

    fn encode(&self, buf: &mut Vec<u8>) {
        push_be16(buf, self.code());
    }

    fn decode(bytes: &[u8], at: usize) -> (r: Self) {
        Self::from_code(read_be16(bytes, at))
    }
}

/// Header for an Ethernet II frame: destination MAC, source MAC, EtherType,
/// in wire order. No VLAN tag support - a VLAN tag value in the EtherType
/// position signals a frame this crate does not parse further.
#[derive(Clone, Copy, Debug, PartialEq, Eq)]
pub struct EthernetHeader {
    /// Destination MAC address ([0xFF; 6] for broadcast)
    pub dst_macaddr: MacAddr,
    /// Source MAC address
    pub src_macaddr: MacAddr,
    /// Tag marking the kind of the payload
    pub ethertype: EtherType,
}

impl WireCodec for EthernetHeader {
    open spec fn spec_byte_len() -> nat {
        14
    }

    open spec fn wire(self) -> Seq<u8> {
        self.dst_macaddr@ + self.src_macaddr@ + self.ethertype.wire()
    }

    open spec fn from_wire(b: Seq<u8>) -> Self {
        EthernetHeader {
            dst_macaddr: MacAddr::from_wire(b.subrange(0, 6)),
            src_macaddr: MacAddr::from_wire(b.subrange(6, 12)),
            ethertype: EtherType::from_wire(b.subrange(12, 14)),
        }
    }

    open spec fn wf(self) -> bool {
        self.ethertype.wf()
    }

    proof fn lemma_wire_len(self) {
        self.ethertype.lemma_wire_len();
    }

    proof fn lemma_round_trip(self) {
        let w = self.wire();
        self.ethertype.lemma_wire_len();
        assert(w.subrange(0, 6) =~= self.dst_macaddr@);
        assert(w.subrange(6, 12) =~= self.src_macaddr@);
        assert(w.subrange(12, 14) =~= self.ethertype.wire());
        self.dst_macaddr.lemma_round_trip();
        self.src_macaddr.lemma_round_trip();
        self.ethertype.lemma_round_trip();
    }

    proof fn lemma_from_wire_wf(b: Seq<u8>) {
        EtherType::lemma_from_wire_wf(b.subrange(12, 14));
    }

    fn byte_len() -> usize {
        14
    }

    fn encode(&self, buf: &mut Vec<u8>) {
        self.dst_macaddr.encode(buf);
        self.src_macaddr.encode(buf);
        self.ethertype.encode(buf);
        proof {
            assert(buf@ =~= old(buf)@ + self.wire());
        }
    }

    fn decode(bytes: &[u8], at: usize) -> (r: Self) {
        let _n: usize = bytes.len();
        let dst = MacAddr::decode(bytes, at);
        let src = MacAddr::decode(bytes, at + 6);
        let ethertype = EtherType::decode(bytes, at + 12);
        let r = EthernetHeader { dst_macaddr: dst, src_macaddr: src, ethertype };
        proof {
            let w = bytes@.subrange(at as int, at as int + 14);
            assert(w.subrange(0, 6) =~= bytes@.subrange(at as int, at as int + 6));
            assert(w.subrange(6, 12) =~= bytes@.subrange(at as int + 6, at as int + 12));
            assert(w.subrange(12, 14) =~= bytes@.subrange(at as int + 12, at as int + 14));
        }
        r
    }
}

impl EthernetHeader {
    /// Pack into big-endian (network) byte order.
    pub fn to_be_bytes(&self) -> (r: Vec<u8>)
        ensures
            r@ == self.wire(),
    {
        let mut out: Vec<u8> = Vec::new();
        self.encode(&mut out);
        out
    }

    /// Decode from a buffer holding at least the header's 14 bytes.
    pub fn read_bytes(bytes: &[u8]) -> (r: Self)
        requires
            14 <= bytes@.len(),
        ensures
            r == Self::from_wire(bytes@.subrange(0, 14)),
    {
        Self::decode(bytes, 0)
    }
}

/// Ethernet frame around an arbitrary wire-codec payload, with the trailing
/// 4-byte frame check sequence carried as a plain field: it stays zero unless
/// a software CRC is requested, since hardware normally supplies it.
#[derive(Clone, Copy, Debug, PartialEq, Eq)]
pub struct EthernetFrame<T> where T: WireCodec {
    /// Link-layer header
    pub header: EthernetHeader,
    /// Payload, for example an IPv4 frame
    pub data: T,
    /// Frame check sequence field
    pub checksum: u32,
}

impl<T: WireCodec> WireCodec for EthernetFrame<T> {
    open spec fn spec_byte_len() -> nat {
        14 + T::spec_byte_len() + 4
    }

    open spec fn wire(self) -> Seq<u8> {
        self.header.wire() + self.data.wire() + be32(self.checksum)
    }

    open spec fn from_wire(b: Seq<u8>) -> Self {
        let n = 14 + T::spec_byte_len() as int;
        EthernetFrame {
            header: EthernetHeader::from_wire(b.subrange(0, 14)),
            data: T::from_wire(b.subrange(14, n)),
            checksum: u32_from_be(b[n], b[n + 1], b[n + 2], b[n + 3]),
        }
    }

    open spec fn wf(self) -> bool {
        self.header.wf() && self.data.wf()
    }

    proof fn lemma_wire_len(self) {
        self.header.lemma_wire_len();
        self.data.lemma_wire_len();
    }

    proof fn lemma_round_trip(self) {
        let w = self.wire();
        let n = 14 + T::spec_byte_len() as int;
        self.header.lemma_wire_len();
        self.data.lemma_wire_len();
        assert(w.subrange(0, 14) =~= self.header.wire());
        assert(w.subrange(14, n) =~= self.data.wire());
        self.header.lemma_round_trip();
        self.data.lemma_round_trip();
        crate::codec::lemma_be32_round_trip(self.checksum);
        assert(w[n] == be32(self.checksum)[0]);
        assert(w[n + 1] == be32(self.checksum)[1]);
        assert(w[n + 2] == be32(self.checksum)[2]);
        assert(w[n + 3] == be32(self.checksum)[3]);
    }

    proof fn lemma_from_wire_wf(b: Seq<u8>) {
        EthernetHeader::lemma_from_wire_wf(b.subrange(0, 14));
        T::lemma_from_wire_wf(b.subrange(14, 14 + T::spec_byte_len() as int));
    }

    fn byte_len() -> (n: usize)
        ensures
            n == Self::spec_byte_len(),
    {
        14 + T::byte_len() + 4
    }

    fn encode(&self, buf: &mut Vec<u8>) {
        self.header.encode(buf);
        self.data.encode(buf);
        push_be32(buf, self.checksum);
        proof {
            assert(buf@ =~= old(buf)@ + self.wire());
        }
    }

    fn decode(bytes: &[u8], at: usize) -> (r: Self) {
        let _n: usize = bytes.len();
        let header = EthernetHeader::decode(bytes, at);
        let data = T::decode(bytes, at + 14);
        let tail: usize = at + 14 + T::byte_len();
        let checksum = read_be32(bytes, tail);
        let r = EthernetFrame { header, data, checksum };
        proof {
            let len = Self::spec_byte_len() as int;
            let m = 14 + T::spec_byte_len() as int;
            let w = bytes@.subrange(at as int, at as int + len);
            assert(w.subrange(0, 14) =~= bytes@.subrange(at as int, at as int + 14));
            assert(w.subrange(14, m) =~= bytes@.subrange(at as int + 14, at as int + m));
            assert(w[m] == bytes@[at as int + m]);
            assert(w[m + 1] == bytes@[at as int + m + 1]);
            assert(w[m + 2] == bytes@[at as int + m + 2]);
            assert(w[m + 3] == bytes@[at as int + m + 3]);
        }
        r
    }
}

impl<T: WireCodec> EthernetFrame<T> {
    /// Pack into big-endian (network) byte order.
    pub fn to_be_bytes(&self) -> (r: Vec<u8>)
        ensures
            r@ == self.wire(),
    {
        let mut out: Vec<u8> = Vec::new();
        self.encode(&mut out);
        out
    }

    /// Decode from a buffer holding at least the frame's bytes.
    pub fn read_bytes(bytes: &[u8]) -> (r: Self)
        requires
            Self::spec_byte_len() <= bytes@.len(),
        ensures
            r == Self::from_wire(bytes@.subrange(0, Self::spec_byte_len() as int)),
    {
        Self::decode(bytes, 0)
    }
}

} // verus!
