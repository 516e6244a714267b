//! Address Resolution Protocol messages, with generation of requests and of
//! responses to received requests.
//!
//! ARP is not a distinct network abstraction layer, but most networks need it
//! for IP and UDP to function: socket abstractions frequently require an ARP
//! request and response to be completed before sending data, and on networks
//! that self-assemble their addressing space it lets each host poll the
//! others before taking an address.

use vstd::prelude::*;

use crate::codec::{be16, push_be16, push_zeros, read_be16, u16_from_be, zeros, WireCodec};
use crate::{IpV4Addr, MacAddr, ParseError};

verus! {

/// ARP request or response flag values. Any other code decodes to the
/// carry-all variant, which preserves the raw value.
#[derive(Clone, Copy, Debug, PartialEq, Eq, PartialOrd, Ord)]
pub enum ArpOperation {
    /// A request to confirm the target IP address and acquire the associated
    /// MAC address
    Request,
    /// A response confirming our IP address and providing the associated MAC
    /// address
    Response,
    /// Carry-all for codes that do not match a named variant
    Unknown(u16),
}

impl ArpOperation {
    /// Numeric wire code of this operation.
    pub open spec fn spec_code(self) -> u16 {
        match self {
            ArpOperation::Request => 1,
            ArpOperation::Response => 2,
            ArpOperation::Unknown(x) => x,
        }
    }

    /// The operation a numeric wire code names.
    pub open spec fn spec_from_code(x: u16) -> ArpOperation {
        if x == 1 {
            ArpOperation::Request
        } else if x == 2 {
            ArpOperation::Response
        } else {
            ArpOperation::Unknown(x)
        }
    }

    /// Numeric wire code of this operation.
    pub fn code(&self) -> (r: u16)
        ensures
            r == self.spec_code(),
    {
        match self {
            ArpOperation::Request => 1,
            ArpOperation::Response => 2,
            ArpOperation::Unknown(x) => *x,
        }
    }

    /// The operation a numeric wire code names.
    pub fn from_code(x: u16) -> (r: Self)
        ensures
            r == Self::spec_from_code(x),
    {
        if x == 1 {
            ArpOperation::Request
        } else if x == 2 {
            ArpOperation::Response
        } else {
            ArpOperation::Unknown(x)
        }
    }

    /// Pack into big-endian (network) byte order.
    pub fn to_be_bytes(&self) -> (r: Vec<u8>)
        ensures
            r@ == self.wire(),
    {
        let mut out: Vec<u8> = Vec::new();
        self.encode(&mut out);
        out
    }
}

/// Encoding any decoded operation code reproduces the code exactly, also for
/// codes outside the known set, which ride in the carry-all variant.
pub proof fn lemma_arp_operation_code_round_trip(x: u16)
    ensures
        ArpOperation::spec_from_code(x).spec_code() == x,
{
}

impl WireCodec for ArpOperation {
    open spec fn spec_byte_len() -> nat {
        2
    }

    open spec fn wire(self) -> Seq<u8> {
        be16(self.spec_code())
    }

    open spec fn from_wire(b: Seq<u8>) -> Self {
        Self::spec_from_code(u16_from_be(b[0], b[1]))
    }

    open spec fn wf(self) -> bool {
        match self {
            ArpOperation::Unknown(x) => x != 1 && x != 2,
            _ => true,
        }
    }

    proof fn lemma_wire_len(self) {
    }

    proof fn lemma_round_trip(self) {
        crate::codec::lemma_be16_round_trip(self.spec_code());
    }

    proof fn lemma_from_wire_wf(b: Seq<u8>) {
    }

    fn byte_len() -> usize {
        2
    }

    fn encode(&self, buf: &mut Vec<u8>) {
        push_be16(buf, self.code());
    }

    fn decode(bytes: &[u8], at: usize) -> (r: Self) {
        Self::from_code(read_be16(bytes, at))
    }
}

/// Protocol type flags reuse the EtherType code space but are a type of
/// their own so the ARP payload does not recurse into the link layer. Any
/// other code decodes to the carry-all variant, which preserves the raw
/// value.
#[derive(Clone, Copy, Debug, PartialEq, Eq, PartialOrd, Ord)]
pub enum ProtocolType {
    /// Internet protocol version 4
    IpV4,
    /// Address resolution protocol
    Arp,
    /// Tagged virtual LAN, which this crate does not parse further
    Vlan,
    /// Internet protocol version 6
    IpV6,
    /// EtherCat
    EtherCat,
    /// Precision Time Protocol
    Ptp,
    /// Carry-all for uncommon types not named here
    Unknown(u16),
}

impl ProtocolType {
    /// Numeric wire code of this protocol type.
    pub open spec fn spec_code(self) -> u16 {
        match self {
            ProtocolType::IpV4 => 0x0800,
            ProtocolType::Arp => 0x0806,
            ProtocolType::Vlan => 0x8100,
            ProtocolType::IpV6 => 0x86DD,
            ProtocolType::EtherCat => 0x88A4,
            ProtocolType::Ptp => 0x88A7,
            ProtocolType::Unknown(x) => x,
        }
    }

    /// The protocol type a numeric wire code names.
    pub open spec fn spec_from_code(x: u16) -> ProtocolType {
        if x == 0x0800 {
            ProtocolType::IpV4
        } else if x == 0x0806 {
            ProtocolType::Arp
        } else if x == 0x8100 {
            ProtocolType::Vlan
        } else if x == 0x86DD {
            ProtocolType::IpV6
        } else if x == 0x88A4 {
            ProtocolType::EtherCat
        } else if x == 0x88A7 {
            ProtocolType::Ptp
        } else {
            ProtocolType::Unknown(x)
        }
    }

    /// Numeric wire code of this protocol type.
    pub fn code(&self) -> (r: u16)
        ensures
            r == self.spec_code(),
    {
        match self {
            ProtocolType::IpV4 => 0x0800,
            ProtocolType::Arp => 0x0806,
            ProtocolType::Vlan => 0x8100,
            ProtocolType::IpV6 => 0x86DD,
            ProtocolType::EtherCat => 0x88A4,
            ProtocolType::Ptp => 0x88A7,
            ProtocolType::Unknown(x) => *x,
        }
    }

    /// The protocol type a numeric wire code names.
    pub fn from_code(x: u16) -> (r: Self)
        ensures
            r == Self::spec_from_code(x),
    {
        if x == 0x0800 {
            ProtocolType::IpV4
        } else if x == 0x0806 {
            ProtocolType::Arp
        } else if x == 0x8100 {
            ProtocolType::Vlan
        } else if x == 0x86DD {
            ProtocolType::IpV6
        } else if x == 0x88A4 {
            ProtocolType::EtherCat
        } else if x == 0x88A7 {
            ProtocolType::Ptp
        } else {
            ProtocolType::Unknown(x)
        }
    }

    /// Pack into big-endian (network) byte order.
    pub fn to_be_bytes(&self) -> (r: Vec<u8>)
        ensures
            r@ == self.wire(),
    {
        let mut out: Vec<u8> = Vec::new();
        self.encode(&mut out);
        out
    }
}

/// Encoding any decoded protocol-type code reproduces the code exactly, also
/// for codes outside the known set, which ride in the carry-all variant.
pub proof fn lemma_protocol_type_code_round_trip(x: u16)
    ensures
        ProtocolType::spec_from_code(x).spec_code() == x,
{
}

impl WireCodec for ProtocolType {
    open spec fn spec_byte_len() -> nat {
        2
    }

    open spec fn wire(self) -> Seq<u8> {
        be16(self.spec_code())
    }

    open spec fn from_wire(b: Seq<u8>) -> Self {
        Self::spec_from_code(u16_from_be(b[0], b[1]))
    }

    open spec fn wf(self) -> bool {
        match self {
            ProtocolType::Unknown(x) => Self::spec_from_code(x) == ProtocolType::Unknown(x),
            _ => true,
        }
    }

    proof fn lemma_wire_len(self) {
    }

    proof fn lemma_round_trip(self) {
        crate::codec::lemma_be16_round_trip(self.spec_code());
    }

    proof fn lemma_from_wire_wf(b: Seq<u8>) {
    }

    fn byte_len() -> usize {
        2
    }

    fn encode(&self, buf: &mut Vec<u8>) {
        push_be16(buf, self.code());
    }

    fn decode(bytes: &[u8], at: usize) -> (r: Self) {
        Self::from_code(read_be16(bytes, at))
    }
}

/// An ARP request or response with IPv4 addresses and standard MAC
/// addresses: 28 bytes of ARP fields, padded with 18 trailing zero bytes to
/// the 46-byte Ethernet minimum payload. Hardware type is 1 for Ethernet.
#[derive(Clone, Copy, Debug, PartialEq, Eq)]
pub struct ArpPayload {
    /// Hardware type (1 for Ethernet)
    pub htype: u16,
    /// Protocol type (same code space as the Ethernet header's EtherType)
    pub ptype: ProtocolType,
    /// Hardware address length (6 for standard MAC)
    pub hlen: u8,
    /// Protocol address length (4 for IPv4)
    pub plen: u8,
    /// ARP operation type
    pub operation: ArpOperation,
    /// Source MAC address
    pub src_mac: MacAddr,
    /// Source IP address
    pub src_ipaddr: IpV4Addr,
    /// Destination MAC address (all zeros in a request)
    pub dst_mac: MacAddr,
    /// Destination IP address (the address to resolve)
    pub dst_ipaddr: IpV4Addr,
}

impl ArpPayload {
    /// Create a new ARP payload for IPv4 on Ethernet: hardware type 1,
    /// 6-byte hardware addresses, 4-byte protocol addresses.
    pub fn new(
        src_mac: MacAddr,
        src_ipaddr: IpV4Addr,
        dst_mac: MacAddr,
        dst_ipaddr: IpV4Addr,
        operation: ArpOperation,
    ) -> (r: Self)
        ensures
            r == (ArpPayload {
                htype: 1u16,
                ptype: ProtocolType::IpV4,
                hlen: 6u8,
                plen: 4u8,
                operation,
                src_mac,
                src_ipaddr,
                dst_mac,
                dst_ipaddr,
            }),
    {
        ArpPayload {
            htype: 1,
            ptype: ProtocolType::IpV4,
            hlen: 6,
            plen: 4,
            operation,
            src_mac,
            src_ipaddr,
            dst_mac,
            dst_ipaddr,
        }
    }

    /// Pack into big-endian (network) byte order.
    pub fn to_be_bytes(&self) -> (r: Vec<u8>)
        ensures
            r@ == self.wire(),
    {
        let mut out: Vec<u8> = Vec::new();
        self.encode(&mut out);
        out
    }

    /// Decode from a buffer holding at least the payload's 46 bytes.
    pub fn read_bytes(bytes: &[u8]) -> (r: Self)
        requires
            46 <= bytes@.len(),
        ensures
            r == Self::from_wire(bytes@.subrange(0, 46)),
    {
        Self::decode(bytes, 0)
    }

    /// Validating parse: decode, then check that the declared address
    /// lengths fit the fixed IPv4-over-Ethernet layout, which a message with
    /// other address lengths would be too short for.
    pub fn parse(bytes: &[u8]) -> (r: Result<Self, ParseError>)
        ensures
            ({
                let v = Self::from_wire(bytes@.subrange(0, 46));
                if bytes@.len() < 46 {
                    r == Err::<Self, ParseError>(
                        ParseError::TooShort { expected: 46usize, actual: bytes@.len() as usize },
                    )
                } else if v.hlen != 6 {
                    r == Err::<Self, ParseError>(
                        ParseError::LengthMismatch { expected: 6usize, actual: v.hlen as usize },
                    )
                } else if v.plen != 4 {
                    r == Err::<Self, ParseError>(
                        ParseError::LengthMismatch { expected: 4usize, actual: v.plen as usize },
                    )
                } else {
                    r == Ok::<Self, ParseError>(v)
                }
            }),
    {
        let n: usize = bytes.len();
        if n < 46 {
            return Err(ParseError::TooShort { expected: 46, actual: n });
        }
        let v = Self::decode(bytes, 0);
        if v.hlen != 6 {
            return Err(ParseError::LengthMismatch { expected: 6, actual: v.hlen as usize });
        }
        if v.plen != 4 {
            return Err(ParseError::LengthMismatch { expected: 4, actual: v.plen as usize });
        }
        Ok(v)
    }
}

/// The ARP payload is sized for the minimum Ethernet payload at its
/// definition: 28 bytes of ARP fields plus 18 bytes of trailing padding.
pub proof fn lemma_arp_payload_byte_len()
    ensures
        ArpPayload::spec_byte_len() == 46,
{
}

impl WireCodec for ArpPayload {
    open spec fn spec_byte_len() -> nat {
        46
    }

    open spec fn wire(self) -> Seq<u8> {
        be16(self.htype) + self.ptype.wire() + seq![self.hlen] + seq![self.plen]
            + self.operation.wire() + self.src_mac@ + self.src_ipaddr@ + self.dst_mac@
            + self.dst_ipaddr@ + zeros(18)
    }

    open spec fn from_wire(b: Seq<u8>) -> Self {
        ArpPayload {
            htype: u16_from_be(b[0], b[1]),
            ptype: ProtocolType::from_wire(b.subrange(2, 4)),
            hlen: b[4],
            plen: b[5],
            operation: ArpOperation::from_wire(b.subrange(6, 8)),
            src_mac: MacAddr::from_wire(b.subrange(8, 14)),
            src_ipaddr: IpV4Addr::from_wire(b.subrange(14, 18)),
            dst_mac: MacAddr::from_wire(b.subrange(18, 24)),
            dst_ipaddr: IpV4Addr::from_wire(b.subrange(24, 28)),
        }
    }

    open spec fn wf(self) -> bool {
        self.ptype.wf() && self.operation.wf()
    }

    proof fn lemma_wire_len(self) {
    }

    proof fn lemma_round_trip(self) {
        let w = self.wire();
        assert(w.subrange(2, 4) =~= self.ptype.wire());
        assert(w.subrange(6, 8) =~= self.operation.wire());
        assert(w.subrange(8, 14) =~= self.src_mac@);
        assert(w.subrange(14, 18) =~= self.src_ipaddr@);
        assert(w.subrange(18, 24) =~= self.dst_mac@);
        assert(w.subrange(24, 28) =~= self.dst_ipaddr@);
        crate::codec::lemma_be16_round_trip(self.htype);
        self.ptype.lemma_round_trip();
        self.operation.lemma_round_trip();
        self.src_mac.lemma_round_trip();
        self.src_ipaddr.lemma_round_trip();
        self.dst_mac.lemma_round_trip();
        self.dst_ipaddr.lemma_round_trip();
    }

    proof fn lemma_from_wire_wf(b: Seq<u8>) {
        ProtocolType::lemma_from_wire_wf(b.subrange(2, 4));
        ArpOperation::lemma_from_wire_wf(b.subrange(6, 8));
    }

    fn byte_len() -> usize {
        46
    }

    fn encode(&self, buf: &mut Vec<u8>) {
        push_be16(buf, self.htype);
        self.ptype.encode(buf);
        buf.push(self.hlen);
        buf.push(self.plen);
        self.operation.encode(buf);
        self.src_mac.encode(buf);
        self.src_ipaddr.encode(buf);
        self.dst_mac.encode(buf);
        self.dst_ipaddr.encode(buf);
        push_zeros(buf, 18);
        proof {
            assert(buf@ =~= old(buf)@ + self.wire());
        }
    }

    fn decode(bytes: &[u8], at: usize) -> (r: Self) {
        let _n: usize = bytes.len();
        let r = ArpPayload {
            htype: read_be16(bytes, at),
            ptype: ProtocolType::decode(bytes, at + 2),
            hlen: bytes[at + 4],
            plen: bytes[at + 5],
            operation: ArpOperation::decode(bytes, at + 6),
            src_mac: MacAddr::decode(bytes, at + 8),
            src_ipaddr: IpV4Addr::decode(bytes, at + 14),
            dst_mac: MacAddr::decode(bytes, at + 18),
            dst_ipaddr: IpV4Addr::decode(bytes, at + 24),
        };
        proof {
            let w = bytes@.subrange(at as int, at as int + 46);
            assert(w.subrange(2, 4) =~= bytes@.subrange(at as int + 2, at as int + 4));
            assert(w.subrange(6, 8) =~= bytes@.subrange(at as int + 6, at as int + 8));
            assert(w.subrange(8, 14) =~= bytes@.subrange(at as int + 8, at as int + 14));
            assert(w.subrange(14, 18) =~= bytes@.subrange(at as int + 14, at as int + 18));
            assert(w.subrange(18, 24) =~= bytes@.subrange(at as int + 18, at as int + 24));
            assert(w.subrange(24, 28) =~= bytes@.subrange(at as int + 24, at as int + 28));
        }
        r
    }
}

} // verus!
