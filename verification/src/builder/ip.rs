//! Internet Protocol header construction directly on the wire bytes.
//!
//! The header is kept as its byte image; each setter writes one field's
//! exact bits and nothing else, so storage can be handed straight to a MAC
//! driver without a separate encode step.

use vstd::prelude::*;

use crate::builder::IPV4Addr;
use crate::checksum_of;
use crate::codec::push_zeros;

verus! {

/// IP version bit mask, already positioned in the high nibble of the first
/// header byte.
#[derive(Clone, Copy, Debug, PartialEq, Eq)]
pub enum Version {
    /// IPv4
    V4,
    /// IPv6
    V6,
    /// Unimplemented
    Unimplemented,
}

impl Version {
    /// The mask value: the version number shifted into the high nibble.
    pub open spec fn spec_code(self) -> u8 {
        match self {
            Version::V4 => 0x40,
            Version::V6 => 0x60,
            Version::Unimplemented => 0,
        }
    }

    /// The mask value: the version number shifted into the high nibble.
    pub fn code(&self) -> (r: u8)
        ensures
            r == self.spec_code(),
    {
        match self {
            Version::V4 => 0x40,
            Version::V6 => 0x60,
            Version::Unimplemented => 0,
        }
    }
}

/// Transport-layer protocol codes as the byte-image builder names them.
/// There are many more protocols not listed here.
#[derive(Clone, Copy, Debug, PartialEq, Eq)]
pub enum Protocol {
    /// Transmission Control Protocol
    TCP,
    /// User Datagram Protocol
    UDP,
    /// Catch-all for unimplemented identifiers
    Unimplemented,
}

impl Protocol {
    /// Numeric wire code of this protocol.
    pub open spec fn spec_code(self) -> u8 {
        match self {
            Protocol::TCP => 0x06,
            Protocol::UDP => 0x11,
            Protocol::Unimplemented => 0,
        }
    }

    /// Numeric wire code of this protocol.
    pub fn code(&self) -> (r: u8)
        ensures
            r == self.spec_code(),
    {
        match self {
            Protocol::TCP => 0x06,
            Protocol::UDP => 0x11,
            Protocol::Unimplemented => 0,
        }
    }
}

/// Differentiated-services traffic classes, as the value of the second
/// header byte (the 6-bit code point in the high bits).
#[derive(Clone, Copy, Debug, PartialEq, Eq)]
pub enum DSCP {
    /// Default traffic
    Standard,
    /// Network control traffic
    NetworkControl,
    /// Telephony
    Telephony,
    /// Signaling
    Signaling,
    /// Realtime traffic
    Realtime,
    /// Broadcast video
    BroadcastVideo,
    /// Operation and maintenance
    OAM,
    /// Low priority data
    LowPriority,
    /// Low drop, priority 1
    AF11,
    /// Med drop, priority 1
    AF12,
    /// High drop, priority 1
    AF13,
    /// Low drop, priority 2
    AF21,
    /// Med drop, priority 2
    AF22,
    /// High drop, priority 2
    AF23,
    /// Low drop, priority 3
    AF31,
    /// Med drop, priority 3
    AF32,
    /// High drop, priority 3
    AF33,
}

impl DSCP {
    /// The byte value: the code point shifted past the two ECN bits.
    pub open spec fn spec_code(self) -> u8 {
        match self {
            DSCP::Standard => 0,
            DSCP::NetworkControl => 192,
            DSCP::Telephony => 184,
            DSCP::Signaling => 160,
            DSCP::Realtime => 128,
            DSCP::BroadcastVideo => 96,
            DSCP::OAM => 64,
            DSCP::LowPriority => 32,
            DSCP::AF11 => 40,
            DSCP::AF12 => 48,
            DSCP::AF13 => 56,
            DSCP::AF21 => 72,
            DSCP::AF22 => 80,
            DSCP::AF23 => 88,
            DSCP::AF31 => 104,
            DSCP::AF32 => 112,
            DSCP::AF33 => 120,
        }
    }

    /// The byte value: the code point shifted past the two ECN bits.
    pub fn code(&self) -> (r: u8)
        ensures
            r == self.spec_code(),
    {
        match self {
            DSCP::Standard => 0,
            DSCP::NetworkControl => 192,
            DSCP::Telephony => 184,
            DSCP::Signaling => 160,
            DSCP::Realtime => 128,
            DSCP::BroadcastVideo => 96,
            DSCP::OAM => 64,
            DSCP::LowPriority => 32,
            DSCP::AF11 => 40,
            DSCP::AF12 => 48,
            DSCP::AF13 => 56,
            DSCP::AF21 => 72,
            DSCP::AF22 => 80,
            DSCP::AF23 => 88,
            DSCP::AF31 => 104,
            DSCP::AF32 => 112,
            DSCP::AF33 => 120,
        }
    }
}

/// Fragmentation flag masks over the sixth header byte.
#[derive(Clone, Copy, Debug, PartialEq, Eq)]
pub enum Flags {
    /// Do not fragment
    DF,
    /// More fragments
    MF,
    /// Helper for clearing both flags
    Clear,
}

/// IPv4 header held as its wire bytes, per IETF-RFC-791. `W` is the number
/// of 32-bit words reserved for the Options section, at most 10 because the
/// header-length nibble counts at most 15 words.
///
/// Byte layout: version+header length, DSCP, total length (2), id (2),
/// flags+fragment offset (2), TTL, protocol, checksum (2), source address
/// (4), destination address (4), then the Options words.
#[derive(Clone, Debug, PartialEq, Eq)]
pub struct IPV4Header<const W: usize> {
    /// The actual content of the header as bytes
    pub value: Vec<u8>,
}

impl<const W: usize> IPV4Header<W> {
    /// Whether the byte image has the declared size: 20 fixed bytes plus the
    /// Options words.
    pub open spec fn wf(self) -> bool {
        self.value@.len() == 4 * W + 20 && W <= 10
    }

    /// Start from some sensible defaults: version 4, the declared header
    /// length, standard traffic class, TTL 100, UDP, everything else zero.
    pub fn new() -> (r: Self)
        requires
            W <= 10,
        ensures
            r.wf(),
            r.value@[0] == 0x45 + W,
            r.value@[8] == 100,
            r.value@[9] == 0x11,
            forall|i: int|
                0 <= i < 4 * W + 20 && i != 0 && i != 8 && i != 9 ==> r.value@[i] == 0,
    {
        let mut value: Vec<u8> = Vec::new();
        push_zeros(&mut value, 4 * W + 20);
        let mut header = IPV4Header { value };
        header.version(Version::V4);
        header.header_length(5 + W as u8);
        header.dscp(DSCP::Standard);
        header.ttl(100);
        header.protocol(Protocol::UDP);
        header
    }

    /// Set version: replace the high nibble of byte 0 with the mask.
    pub fn version(&mut self, v: Version)
        requires
            old(self).wf(),
        ensures
            final(self).wf(),
            final(self).value@ == old(self).value@.update(
                0,
                (old(self).value@[0] % 16 + v.spec_code()) as u8,
            ),
    {
        let b0: u8 = self.value[0];
        self.value[0] = b0 % 16 + v.code();
    }

    /// Set header length in 32-bit words: replace the low nibble of byte 0.
    pub fn header_length(&mut self, v: u8)
        requires
            old(self).wf(),
            v < 16,
        ensures
            final(self).wf(),
            final(self).value@ == old(self).value@.update(
                0,
                (old(self).value@[0] - old(self).value@[0] % 16 + v) as u8,
            ),
    {
        let b0: u8 = self.value[0];
        self.value[0] = b0 - b0 % 16 + v;
    }

    /// Set the traffic class: replace the high six bits of byte 1.
    pub fn dscp(&mut self, v: DSCP)
        requires
            old(self).wf(),
        ensures
            final(self).wf(),
            final(self).value@ == old(self).value@.update(
                1,
                (old(self).value@[1] % 4 + v.spec_code()) as u8,
            ),
    {
        let b1: u8 = self.value[1];
        self.value[1] = b1 % 4 + v.code();
    }

    /// Set total length of packet (header + body) in bytes.
    pub fn total_length(&mut self, v: u16)
        requires
            old(self).wf(),
        ensures
            final(self).wf(),
            final(self).value@ == old(self).value@.update(2, (v / 256) as u8).update(
                3,
                (v % 256) as u8,
            ),
    {
        self.value[2] = (v / 256) as u8;
        self.value[3] = (v % 256) as u8;
    }

    /// Set identification.
    pub fn identification(&mut self, v: u16)
        requires
            old(self).wf(),
        ensures
            final(self).wf(),
            final(self).value@ == old(self).value@.update(4, (v / 256) as u8).update(
                5,
                (v % 256) as u8,
            ),
    {
        self.value[4] = (v / 256) as u8;
        self.value[5] = (v % 256) as u8;
    }

    /// Set or clear fragmentation flags in byte 6: `DF` and `MF` each raise
    /// their own bit, `Clear` lowers both.
    pub fn flags(&mut self, v: Flags)
        requires
            old(self).wf(),
        ensures
            final(self).wf(),
            final(self).value@ == old(self).value@.update(
                6,
                ({
                    let b6 = old(self).value@[6];
                    match v {
                        Flags::DF => if b6 / 64 % 2 == 1 {
                            b6
                        } else {
                            (b6 + 64) as u8
                        },
                        Flags::MF => if b6 / 32 % 2 == 1 {
                            b6
                        } else {
                            (b6 + 32) as u8
                        },
                        Flags::Clear => (b6 % 32) as u8,
                    }
                }),
            ),
    {
        let b6: u8 = self.value[6];
        let updated: u8 = match v {
            Flags::DF => if b6 / 64 % 2 == 1 {
                b6
            } else {
                b6 + 64
            },
            Flags::MF => if b6 / 32 % 2 == 1 {
                b6
            } else {
                b6 + 32
            },
            Flags::Clear => b6 % 32,
        };
        self.value[6] = updated;
    }

    /// Set fragmentation offset: clipped to 13 bits, its high five bits
    /// replace the low five of byte 6 and its low byte replaces byte 7.
    pub fn frag_offs(&mut self, v: u16)
        requires
            old(self).wf(),
        ensures
            final(self).wf(),
            final(self).value@ == old(self).value@.update(
                6,
                (old(self).value@[6] - old(self).value@[6] % 32 + (v % 0x2000) / 256) as u8,
            ).update(7, ((v % 0x2000) % 256) as u8),
    {
        let v2: u16 = v % 0x2000;
        let b6: u8 = self.value[6];
        self.value[6] = b6 - b6 % 32 + (v2 / 256) as u8;
        self.value[7] = (v2 % 256) as u8;
    }

    /// Set the Time-to-Live counter (number of hops allowed). This counter
    /// decrements at each router, which drops the packet at 0.
    pub fn ttl(&mut self, v: u8)
        requires
            old(self).wf(),
        ensures
            final(self).wf(),
            final(self).value@ == old(self).value@.update(8, v),
    {
        self.value[8] = v;
    }

    /// Set the transport-layer protocol code.
    pub fn protocol(&mut self, v: Protocol)
        requires
            old(self).wf(),
        ensures
            final(self).wf(),
            final(self).value@ == old(self).value@.update(9, v.spec_code()),
    {
        self.value[9] = v.code();
    }

    /// Calculate and set the header checksum: the checksum bytes are
    /// zeroed, the checksum is computed over the whole header, and its
    /// big-endian bytes are written back in place.
    pub fn header_checksum(&mut self)
        requires
            old(self).wf(),
        ensures
            final(self).wf(),
            ({
                let zeroed = old(self).value@.update(10, 0u8).update(11, 0u8);
                let c = checksum_of(zeroed);
                final(self).value@ == zeroed.update(10, (c / 256) as u8).update(
                    11,
                    (c % 256) as u8,
                )
            }),
    {
        self.value[10] = 0;
        self.value[11] = 0;
        let checksum: u16 = crate::calc_ip_checksum(self.value.as_slice());
        self.value[10] = (checksum / 256) as u8;
        self.value[11] = (checksum % 256) as u8;
    }

    /// Set the source IP address in bytes 12 to 15.
    pub fn src_ipaddr(&mut self, v: IPV4Addr)
        requires
            old(self).wf(),
        ensures
            final(self).wf(),
            final(self).value@ == old(self).value@.update(12, v.value@[0]).update(
                13,
                v.value@[1],
            ).update(14, v.value@[2]).update(15, v.value@[3]),
    {
        self.value[12] = v.value[0];
        self.value[13] = v.value[1];
        self.value[14] = v.value[2];
        self.value[15] = v.value[3];
    }

    /// Set the destination IP address in bytes 16 to 19.
    pub fn dst_ipaddr(&mut self, v: IPV4Addr)
        requires
            old(self).wf(),
        ensures
            final(self).wf(),
            final(self).value@ == old(self).value@.update(16, v.value@[0]).update(
                17,
                v.value@[1],
            ).update(18, v.value@[2]).update(19, v.value@[3]),
    {
        self.value[16] = v.value[0];
        self.value[17] = v.value[1];
        self.value[18] = v.value[2];
        self.value[19] = v.value[3];
    }

    /// Make a header image from big-endian 16-bit words.
    pub fn from_16bit_words<const M: usize>(words: &[u16]) -> (r: IPV4Header<M>)
        requires
            words@.len() == 2 * M + 10,
            M <= 10,
        ensures
            r.wf(),
            forall|i: int|
                0 <= i < 2 * M + 10 ==> r.value@[2 * i] == (words@[i] / 256) as u8
                    && r.value@[2 * i + 1] == (words@[i] % 256) as u8,
    {
        let n: usize = words.len();
        let mut value: Vec<u8> = Vec::new();
        let mut i: usize = 0;
        while i < n
            invariant
                i <= n,
                n == words@.len() == 2 * M + 10,
                value@.len() == 2 * i,
                forall|j: int|
                    0 <= j < i ==> value@[2 * j] == (words@[j] / 256) as u8 && value@[2 * j
                        + 1] == (words@[j] % 256) as u8,
            decreases n - i,
        {
            let w: u16 = words[i];
            value.push((w / 256) as u8);
            value.push((w % 256) as u8);
            i = i + 1;
        }
        IPV4Header { value }
    }

    /// Make a header image from big-endian 32-bit words.
    pub fn from_32bit_words<const M: usize>(words: &[u32]) -> (r: IPV4Header<M>)
        requires
            words@.len() == M + 5,
            M <= 10,
        ensures
            r.wf(),
            forall|i: int|
                0 <= i < M + 5 ==> r.value@[4 * i] == (words@[i] / 0x1000000) as u8
                    && r.value@[4 * i + 1] == (words@[i] / 0x10000 % 256) as u8 && r.value@[4 * i
                    + 2] == (words@[i] / 256 % 256) as u8 && r.value@[4 * i + 3] == (words@[i]
                    % 256) as u8,
    {
        let n: usize = words.len();
        let mut value: Vec<u8> = Vec::new();
        let mut i: usize = 0;
        while i < n
            invariant
                i <= n,
                n == words@.len() == M + 5,
                value@.len() == 4 * i,
                forall|j: int|
                    0 <= j < i ==> value@[4 * j] == (words@[j] / 0x1000000) as u8 && value@[4 * j
                        + 1] == (words@[j] / 0x10000 % 256) as u8 && value@[4 * j + 2] == (
                    words@[j] / 256 % 256) as u8 && value@[4 * j + 3] == (words@[j] % 256) as u8,
            decreases n - i,
        {
            let w: u32 = words[i];
            value.push((w / 0x1000000) as u8);
            value.push((w / 0x10000 % 256) as u8);
            value.push((w / 256 % 256) as u8);
            value.push((w % 256) as u8);
            i = i + 1;
        }
        IPV4Header { value }
    }

    /// Get length of byte representation.
    pub fn len(&self) -> (n: usize)
        requires
            self.wf(),
        ensures
            n == 4 * W + 20,
    {
        self.value.len()
    }

    /// Pack into big-endian (network) byte order: the header is already a
    /// byte image, so this is a copy of the contents.
    pub fn to_be_bytes(&self) -> (r: Vec<u8>)
        ensures
            r@ == self.value@,
    {
        let mut out: Vec<u8> = Vec::new();
        crate::codec::push_bytes(&mut out, self.value.as_slice());
        out
    }
}

/// Parse (some) fields from a big-endian header byte image: version,
/// protocol, source address, destination address, header length in words,
/// total length, the raw Options bytes, and the identification field.
pub fn parse_header_bytes<const W: usize>(bytes: &[u8]) -> (r: (
    Version,
    Protocol,
    IPV4Addr,
    IPV4Addr,
    u8,
    u16,
    Vec<u8>,
    u16,
))
    requires
        bytes@.len() == 4 * W + 20,
    ensures
        r.0 == (if bytes@[0] / 16 == 4 {
            Version::V4
        } else if bytes@[0] / 16 == 6 {
            Version::V6
        } else {
            Version::Unimplemented
        }),
        r.1 == (if bytes@[9] == 0x06 {
            Protocol::TCP
        } else if bytes@[9] == 0x11 {
            Protocol::UDP
        } else {
            Protocol::Unimplemented
        }),
        r.2.value@ == bytes@.subrange(12, 16),
        r.3.value@ == bytes@.subrange(16, 20),
        r.4 == bytes@[0] % 16,
        r.5 == crate::codec::u16_from_be(bytes@[2], bytes@[3]),
        r.6@ == bytes@.subrange(20, 4 * W + 20),
        r.7 == crate::codec::u16_from_be(bytes@[4], bytes@[5]),
{
    let n: usize = bytes.len();
    let b0: u8 = bytes[0];
    let version = if b0 / 16 == 4 {
        Version::V4
    } else if b0 / 16 == 6 {
        Version::V6
    } else {
        Version::Unimplemented
    };
    let header_length: u8 = b0 % 16;
    let total_length: u16 = crate::codec::read_be16(bytes, 2);
    let identification: u16 = crate::codec::read_be16(bytes, 4);
    let b9: u8 = bytes[9];
    let protocol = if b9 == 0x06 {
        Protocol::TCP
    } else if b9 == 0x11 {
        Protocol::UDP
    } else {
        Protocol::Unimplemented
    };
    let mut src: [u8; 4] = [0u8; 4];
    let mut dst: [u8; 4] = [0u8; 4];
    let mut i: usize = 0;
    while i < 4
        invariant
            i <= 4,
            n == bytes@.len() == 4 * W + 20,
            forall|j: int| 0 <= j < i ==> src@[j] == bytes@[12 + j],
            forall|j: int| 0 <= j < i ==> dst@[j] == bytes@[16 + j],
        decreases 4 - i,
    {
        src[i] = bytes[12 + i];
        dst[i] = bytes[16 + i];
        i = i + 1;
    }
    let mut options: Vec<u8> = Vec::new();
    let mut k: usize = 20;
    while k < n
        invariant
            20 <= k <= n,
            n == bytes@.len() == 4 * W + 20,
            options@ == bytes@.subrange(20, k as int),
        decreases n - k,
    {
        options.push(bytes[k]);
        proof {
            assert(bytes@.subrange(20, k as int) + seq![bytes@[k as int]] =~= bytes@.subrange(
                20,
                k as int + 1,
            ));
        }
        k = k + 1;
    }
    let r = (
        version,
        protocol,
        IPV4Addr { value: src },
        IPV4Addr { value: dst },
        header_length,
        total_length,
        options,
        identification,
    );
    proof {
        assert(r.2.value@ =~= bytes@.subrange(12, 16));
        assert(r.3.value@ =~= bytes@.subrange(16, 20));
    }
    r
}

} // verus!
