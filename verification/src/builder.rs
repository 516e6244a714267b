//! Byte-oriented builder layer: headers kept directly as their wire bytes,
//! filled in field by field with bit-exact setters and read back with plain
//! parsers.
//!
//! Where the codec layer works with typed records, this layer works on the
//! byte image itself, which suits fixed storage handed straight to a MAC
//! driver. Each setter's contract pins the exact bytes it touches.

use vstd::prelude::*;

pub mod arp;
pub mod enet;
pub mod ip;
pub mod udp;

verus! {

/// MAC address held as plain bytes.
///
/// Locally-administered addresses are [0x02, ...], [0x06, ...], [0x0A, ...],
/// [0x0E, ...].
#[derive(Clone, Copy, Debug, PartialEq, Eq, PartialOrd, Ord)]
pub struct MACAddr {
    /// Split 24/24 format, Block ID | Device ID
    pub value: [u8; 6],
}

impl MACAddr {
    /// Formalize a MAC address from bytes.
    pub fn new(value: [u8; 6]) -> (r: Self)
        ensures
            r.value@ == value@,
    {
        MACAddr { value }
    }
}

/// IPv4 address held as plain bytes.
#[derive(Clone, Copy, Debug, PartialEq, Eq, PartialOrd, Ord)]
pub struct IPV4Addr {
    /// 4-byte IP address
    pub value: [u8; 4],
}

impl IPV4Addr {
    /// Formalize an IPv4 address from bytes.
    pub fn new(value: [u8; 4]) -> (r: Self)
        ensures
            r.value@ == value@,
    {
        IPV4Addr { value }
    }
}

/// Application data for IP and UDP, which require their payload in a
/// multiple of 4 bytes (32-bit words). `Q` is the number of words.
#[derive(Clone, Debug, PartialEq, Eq)]
pub struct Data<const Q: usize> {
    /// Byte contents; holds exactly `4 * Q` bytes when well formed
    pub value: Vec<u8>,
}

impl<const Q: usize> Data<Q> {
    /// Whether the contents fill the declared number of words.
    pub open spec fn wf(self) -> bool {
        self.value@.len() == 4 * Q
    }

    /// Wrap word-aligned bytes as application data.
    pub fn new(value: Vec<u8>) -> (r: Self)
        requires
            value@.len() == 4 * Q,
        ensures
            r.value == value,
            r.wf(),
    {
        Data { value }
    }

    /// Get length of byte representation.
    pub fn len(&self) -> (n: usize)
        requires
            self.wf(),
        ensures
            n == 4 * Q,
    {
        self.value.len()
    }

    /// Pack into big-endian (network) byte order: data is already a byte
    /// image, so this is a copy of the contents.
    pub fn to_be_bytes(&self) -> (r: Vec<u8>)
        ensures
            r@ == self.value@,
    {
        let mut out: Vec<u8> = Vec::new();
        crate::codec::push_bytes(&mut out, self.value.as_slice());
        out
    }
}

} // verus!
