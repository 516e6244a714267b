//! Address Resolution Protocol message generation over the byte-image
//! builder layer: a 28-byte IPv4-over-Ethernet ARP message built field by
//! field, with the enclosing frame responsible for padding to the minimum
//! Ethernet payload.

use vstd::prelude::*;

use crate::builder::{IPV4Addr, MACAddr};
use crate::codec::be16;
use crate::enet::EtherType;

verus! {

/// ARP request or response flag values.
#[derive(Clone, Copy, Debug, PartialEq, Eq)]
pub enum ARPOperation {
    /// A request to confirm the target IP address and acquire the
    /// associated MAC address
    Request,
    /// A response confirming our IP address and providing the associated
    /// MAC address
    Response,
}

impl ARPOperation {
    /// Numeric wire code of this operation.
    pub open spec fn spec_code(self) -> u16 {
        match self {
            ARPOperation::Request => 1,
            ARPOperation::Response => 2,
        }
    }

    /// Numeric wire code of this operation.
    pub fn code(&self) -> (r: u16)
        ensures
            r == self.spec_code(),
    {
        match self {
            ARPOperation::Request => 1,
            ARPOperation::Response => 2,
        }
    }
}

/// Build an ARP request or response with IPv4 addresses and standard MAC
/// addresses: hardware type, protocol type, the fixed 6-byte and 4-byte
/// address lengths, the operation, then sender and target hardware and
/// protocol addresses.
pub fn build_arp_msg_ipv4(
    htype: u16,
    ptype: EtherType,
    operation: ARPOperation,
    sha: MACAddr,
    spa: IPV4Addr,
    tha: MACAddr,
    tpa: IPV4Addr,
) -> (msg: [u8; 28])
    ensures
        msg@ == be16(htype) + be16(ptype.spec_code()) + seq![6u8, 4u8] + be16(
            operation.spec_code(),
        ) + sha.value@ + spa.value@ + tha.value@ + tpa.value@,
{
    let mut msg: [u8; 28] = [0u8; 28];
    // Hardware type (Ethernet and the like each have a numerical code)
    let htype_code: u16 = htype;
    msg[0] = (htype_code / 256) as u8;
    msg[1] = (htype_code % 256) as u8;
    // Protocol type
    let ptype_code: u16 = ptype.code();
    msg[2] = (ptype_code / 256) as u8;
    msg[3] = (ptype_code % 256) as u8;
    // Fixed address lengths: 6-byte MAC addresses, 4-byte IPv4 addresses
    msg[4] = 6;
    msg[5] = 4;
    // Operation type (request or response)
    let op_code: u16 = operation.code();
    msg[6] = (op_code / 256) as u8;
    msg[7] = (op_code % 256) as u8;
    // Sender hardware address
    msg[8] = sha.value[0];
    msg[9] = sha.value[1];
    msg[10] = sha.value[2];
    msg[11] = sha.value[3];
    msg[12] = sha.value[4];
    msg[13] = sha.value[5];
    // Sender protocol address
    msg[14] = spa.value[0];
    msg[15] = spa.value[1];
    msg[16] = spa.value[2];
    msg[17] = spa.value[3];
    // Target hardware address (all zeros for a request)
    msg[18] = tha.value[0];
    msg[19] = tha.value[1];
    msg[20] = tha.value[2];
    msg[21] = tha.value[3];
    msg[22] = tha.value[4];
    msg[23] = tha.value[5];
    // Target protocol address (the IP address being resolved)
    msg[24] = tpa.value[0];
    msg[25] = tpa.value[1];
    msg[26] = tpa.value[2];
    msg[27] = tpa.value[3];
    proof {
        assert(msg@ =~= be16(htype) + be16(ptype.spec_code()) + seq![6u8, 4u8] + be16(
            operation.spec_code(),
        ) + sha.value@ + spa.value@ + tha.value@ + tpa.value@);
    }
    msg
}

} // verus!
