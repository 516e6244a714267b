//! Dynamic Host Configuration Protocol for IPv4.
//!
//! The client side of the call-response structure used by a router to assign
//! IP addresses to devices on a local network; partial implementation per
//! IETF-RFC-2131. This is just enough to accept a statically-assigned
//! address on networks that require confirmation of static addresses via
//! DHCP: the fixed-length part of the payload, through the magic cookie and
//! the always-present leading message-kind option, with an "Inform" builder.
//! Full lease negotiation and the client state machine stay out of scope.

use vstd::prelude::*;

use crate::codec::{be16, be32, push_be16, push_be32, push_zeros, read_be16, read_be32,
    u16_from_be, u32_from_be, zeros, WireCodec};
use crate::{IpV4Addr, MacAddr, ParseError};

verus! {

/// UDP port a DHCP server listens on.
pub const DHCP_SERVER_PORT: u16 = 67;

/// UDP port a DHCP client listens on.
pub const DHCP_CLIENT_PORT: u16 = 68;

/// "Magic cookie" placed at the end of the fixed portion of the DHCP
/// payload; every DHCP message must carry exactly this value.
pub const DHCP_COOKIE: u32 = 0x63825363;

/// Message op code. Legacy operation type field from BOOTP: it still has to
/// match the direction of the message even though the message kind option
/// determines it. Any other code decodes to the carry-all variant.
#[derive(Clone, Copy, Debug, PartialEq, Eq, PartialOrd, Ord)]
pub enum DhcpOperation {
    /// Anything coming from the client
    Request,
    /// Anything coming from the server
    Reply,
    /// Carry-all for codes that do not match a named variant
    Unknown(u8),
}

impl DhcpOperation {
    /// Numeric wire code of this operation.
    pub open spec fn spec_code(self) -> u8 {
        match self {
            DhcpOperation::Request => 1,
            DhcpOperation::Reply => 2,
            DhcpOperation::Unknown(x) => x,
        }
    }

    /// The operation a numeric wire code names.
    pub open spec fn spec_from_code(x: u8) -> DhcpOperation {
        if x == 1 {
            DhcpOperation::Request
        } else if x == 2 {
            DhcpOperation::Reply
        } else {
            DhcpOperation::Unknown(x)
        }
    }

    /// Numeric wire code of this operation.
    pub fn code(&self) -> (r: u8)
        ensures
            r == self.spec_code(),
    {
        match self {
            DhcpOperation::Request => 1,
            DhcpOperation::Reply => 2,
            DhcpOperation::Unknown(x) => *x,
        }
    }

    /// The operation a numeric wire code names.
    pub fn from_code(x: u8) -> (r: Self)
        ensures
            r == Self::spec_from_code(x),
    {
        if x == 1 {
            DhcpOperation::Request
        } else if x == 2 {
            DhcpOperation::Reply
        } else {
            DhcpOperation::Unknown(x)
        }
    }
}

/// Encoding any decoded operation code reproduces the code exactly, also for
/// codes outside the known set, which ride in the carry-all variant.
pub proof fn lemma_dhcp_operation_code_round_trip(x: u8)
    ensures
        DhcpOperation::spec_from_code(x).spec_code() == x,
{
}

impl WireCodec for DhcpOperation {
    open spec fn spec_byte_len() -> nat {
        1
    }

    open spec fn wire(self) -> Seq<u8> {
        seq![self.spec_code()]
    }

    open spec fn from_wire(b: Seq<u8>) -> Self {
        Self::spec_from_code(b[0])
    }

    open spec fn wf(self) -> bool {
        match self {
            DhcpOperation::Unknown(x) => Self::spec_from_code(x) == DhcpOperation::Unknown(x),
            _ => true,
        }
    }

    proof fn lemma_wire_len(self) {
    }

    proof fn lemma_round_trip(self) {
    }

    proof fn lemma_from_wire_wf(b: Seq<u8>) {
    }

    fn byte_len() -> usize {
        1
    }

    fn encode(&self, buf: &mut Vec<u8>) {
        buf.push(self.code());
        proof {
            assert(buf@ =~= old(buf)@ + self.wire());
        }
    }

    fn decode(bytes: &[u8], at: usize) -> (r: Self) {
        Self::from_code(bytes[at])
    }
}

/// Contents of option field 53, the message kind. Any other code decodes to
/// the carry-all variant.
#[derive(Clone, Copy, Debug, PartialEq, Eq, PartialOrd, Ord)]
pub enum DhcpMessageKind {
    /// Message kind 1
    Discover,
    /// Message kind 2
    Offer,
    /// Message kind 3
    Request,
    /// Message kind 4
    Decline,
    /// Message kind 5
    Ack,
    /// Message kind 6
    Nak,
    /// Message kind 7
    Release,
    /// Message kind 8
    Inform,
    /// Message kind 9
    ForceRenew,
    /// Message kind 10
    LeaseQuery,
    /// Message kind 11
    LeaseUnassigned,
    /// Message kind 12
    LeaseUnknown,
    /// Message kind 13
    LeaseActive,
    /// Message kind 14
    BulkLeaseQuery,
    /// Message kind 15
    LeaseQueryDone,
    /// Message kind 16
    ActiveLeaseQuery,
    /// Message kind 17
    LeaseQueryStatus,
    /// Message kind 18
    Tls,
    /// Carry-all for codes that do not match a named variant
    Unknown(u8),
}

impl DhcpMessageKind {
    /// Numeric wire code of this value.
    pub open spec fn spec_code(self) -> u8 {
        match self {
            DhcpMessageKind::Discover => 1,
            DhcpMessageKind::Offer => 2,
            DhcpMessageKind::Request => 3,
            DhcpMessageKind::Decline => 4,
            DhcpMessageKind::Ack => 5,
            DhcpMessageKind::Nak => 6,
            DhcpMessageKind::Release => 7,
            DhcpMessageKind::Inform => 8,
            DhcpMessageKind::ForceRenew => 9,
            DhcpMessageKind::LeaseQuery => 10,
            DhcpMessageKind::LeaseUnassigned => 11,
            DhcpMessageKind::LeaseUnknown => 12,
            DhcpMessageKind::LeaseActive => 13,
            DhcpMessageKind::BulkLeaseQuery => 14,
            DhcpMessageKind::LeaseQueryDone => 15,
            DhcpMessageKind::ActiveLeaseQuery => 16,
            DhcpMessageKind::LeaseQueryStatus => 17,
            DhcpMessageKind::Tls => 18,
            DhcpMessageKind::Unknown(x) => x,
        }
    }

    /// The value a numeric wire code names.
    pub open spec fn spec_from_code(x: u8) -> DhcpMessageKind {
        if x == 1 {
            DhcpMessageKind::Discover
        } else if x == 2 {
            DhcpMessageKind::Offer
        } else if x == 3 {
            DhcpMessageKind::Request
        } else if x == 4 {
            DhcpMessageKind::Decline
        } else if x == 5 {
            DhcpMessageKind::Ack
        } else if x == 6 {
            DhcpMessageKind::Nak
        } else if x == 7 {
            DhcpMessageKind::Release
        } else if x == 8 {
            DhcpMessageKind::Inform
        } else if x == 9 {
            DhcpMessageKind::ForceRenew
        } else if x == 10 {
            DhcpMessageKind::LeaseQuery
        } else if x == 11 {
            DhcpMessageKind::LeaseUnassigned
        } else if x == 12 {
            DhcpMessageKind::LeaseUnknown
        } else if x == 13 {
            DhcpMessageKind::LeaseActive
        } else if x == 14 {
            DhcpMessageKind::BulkLeaseQuery
        } else if x == 15 {
            DhcpMessageKind::LeaseQueryDone
        } else if x == 16 {
            DhcpMessageKind::ActiveLeaseQuery
        } else if x == 17 {
            DhcpMessageKind::LeaseQueryStatus
        } else if x == 18 {
            DhcpMessageKind::Tls
        } else {
            DhcpMessageKind::Unknown(x)
        }
    }

    /// Numeric wire code of this value.
    pub fn code(&self) -> (r: u8)
        ensures
            r == self.spec_code(),
    {
        match self {
            DhcpMessageKind::Discover => 1,
            DhcpMessageKind::Offer => 2,
            DhcpMessageKind::Request => 3,
            DhcpMessageKind::Decline => 4,
            DhcpMessageKind::Ack => 5,
            DhcpMessageKind::Nak => 6,
            DhcpMessageKind::Release => 7,
            DhcpMessageKind::Inform => 8,
            DhcpMessageKind::ForceRenew => 9,
            DhcpMessageKind::LeaseQuery => 10,
            DhcpMessageKind::LeaseUnassigned => 11,
            DhcpMessageKind::LeaseUnknown => 12,
            DhcpMessageKind::LeaseActive => 13,
            DhcpMessageKind::BulkLeaseQuery => 14,
            DhcpMessageKind::LeaseQueryDone => 15,
            DhcpMessageKind::ActiveLeaseQuery => 16,
            DhcpMessageKind::LeaseQueryStatus => 17,
            DhcpMessageKind::Tls => 18,
            DhcpMessageKind::Unknown(x) => *x,
        }
    }

    /// The value a numeric wire code names.
    pub fn from_code(x: u8) -> (r: Self)
        ensures
            r == Self::spec_from_code(x),
    {
        if x == 1 {
            DhcpMessageKind::Discover
        } else if x == 2 {
            DhcpMessageKind::Offer
        } else if x == 3 {
            DhcpMessageKind::Request
        } else if x == 4 {
            DhcpMessageKind::Decline
        } else if x == 5 {
            DhcpMessageKind::Ack
        } else if x == 6 {
            DhcpMessageKind::Nak
        } else if x == 7 {
            DhcpMessageKind::Release
        } else if x == 8 {
            DhcpMessageKind::Inform
        } else if x == 9 {
            DhcpMessageKind::ForceRenew
        } else if x == 10 {
            DhcpMessageKind::LeaseQuery
        } else if x == 11 {
            DhcpMessageKind::LeaseUnassigned
        } else if x == 12 {
            DhcpMessageKind::LeaseUnknown
        } else if x == 13 {
            DhcpMessageKind::LeaseActive
        } else if x == 14 {
            DhcpMessageKind::BulkLeaseQuery
        } else if x == 15 {
            DhcpMessageKind::LeaseQueryDone
        } else if x == 16 {
            DhcpMessageKind::ActiveLeaseQuery
        } else if x == 17 {
            DhcpMessageKind::LeaseQueryStatus
        } else if x == 18 {
            DhcpMessageKind::Tls
        } else {
            DhcpMessageKind::Unknown(x)
        }
    }
}

/// Encoding any decoded message-kind code reproduces the code exactly, also
/// for codes outside the known set, which ride in the carry-all variant.
pub proof fn lemma_dhcp_message_kind_code_round_trip(x: u8)
    ensures
        DhcpMessageKind::spec_from_code(x).spec_code() == x,
{
}

impl WireCodec for DhcpMessageKind {
    open spec fn spec_byte_len() -> nat {
        1
    }

    open spec fn wire(self) -> Seq<u8> {
        seq![self.spec_code()]
    }

    open spec fn from_wire(b: Seq<u8>) -> Self {
        Self::spec_from_code(b[0])
    }

    open spec fn wf(self) -> bool {
        match self {
            DhcpMessageKind::Unknown(x) => Self::spec_from_code(x) == DhcpMessageKind::Unknown(x),
            _ => true,
        }
    }

    proof fn lemma_wire_len(self) {
    }

    proof fn lemma_round_trip(self) {
    }

    proof fn lemma_from_wire_wf(b: Seq<u8>) {
    }

    fn byte_len() -> usize {
        1
    }

    fn encode(&self, buf: &mut Vec<u8>) {
        buf.push(self.code());
        proof {
            assert(buf@ =~= old(buf)@ + self.wire());
        }
    }

    fn decode(bytes: &[u8], at: usize) -> (r: Self) {
        Self::from_code(bytes[at])
    }
}

/// Option type codes for parsing the options section. Any other code
/// decodes to the carry-all variant.
#[derive(Clone, Copy, Debug, PartialEq, Eq, PartialOrd, Ord)]
pub enum DhcpOptionKind {
    /// Option code 0
    Pad,
    /// Option code 1
    SubnetMask,
    /// Option code 2
    TimeOffset,
    /// Option code 3
    Router,
    /// Option code 4
    TimeServer,
    /// Option code 5
    NameServer,
    /// Option code 6
    DomainNameServers,
    /// Option code 7
    LogServer,
    /// Option code 8
    CookieServer,
    /// Option code 9
    LPRServer,
    /// Option code 10
    ImpressServer,
    /// Option code 11
    ResourceLocationServer,
    /// Option code 12
    HostName,
    /// Option code 13
    BootFileSize,
    /// Option code 14
    MeritDumpFileSize,
    /// Option code 15
    DomainName,
    /// Option code 16
    SwapServer,
    /// Option code 17
    RootPath,
    /// Option code 18
    ExtensionsPath,
    /// Option code 19
    IPForwardEnable,
    /// Option code 20
    SourceRoutingEnable,
    /// Option code 21
    PolicyFilter,
    /// Option code 22
    MaximumDatagramSize,
    /// Option code 23
    DefaultIpTtl,
    /// Option code 24
    PathMtuTimeout,
    /// Option code 25
    PathMtuPlateau,
    /// Option code 26
    InterfaceMtu,
    /// Option code 27
    AllSubnetsLocal,
    /// Option code 28
    BroadcastAddress,
    /// Option code 29
    PerformMaskDiscovery,
    /// Option code 30
    MaskSupplier,
    /// Option code 31
    PerformRouterDiscovery,
    /// Option code 32
    RouterSolicitationAddress,
    /// Option code 33
    StaticRoute,
    /// Option code 34
    TrailerEncapsulation,
    /// Option code 35
    ArpCacheTimeout,
    /// Option code 36
    EthernetEncapsulation,
    /// Option code 37
    TcpDefaultTtl,
    /// Option code 38
    TcpKeepAliveInterval,
    /// Option code 39
    TcpKeepAliveGarbage,
    /// Option code 40
    NetworkInfoServiceDomain,
    /// Option code 41
    NetworkInfoSevers,
    /// Option code 42
    NtpServers,
    /// Option code 43
    VendorInfo,
    /// Option code 44
    NetBiosNameServer,
    /// Option code 45
    NetBiosDistributionServer,
    /// Option code 46
    NetBiosNodeType,
    /// Option code 47
    NetBiosScope,
    /// Option code 48
    XWindowFontServer,
    /// Option code 49
    XWindowDisplayMgr,
    /// Option code 50
    RequestedIpAddress,
    /// Option code 51
    IpAddressLeaseTime,
    /// Option code 52
    OptionOverload,
    /// Option code 53
    DhcpMessageType,
    /// Option code 54
    ServerIdentifier,
    /// Option code 55
    ParameterRequestList,
    /// Option code 56
    Message,
    /// Option code 57
    MaxDhcpMessageSize,
    /// Option code 58
    RenewalTime,
    /// Option code 59
    RebindingTime,
    /// Option code 60
    VendorClassId,
    /// Option code 61
    ClientId,
    /// Option code 62
    TftpServerName,
    /// Option code 63
    BootFileName,
    /// Option code 64
    NisPlusDomain,
    /// Option code 65
    NisPlusServers,
    /// Option code 68
    MobileIpHomeAgent,
    /// Option code 69
    SmtpServer,
    /// Option code 70
    Pop3Server,
    /// Option code 71
    NntpServer,
    /// Option code 72
    DefaultWwwServer,
    /// Option code 73
    DefaultFingerServer,
    /// Option code 74
    DefaultIrcServer,
    /// Option code 75
    StreetTalkServer,
    /// Option code 76
    StreetTalkDirectoryServer,
    /// Option code 82
    RelayAgentInfo,
    /// Option code 85
    NdsServers,
    /// Option code 86
    NdsContext,
    /// Option code 100
    TimeZonePosix,
    /// Option code 101
    TimeZoneTz,
    /// Option code 114
    DhcpCaptivePortal,
    /// Option code 119
    DomainSearch,
    /// Option code 121
    ClasslessStaticRoute,
    /// Option code 209
    ConfigFile,
    /// Option code 210
    PathPrefix,
    /// Option code 211
    RebootTime,
    /// Option code 255
    End,
    /// Carry-all for codes that do not match a named variant
    Unknown(u8),
}

impl DhcpOptionKind {
    /// Numeric wire code of this value.
    pub open spec fn spec_code(self) -> u8 {
        match self {
            DhcpOptionKind::Pad => 0,
            DhcpOptionKind::SubnetMask => 1,
            DhcpOptionKind::TimeOffset => 2,
            DhcpOptionKind::Router => 3,
            DhcpOptionKind::TimeServer => 4,
            DhcpOptionKind::NameServer => 5,
            DhcpOptionKind::DomainNameServers => 6,
            DhcpOptionKind::LogServer => 7,
            DhcpOptionKind::CookieServer => 8,
            DhcpOptionKind::LPRServer => 9,
            DhcpOptionKind::ImpressServer => 10,
            DhcpOptionKind::ResourceLocationServer => 11,
            DhcpOptionKind::HostName => 12,
            DhcpOptionKind::BootFileSize => 13,
            DhcpOptionKind::MeritDumpFileSize => 14,
            DhcpOptionKind::DomainName => 15,
            DhcpOptionKind::SwapServer => 16,
            DhcpOptionKind::RootPath => 17,
            DhcpOptionKind::ExtensionsPath => 18,
            DhcpOptionKind::IPForwardEnable => 19,
            DhcpOptionKind::SourceRoutingEnable => 20,
            DhcpOptionKind::PolicyFilter => 21,
            DhcpOptionKind::MaximumDatagramSize => 22,
            DhcpOptionKind::DefaultIpTtl => 23,
            DhcpOptionKind::PathMtuTimeout => 24,
            DhcpOptionKind::PathMtuPlateau => 25,
            DhcpOptionKind::InterfaceMtu => 26,
            DhcpOptionKind::AllSubnetsLocal => 27,
            DhcpOptionKind::BroadcastAddress => 28,
            DhcpOptionKind::PerformMaskDiscovery => 29,
            DhcpOptionKind::MaskSupplier => 30,
            DhcpOptionKind::PerformRouterDiscovery => 31,
            DhcpOptionKind::RouterSolicitationAddress => 32,
            DhcpOptionKind::StaticRoute => 33,
            DhcpOptionKind::TrailerEncapsulation => 34,
            DhcpOptionKind::ArpCacheTimeout => 35,
            DhcpOptionKind::EthernetEncapsulation => 36,
            DhcpOptionKind::TcpDefaultTtl => 37,
            DhcpOptionKind::TcpKeepAliveInterval => 38,
            DhcpOptionKind::TcpKeepAliveGarbage => 39,
            DhcpOptionKind::NetworkInfoServiceDomain => 40,
            DhcpOptionKind::NetworkInfoSevers => 41,
            DhcpOptionKind::NtpServers => 42,
            DhcpOptionKind::VendorInfo => 43,
            DhcpOptionKind::NetBiosNameServer => 44,
            DhcpOptionKind::NetBiosDistributionServer => 45,
            DhcpOptionKind::NetBiosNodeType => 46,
            DhcpOptionKind::NetBiosScope => 47,
            DhcpOptionKind::XWindowFontServer => 48,
            DhcpOptionKind::XWindowDisplayMgr => 49,
            DhcpOptionKind::RequestedIpAddress => 50,
            DhcpOptionKind::IpAddressLeaseTime => 51,
            DhcpOptionKind::OptionOverload => 52,
            DhcpOptionKind::DhcpMessageType => 53,
            DhcpOptionKind::ServerIdentifier => 54,
            DhcpOptionKind::ParameterRequestList => 55,
            DhcpOptionKind::Message => 56,
            DhcpOptionKind::MaxDhcpMessageSize => 57,
            DhcpOptionKind::RenewalTime => 58,
            DhcpOptionKind::RebindingTime => 59,
            DhcpOptionKind::VendorClassId => 60,
            DhcpOptionKind::ClientId => 61,
            DhcpOptionKind::TftpServerName => 62,
            DhcpOptionKind::BootFileName => 63,
            DhcpOptionKind::NisPlusDomain => 64,
            DhcpOptionKind::NisPlusServers => 65,
            DhcpOptionKind::MobileIpHomeAgent => 68,
            DhcpOptionKind::SmtpServer => 69,
            DhcpOptionKind::Pop3Server => 70,
            DhcpOptionKind::NntpServer => 71,
            DhcpOptionKind::DefaultWwwServer => 72,
            DhcpOptionKind::DefaultFingerServer => 73,
            DhcpOptionKind::DefaultIrcServer => 74,
            DhcpOptionKind::StreetTalkServer => 75,
            DhcpOptionKind::StreetTalkDirectoryServer => 76,
            DhcpOptionKind::RelayAgentInfo => 82,
            DhcpOptionKind::NdsServers => 85,
            DhcpOptionKind::NdsContext => 86,
            DhcpOptionKind::TimeZonePosix => 100,
            DhcpOptionKind::TimeZoneTz => 101,
            DhcpOptionKind::DhcpCaptivePortal => 114,
            DhcpOptionKind::DomainSearch => 119,
            DhcpOptionKind::ClasslessStaticRoute => 121,
            DhcpOptionKind::ConfigFile => 209,
            DhcpOptionKind::PathPrefix => 210,
            DhcpOptionKind::RebootTime => 211,
            DhcpOptionKind::End => 255,
            DhcpOptionKind::Unknown(x) => x,
        }
    }

    /// The value a numeric wire code names.
    pub open spec fn spec_from_code(x: u8) -> DhcpOptionKind {
        if x == 0 {
            DhcpOptionKind::Pad
        } else if x == 1 {
            DhcpOptionKind::SubnetMask
        } else if x == 2 {
            DhcpOptionKind::TimeOffset
        } else if x == 3 {
            DhcpOptionKind::Router
        } else if x == 4 {
            DhcpOptionKind::TimeServer
        } else if x == 5 {
            DhcpOptionKind::NameServer
        } else if x == 6 {
            DhcpOptionKind::DomainNameServers
        } else if x == 7 {
            DhcpOptionKind::LogServer
        } else if x == 8 {
            DhcpOptionKind::CookieServer
        } else if x == 9 {
            DhcpOptionKind::LPRServer
        } else if x == 10 {
            DhcpOptionKind::ImpressServer
        } else if x == 11 {
            DhcpOptionKind::ResourceLocationServer
        } else if x == 12 {
            DhcpOptionKind::HostName
        } else if x == 13 {
            DhcpOptionKind::BootFileSize
        } else if x == 14 {
            DhcpOptionKind::MeritDumpFileSize
        } else if x == 15 {
            DhcpOptionKind::DomainName
        } else if x == 16 {
            DhcpOptionKind::SwapServer
        } else if x == 17 {
            DhcpOptionKind::RootPath
        } else if x == 18 {
            DhcpOptionKind::ExtensionsPath
        } else if x == 19 {
            DhcpOptionKind::IPForwardEnable
        } else if x == 20 {
            DhcpOptionKind::SourceRoutingEnable
        } else if x == 21 {
            DhcpOptionKind::PolicyFilter
        } else if x == 22 {
            DhcpOptionKind::MaximumDatagramSize
        } else if x == 23 {
            DhcpOptionKind::DefaultIpTtl
        } else if x == 24 {
            DhcpOptionKind::PathMtuTimeout
        } else if x == 25 {
            DhcpOptionKind::PathMtuPlateau
        } else if x == 26 {
            DhcpOptionKind::InterfaceMtu
        } else if x == 27 {
            DhcpOptionKind::AllSubnetsLocal
        } else if x == 28 {
            DhcpOptionKind::BroadcastAddress
        } else if x == 29 {
            DhcpOptionKind::PerformMaskDiscovery
        } else if x == 30 {
            DhcpOptionKind::MaskSupplier
        } else if x == 31 {
            DhcpOptionKind::PerformRouterDiscovery
        } else if x == 32 {
            DhcpOptionKind::RouterSolicitationAddress
        } else if x == 33 {
            DhcpOptionKind::StaticRoute
        } else if x == 34 {
            DhcpOptionKind::TrailerEncapsulation
        } else if x == 35 {
            DhcpOptionKind::ArpCacheTimeout
        } else if x == 36 {
            DhcpOptionKind::EthernetEncapsulation
        } else if x == 37 {
            DhcpOptionKind::TcpDefaultTtl
        } else if x == 38 {
            DhcpOptionKind::TcpKeepAliveInterval
        } else if x == 39 {
            DhcpOptionKind::TcpKeepAliveGarbage
        } else if x == 40 {
            DhcpOptionKind::NetworkInfoServiceDomain
        } else if x == 41 {
            DhcpOptionKind::NetworkInfoSevers
        } else if x == 42 {
            DhcpOptionKind::NtpServers
        } else if x == 43 {
            DhcpOptionKind::VendorInfo
        } else if x == 44 {
            DhcpOptionKind::NetBiosNameServer
        } else if x == 45 {
            DhcpOptionKind::NetBiosDistributionServer
        } else if x == 46 {
            DhcpOptionKind::NetBiosNodeType
        } else if x == 47 {
            DhcpOptionKind::NetBiosScope
        } else if x == 48 {
            DhcpOptionKind::XWindowFontServer
        } else if x == 49 {
            DhcpOptionKind::XWindowDisplayMgr
        } else if x == 50 {
            DhcpOptionKind::RequestedIpAddress
        } else if x == 51 {
            DhcpOptionKind::IpAddressLeaseTime
        } else if x == 52 {
            DhcpOptionKind::OptionOverload
        } else if x == 53 {
            DhcpOptionKind::DhcpMessageType
        } else if x == 54 {
            DhcpOptionKind::ServerIdentifier
        } else if x == 55 {
            DhcpOptionKind::ParameterRequestList
        } else if x == 56 {
            DhcpOptionKind::Message
        } else if x == 57 {
            DhcpOptionKind::MaxDhcpMessageSize
        } else if x == 58 {
            DhcpOptionKind::RenewalTime
        } else if x == 59 {
            DhcpOptionKind::RebindingTime
        } else if x == 60 {
            DhcpOptionKind::VendorClassId
        } else if x == 61 {
            DhcpOptionKind::ClientId
        } else if x == 62 {
            DhcpOptionKind::TftpServerName
        } else if x == 63 {
            DhcpOptionKind::BootFileName
        } else if x == 64 {
            DhcpOptionKind::NisPlusDomain
        } else if x == 65 {
            DhcpOptionKind::NisPlusServers
        } else if x == 68 {
            DhcpOptionKind::MobileIpHomeAgent
        } else if x == 69 {
            DhcpOptionKind::SmtpServer
        } else if x == 70 {
            DhcpOptionKind::Pop3Server
        } else if x == 71 {
            DhcpOptionKind::NntpServer
        } else if x == 72 {
            DhcpOptionKind::DefaultWwwServer
        } else if x == 73 {
            DhcpOptionKind::DefaultFingerServer
        } else if x == 74 {
            DhcpOptionKind::DefaultIrcServer
        } else if x == 75 {
            DhcpOptionKind::StreetTalkServer
        } else if x == 76 {
            DhcpOptionKind::StreetTalkDirectoryServer
        } else if x == 82 {
            DhcpOptionKind::RelayAgentInfo
        } else if x == 85 {
            DhcpOptionKind::NdsServers
        } else if x == 86 {
            DhcpOptionKind::NdsContext
        } else if x == 100 {
            DhcpOptionKind::TimeZonePosix
        } else if x == 101 {
            DhcpOptionKind::TimeZoneTz
        } else if x == 114 {
            DhcpOptionKind::DhcpCaptivePortal
        } else if x == 119 {
            DhcpOptionKind::DomainSearch
        } else if x == 121 {
            DhcpOptionKind::ClasslessStaticRoute
        } else if x == 209 {
            DhcpOptionKind::ConfigFile
        } else if x == 210 {
            DhcpOptionKind::PathPrefix
        } else if x == 211 {
            DhcpOptionKind::RebootTime
        } else if x == 255 {
            DhcpOptionKind::End
        } else {
            DhcpOptionKind::Unknown(x)
        }
    }

    /// Numeric wire code of this value.
    pub fn code(&self) -> (r: u8)
        ensures
            r == self.spec_code(),
    {
        match self {
            DhcpOptionKind::Pad => 0,
            DhcpOptionKind::SubnetMask => 1,
            DhcpOptionKind::TimeOffset => 2,
            DhcpOptionKind::Router => 3,
            DhcpOptionKind::TimeServer => 4,
            DhcpOptionKind::NameServer => 5,
            DhcpOptionKind::DomainNameServers => 6,
            DhcpOptionKind::LogServer => 7,
            DhcpOptionKind::CookieServer => 8,
            DhcpOptionKind::LPRServer => 9,
            DhcpOptionKind::ImpressServer => 10,
            DhcpOptionKind::ResourceLocationServer => 11,
            DhcpOptionKind::HostName => 12,
            DhcpOptionKind::BootFileSize => 13,
            DhcpOptionKind::MeritDumpFileSize => 14,
            DhcpOptionKind::DomainName => 15,
            DhcpOptionKind::SwapServer => 16,
            DhcpOptionKind::RootPath => 17,
            DhcpOptionKind::ExtensionsPath => 18,
            DhcpOptionKind::IPForwardEnable => 19,
            DhcpOptionKind::SourceRoutingEnable => 20,
            DhcpOptionKind::PolicyFilter => 21,
            DhcpOptionKind::MaximumDatagramSize => 22,
            DhcpOptionKind::DefaultIpTtl => 23,
            DhcpOptionKind::PathMtuTimeout => 24,
            DhcpOptionKind::PathMtuPlateau => 25,
            DhcpOptionKind::InterfaceMtu => 26,
            DhcpOptionKind::AllSubnetsLocal => 27,
            DhcpOptionKind::BroadcastAddress => 28,
            DhcpOptionKind::PerformMaskDiscovery => 29,
            DhcpOptionKind::MaskSupplier => 30,
            DhcpOptionKind::PerformRouterDiscovery => 31,
            DhcpOptionKind::RouterSolicitationAddress => 32,
            DhcpOptionKind::StaticRoute => 33,
            DhcpOptionKind::TrailerEncapsulation => 34,
            DhcpOptionKind::ArpCacheTimeout => 35,
            DhcpOptionKind::EthernetEncapsulation => 36,
            DhcpOptionKind::TcpDefaultTtl => 37,
            DhcpOptionKind::TcpKeepAliveInterval => 38,
            DhcpOptionKind::TcpKeepAliveGarbage => 39,
            DhcpOptionKind::NetworkInfoServiceDomain => 40,
            DhcpOptionKind::NetworkInfoSevers => 41,
            DhcpOptionKind::NtpServers => 42,
            DhcpOptionKind::VendorInfo => 43,
            DhcpOptionKind::NetBiosNameServer => 44,
            DhcpOptionKind::NetBiosDistributionServer => 45,
            DhcpOptionKind::NetBiosNodeType => 46,
            DhcpOptionKind::NetBiosScope => 47,
            DhcpOptionKind::XWindowFontServer => 48,
            DhcpOptionKind::XWindowDisplayMgr => 49,
            DhcpOptionKind::RequestedIpAddress => 50,
            DhcpOptionKind::IpAddressLeaseTime => 51,
            DhcpOptionKind::OptionOverload => 52,
            DhcpOptionKind::DhcpMessageType => 53,
            DhcpOptionKind::ServerIdentifier => 54,
            DhcpOptionKind::ParameterRequestList => 55,
            DhcpOptionKind::Message => 56,
            DhcpOptionKind::MaxDhcpMessageSize => 57,
            DhcpOptionKind::RenewalTime => 58,
            DhcpOptionKind::RebindingTime => 59,
            DhcpOptionKind::VendorClassId => 60,
            DhcpOptionKind::ClientId => 61,
            DhcpOptionKind::TftpServerName => 62,
            DhcpOptionKind::BootFileName => 63,
            DhcpOptionKind::NisPlusDomain => 64,
            DhcpOptionKind::NisPlusServers => 65,
            DhcpOptionKind::MobileIpHomeAgent => 68,
            DhcpOptionKind::SmtpServer => 69,
            DhcpOptionKind::Pop3Server => 70,
            DhcpOptionKind::NntpServer => 71,
            DhcpOptionKind::DefaultWwwServer => 72,
            DhcpOptionKind::DefaultFingerServer => 73,
            DhcpOptionKind::DefaultIrcServer => 74,
            DhcpOptionKind::StreetTalkServer => 75,
            DhcpOptionKind::StreetTalkDirectoryServer => 76,
            DhcpOptionKind::RelayAgentInfo => 82,
            DhcpOptionKind::NdsServers => 85,
            DhcpOptionKind::NdsContext => 86,
            DhcpOptionKind::TimeZonePosix => 100,
            DhcpOptionKind::TimeZoneTz => 101,
            DhcpOptionKind::DhcpCaptivePortal => 114,
            DhcpOptionKind::DomainSearch => 119,
            DhcpOptionKind::ClasslessStaticRoute => 121,
            DhcpOptionKind::ConfigFile => 209,
            DhcpOptionKind::PathPrefix => 210,
            DhcpOptionKind::RebootTime => 211,
            DhcpOptionKind::End => 255,
            DhcpOptionKind::Unknown(x) => *x,
        }
    }

    /// The value a numeric wire code names.
    pub fn from_code(x: u8) -> (r: Self)
        ensures
            r == Self::spec_from_code(x),
    {
        if x == 0 {
            DhcpOptionKind::Pad
        } else if x == 1 {
            DhcpOptionKind::SubnetMask
        } else if x == 2 {
            DhcpOptionKind::TimeOffset
        } else if x == 3 {
            DhcpOptionKind::Router
        } else if x == 4 {
            DhcpOptionKind::TimeServer
        } else if x == 5 {
            DhcpOptionKind::NameServer
        } else if x == 6 {
            DhcpOptionKind::DomainNameServers
        } else if x == 7 {
            DhcpOptionKind::LogServer
        } else if x == 8 {
            DhcpOptionKind::CookieServer
        } else if x == 9 {
            DhcpOptionKind::LPRServer
        } else if x == 10 {
            DhcpOptionKind::ImpressServer
        } else if x == 11 {
            DhcpOptionKind::ResourceLocationServer
        } else if x == 12 {
            DhcpOptionKind::HostName
        } else if x == 13 {
            DhcpOptionKind::BootFileSize
        } else if x == 14 {
            DhcpOptionKind::MeritDumpFileSize
        } else if x == 15 {
            DhcpOptionKind::DomainName
        } else if x == 16 {
            DhcpOptionKind::SwapServer
        } else if x == 17 {
            DhcpOptionKind::RootPath
        } else if x == 18 {
            DhcpOptionKind::ExtensionsPath
        } else if x == 19 {
            DhcpOptionKind::IPForwardEnable
        } else if x == 20 {
            DhcpOptionKind::SourceRoutingEnable
        } else if x == 21 {
            DhcpOptionKind::PolicyFilter
        } else if x == 22 {
            DhcpOptionKind::MaximumDatagramSize
        } else if x == 23 {
            DhcpOptionKind::DefaultIpTtl
        } else if x == 24 {
            DhcpOptionKind::PathMtuTimeout
        } else if x == 25 {
            DhcpOptionKind::PathMtuPlateau
        } else if x == 26 {
            DhcpOptionKind::InterfaceMtu
        } else if x == 27 {
            DhcpOptionKind::AllSubnetsLocal
        } else if x == 28 {
            DhcpOptionKind::BroadcastAddress
        } else if x == 29 {
            DhcpOptionKind::PerformMaskDiscovery
        } else if x == 30 {
            DhcpOptionKind::MaskSupplier
        } else if x == 31 {
            DhcpOptionKind::PerformRouterDiscovery
        } else if x == 32 {
            DhcpOptionKind::RouterSolicitationAddress
        } else if x == 33 {
            DhcpOptionKind::StaticRoute
        } else if x == 34 {
            DhcpOptionKind::TrailerEncapsulation
        } else if x == 35 {
            DhcpOptionKind::ArpCacheTimeout
        } else if x == 36 {
            DhcpOptionKind::EthernetEncapsulation
        } else if x == 37 {
            DhcpOptionKind::TcpDefaultTtl
        } else if x == 38 {
            DhcpOptionKind::TcpKeepAliveInterval
        } else if x == 39 {
            DhcpOptionKind::TcpKeepAliveGarbage
        } else if x == 40 {
            DhcpOptionKind::NetworkInfoServiceDomain
        } else if x == 41 {
            DhcpOptionKind::NetworkInfoSevers
        } else if x == 42 {
            DhcpOptionKind::NtpServers
        } else if x == 43 {
            DhcpOptionKind::VendorInfo
        } else if x == 44 {
            DhcpOptionKind::NetBiosNameServer
        } else if x == 45 {
            DhcpOptionKind::NetBiosDistributionServer
        } else if x == 46 {
            DhcpOptionKind::NetBiosNodeType
        } else if x == 47 {
            DhcpOptionKind::NetBiosScope
        } else if x == 48 {
            DhcpOptionKind::XWindowFontServer
        } else if x == 49 {
            DhcpOptionKind::XWindowDisplayMgr
        } else if x == 50 {
            DhcpOptionKind::RequestedIpAddress
        } else if x == 51 {
            DhcpOptionKind::IpAddressLeaseTime
        } else if x == 52 {
            DhcpOptionKind::OptionOverload
        } else if x == 53 {
            DhcpOptionKind::DhcpMessageType
        } else if x == 54 {
            DhcpOptionKind::ServerIdentifier
        } else if x == 55 {
            DhcpOptionKind::ParameterRequestList
        } else if x == 56 {
            DhcpOptionKind::Message
        } else if x == 57 {
            DhcpOptionKind::MaxDhcpMessageSize
        } else if x == 58 {
            DhcpOptionKind::RenewalTime
        } else if x == 59 {
            DhcpOptionKind::RebindingTime
        } else if x == 60 {
            DhcpOptionKind::VendorClassId
        } else if x == 61 {
            DhcpOptionKind::ClientId
        } else if x == 62 {
            DhcpOptionKind::TftpServerName
        } else if x == 63 {
            DhcpOptionKind::BootFileName
        } else if x == 64 {
            DhcpOptionKind::NisPlusDomain
        } else if x == 65 {
            DhcpOptionKind::NisPlusServers
        } else if x == 68 {
            DhcpOptionKind::MobileIpHomeAgent
        } else if x == 69 {
            DhcpOptionKind::SmtpServer
        } else if x == 70 {
            DhcpOptionKind::Pop3Server
        } else if x == 71 {
            DhcpOptionKind::NntpServer
        } else if x == 72 {
            DhcpOptionKind::DefaultWwwServer
        } else if x == 73 {
            DhcpOptionKind::DefaultFingerServer
        } else if x == 74 {
            DhcpOptionKind::DefaultIrcServer
        } else if x == 75 {
            DhcpOptionKind::StreetTalkServer
        } else if x == 76 {
            DhcpOptionKind::StreetTalkDirectoryServer
        } else if x == 82 {
            DhcpOptionKind::RelayAgentInfo
        } else if x == 85 {
            DhcpOptionKind::NdsServers
        } else if x == 86 {
            DhcpOptionKind::NdsContext
        } else if x == 100 {
            DhcpOptionKind::TimeZonePosix
        } else if x == 101 {
            DhcpOptionKind::TimeZoneTz
        } else if x == 114 {
            DhcpOptionKind::DhcpCaptivePortal
        } else if x == 119 {
            DhcpOptionKind::DomainSearch
        } else if x == 121 {
            DhcpOptionKind::ClasslessStaticRoute
        } else if x == 209 {
            DhcpOptionKind::ConfigFile
        } else if x == 210 {
            DhcpOptionKind::PathPrefix
        } else if x == 211 {
            DhcpOptionKind::RebootTime
        } else if x == 255 {
            DhcpOptionKind::End
        } else {
            DhcpOptionKind::Unknown(x)
        }
    }
}

/// Encoding any decoded option-kind code reproduces the code exactly, also
/// for codes outside the known set, which ride in the carry-all variant.
pub proof fn lemma_dhcp_option_kind_code_round_trip(x: u8)
    ensures
        DhcpOptionKind::spec_from_code(x).spec_code() == x,
{
}

impl WireCodec for DhcpOptionKind {
    open spec fn spec_byte_len() -> nat {
        1
    }

    open spec fn wire(self) -> Seq<u8> {
        seq![self.spec_code()]
    }

    open spec fn from_wire(b: Seq<u8>) -> Self {
        Self::spec_from_code(b[0])
    }

    open spec fn wf(self) -> bool {
        match self {
            DhcpOptionKind::Unknown(x) => Self::spec_from_code(x) == DhcpOptionKind::Unknown(x),
            _ => true,
        }
    }

    proof fn lemma_wire_len(self) {
    }

    proof fn lemma_round_trip(self) {
    }

    proof fn lemma_from_wire_wf(b: Seq<u8>) {
    }

    fn byte_len() -> usize {
        1
    }

    fn encode(&self, buf: &mut Vec<u8>) {
        buf.push(self.code());
        proof {
            assert(buf@ =~= old(buf)@ + self.wire());
        }
    }

    fn decode(bytes: &[u8], at: usize) -> (r: Self) {
        Self::from_code(bytes[at])
    }
}

/// The message-kind option. It is technically part of the variable-length
/// options portion, but it is always required and always first, so it is
/// treated as part of the fixed-length payload, padded to a word boundary.
#[derive(Clone, Copy, Debug, PartialEq, Eq)]
pub struct DhcpMessageKindOption {
    /// Type of option field; always the message-type code
    pub kind: DhcpOptionKind,
    /// How many bytes of data the option holds; always 1
    pub length: u8,
    /// The actual message kind
    pub value: DhcpMessageKind,
}

impl DhcpMessageKindOption {
    /// For convenience, since all values except the kind are predetermined.
    pub fn new(kind: DhcpMessageKind) -> (r: Self)
        ensures
            r == (DhcpMessageKindOption {
                kind: DhcpOptionKind::DhcpMessageType,
                length: 1u8,
                value: kind,
            }),
    {
        DhcpMessageKindOption { kind: DhcpOptionKind::DhcpMessageType, length: 1, value: kind }
    }
}

impl WireCodec for DhcpMessageKindOption {
    open spec fn spec_byte_len() -> nat {
        4
    }

    open spec fn wire(self) -> Seq<u8> {
        self.kind.wire() + seq![self.length] + self.value.wire() + zeros(1)
    }

    open spec fn from_wire(b: Seq<u8>) -> Self {
        DhcpMessageKindOption {
            kind: DhcpOptionKind::spec_from_code(b[0]),
            length: b[1],
            value: DhcpMessageKind::spec_from_code(b[2]),
        }
    }

    open spec fn wf(self) -> bool {
        self.kind.wf() && self.value.wf()
    }

    proof fn lemma_wire_len(self) {
    }

    proof fn lemma_round_trip(self) {
    }

    proof fn lemma_from_wire_wf(b: Seq<u8>) {
    }

    fn byte_len() -> usize {
        4
    }

    fn encode(&self, buf: &mut Vec<u8>) {
        self.kind.encode(buf);
        buf.push(self.length);
        self.value.encode(buf);
        buf.push(0);
        proof {
            assert(buf@ =~= old(buf)@ + self.wire());
        }
    }

    fn decode(bytes: &[u8], at: usize) -> (r: Self) {
        let _n: usize = bytes.len();
        DhcpMessageKindOption {
            kind: DhcpOptionKind::from_code(bytes[at]),
            length: bytes[at + 1],
            value: DhcpMessageKind::from_code(bytes[at + 2]),
        }
    }
}

/// The fixed-length part of the DHCP payload: the legacy BOOTP fields
/// through the client hardware address, padding through the legacy
/// server-name and boot-file fields, the magic cookie, and the leading
/// message-kind option. The rest of the options section can vary in length
/// and is handled separately; for the "Inform" message kind this is the
/// entire message.
#[derive(Clone, Copy, Debug, PartialEq, Eq)]
pub struct DhcpFixedPayload {
    /// Message op code. 1 = BOOTREQUEST, 2 = BOOTREPLY
    pub op: DhcpOperation,
    /// Hardware type; always 1 for Ethernet
    pub htype: u8,
    /// Hardware address length; always 6 for a standard MAC address
    pub hlen: u8,
    /// Legacy field, always 0
    pub hops: u8,
    /// Transaction ID; assigned by the router and kept through a transaction
    pub xid: u32,
    /// Seconds elapsed since the client started the transaction
    pub secs: u16,
    /// Broadcast flag; 1 for broadcast, 0 for unicast
    pub flags: u16,
    /// Client IP address
    pub ciaddr: IpV4Addr,
    /// Your IP address
    pub yiaddr: IpV4Addr,
    /// Server IP address
    pub siaddr: IpV4Addr,
    /// Gateway IP address
    pub giaddr: IpV4Addr,
    /// Client hardware address. The wire field is 16 bytes; only the first 6
    /// hold the standard MAC address and the rest are padding
    pub chaddr: MacAddr,
    /// Magic cookie identifying this as a DHCP message; must always hold
    /// `DHCP_COOKIE`, which `parse` validates
    pub cookie: u32,
    /// The message kind, always included as the first option
    pub kind_option: DhcpMessageKindOption,
}

/// The DHCP fixed payload is sized at its definition: 28 bytes of BOOTP
/// fields and client addresses, 6 + 10 bytes of hardware address field, 192
/// bytes of legacy padding, the 4-byte cookie and the 4-byte leading option.
pub proof fn lemma_dhcp_fixed_payload_byte_len()
    ensures
        DhcpFixedPayload::spec_byte_len() == 244,
{
}

impl WireCodec for DhcpFixedPayload {
    open spec fn spec_byte_len() -> nat {
        244
    }

    open spec fn wire(self) -> Seq<u8> {
        self.op.wire() + seq![self.htype, self.hlen, self.hops] + be32(self.xid)
            + be16(self.secs) + be16(self.flags) + self.ciaddr@ + self.yiaddr@ + self.siaddr@
            + self.giaddr@ + self.chaddr@ + zeros(10) + zeros(192) + be32(self.cookie)
            + self.kind_option.wire()
    }

    open spec fn from_wire(b: Seq<u8>) -> Self {
        DhcpFixedPayload {
            op: DhcpOperation::spec_from_code(b[0]),
            htype: b[1],
            hlen: b[2],
            hops: b[3],
            xid: u32_from_be(b[4], b[5], b[6], b[7]),
            secs: u16_from_be(b[8], b[9]),
            flags: u16_from_be(b[10], b[11]),
            ciaddr: IpV4Addr::from_wire(b.subrange(12, 16)),
            yiaddr: IpV4Addr::from_wire(b.subrange(16, 20)),
            siaddr: IpV4Addr::from_wire(b.subrange(20, 24)),
            giaddr: IpV4Addr::from_wire(b.subrange(24, 28)),
            chaddr: MacAddr::from_wire(b.subrange(28, 34)),
            cookie: u32_from_be(b[236], b[237], b[238], b[239]),
            kind_option: DhcpMessageKindOption::from_wire(b.subrange(240, 244)),
        }
    }

    open spec fn wf(self) -> bool {
        self.op.wf() && self.kind_option.wf()
    }

    proof fn lemma_wire_len(self) {
    }

    proof fn lemma_round_trip(self) {
        let w = self.wire();
        crate::codec::lemma_be32_round_trip(self.xid);
        crate::codec::lemma_be16_round_trip(self.secs);
        crate::codec::lemma_be16_round_trip(self.flags);
        crate::codec::lemma_be32_round_trip(self.cookie);
        assert(w.subrange(12, 16) =~= self.ciaddr@);
        assert(w.subrange(16, 20) =~= self.yiaddr@);
        assert(w.subrange(20, 24) =~= self.siaddr@);
        assert(w.subrange(24, 28) =~= self.giaddr@);
        assert(w.subrange(28, 34) =~= self.chaddr@);
        assert(w.subrange(240, 244) =~= self.kind_option.wire());
        self.ciaddr.lemma_round_trip();
        self.yiaddr.lemma_round_trip();
        self.siaddr.lemma_round_trip();
        self.giaddr.lemma_round_trip();
        self.chaddr.lemma_round_trip();
        self.kind_option.lemma_round_trip();
    }

    proof fn lemma_from_wire_wf(b: Seq<u8>) {
        DhcpMessageKindOption::lemma_from_wire_wf(b.subrange(240, 244));
    }

    fn byte_len() -> usize {
        244
    }

    fn encode(&self, buf: &mut Vec<u8>) {
        self.op.encode(buf);
        buf.push(self.htype);
        buf.push(self.hlen);
        buf.push(self.hops);
        push_be32(buf, self.xid);
        push_be16(buf, self.secs);
        push_be16(buf, self.flags);
        self.ciaddr.encode(buf);
        self.yiaddr.encode(buf);
        self.siaddr.encode(buf);
        self.giaddr.encode(buf);
        self.chaddr.encode(buf);
        push_zeros(buf, 10);
        push_zeros(buf, 192);
        push_be32(buf, self.cookie);
        self.kind_option.encode(buf);
        proof {
            assert(buf@ =~= old(buf)@ + self.wire());
        }
    }

    fn decode(bytes: &[u8], at: usize) -> (r: Self) {
        let _n: usize = bytes.len();
        let r = DhcpFixedPayload {
            op: DhcpOperation::from_code(bytes[at]),
            htype: bytes[at + 1],
            hlen: bytes[at + 2],
            hops: bytes[at + 3],
            xid: read_be32(bytes, at + 4),
            secs: read_be16(bytes, at + 8),
            flags: read_be16(bytes, at + 10),
            ciaddr: IpV4Addr::decode(bytes, at + 12),
            yiaddr: IpV4Addr::decode(bytes, at + 16),
            siaddr: IpV4Addr::decode(bytes, at + 20),
            giaddr: IpV4Addr::decode(bytes, at + 24),
            chaddr: MacAddr::decode(bytes, at + 28),
            cookie: read_be32(bytes, at + 236),
            kind_option: DhcpMessageKindOption::decode(bytes, at + 240),
        };
        proof {
            let w = bytes@.subrange(at as int, at as int + 244);
            assert(w.subrange(12, 16) =~= bytes@.subrange(at as int + 12, at as int + 16));
            assert(w.subrange(16, 20) =~= bytes@.subrange(at as int + 16, at as int + 20));
            assert(w.subrange(20, 24) =~= bytes@.subrange(at as int + 20, at as int + 24));
            assert(w.subrange(24, 28) =~= bytes@.subrange(at as int + 24, at as int + 28));
            assert(w.subrange(28, 34) =~= bytes@.subrange(at as int + 28, at as int + 34));
            assert(w.subrange(240, 244) =~= bytes@.subrange(at as int + 240, at as int + 244));
        }
        r
    }
}

impl DhcpFixedPayload {
    /// Build a fixed payload with the always-fixed fields filled in:
    /// hardware type 1 (Ethernet), 6-byte hardware address, zero hops and
    /// seconds, an unset gateway, and the magic cookie.
    pub fn new(
        op: DhcpOperation,
        kind: DhcpMessageKind,
        transaction_id: u32,
        broadcast: bool,
        ciaddr: IpV4Addr,
        yiaddr: IpV4Addr,
        siaddr: IpV4Addr,
        chaddr: MacAddr,
    ) -> (r: Self)
        ensures
            r == (DhcpFixedPayload {
                op,
                htype: 1u8,
                hlen: 6u8,
                hops: 0u8,
                xid: transaction_id,
                secs: 0u16,
                flags: if broadcast {
                    1u16
                } else {
                    0u16
                },
                ciaddr,
                yiaddr,
                siaddr,
                giaddr: IpV4Addr::from_wire(seq![0u8, 0, 0, 0]),
                chaddr,
                cookie: DHCP_COOKIE,
                kind_option: DhcpMessageKindOption {
                    kind: DhcpOptionKind::DhcpMessageType,
                    length: 1u8,
                    value: kind,
                },
            }),
    {
        let giaddr = IpV4Addr::any();
        proof {
            giaddr.lemma_round_trip();
            assert(giaddr@ =~= seq![0u8, 0, 0, 0]);
        }
        DhcpFixedPayload {
            op,
            htype: 1,
            hlen: 6,
            hops: 0,
            xid: transaction_id,
            secs: 0,
            flags: if broadcast {
                1
            } else {
                0
            },
            ciaddr,
            yiaddr,
            siaddr,
            giaddr,
            chaddr,
            cookie: DHCP_COOKIE,
            kind_option: DhcpMessageKindOption::new(kind),
        }
    }

    /// Build a DHCP INFORM message to broadcast to the network indicating
    /// that we are taking a pre-assigned IP address. This message should be
    /// accompanied by an ARP announce message broadcasting the presence of
    /// the machine to others on the network.
    pub fn new_inform(ipaddr: IpV4Addr, macaddr: MacAddr, transaction_id: u32) -> (r: Self)
        ensures
            r == (DhcpFixedPayload {
                op: DhcpOperation::Request,
                htype: 1u8,
                hlen: 6u8,
                hops: 0u8,
                xid: transaction_id,
                secs: 0u16,
                flags: 1u16,
                ciaddr: ipaddr,
                yiaddr: IpV4Addr::from_wire(seq![0u8, 0, 0, 0]),
                siaddr: IpV4Addr::from_wire(seq![0u8, 0, 0, 0]),
                giaddr: IpV4Addr::from_wire(seq![0u8, 0, 0, 0]),
                chaddr: macaddr,
                cookie: DHCP_COOKIE,
                kind_option: DhcpMessageKindOption {
                    kind: DhcpOptionKind::DhcpMessageType,
                    length: 1u8,
                    value: DhcpMessageKind::Inform,
                },
            }),
    {
        let any1 = IpV4Addr::any();
        let any2 = IpV4Addr::any();
        proof {
            any1.lemma_round_trip();
            any2.lemma_round_trip();
            assert(any1@ =~= seq![0u8, 0, 0, 0]);
            assert(any2@ =~= seq![0u8, 0, 0, 0]);
        }
        Self::new(
            DhcpOperation::Request,
            DhcpMessageKind::Inform,
            transaction_id,
            true,
            ipaddr,
            any1,
            any2,
            macaddr,
        )
    }

    /// Pack into big-endian (network) byte order.
    pub fn to_be_bytes(&self) -> (r: Vec<u8>)
        ensures
            r@ == self.wire(),
    {
        let mut out: Vec<u8> = Vec::new();
        self.encode(&mut out);
        out
    }

    /// Decode from a buffer holding at least the payload's 244 bytes.
    pub fn read_bytes(bytes: &[u8]) -> (r: Self)
        requires
            244 <= bytes@.len(),
        ensures
            r == Self::from_wire(bytes@.subrange(0, 244)),
    {
        Self::decode(bytes, 0)
    }

    /// Validating parse: decode, then check the semantic invariants the
    /// structural decode defers: the op code must be a valid BOOTP
    /// operation, and the cookie must hold the DHCP magic value, else the
    /// bytes are not a DHCP message at all.
    pub fn parse(bytes: &[u8]) -> (r: Result<Self, ParseError>)
        ensures
            ({
                let v = Self::from_wire(bytes@.subrange(0, 244));
                if bytes@.len() < 244 {
                    r == Err::<Self, ParseError>(
                        ParseError::TooShort { expected: 244usize, actual: bytes@.len() as usize },
                    )
                } else if !(v.op is Request || v.op is Reply) {
                    r == Err::<Self, ParseError>(
                        ParseError::InvalidOperation { actual: v.op.spec_code() },
                    )
                } else if v.cookie != DHCP_COOKIE {
                    r == Err::<Self, ParseError>(
                        ParseError::InvalidMagicValue { expected: DHCP_COOKIE, actual: v.cookie },
                    )
                } else {
                    r == Ok::<Self, ParseError>(v)
                }
            }),
    {
        let n: usize = bytes.len();
        if n < 244 {
            return Err(ParseError::TooShort { expected: 244, actual: n });
        }
        let v = Self::decode(bytes, 0);
        match v.op {
            DhcpOperation::Request => (),
            DhcpOperation::Reply => (),
            DhcpOperation::Unknown(x) => {
                return Err(ParseError::InvalidOperation { actual: x });
            },
        }
        if v.cookie != DHCP_COOKIE {
            return Err(ParseError::InvalidMagicValue { expected: DHCP_COOKIE, actual: v.cookie });
        }
        Ok(v)
    }
}

} // verus!
