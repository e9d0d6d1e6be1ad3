//! Total, pure classifiers mapping raw numeric protocol codes to closed
//! enumerations, with an explicit fallback variant for unrecognized codes.

use vstd::prelude::*;

verus! {

/// Common EtherTypes, per the IANA IEEE 802 numbers registry.
///
/// Every 16-bit code maps to exactly one variant; codes outside the named
/// set are preserved losslessly in `Unknown`.
#[derive(Clone, Copy, Debug, PartialEq, Eq, Structural)]
pub enum EtherType {
    ARP,
    IPv4,
    IPv6,
    Unknown(u16),
}

/// What classification of a 16-bit EtherType code returns.
pub open spec fn ether_type_of(code: u16) -> EtherType {
    if code == 0x0800 {
        EtherType::IPv4
    } else if code == 0x0806 {
        EtherType::ARP
    } else if code == 0x86dd {
        EtherType::IPv6
    } else {
        EtherType::Unknown(code)
    }
}

impl From<u16> for EtherType {
    fn from(value: u16) -> (r: Self) {
        match value {
            0x0800 => EtherType::IPv4,
            0x0806 => EtherType::ARP,
            0x86DD => EtherType::IPv6,
            other => EtherType::Unknown(other),
        }
    }
}

impl vstd::std_specs::convert::FromSpecImpl<u16> for EtherType {
    open spec fn obeys_from_spec() -> bool {
        true
    }

    open spec fn from_spec(value: u16) -> Self {
        ether_type_of(value)
    }
}

/// EtherType classification is total: each named variant comes from exactly
/// its registered code, and every other 16-bit code yields `Unknown` carrying
/// the original code unchanged.
pub proof fn lemma_ether_type_total(code: u16)
    ensures
        ether_type_of(code) == EtherType::IPv4 <==> code == 0x0800,
        ether_type_of(code) == EtherType::ARP <==> code == 0x0806,
        ether_type_of(code) == EtherType::IPv6 <==> code == 0x86dd,
        !(code == 0x0800 || code == 0x0806 || code == 0x86dd) ==> ether_type_of(code)
            == EtherType::Unknown(code),
{
}

/// Common IP protocol numbers.
///
/// Every 8-bit code maps to exactly one variant; codes outside the named
/// set are preserved losslessly in `Unknown`.
#[derive(Clone, Copy, Debug, PartialEq, Eq, Structural)]
pub enum IpProtocol {
    ICMP,
    TCP,
    UDP,
    Unknown(u8),
}

/// What classification of an 8-bit IP protocol number returns.
pub open spec fn ip_protocol_of(code: u8) -> IpProtocol {
    if code == 1 {
        IpProtocol::ICMP
    } else if code == 6 {
        IpProtocol::TCP
    } else if code == 17 {
        IpProtocol::UDP
    } else {
        IpProtocol::Unknown(code)
    }
}

impl From<u8> for IpProtocol {
    fn from(value: u8) -> (r: Self) {
        match value {
            1 => IpProtocol::ICMP,
            6 => IpProtocol::TCP,
            17 => IpProtocol::UDP,
            other => IpProtocol::Unknown(other),
        }
    }
}

impl vstd::std_specs::convert::FromSpecImpl<u8> for IpProtocol {
    open spec fn obeys_from_spec() -> bool {
        true
    }

    open spec fn from_spec(value: u8) -> Self {
        ip_protocol_of(value)
    }
}

/// IP protocol classification is total: each named variant comes from exactly
/// its registered code, and every other 8-bit code yields `Unknown` carrying
/// the original code unchanged.
pub proof fn lemma_ip_protocol_total(code: u8)
    ensures
        ip_protocol_of(code) == IpProtocol::ICMP <==> code == 1,
        ip_protocol_of(code) == IpProtocol::TCP <==> code == 6,
        ip_protocol_of(code) == IpProtocol::UDP <==> code == 17,
        !(code == 1 || code == 6 || code == 17) ==> ip_protocol_of(code) == IpProtocol::Unknown(
            code,
        ),
{
}

/// Common ICMP message types, per the IANA ICMP type registry.
///
/// Every 8-bit code maps to exactly one variant. Unlike `EtherType` and
/// `IpProtocol`, the `Unknown` variant carries no code.
#[derive(Clone, Copy, Debug, PartialEq, Eq, Structural)]
pub enum IcmpType {
    EchoReply,
    DestUnreachable,
    SourceQuench,
    Redirect,
    EchoRequest,
    RouterAdvertisement,
    RouterSelection,
    TimeExceeded,
    ParameterProblem,
    Timestamp,
    TimestampReply,
    InformationRequest,
    InformationReply,
    AddressMaskRequest,
    AddressMaskReply,
    Traceroute,
    Photuris,
    ExtendedEchoRequest,
    ExtendedEchoReply,
    Experimental1,
    Experimental2,
    Unknown,
}

/// Whether an 8-bit code is in the table of named ICMP message types.
pub open spec fn icmp_named(code: u8) -> bool {
    ||| code == 0
    ||| code == 3
    ||| code == 4
    ||| code == 5
    ||| code == 8
    ||| code == 9
    ||| code == 10
    ||| code == 11
    ||| code == 12
    ||| code == 13
    ||| code == 14
    ||| code == 15
    ||| code == 16
    ||| code == 17
    ||| code == 18
    ||| code == 30
    ||| code == 40
    ||| code == 42
    ||| code == 43
    ||| code == 253
    ||| code == 254
}

/// What classification of an 8-bit ICMP type code returns.
pub open spec fn icmp_type_of(code: u8) -> IcmpType {
    if code == 0 {
        IcmpType::EchoReply
    } else if code == 3 {
        IcmpType::DestUnreachable
    } else if code == 4 {
        IcmpType::SourceQuench
    } else if code == 5 {
        IcmpType::Redirect
    } else if code == 8 {
        IcmpType::EchoRequest
    } else if code == 9 {
        IcmpType::RouterAdvertisement
    } else if code == 10 {
        IcmpType::RouterSelection
    } else if code == 11 {
        IcmpType::TimeExceeded
    } else if code == 12 {
        IcmpType::ParameterProblem
    } else if code == 13 {
        IcmpType::Timestamp
    } else if code == 14 {
        IcmpType::TimestampReply
    } else if code == 15 {
        IcmpType::InformationRequest
    } else if code == 16 {
        IcmpType::InformationReply
    } else if code == 17 {
        IcmpType::AddressMaskRequest
    } else if code == 18 {
        IcmpType::AddressMaskReply
    } else if code == 30 {
        IcmpType::Traceroute
    } else if code == 40 {
        IcmpType::Photuris
    } else if code == 42 {
        IcmpType::ExtendedEchoRequest
    } else if code == 43 {
        IcmpType::ExtendedEchoReply
    } else if code == 253 {
        IcmpType::Experimental1
    } else if code == 254 {
        IcmpType::Experimental2
    } else {
        IcmpType::Unknown
    }
}

impl From<u8> for IcmpType {
    fn from(value: u8) -> (r: Self) {
        match value {
            0 => IcmpType::EchoReply,
            3 => IcmpType::DestUnreachable,
            4 => IcmpType::SourceQuench,
            5 => IcmpType::Redirect,
            8 => IcmpType::EchoRequest,
            9 => IcmpType::RouterAdvertisement,
            10 => IcmpType::RouterSelection,
            11 => IcmpType::TimeExceeded,
            12 => IcmpType::ParameterProblem,
            13 => IcmpType::Timestamp,
            14 => IcmpType::TimestampReply,
            15 => IcmpType::InformationRequest,
            16 => IcmpType::InformationReply,
            17 => IcmpType::AddressMaskRequest,
            18 => IcmpType::AddressMaskReply,
            30 => IcmpType::Traceroute,
            40 => IcmpType::Photuris,
            42 => IcmpType::ExtendedEchoRequest,
            43 => IcmpType::ExtendedEchoReply,
            253 => IcmpType::Experimental1,
            254 => IcmpType::Experimental2,
            _ => IcmpType::Unknown,
        }
    }
}

impl vstd::std_specs::convert::FromSpecImpl<u8> for IcmpType {
    open spec fn obeys_from_spec() -> bool {
        true
    }

    open spec fn from_spec(value: u8) -> Self {
        icmp_type_of(value)
    }
}

/// ICMP type classification is total: every 8-bit code maps to a named
/// variant exactly when it is in the registry table, and to `Unknown`
/// otherwise.
pub proof fn lemma_icmp_type_total(code: u8)
    ensures
        icmp_type_of(code) == IcmpType::Unknown <==> !icmp_named(code),
{
}

} // verus!
