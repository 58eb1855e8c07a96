//! Classification of raw 16-bit (type, code) values into message kinds.
//!
//! The registry is represented as two nested lookup tables: an outer table
//! from the type byte to either a fixed kind or a marker meaning "consult
//! this type's code table", and, for the marker case, an inner table from
//! the code byte to a kind. Both levels record an explicit fallback, so the
//! classification is total over all 65,536 raw values.

use vstd::prelude::*;
use crate::{high_byte, low_byte};

verus! {

/// Reasons a destination is unreachable, refined by the code byte of type 1.
#[derive(Clone, Copy, Debug, PartialEq, Eq, Structural)]
pub enum Unreachable {
    NoRouteToDestination,
    CommunicationAdministrativelyProhibited,
    BeyondScopeOfSourceAddress,
    AddressUnreachable,
    PortUnreachable,
    SourceAddressFailedPolicy,
    RejectRouteToDestination,
    ErrorInSourceRoutingHeader,
}

/// Reasons time was exceeded, refined by the code byte of type 3.
#[derive(Clone, Copy, Debug, PartialEq, Eq, Structural)]
pub enum TimeExceeded {
    TTL,
    FragmentReassembly,
}

/// Parameter-problem reasons, refined by the code byte of type 4.
#[derive(Clone, Copy, Debug, PartialEq, Eq, Structural)]
pub enum ParameterProblem {
    ErroneousHeaderField,
    UnrecognizedNextHeader,
    UnrecognizedIPv6Option,
}

/// Router-renumbering sub-kinds, refined by the code byte of type 138.
#[derive(Clone, Copy, Debug, PartialEq, Eq, Structural)]
pub enum RouterRenumbering {
    RouterRenumberingCommand,
    RouterRenumberingResult,
    SequenceNumberReset,
}

/// Node-information-query sub-kinds, refined by the code byte of type 139.
#[derive(Clone, Copy, Debug, PartialEq, Eq, Structural)]
pub enum NodeInformationQuery {
    DataFieldContainsIPv6,
    DataFieldContainsNameOrEmpty,
    DataFieldContainsIPv4,
}

/// Node-information-response sub-kinds, refined by the code byte of type 140.
#[derive(Clone, Copy, Debug, PartialEq, Eq, Structural)]
pub enum NodeInformationResponse {
    Successful,
    Refusal,
    UnknownQType,
}

/// Duplicate-address-request sub-kinds, refined by the code byte of type 157.
#[derive(Clone, Copy, Debug, PartialEq, Eq, Structural)]
pub enum DuplicateAddressRequestCodeSuffix {
    DarMessage,
    EdarMessageWith64BitRovrField,
    EdarMessageWith128BitRovrField,
    EdarMessageWith192BitRovrField,
    EdarMessageWith256BitRovrField,
}

/// Duplicate-address-confirmation sub-kinds, refined by the code byte of type 158.
#[derive(Clone, Copy, Debug, PartialEq, Eq, Structural)]
pub enum DuplicateAddressConfirmationCodeSuffix {
    DacMessage,
    EdacMessageWith64BitRovrField,
    EdacMessageWith128BitRovrField,
    EdacMessageWith192BitRovrField,
    EdacMessageWith256BitRovrField,
}

/// Extended-echo-request sub-kinds, refined by the code byte of type 160.
#[derive(Clone, Copy, Debug, PartialEq, Eq, Structural)]
pub enum ExtendedEchoRequest {
    NoError,
}

/// Extended-echo-reply sub-kinds, refined by the code byte of type 161.
#[derive(Clone, Copy, Debug, PartialEq, Eq, Structural)]
pub enum ExtendedEchoReply {
    NoError,
    MalformedQuery,
    NoSuchInterface,
    NoSuchTableEntry,
    MultipleInterfacesStatisfyQuery,
}

/// The closed classification of every 16-bit (type, code) value.
///
/// Kinds whose meaning is refined by the code byte wrap a nested enumeration;
/// the three fallback variants keep classification total: a private
/// experimentation range, the registry's two reserved boundary values, and a
/// generic catch-all for every pair the registry does not name.
#[derive(Clone, Copy, Debug, PartialEq, Eq, Structural)]
pub enum Icmpv6Code {
    DestinationUnreachable(Unreachable),
    PacketTooBig,
    TimeExceeded(TimeExceeded),
    ParameterProblem(ParameterProblem),
    ReservedForError,
    EchoRequest,
    EchoReply,
    MulticastListenerQuery,
    MulticastListenerReport,
    MulticastListenerDone,
    RouterSolicitation,
    RouterAdvertisement,
    NeighborSolicitation,
    NeighborAdvertisement,
    RedirectMessage,
    RouterRenumbering(RouterRenumbering),
    NodeInformationQuery(NodeInformationQuery),
    NodeInformationResponse(NodeInformationResponse),
    InverseNeighborDiscoverySolicitation,
    InverseNeighborDiscoveryAdvertisement,
    Version2MulticastListenerReport,
    HomeAgentAddressDiscoveryRequestMessage,
    HomeAgentAddressDiscoveryReplyMessage,
    MobilePrefixSolicitation,
    MobilePrefixAdvertisement,
    CertificationPathSolicitation,
    CertificationPathAdvertisement,
    ExperimentalMobilityProtocolMessage,
    MulticastRouterAdvertisement,
    MulticastRouterSolicitation,
    MulticastRouterTermination,
    FMIPv6Messages,
    RPLControlMessage,
    ILNPv6LocatorUpdateMessage,
    DuplicateAddressRequestCodeSuffix(DuplicateAddressRequestCodeSuffix),
    DuplicateAddressConfirmationCodeSuffix(DuplicateAddressConfirmationCodeSuffix),
    MPLControlMessage,
    ExtendedEchoRequest(ExtendedEchoRequest),
    ExtendedEchoReply(ExtendedEchoReply),
    ReservedForInformational,
    PrivateExperimentation(u16),
    Reserved,
    Other(u16),
}

/// What the registry's outer table prescribes for one type byte.
#[derive(Clone, Copy, Debug, PartialEq, Eq, Structural)]
pub enum TypeEntry {
    /// A fixed kind; the code byte does not refine the meaning.
    Single(Icmpv6Code),
    /// The meaning is refined by this type's inner code table.
    SubTable,
    /// A type byte inside one of the two private-experimentation ranges.
    Experimentation,
    /// The boundary value reserved for expansion of error messages.
    ReservedError,
    /// The boundary value reserved for expansion of informational messages.
    ReservedInformational,
    /// A type byte the registry does not name.
    Unregistered,
}

/// The outer registry table: what each type byte stands for.
pub open spec fn type_entry(t: u8) -> TypeEntry {
    if t == 0x01 || t == 0x03 || t == 0x04 || t == 0x8A || t == 0x8B || t == 0x8C
        || t == 0x9D || t == 0x9E || t == 0xA0 || t == 0xA1 {
        TypeEntry::SubTable
    } else if t == 0x64 || t == 0x65 || t == 0xC8 || t == 0xC9 {
        TypeEntry::Experimentation
    } else if t == 0x7F {
        TypeEntry::ReservedError
    } else if t == 0xFF {
        TypeEntry::ReservedInformational
    } else if t == 0x02 {
        TypeEntry::Single(Icmpv6Code::PacketTooBig)
    } else if t == 0x80 {
        TypeEntry::Single(Icmpv6Code::EchoRequest)
    } else if t == 0x81 {
        TypeEntry::Single(Icmpv6Code::EchoReply)
    } else if t == 0x82 {
        TypeEntry::Single(Icmpv6Code::MulticastListenerQuery)
    } else if t == 0x83 {
        TypeEntry::Single(Icmpv6Code::MulticastListenerReport)
    } else if t == 0x84 {
        TypeEntry::Single(Icmpv6Code::MulticastListenerDone)
    } else if t == 0x85 {
        TypeEntry::Single(Icmpv6Code::RouterSolicitation)
    } else if t == 0x86 {
        TypeEntry::Single(Icmpv6Code::RouterAdvertisement)
    } else if t == 0x87 {
        TypeEntry::Single(Icmpv6Code::NeighborSolicitation)
    } else if t == 0x88 {
        TypeEntry::Single(Icmpv6Code::NeighborAdvertisement)
    } else if t == 0x89 {
        TypeEntry::Single(Icmpv6Code::RedirectMessage)
    } else if t == 0x8D {
        TypeEntry::Single(Icmpv6Code::InverseNeighborDiscoverySolicitation)
    } else if t == 0x8E {
        TypeEntry::Single(Icmpv6Code::InverseNeighborDiscoveryAdvertisement)
    } else if t == 0x8F {
        TypeEntry::Single(Icmpv6Code::Version2MulticastListenerReport)
    } else if t == 0x90 {
        TypeEntry::Single(Icmpv6Code::HomeAgentAddressDiscoveryRequestMessage)
    } else if t == 0x91 {
        TypeEntry::Single(Icmpv6Code::HomeAgentAddressDiscoveryReplyMessage)
    } else if t == 0x92 {
        TypeEntry::Single(Icmpv6Code::MobilePrefixSolicitation)
    } else if t == 0x93 {
        TypeEntry::Single(Icmpv6Code::MobilePrefixAdvertisement)
    } else if t == 0x94 {
        TypeEntry::Single(Icmpv6Code::CertificationPathSolicitation)
    } else if t == 0x95 {
        TypeEntry::Single(Icmpv6Code::CertificationPathAdvertisement)
    } else if t == 0x96 {
        TypeEntry::Single(Icmpv6Code::ExperimentalMobilityProtocolMessage)
    } else if t == 0x97 {
        TypeEntry::Single(Icmpv6Code::MulticastRouterAdvertisement)
    } else if t == 0x98 {
        TypeEntry::Single(Icmpv6Code::MulticastRouterSolicitation)
    } else if t == 0x99 {
        TypeEntry::Single(Icmpv6Code::MulticastRouterTermination)
    } else if t == 0x9A {
        TypeEntry::Single(Icmpv6Code::FMIPv6Messages)
    } else if t == 0x9B {
        TypeEntry::Single(Icmpv6Code::RPLControlMessage)
    } else if t == 0x9C {
        TypeEntry::Single(Icmpv6Code::ILNPv6LocatorUpdateMessage)
    } else if t == 0x9F {
        TypeEntry::Single(Icmpv6Code::MPLControlMessage)
    } else {
        TypeEntry::Unregistered
    }
}

/// The inner registry table of one sub-table type: the kinds its registered
/// code bytes name. `None` means the code byte is not registered under this
/// type, so classification falls back to the generic catch-all.
pub open spec fn sub_entry(t: u8, c: u8) -> Option<Icmpv6Code> {
    if t == 0x01 {
        if c == 0x00 {
            Some(Icmpv6Code::DestinationUnreachable(Unreachable::NoRouteToDestination))
        } else if c == 0x01 {
            Some(Icmpv6Code::DestinationUnreachable(
                Unreachable::CommunicationAdministrativelyProhibited,
            ))
        } else if c == 0x02 {
            Some(Icmpv6Code::DestinationUnreachable(Unreachable::BeyondScopeOfSourceAddress))
        } else if c == 0x03 {
            Some(Icmpv6Code::DestinationUnreachable(Unreachable::AddressUnreachable))
        } else if c == 0x04 {
            Some(Icmpv6Code::DestinationUnreachable(Unreachable::PortUnreachable))
        } else if c == 0x05 {
            Some(Icmpv6Code::DestinationUnreachable(Unreachable::SourceAddressFailedPolicy))
        } else if c == 0x06 {
            Some(Icmpv6Code::DestinationUnreachable(Unreachable::RejectRouteToDestination))
        } else if c == 0x07 {
            Some(Icmpv6Code::DestinationUnreachable(Unreachable::ErrorInSourceRoutingHeader))
        } else {
            None
        }
    } else if t == 0x03 {
        if c == 0x00 {
            Some(Icmpv6Code::TimeExceeded(TimeExceeded::TTL))
        } else if c == 0x01 {
            Some(Icmpv6Code::TimeExceeded(TimeExceeded::FragmentReassembly))
        } else {
            None
        }
    } else if t == 0x04 {
        if c == 0x00 {
            Some(Icmpv6Code::ParameterProblem(ParameterProblem::ErroneousHeaderField))
        } else if c == 0x01 {
            Some(Icmpv6Code::ParameterProblem(ParameterProblem::UnrecognizedNextHeader))
        } else if c == 0x02 {
            Some(Icmpv6Code::ParameterProblem(ParameterProblem::UnrecognizedIPv6Option))
        } else {
            None
        }
    } else if t == 0x8A {
        if c == 0x00 {
            Some(Icmpv6Code::RouterRenumbering(RouterRenumbering::RouterRenumberingCommand))
        } else if c == 0x01 {
            Some(Icmpv6Code::RouterRenumbering(RouterRenumbering::RouterRenumberingResult))
        } else if c == 0xFF {
            Some(Icmpv6Code::RouterRenumbering(RouterRenumbering::SequenceNumberReset))
        } else {
            None
        }
    } else if t == 0x8B {
        if c == 0x00 {
            Some(Icmpv6Code::NodeInformationQuery(NodeInformationQuery::DataFieldContainsIPv6))
        } else if c == 0x01 {
            Some(Icmpv6Code::NodeInformationQuery(
                NodeInformationQuery::DataFieldContainsNameOrEmpty,
            ))
        } else if c == 0x02 {
            Some(Icmpv6Code::NodeInformationQuery(NodeInformationQuery::DataFieldContainsIPv4))
        } else {
            None
        }
    } else if t == 0x8C {
        if c == 0x00 {
            Some(Icmpv6Code::NodeInformationResponse(NodeInformationResponse::Successful))
        } else if c == 0x01 {
            Some(Icmpv6Code::NodeInformationResponse(NodeInformationResponse::Refusal))
        } else if c == 0x02 {
            Some(Icmpv6Code::NodeInformationResponse(NodeInformationResponse::UnknownQType))
        } else {
            None
        }
    } else if t == 0x9D {
        if c == 0x00 {
            Some(Icmpv6Code::DuplicateAddressRequestCodeSuffix(
                DuplicateAddressRequestCodeSuffix::DarMessage,
            ))
        } else if c == 0x01 {
            Some(Icmpv6Code::DuplicateAddressRequestCodeSuffix(
                DuplicateAddressRequestCodeSuffix::EdarMessageWith64BitRovrField,
            ))
        } else if c == 0x02 {
            Some(Icmpv6Code::DuplicateAddressRequestCodeSuffix(
                DuplicateAddressRequestCodeSuffix::EdarMessageWith128BitRovrField,
            ))
        } else if c == 0x03 {
            Some(Icmpv6Code::DuplicateAddressRequestCodeSuffix(
                DuplicateAddressRequestCodeSuffix::EdarMessageWith192BitRovrField,
            ))
        } else if c == 0x04 {
            Some(Icmpv6Code::DuplicateAddressRequestCodeSuffix(
                DuplicateAddressRequestCodeSuffix::EdarMessageWith256BitRovrField,
            ))
        } else {
            None
        }
    } else if t == 0x9E {
        if c == 0x00 {
            Some(Icmpv6Code::DuplicateAddressConfirmationCodeSuffix(
                DuplicateAddressConfirmationCodeSuffix::DacMessage,
            ))
        } else if c == 0x01 {
            Some(Icmpv6Code::DuplicateAddressConfirmationCodeSuffix(
                DuplicateAddressConfirmationCodeSuffix::EdacMessageWith64BitRovrField,
            ))
        } else if c == 0x02 {
            Some(Icmpv6Code::DuplicateAddressConfirmationCodeSuffix(
                DuplicateAddressConfirmationCodeSuffix::EdacMessageWith128BitRovrField,
            ))
        } else if c == 0x03 {
            Some(Icmpv6Code::DuplicateAddressConfirmationCodeSuffix(
                DuplicateAddressConfirmationCodeSuffix::EdacMessageWith192BitRovrField,
            ))
        } else if c == 0x04 {
            Some(Icmpv6Code::DuplicateAddressConfirmationCodeSuffix(
                DuplicateAddressConfirmationCodeSuffix::EdacMessageWith256BitRovrField,
            ))
        } else {
            None
        }
    } else if t == 0xA0 {
        if c == 0x00 {
            Some(Icmpv6Code::ExtendedEchoRequest(ExtendedEchoRequest::NoError))
        } else {
            None
        }
    } else if t == 0xA1 {
        if c == 0x00 {
            Some(Icmpv6Code::ExtendedEchoReply(ExtendedEchoReply::NoError))
        } else if c == 0x01 {
            Some(Icmpv6Code::ExtendedEchoReply(ExtendedEchoReply::MalformedQuery))
        } else if c == 0x02 {
            Some(Icmpv6Code::ExtendedEchoReply(ExtendedEchoReply::NoSuchInterface))
        } else if c == 0x03 {
            Some(Icmpv6Code::ExtendedEchoReply(ExtendedEchoReply::NoSuchTableEntry))
        } else if c == 0x04 {
            Some(Icmpv6Code::ExtendedEchoReply(
                ExtendedEchoReply::MultipleInterfacesStatisfyQuery,
            ))
        } else {
            None
        }
    } else {
        None
    }
}

/// The total classification of a raw 16-bit value: dispatch the type byte
/// through the outer table, then, where that table says so, the code byte
/// through the inner table, with the recorded fallbacks.
pub open spec fn spec_classify(raw: u16) -> Icmpv6Code {
    let t = high_byte(raw);
    let c = low_byte(raw);
    match type_entry(t) {
        TypeEntry::Single(k) => k,
        TypeEntry::SubTable => match sub_entry(t, c) {
            Some(k) => k,
            None => Icmpv6Code::Other(raw),
        },
        TypeEntry::Experimentation => Icmpv6Code::PrivateExperimentation(raw),
        TypeEntry::ReservedError => Icmpv6Code::ReservedForError,
        TypeEntry::ReservedInformational => Icmpv6Code::ReservedForInformational,
        TypeEntry::Unregistered => Icmpv6Code::Other(raw),
    }
}

/// Classifies a raw 16-bit (type, code) value into its message kind.
///
/// Total over all 65,536 raw values: there is no input for which this
/// function fails or panics, and the result is always `spec_classify(raw)`.
pub fn classify(raw: u16) -> (k: Icmpv6Code)
    ensures
        k == spec_classify(raw),
{
    let t: u8 = (raw / 256) as u8;
    let c: u8 = (raw % 256) as u8;
    match t {
        0x01 => match c {
            0x00 => Icmpv6Code::DestinationUnreachable(Unreachable::NoRouteToDestination),
            0x01 => Icmpv6Code::DestinationUnreachable(
                Unreachable::CommunicationAdministrativelyProhibited,
            ),
            0x02 => Icmpv6Code::DestinationUnreachable(Unreachable::BeyondScopeOfSourceAddress),
            0x03 => Icmpv6Code::DestinationUnreachable(Unreachable::AddressUnreachable),
            0x04 => Icmpv6Code::DestinationUnreachable(Unreachable::PortUnreachable),
            0x05 => Icmpv6Code::DestinationUnreachable(Unreachable::SourceAddressFailedPolicy),
            0x06 => Icmpv6Code::DestinationUnreachable(Unreachable::RejectRouteToDestination),
            0x07 => Icmpv6Code::DestinationUnreachable(Unreachable::ErrorInSourceRoutingHeader),
            _ => Icmpv6Code::Other(raw),
        },
        0x02 => Icmpv6Code::PacketTooBig,
        0x03 => match c {
            0x00 => Icmpv6Code::TimeExceeded(TimeExceeded::TTL),
            0x01 => Icmpv6Code::TimeExceeded(TimeExceeded::FragmentReassembly),
            _ => Icmpv6Code::Other(raw),
        },
        0x04 => match c {
            0x00 => Icmpv6Code::ParameterProblem(ParameterProblem::ErroneousHeaderField),
            0x01 => Icmpv6Code::ParameterProblem(ParameterProblem::UnrecognizedNextHeader),
            0x02 => Icmpv6Code::ParameterProblem(ParameterProblem::UnrecognizedIPv6Option),
            _ => Icmpv6Code::Other(raw),
        },
        0x64 => Icmpv6Code::PrivateExperimentation(raw),
        0x65 => Icmpv6Code::PrivateExperimentation(raw),
        0x7F => Icmpv6Code::ReservedForError,
        0x80 => Icmpv6Code::EchoRequest,
        0x81 => Icmpv6Code::EchoReply,
        0x82 => Icmpv6Code::MulticastListenerQuery,
        0x83 => Icmpv6Code::MulticastListenerReport,
        0x84 => Icmpv6Code::MulticastListenerDone,
        0x85 => Icmpv6Code::RouterSolicitation,
        0x86 => Icmpv6Code::RouterAdvertisement,
        0x87 => Icmpv6Code::NeighborSolicitation,
        0x88 => Icmpv6Code::NeighborAdvertisement,
        0x89 => Icmpv6Code::RedirectMessage,
        0x8A => match c {
            0x00 => Icmpv6Code::RouterRenumbering(RouterRenumbering::RouterRenumberingCommand),
            0x01 => Icmpv6Code::RouterRenumbering(RouterRenumbering::RouterRenumberingResult),
            0xFF => Icmpv6Code::RouterRenumbering(RouterRenumbering::SequenceNumberReset),
            _ => Icmpv6Code::Other(raw),
        },
        0x8B => match c {
            0x00 => Icmpv6Code::NodeInformationQuery(NodeInformationQuery::DataFieldContainsIPv6),
            0x01 => Icmpv6Code::NodeInformationQuery(
                NodeInformationQuery::DataFieldContainsNameOrEmpty,
            ),
            0x02 => Icmpv6Code::NodeInformationQuery(NodeInformationQuery::DataFieldContainsIPv4),
            _ => Icmpv6Code::Other(raw),
        },
        0x8C => match c {
            0x00 => Icmpv6Code::NodeInformationResponse(NodeInformationResponse::Successful),
            0x01 => Icmpv6Code::NodeInformationResponse(NodeInformationResponse::Refusal),
            0x02 => Icmpv6Code::NodeInformationResponse(NodeInformationResponse::UnknownQType),
            _ => Icmpv6Code::Other(raw),
        },
        0x8D => Icmpv6Code::InverseNeighborDiscoverySolicitation,
        0x8E => Icmpv6Code::InverseNeighborDiscoveryAdvertisement,
        0x8F => Icmpv6Code::Version2MulticastListenerReport,
        0x90 => Icmpv6Code::HomeAgentAddressDiscoveryRequestMessage,
        0x91 => Icmpv6Code::HomeAgentAddressDiscoveryReplyMessage,
        0x92 => Icmpv6Code::MobilePrefixSolicitation,
        0x93 => Icmpv6Code::MobilePrefixAdvertisement,
        0x94 => Icmpv6Code::CertificationPathSolicitation,
        0x95 => Icmpv6Code::CertificationPathAdvertisement,
        0x96 => Icmpv6Code::ExperimentalMobilityProtocolMessage,
        0x97 => Icmpv6Code::MulticastRouterAdvertisement,
        0x98 => Icmpv6Code::MulticastRouterSolicitation,
        0x99 => Icmpv6Code::MulticastRouterTermination,
        0x9A => Icmpv6Code::FMIPv6Messages,
        0x9B => Icmpv6Code::RPLControlMessage,
        0x9C => Icmpv6Code::ILNPv6LocatorUpdateMessage,
        0x9D => match c {
            0x00 => Icmpv6Code::DuplicateAddressRequestCodeSuffix(
                DuplicateAddressRequestCodeSuffix::DarMessage,
            ),
            0x01 => Icmpv6Code::DuplicateAddressRequestCodeSuffix(
                DuplicateAddressRequestCodeSuffix::EdarMessageWith64BitRovrField,
            ),
            0x02 => Icmpv6Code::DuplicateAddressRequestCodeSuffix(
                DuplicateAddressRequestCodeSuffix::EdarMessageWith128BitRovrField,
            ),
            0x03 => Icmpv6Code::DuplicateAddressRequestCodeSuffix(
                DuplicateAddressRequestCodeSuffix::EdarMessageWith192BitRovrField,
            ),
            0x04 => Icmpv6Code::DuplicateAddressRequestCodeSuffix(
                DuplicateAddressRequestCodeSuffix::EdarMessageWith256BitRovrField,
            ),
            _ => Icmpv6Code::Other(raw),
        },
        0x9E => match c {
            0x00 => Icmpv6Code::DuplicateAddressConfirmationCodeSuffix(
                DuplicateAddressConfirmationCodeSuffix::DacMessage,
            ),
            0x01 => Icmpv6Code::DuplicateAddressConfirmationCodeSuffix(
                DuplicateAddressConfirmationCodeSuffix::EdacMessageWith64BitRovrField,
            ),
            0x02 => Icmpv6Code::DuplicateAddressConfirmationCodeSuffix(
                DuplicateAddressConfirmationCodeSuffix::EdacMessageWith128BitRovrField,
            ),
            0x03 => Icmpv6Code::DuplicateAddressConfirmationCodeSuffix(
                DuplicateAddressConfirmationCodeSuffix::EdacMessageWith192BitRovrField,
            ),
            0x04 => Icmpv6Code::DuplicateAddressConfirmationCodeSuffix(
                DuplicateAddressConfirmationCodeSuffix::EdacMessageWith256BitRovrField,
            ),
            _ => Icmpv6Code::Other(raw),
        },
        0x9F => Icmpv6Code::MPLControlMessage,
        0xA0 => match c {
            0x00 => Icmpv6Code::ExtendedEchoRequest(ExtendedEchoRequest::NoError),
            _ => Icmpv6Code::Other(raw),
        },
        0xA1 => match c {
            0x00 => Icmpv6Code::ExtendedEchoReply(ExtendedEchoReply::NoError),
            0x01 => Icmpv6Code::ExtendedEchoReply(ExtendedEchoReply::MalformedQuery),
            0x02 => Icmpv6Code::ExtendedEchoReply(ExtendedEchoReply::NoSuchInterface),
            0x03 => Icmpv6Code::ExtendedEchoReply(ExtendedEchoReply::NoSuchTableEntry),
            0x04 => Icmpv6Code::ExtendedEchoReply(
                ExtendedEchoReply::MultipleInterfacesStatisfyQuery,
            ),
            _ => Icmpv6Code::Other(raw),
        },
        0xC8 => Icmpv6Code::PrivateExperimentation(raw),
        0xC9 => Icmpv6Code::PrivateExperimentation(raw),
        0xFF => Icmpv6Code::ReservedForInformational,
        _ => Icmpv6Code::Other(raw),
    }
}

/// Kinds whose meaning is refined by a registered code byte, so that each
/// such kind names exactly one (type, code) pair of the registry.
pub open spec fn is_code_refined(k: Icmpv6Code) -> bool {
    ||| k is DestinationUnreachable
    ||| k is TimeExceeded
    ||| k is ParameterProblem
    ||| k is RouterRenumbering
    ||| k is NodeInformationQuery
    ||| k is NodeInformationResponse
    ||| k is DuplicateAddressRequestCodeSuffix
    ||| k is DuplicateAddressConfirmationCodeSuffix
    ||| k is ExtendedEchoRequest
    ||| k is ExtendedEchoReply
}

/// Kinds produced by a fallback rather than a registered entry.
pub open spec fn is_fallback(k: Icmpv6Code) -> bool {
    ||| k is PrivateExperimentation
    ||| k is Reserved
    ||| k is Other
}

/// The registry's entries stand in the ranges the protocol documents:
/// registered kinds among the error types 1 through 4 and the informational
/// types 128 through 161, the private-experimentation types at 100, 101,
/// 200 and 201, the reserved boundary values at 127 and 255, and nothing
/// anywhere else.
pub proof fn lemma_type_table_ranges(t: u8)
    ensures
        type_entry(t) is Experimentation <==> (t == 0x64 || t == 0x65 || t == 0xC8 || t == 0xC9),
        type_entry(t) is ReservedError <==> t == 0x7F,
        type_entry(t) is ReservedInformational <==> t == 0xFF,
        type_entry(t) is Single || type_entry(t) is SubTable ==> (1 <= t <= 4 || 0x80 <= t
            <= 0xA1),
        (5 <= t <= 0x63 || 0x66 <= t <= 0x7E || 0xA2 <= t <= 0xC7 || 0xCA <= t <= 0xFE)
            ==> type_entry(t) is Unregistered,
{
}

/// No two entries of the inner tables name the same kind: a registered
/// sub-kind identifies its (type, code) pair uniquely.
pub proof fn lemma_sub_entry_injective(t1: u8, c1: u8, t2: u8, c2: u8)
    requires
        sub_entry(t1, c1) == sub_entry(t2, c2),
        sub_entry(t1, c1) is Some,
    ensures
        t1 == t2,
        c1 == c2,
{
}

/// A sub-table type's inner table partitions the 256 code-byte values:
/// every code byte the table does not register falls to the explicit
/// generic catch-all carrying the raw value.
pub proof fn lemma_sub_table_catch_all(raw: u16)
    requires
        type_entry(high_byte(raw)) is SubTable,
        sub_entry(high_byte(raw), low_byte(raw)) is None,
    ensures
        spec_classify(raw) == Icmpv6Code::Other(raw),
{
}

/// No two distinct registry entries claim the same (type, code) pair.
/// Stated through the classifications: two raw values classified into the
/// same code-refined kind are the same pair; two classified into the same
/// raw-carrying fallback are the same pair; and any other two classified
/// alike at least share the type byte, since every remaining entry is keyed
/// by the type byte alone.
pub proof fn lemma_registry_partition(raw1: u16, raw2: u16)
    requires
        spec_classify(raw1) == spec_classify(raw2),
    ensures
        is_code_refined(spec_classify(raw1)) ==> raw1 == raw2,
        is_fallback(spec_classify(raw1)) ==> raw1 == raw2,
        high_byte(raw1) == high_byte(raw2),
{
    crate::lemma_be16_split(raw1);
    crate::lemma_be16_split(raw2);
}

/// Classification is referentially transparent: any two classifications of
/// the same raw value are equal, so repeated calls of `classify` on one
/// input always agree.
pub proof fn lemma_classify_deterministic(raw: u16, k1: Icmpv6Code, k2: Icmpv6Code)
    requires
        k1 == spec_classify(raw),
        k2 == spec_classify(raw),
    ensures
        k1 == k2,
{
}

impl From<u16> for Icmpv6Code {
    /// Classification under the standard conversion trait.
    fn from(raw: u16) -> (k: Self) {
        classify(raw)
    }
}

impl vstd::std_specs::convert::FromSpecImpl<u16> for Icmpv6Code {
    open spec fn obeys_from_spec() -> bool {
        true
    }

    open spec fn from_spec(raw: u16) -> Self {
        spec_classify(raw)
    }
}

} // verus!
