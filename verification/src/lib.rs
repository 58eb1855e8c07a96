//! Decoder for the fixed-format header of ICMPv6 control messages.
//!
//! Every possible 16-bit (type, code) value is classified into a closed
//! enumeration of message kinds, the mandatory checksum field is extracted,
//! and the identifier/sequence payload of echo messages is decoded.

use vstd::prelude::*;

pub mod codes;
pub mod header;

pub use codes::{
    classify, DuplicateAddressConfirmationCodeSuffix, DuplicateAddressRequestCodeSuffix,
    ExtendedEchoReply, ExtendedEchoRequest, Icmpv6Code, NodeInformationQuery,
    NodeInformationResponse, ParameterProblem, RouterRenumbering, TimeExceeded, Unreachable,
};
pub use header::{parse_icmpv6_header, Icmpv6Data, Icmpv6Header, Incomplete};

verus! {

/// Big-endian (network byte order) reading of a 16-bit value from two bytes.
pub open spec fn spec_be16(hi: u8, lo: u8) -> u16 {
    (hi * 256 + lo) as u16
}

/// The type byte: the high byte of a raw 16-bit (type, code) value.
pub open spec fn high_byte(raw: u16) -> u8 {
    (raw / 256) as u8
}

/// The code byte: the low byte of a raw 16-bit (type, code) value.
pub open spec fn low_byte(raw: u16) -> u8 {
    (raw % 256) as u8
}

/// Splitting a raw value into its two bytes and reading them back
/// big-endian yields the raw value again.
pub proof fn lemma_be16_split(raw: u16)
    ensures
        spec_be16(high_byte(raw), low_byte(raw)) == raw,
{
}

} // verus!
