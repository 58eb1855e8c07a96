//! Decoding of the fixed ICMPv6 header from a byte stream.
//!
//! The decoder reads the (type, code) pair, classifies it, reads the
//! checksum, and, for the two echo kinds, the identifier/sequence payload.
//! A too-short input is signalled as incomplete — how many more bytes the
//! field being read needs — never as a hard error: classification is total,
//! so a syntactically complete input cannot be rejected.

use vstd::prelude::*;
use vstd::slice::{slice_index_get, slice_subrange};
use crate::spec_be16;
use crate::codes::{spec_classify, classify, Icmpv6Code};

verus! {

/// The incomplete-input signal: the input ended while a field still needed
/// `needed` more bytes. Recoverable — the caller appends bytes and retries.
#[derive(Clone, Copy, Debug, PartialEq, Eq, Structural)]
pub struct Incomplete {
    pub needed: usize,
}

/// The fixed payload a message kind carries: the identifier/sequence pair
/// of the two echo kinds, or nothing for every other kind.
#[derive(Clone, Copy, Debug, PartialEq, Eq, Structural)]
pub enum Icmpv6Data {
    EchoRequest { identifier: u16, sequence: u16 },
    EchoReply { identifier: u16, sequence: u16 },
    NoData,
}

/// A decoded ICMPv6 header: the classified kind, the raw checksum field
/// (extracted, not validated), and the kind's fixed payload.
#[derive(Clone, Copy, Debug, PartialEq, Eq, Structural)]
pub struct Icmpv6Header {
    pub code: Icmpv6Code,
    pub checksum: u16,
    pub data: Icmpv6Data,
}

/// The two kinds that carry an identifier/sequence payload.
pub open spec fn is_echo(k: Icmpv6Code) -> bool {
    k == Icmpv6Code::EchoRequest || k == Icmpv6Code::EchoReply
}

/// The kind determines which payload variant is structurally valid: echo
/// kinds pair with their own payload, every other kind with no payload.
pub open spec fn header_wf(h: Icmpv6Header) -> bool {
    &&& h.data is EchoRequest <==> h.code == Icmpv6Code::EchoRequest
    &&& h.data is EchoReply <==> h.code == Icmpv6Code::EchoReply
}

/// What decoding a byte sequence yields: the header and the unconsumed
/// remainder, or the incomplete signal with the count of bytes the field
/// being read still needs. Fields are read big-endian in this order: the
/// (type, code) pair, the checksum, and, for echo kinds only, the
/// identifier and the sequence number.
pub open spec fn spec_parse_header(s: Seq<u8>) -> Result<(Seq<u8>, Icmpv6Header), Incomplete> {
    if s.len() < 2 {
        Err(Incomplete { needed: (2 - s.len()) as usize })
    } else if s.len() < 4 {
        Err(Incomplete { needed: (4 - s.len()) as usize })
    } else {
        let code = spec_classify(spec_be16(s[0], s[1]));
        let checksum = spec_be16(s[2], s[3]);
        if is_echo(code) {
            if s.len() < 6 {
                Err(Incomplete { needed: (6 - s.len()) as usize })
            } else if s.len() < 8 {
                Err(Incomplete { needed: (8 - s.len()) as usize })
            } else {
                let identifier = spec_be16(s[4], s[5]);
                let sequence = spec_be16(s[6], s[7]);
                let data = if code == Icmpv6Code::EchoRequest {
                    Icmpv6Data::EchoRequest { identifier, sequence }
                } else {
                    Icmpv6Data::EchoReply { identifier, sequence }
                };
                Ok((s.skip(8), Icmpv6Header { code, checksum, data }))
            }
        } else {
            Ok((s.skip(4), Icmpv6Header { code, checksum, data: Icmpv6Data::NoData }))
        }
    }
}

/// Reads a big-endian 16-bit value, returning it with the rest of the
/// input, or the incomplete signal when fewer than two bytes are left.
fn read_be_u16(input: &[u8]) -> (r: Result<(&[u8], u16), Incomplete>)
    ensures
        input@.len() >= 2 ==> (r matches Ok((rest, v)) && rest@ == input@.skip(2) && v
            == spec_be16(input@[0], input@[1])),
        input@.len() < 2 ==> (r matches Err(e) && e.needed == 2 - input@.len()),
{
    if input.len() < 2 {
        Err(Incomplete { needed: 2 - input.len() })
    } else {
        let hi: u8 = *slice_index_get(input, 0);
        let lo: u8 = *slice_index_get(input, 1);
        let v: u16 = (hi as u16) * 256 + (lo as u16);
        Ok((slice_subrange(input, 2, input.len()), v))
    }
}

/// Reads and classifies the leading (type, code) pair.
fn parse_icmpv6_code(input: &[u8]) -> (r: Result<(&[u8], Icmpv6Code), Incomplete>)
    ensures
        input@.len() >= 2 ==> (r matches Ok((rest, k)) && rest@ == input@.skip(2) && k
            == spec_classify(spec_be16(input@[0], input@[1]))),
        input@.len() < 2 ==> (r matches Err(e) && e.needed == 2 - input@.len()),
{
    match read_be_u16(input) {
        Ok((rest, code)) => Ok((rest, classify(code))),
        Err(e) => Err(e),
    }
}

/// Reads the four-byte identifier/sequence payload of an echo request.
fn parse_echo_request(input: &[u8]) -> (r: Result<(&[u8], Icmpv6Data), Incomplete>)
    ensures
        input@.len() >= 4 ==> (r matches Ok((rest, d)) && rest@ == input@.skip(4) && d == (
        Icmpv6Data::EchoRequest {
            identifier: spec_be16(input@[0], input@[1]),
            sequence: spec_be16(input@[2], input@[3]),
        })),
        input@.len() < 2 ==> (r matches Err(e) && e.needed == 2 - input@.len()),
        2 <= input@.len() < 4 ==> (r matches Err(e) && e.needed == 4 - input@.len()),
{
    match read_be_u16(input) {
        Ok((rest, identifier)) => match read_be_u16(rest) {
            Ok((rest, sequence)) => {
                Ok((rest, Icmpv6Data::EchoRequest { identifier, sequence }))
            },
            Err(e) => Err(e),
        },
        Err(e) => Err(e),
    }
}

/// Reads the four-byte identifier/sequence payload of an echo reply.
fn parse_echo_reply(input: &[u8]) -> (r: Result<(&[u8], Icmpv6Data), Incomplete>)
    ensures
        input@.len() >= 4 ==> (r matches Ok((rest, d)) && rest@ == input@.skip(4) && d == (
        Icmpv6Data::EchoReply {
            identifier: spec_be16(input@[0], input@[1]),
            sequence: spec_be16(input@[2], input@[3]),
        })),
        input@.len() < 2 ==> (r matches Err(e) && e.needed == 2 - input@.len()),
        2 <= input@.len() < 4 ==> (r matches Err(e) && e.needed == 4 - input@.len()),
{
    match read_be_u16(input) {
        Ok((rest, identifier)) => match read_be_u16(rest) {
            Ok((rest, sequence)) => {
                Ok((rest, Icmpv6Data::EchoReply { identifier, sequence }))
            },
            Err(e) => Err(e),
        },
        Err(e) => Err(e),
    }
}

/// Decodes one fixed ICMPv6 header from the front of `input`.
///
/// On success the result pairs the unconsumed remainder of the input with
/// the header; the only other outcome is the incomplete signal, since every
/// (type, code) value classifies to a defined kind. Exactly eight bytes are
/// consumed for the two echo kinds, and exactly four for every other kind.
pub fn parse_icmpv6_header(input: &[u8]) -> (r: Result<(&[u8], Icmpv6Header), Incomplete>)
    ensures
        (r matches Ok((rest, h)) ==> spec_parse_header(input@) == Ok::<
            (Seq<u8>, Icmpv6Header),
            Incomplete,
        >((rest@, h))),
        (r matches Err(e) ==> spec_parse_header(input@) == Err::<
            (Seq<u8>, Icmpv6Header),
            Incomplete,
        >(e)),
        r is Ok <==> (input@.len() >= 4 && (is_echo(spec_classify(spec_be16(input@[0], input@[1])))
            ==> input@.len() >= 8)),
        r matches Ok((rest, h)) ==> ({
            &&& header_wf(h)
            &&& h.code == spec_classify(spec_be16(input@[0], input@[1]))
            &&& h.checksum == spec_be16(input@[2], input@[3])
            &&& !is_echo(h.code) ==> (h.data is NoData && rest@ == input@.skip(4))
            &&& is_echo(h.code) ==> rest@ == input@.skip(8)
        }),
{
    let (rest, code) = match parse_icmpv6_code(input) {
        Ok(v) => v,
        Err(e) => {
            return Err(e);
        },
    };
    let (rest, checksum) = match read_be_u16(rest) {
        Ok(v) => v,
        Err(e) => {
            return Err(e);
        },
    };
    let (rest, data) = match code {
        Icmpv6Code::EchoRequest => match parse_echo_request(rest) {
            Ok(v) => v,
            Err(e) => {
                return Err(e);
            },
        },
        Icmpv6Code::EchoReply => match parse_echo_reply(rest) {
            Ok(v) => v,
            Err(e) => {
                return Err(e);
            },
        },
        _ => (rest, Icmpv6Data::NoData),
    };
    proof {
        assert(input@.skip(2).skip(2) =~= input@.skip(4));
        if input@.len() >= 8 {
            assert(input@.skip(4).skip(4) =~= input@.skip(8));
        }
    }
    Ok((rest, Icmpv6Header { code, checksum, data }))
}

} // verus!
