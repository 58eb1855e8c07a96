use icmpv6::{parse_icmpv6_header, Icmpv6Code, Icmpv6Data, Icmpv6Header, Incomplete, Unreachable};

#[test]
fn icmpv6_ping_request() {
    let mut icmpv6_data = [
        0x80, //type
        0x00, //code
        0xfd, 0x00, //checksum
        0x00, 0x01, //identifier
        0x00, 0x1a, //sequence
    ]
    .to_vec(); //header

    let echo_data: [u8; 56] = [
        0xab, 0x11, 0x2b, 0x62, 0x00, 0x00, 0x00, 0x00, 0x07, 0x80, 0x00, 0x00, 0x00, 0x00, 0x00,
        0x00, 0x10, 0x11, 0x12, 0x13, 0x14, 0x15, 0x16, 0x17, 0x18, 0x19, 0x1a, 0x1b, 0x1c, 0x1d,
        0x1e, 0x1f, 0x20, 0x21, 0x22, 0x23, 0x24, 0x25, 0x26, 0x27, 0x28, 0x29, 0x2a, 0x2b, 0x2c,
        0x2d, 0x2e, 0x2f, 0x30, 0x31, 0x32, 0x33, 0x34, 0x35, 0x36, 0x37, //data
    ];

    icmpv6_data.extend_from_slice(&echo_data);

    assert_eq!(
        parse_icmpv6_header(&icmpv6_data),
        Ok((
            &echo_data[..],
            Icmpv6Header {
                code: Icmpv6Code::EchoRequest,
                checksum: 0xfd00,
                data: Icmpv6Data::EchoRequest {
                    identifier: 1,
                    sequence: 26,
                }
            }
        ))
    )
}

#[test]
fn icmpv6_ping_reply() {
    let mut icmpv6_data = [
        0x81, //type
        0x00, //code
        0xfc, 0x00, //checksum
        0x00, 0x01, //identifier
        0x00, 0x1a, //sequence
    ]
    .to_vec(); //header

    let echo_data: [u8; 56] = [
        0xab, 0x11, 0x2b, 0x62, 0x00, 0x00, 0x00, 0x00, 0x07, 0x80, 0x00, 0x00, 0x00, 0x00, 0x00,
        0x00, 0x10, 0x11, 0x12, 0x13, 0x14, 0x15, 0x16, 0x17, 0x18, 0x19, 0x1a, 0x1b, 0x1c, 0x1d,
        0x1e, 0x1f, 0x20, 0x21, 0x22, 0x23, 0x24, 0x25, 0x26, 0x27, 0x28, 0x29, 0x2a, 0x2b, 0x2c,
        0x2d, 0x2e, 0x2f, 0x30, 0x31, 0x32, 0x33, 0x34, 0x35, 0x36, 0x37, //data
    ];

    icmpv6_data.extend_from_slice(&echo_data);

    assert_eq!(
        parse_icmpv6_header(&icmpv6_data),
        Ok((
            &echo_data[..],
            Icmpv6Header {
                code: Icmpv6Code::EchoReply,
                checksum: 0xfc00,
                data: Icmpv6Data::EchoReply {
                    identifier: 1,
                    sequence: 26,
                }
            }
        ))
    )
}

#[test]
fn echo_request_fixture_exact() {
    let bytes = [0x80, 0x00, 0xfd, 0x00, 0x00, 0x01, 0x00, 0x1a];
    assert_eq!(
        parse_icmpv6_header(&bytes),
        Ok((
            &bytes[8..],
            Icmpv6Header {
                code: Icmpv6Code::EchoRequest,
                checksum: 0xfd00,
                data: Icmpv6Data::EchoRequest {
                    identifier: 1,
                    sequence: 26,
                }
            }
        ))
    );
}

#[test]
fn echo_reply_fixture_exact() {
    let bytes = [0x81, 0x00, 0xfc, 0x00, 0x00, 0x01, 0x00, 0x1a];
    assert_eq!(
        parse_icmpv6_header(&bytes),
        Ok((
            &bytes[8..],
            Icmpv6Header {
                code: Icmpv6Code::EchoReply,
                checksum: 0xfc00,
                data: Icmpv6Data::EchoReply {
                    identifier: 1,
                    sequence: 26,
                }
            }
        ))
    );
}

#[test]
fn destination_unreachable_fixture() {
    let bytes = [0x01, 0x02, 0x00, 0x00];
    assert_eq!(
        parse_icmpv6_header(&bytes),
        Ok((
            &bytes[4..],
            Icmpv6Header {
                code: Icmpv6Code::DestinationUnreachable(Unreachable::BeyondScopeOfSourceAddress),
                checksum: 0,
                data: Icmpv6Data::NoData,
            }
        ))
    );
}

#[test]
fn unknown_code_under_known_type_fixture() {
    let bytes = [0x01, 0xff, 0x00, 0x00];
    assert_eq!(
        parse_icmpv6_header(&bytes),
        Ok((
            &bytes[4..],
            Icmpv6Header {
                code: Icmpv6Code::Other(0x01ff),
                checksum: 0,
                data: Icmpv6Data::NoData,
            }
        ))
    );
}

#[test]
fn truncated_input_signals_incomplete() {
    let bytes = [0x80];
    assert_eq!(parse_icmpv6_header(&bytes), Err(Incomplete { needed: 1 }));
}

#[test]
fn incomplete_counts_missing_bytes_of_current_field() {
    // The (type, code) field needs two bytes.
    assert_eq!(parse_icmpv6_header(&[]), Err(Incomplete { needed: 2 }));
    // The checksum field needs two more.
    assert_eq!(parse_icmpv6_header(&[0x80, 0x00]), Err(Incomplete { needed: 2 }));
    assert_eq!(parse_icmpv6_header(&[0x80, 0x00, 0xfd]), Err(Incomplete { needed: 1 }));
    // Echo messages then need the identifier and the sequence number.
    assert_eq!(parse_icmpv6_header(&[0x80, 0x00, 0xfd, 0x00]), Err(Incomplete { needed: 2 }));
    assert_eq!(
        parse_icmpv6_header(&[0x80, 0x00, 0xfd, 0x00, 0x00]),
        Err(Incomplete { needed: 1 })
    );
    assert_eq!(
        parse_icmpv6_header(&[0x80, 0x00, 0xfd, 0x00, 0x00, 0x01]),
        Err(Incomplete { needed: 2 })
    );
    assert_eq!(
        parse_icmpv6_header(&[0x80, 0x00, 0xfd, 0x00, 0x00, 0x01, 0x00]),
        Err(Incomplete { needed: 1 })
    );
}

#[test]
fn non_echo_kind_is_complete_at_four_bytes() {
    // A packet-too-big header carries no payload: four bytes suffice and
    // everything after them is left for the caller.
    let bytes = [0x02, 0x00, 0x12, 0x34, 0xde, 0xad, 0xbe, 0xef];
    assert_eq!(
        parse_icmpv6_header(&bytes),
        Ok((
            &bytes[4..],
            Icmpv6Header {
                code: Icmpv6Code::PacketTooBig,
                checksum: 0x1234,
                data: Icmpv6Data::NoData,
            }
        ))
    );
}

#[test]
fn non_echo_kinds_never_carry_payload() {
    // Over every possible (type, code) pair: whenever the classified kind is
    // not an echo, decoding consumes exactly four bytes and yields no
    // payload; the two echo kinds consume exactly eight.
    for raw in 0u32..=0xffff {
        let t = (raw >> 8) as u8;
        let c = (raw & 0xff) as u8;
        let bytes = [t, c, 0xaa, 0xbb, 0x00, 0x07, 0x00, 0x09, 0x5a];
        let (rest, header) = parse_icmpv6_header(&bytes).expect("complete input must decode");
        if header.code == Icmpv6Code::EchoRequest {
            assert_eq!(
                header.data,
                Icmpv6Data::EchoRequest {
                    identifier: 7,
                    sequence: 9,
                }
            );
            assert_eq!(rest, &bytes[8..]);
        } else if header.code == Icmpv6Code::EchoReply {
            assert_eq!(
                header.data,
                Icmpv6Data::EchoReply {
                    identifier: 7,
                    sequence: 9,
                }
            );
            assert_eq!(rest, &bytes[8..]);
        } else {
            assert_eq!(header.data, Icmpv6Data::NoData);
            assert_eq!(rest, &bytes[4..]);
        }
        assert_eq!(header.checksum, 0xaabb);
    }
}
