use icmp_ping::checksum::checksum;
use icmp_ping::decoder::{
    correlate, decode_icmp, decode_reply, parse_ipv4_envelope, Correlation, DecodeError,
    payload_matches, IcmpMessage, Ipv4Envelope,
};
use icmp_ping::encoder::{build_ping_request, encode_echo_request, TOKEN_SIZE};

fn ip_header(total_len: u16) -> Vec<u8> {
    let t = total_len.to_be_bytes();
    vec![
        0x45, 0, t[0], t[1], 0, 0, 0, 0, 64, 1, 0, 0, 10, 0, 0, 7, 127, 0, 0, 1,
    ]
}

fn echo_reply_bytes(identifier: u16, sequence: u16, payload: &[u8]) -> Vec<u8> {
    let mut m = encode_echo_request(identifier, sequence, payload);
    m[0] = 0;
    m
}

fn zeroed(m: &[u8]) -> Vec<u8> {
    let mut z = m.to_vec();
    z[2] = 0;
    z[3] = 0;
    z
}

#[test]
fn checksum_of_empty_message() {
    assert_eq!(checksum(&[]), 0xFFFF);
}

#[test]
fn checksum_with_carry() {
    // 0x0001 + 0xF203 + 0xF4F5 + 0xF6F7 = 0x2DDF0, folded 0xDDF2
    assert_eq!(checksum(&[0x00, 0x01, 0xF2, 0x03, 0xF4, 0xF5, 0xF6, 0xF7]), 0x220D);
}

#[test]
fn checksum_pads_odd_length() {
    assert_eq!(checksum(&[0x12]), 0xEDFF);
    assert_eq!(checksum(&[0x12, 0x34, 0x56]), !(0x1234u16 + 0x5600));
}

#[test]
fn checksum_of_all_ones_sum() {
    // a sum of 0xFFFF folds to 0xFFFF, whose complement is zero
    assert_eq!(checksum(&[0xFF, 0xFF]), 0x0000);
    assert_eq!(checksum(&[0x00, 0x00]), 0xFFFF);
}

#[test]
fn checksum_round_trip() {
    let cases: Vec<(u16, u16, Vec<u8>)> = vec![
        (0x1234, 1, vec![]),
        (0xFFFF, 0xFFFF, vec![0xFF; 24]),
        (0, 0, vec![1, 2, 3]),
        (0xBEEF, 42, (0..=255).collect()),
    ];
    for (id, seq, payload) in cases {
        let m = encode_echo_request(id, seq, &payload);
        let embedded = u16::from_be_bytes([m[2], m[3]]);
        assert_eq!(checksum(&zeroed(&m)), embedded);
        // a correct checksum makes the whole message sum to zero
        assert_eq!(checksum(&m), 0);
    }
}

#[test]
fn encode_decode_round_trip() {
    let payload: Vec<u8> = (1..=24).collect();
    let m = encode_echo_request(0x4242, 7, &payload);
    match decode_icmp(&m) {
        Ok(IcmpMessage::EchoRequest { identifier, sequence, payload: p }) => {
            assert_eq!(identifier, 0x4242);
            assert_eq!(sequence, 7);
            assert_eq!(p, payload);
        }
        other => panic!("unexpected {:?}", other),
    }
}

#[test]
fn encode_decode_empty_payload() {
    let m = encode_echo_request(1, 2, &[]);
    assert_eq!(m.len(), 8);
    match decode_icmp(&m) {
        Ok(IcmpMessage::EchoRequest { identifier, sequence, payload }) => {
            assert_eq!((identifier, sequence), (1, 2));
            assert!(payload.is_empty());
        }
        other => panic!("unexpected {:?}", other),
    }
}

#[test]
fn header_length_robustness() {
    let payload = [9u8; 24];
    let mut buf = ip_header(8172);
    buf.extend_from_slice(&echo_reply_bytes(0x1234, 1, &payload));
    let (env, msg) = decode_reply(&buf).unwrap();
    assert_eq!(env.header_len, 20);
    assert_eq!(env.total_len, 8172);
    assert_eq!(env.payload_len(), 8152);
    assert_eq!(env.source, 0x0A00_0007);
    match msg {
        IcmpMessage::EchoReply { identifier, sequence, payload: p } => {
            assert_eq!((identifier, sequence), (0x1234, 1));
            assert_eq!(p, payload.to_vec());
        }
        other => panic!("unexpected {:?}", other),
    }
}

#[test]
fn header_with_options_is_skipped() {
    let mut buf = ip_header(0);
    buf[0] = 0x46;
    buf.extend_from_slice(&[0xAA, 0xBB, 0xCC, 0xDD]);
    buf.extend_from_slice(&echo_reply_bytes(5, 6, &[]));
    let (env, msg) = decode_reply(&buf).unwrap();
    assert_eq!(env.header_len, 24);
    assert_eq!(env.payload_len(), 0);
    assert!(matches!(
        msg,
        IcmpMessage::EchoReply { identifier: 5, sequence: 6, .. }
    ));
}

#[test]
fn truncated_ip_header() {
    assert_eq!(decode_reply(&[0x45, 0, 0]).unwrap_err(), DecodeError::MalformedIpHeader);
    assert_eq!(decode_reply(&[]).unwrap_err(), DecodeError::MalformedIpHeader);
}

#[test]
fn declared_header_longer_than_buffer() {
    let mut buf = ip_header(40);
    buf[0] = 0x4F;
    buf.extend_from_slice(&[0; 8]);
    assert_eq!(decode_reply(&buf).unwrap_err(), DecodeError::MalformedIpHeader);
}

#[test]
fn declared_header_below_minimum() {
    let mut buf = ip_header(40);
    buf[0] = 0x44;
    buf.extend_from_slice(&[0; 8]);
    assert_eq!(parse_ipv4_envelope(&buf), Err(DecodeError::MalformedIpHeader));
}

#[test]
fn truncated_icmp_header() {
    let mut buf = ip_header(23);
    buf.extend_from_slice(&[0, 0, 0]);
    assert_eq!(decode_reply(&buf).unwrap_err(), DecodeError::MalformedIcmpHeader);
}

#[test]
fn truncated_echo_reply() {
    let mut buf = ip_header(26);
    buf.extend_from_slice(&[0, 0, 0, 0, 0, 0]);
    assert_eq!(decode_reply(&buf).unwrap_err(), DecodeError::TruncatedEchoReply);
}

#[test]
fn envelope_fields() {
    let buf = ip_header(84);
    assert_eq!(
        parse_ipv4_envelope(&buf),
        Ok(Ipv4Envelope { header_len: 20, total_len: 84, source: 0x0A00_0007 })
    );
    assert_eq!(parse_ipv4_envelope(&buf).unwrap().payload_len(), 64);
}

fn reply_verdict(identifier: u16, sequence: u16) -> Correlation {
    let mut buf = ip_header(84);
    buf.extend_from_slice(&echo_reply_bytes(identifier, sequence, &[0; 24]));
    let (_, msg) = decode_reply(&buf).unwrap();
    correlate(&msg, 0x1234, 1)
}

#[test]
fn correlation_matched() {
    assert_eq!(reply_verdict(0x1234, 1), Correlation::Matched);
}

#[test]
fn correlation_identifier_mismatch() {
    assert_eq!(reply_verdict(0x5678, 1), Correlation::IdentifierMismatch);
}

#[test]
fn correlation_sequence_mismatch() {
    assert_eq!(reply_verdict(0x1234, 2), Correlation::SequenceMismatch);
}

#[test]
fn correlation_both_mismatch() {
    assert_eq!(reply_verdict(0x5678, 2), Correlation::BothMismatch);
}

#[test]
fn non_echo_type() {
    let mut buf = ip_header(28);
    buf.extend_from_slice(&[3, 1, 0xFC, 0xFE, 0, 0, 0, 0]);
    let (_, msg) = decode_reply(&buf).unwrap();
    assert!(matches!(msg, IcmpMessage::Other { icmp_type: 3, code: 1 }));
    assert_eq!(correlate(&msg, 0x1234, 1), Correlation::NotAReply);
}

#[test]
fn short_non_echo_type_is_not_an_error() {
    let msg = decode_icmp(&[11, 0, 0, 0]).unwrap();
    assert!(matches!(msg, IcmpMessage::Other { icmp_type: 11, code: 0 }));
}

#[test]
fn echo_request_is_not_a_reply() {
    let m = encode_echo_request(0x1234, 1, &[0; 24]);
    let msg = decode_icmp(&m).unwrap();
    assert_eq!(correlate(&msg, 0x1234, 1), Correlation::NotAReply);
}

#[test]
fn end_to_end_example() {
    let m = encode_echo_request(0xABCD, 1, &[0; 24]);
    assert_eq!(m.len(), 32);
    // 0x0800 + 0xABCD + 0x0001 = 0xB3CE, complemented 0x4C31
    assert_eq!(&m[..8], &[0x08, 0x00, 0x4C, 0x31, 0xAB, 0xCD, 0x00, 0x01]);
    assert!(m[8..].iter().all(|b| *b == 0));
    assert_eq!(checksum(&zeroed(&m)), 0x4C31);
}

#[test]
fn ping_request_carries_a_token() {
    let m = build_ping_request(0xABCD, 1);
    assert_eq!(m.len(), 8 + TOKEN_SIZE);
    assert_eq!(&m[..2], &[0x08, 0x00]);
    assert_eq!(&m[4..8], &[0xAB, 0xCD, 0x00, 0x01]);
    assert_eq!(checksum(&m), 0);
    assert_eq!(m, encode_echo_request(0xABCD, 1, &m[8..]));
}

#[test]
fn payload_comparison() {
    let token: Vec<u8> = (0..24).collect();
    let msg = decode_icmp(&echo_reply_bytes(1, 1, &token)).unwrap();
    assert!(payload_matches(&msg, &token));
    let mut other = token.clone();
    other[23] ^= 1;
    assert!(!payload_matches(&msg, &other));
    assert!(!payload_matches(&msg, &token[..23]));
    let request = decode_icmp(&encode_echo_request(1, 1, &token)).unwrap();
    assert!(!payload_matches(&request, &token));
}
