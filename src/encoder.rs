//! Building an ICMP Echo Request.
use vstd::prelude::*;

use crate::checksum::internet_checksum;

verus! {

/// ICMP type of an Echo Request.
pub const TYPE_ECHO_REQUEST: u8 = 8;

/// ICMP type of an Echo Reply.
pub const TYPE_ECHO_REPLY: u8 = 0;

/// Length of the fixed part of an echo message: type, code, checksum,
/// identifier and sequence number.
pub const ECHO_HEADER_LEN: usize = 8;

/// Length of the random token that a request carries as its payload.
pub const TOKEN_SIZE: usize = 24;

/// The high byte of `v`.
pub open spec fn hi_byte(v: u16) -> u8 {
    (v / 256) as u8
}

/// The low byte of `v`.
pub open spec fn lo_byte(v: u16) -> u8 {
    (v % 256) as u8
}

/// The big-endian 16-bit value at `s[i]`, `s[i + 1]`.
pub open spec fn be_u16_at(s: Seq<u8>, i: int) -> u16 {
    (s[i] as nat * 256 + s[i + 1] as nat) as u16
}

/// An echo message on the wire, with every field given.
pub open spec fn echo_message(
    icmp_type: u8,
    code: u8,
    checksum: u16,
    identifier: u16,
    sequence: u16,
    payload: Seq<u8>,
) -> Seq<u8> {
    seq![
        icmp_type,
        code,
        hi_byte(checksum),
        lo_byte(checksum),
        hi_byte(identifier),
        lo_byte(identifier),
        hi_byte(sequence),
        lo_byte(sequence),
    ] + payload
}

/// The Echo Request for `identifier`, `sequence` and `payload`: its checksum is
/// that of the same message with the checksum field zero.
pub open spec fn echo_request(identifier: u16, sequence: u16, payload: Seq<u8>) -> Seq<u8> {
    echo_message(
        TYPE_ECHO_REQUEST,
        0,
        internet_checksum(echo_message(TYPE_ECHO_REQUEST, 0, 0, identifier, sequence, payload)),
        identifier,
        sequence,
        payload,
    )
}

/// The checksum field of an encoded message.
pub open spec fn embedded_checksum(m: Seq<u8>) -> u16 {
    be_u16_at(m, 2)
}

/// An encoded message with its checksum field set to zero.
pub open spec fn with_checksum_zeroed(m: Seq<u8>) -> Seq<u8> {
    m.update(2, 0u8).update(3, 0u8)
}

/// The checksum carried by an encoded Echo Request is the Internet checksum
/// of the encoded bytes themselves with the checksum field zeroed.
pub proof fn lemma_checksum_round_trip(identifier: u16, sequence: u16, payload: Seq<u8>)
    ensures
        embedded_checksum(echo_request(identifier, sequence, payload)) == internet_checksum(
            with_checksum_zeroed(echo_request(identifier, sequence, payload)),
        ),
{
    let m = echo_request(identifier, sequence, payload);
    let z = echo_message(TYPE_ECHO_REQUEST, 0, 0, identifier, sequence, payload);
    assert(with_checksum_zeroed(m) =~= z);
}

/// Relies on etherparse's `Icmpv4Header::with_checksum`, which computes the
/// Internet checksum over the echo header (checksum field zero) and `payload`,
/// and on `Icmpv4Header::to_bytes`, which lays the header out in its eight
/// wire bytes.
#[verifier::external_body]
fn echo_request_header(identifier: u16, sequence: u16, payload: &[u8]) -> (r: Vec<u8>)
    ensures
        r@ == echo_request(identifier, sequence, payload@).subrange(0, 8),
{
    let echo = etherparse::IcmpEchoHeader { id: identifier, seq: sequence };
    let icmp_type = etherparse::Icmpv4Type::EchoRequest(echo);
    etherparse::Icmpv4Header::with_checksum(icmp_type, payload).to_bytes().to_vec()
}

/// Relies on `rand::random` for an array of `TOKEN_SIZE` bytes.
#[verifier::external_body]
fn random_token() -> (r: Vec<u8>)
    ensures
        r@.len() == TOKEN_SIZE,
{
    rand::random::<[u8; TOKEN_SIZE]>().to_vec()
}

/// Encodes an Echo Request carrying `payload`.
pub fn encode_echo_request(identifier: u16, sequence: u16, payload: &[u8]) -> (r: Vec<u8>)
    ensures
        r@ == echo_request(identifier, sequence, payload@),
{
    let mut out = echo_request_header(identifier, sequence, payload);
    let ghost full = echo_request(identifier, sequence, payload@);
    let mut i: usize = 0;
    while i < payload.len()
        invariant
            i <= payload@.len(),
            full == echo_request(identifier, sequence, payload@),
            out@ == full.subrange(0, 8 + i),
        decreases payload@.len() - i,
    {
        out.push(payload[i]);
        i = i + 1;
        assert(out@ =~= full.subrange(0, 8 + i));
    }
    assert(out@ =~= full);
    out
}

/// Builds an Echo Request whose payload is a fresh random token of
/// `TOKEN_SIZE` bytes; the token is the part after the eight header bytes.
pub fn build_ping_request(id: u16, seq: u16) -> (r: Vec<u8>)
    ensures
        r@.len() == ECHO_HEADER_LEN + TOKEN_SIZE,
        r@ == echo_request(id, seq, r@.subrange(ECHO_HEADER_LEN as int, r@.len() as int)),
{
    let payload = random_token();
    let r = encode_echo_request(id, seq, payload.as_slice());
    assert(r@.subrange(8, r@.len() as int) =~= payload@);
    r
}

} // verus!
