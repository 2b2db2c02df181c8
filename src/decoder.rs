//! Parsing a received datagram: the IPv4 header, then the ICMP message after
//! it, then the verdict against the request that was sent.
use vstd::prelude::*;

use crate::encoder::{be_u16_at, echo_request, ECHO_HEADER_LEN, TYPE_ECHO_REPLY, TYPE_ECHO_REQUEST};

verus! {

/// Length of an IPv4 header without options.
pub const MIN_IPV4_HEADER_LEN: usize = 20;

/// Length of the part that every ICMP message has: type, code, checksum.
pub const MIN_ICMP_HEADER_LEN: usize = 4;

/// Why a received buffer could not be parsed.
#[derive(Clone, Copy, Debug, PartialEq, Eq, Structural)]
pub enum DecodeError {
    /// Too short for an IPv4 header, or its declared length is below the
    /// minimum or beyond the buffer.
    MalformedIpHeader,
    /// Fewer than four bytes after the IPv4 header.
    MalformedIcmpHeader,
    /// An echo message shorter than its eight-byte header.
    TruncatedEchoReply,
}

/// The outer IPv4 header of a received datagram.
#[derive(Clone, Copy, Debug, PartialEq, Eq, Structural)]
pub struct Ipv4Envelope {
    /// Header length in bytes, from the low nibble of the first byte.
    pub header_len: u8,
    /// The total length field, as reported (not trusted to locate anything).
    pub total_len: u16,
    /// Source address, big-endian.
    pub source: u32,
}

/// A parsed ICMP message.
#[derive(Debug)]
pub enum IcmpMessage {
    EchoRequest { identifier: u16, sequence: u16, payload: Vec<u8> },
    EchoReply { identifier: u16, sequence: u16, payload: Vec<u8> },
    /// Any other message, with its raw type and code.
    Other { icmp_type: u8, code: u8 },
}

/// What an `IcmpMessage` holds, with the payload as a sequence.
pub enum IcmpView {
    EchoRequest { identifier: u16, sequence: u16, payload: Seq<u8> },
    EchoReply { identifier: u16, sequence: u16, payload: Seq<u8> },
    Other { icmp_type: u8, code: u8 },
}

impl View for IcmpMessage {
    type V = IcmpView;

    open spec fn view(&self) -> IcmpView {
        match self {
            IcmpMessage::EchoRequest { identifier, sequence, payload } => IcmpView::EchoRequest {
                identifier: *identifier,
                sequence: *sequence,
                payload: payload@,
            },
            IcmpMessage::EchoReply { identifier, sequence, payload } => IcmpView::EchoReply {
                identifier: *identifier,
                sequence: *sequence,
                payload: payload@,
            },
            IcmpMessage::Other { icmp_type, code } => IcmpView::Other {
                icmp_type: *icmp_type,
                code: *code,
            },
        }
    }
}

/// The verdict on a received message against the expected identifier and
/// sequence number.
#[derive(Clone, Copy, Debug, PartialEq, Eq, Structural)]
pub enum Correlation {
    Matched,
    IdentifierMismatch,
    SequenceMismatch,
    BothMismatch,
    /// Not an Echo Reply: nothing was compared.
    NotAReply,
}

/// The header length that the first byte of `b` declares, in bytes.
pub open spec fn declared_header_len(b: Seq<u8>) -> nat {
    ((b[0] % 16) * 4) as nat
}

/// The big-endian 32-bit value at `b[i..i + 4]`.
pub open spec fn be_u32_at(b: Seq<u8>, i: int) -> u32 {
    (b[i] as nat * 16777216 + b[i + 1] as nat * 65536 + b[i + 2] as nat * 256
        + b[i + 3] as nat) as u32
}

/// The IPv4 header at the start of `b`, or why there is none.
pub open spec fn envelope_of(b: Seq<u8>) -> Result<Ipv4Envelope, DecodeError> {
    if b.len() < MIN_IPV4_HEADER_LEN || declared_header_len(b) < MIN_IPV4_HEADER_LEN
        || declared_header_len(b) > b.len() {
        Err(DecodeError::MalformedIpHeader)
    } else {
        Ok(
            Ipv4Envelope {
                header_len: declared_header_len(b) as u8,
                total_len: be_u16_at(b, 2),
                source: be_u32_at(b, 12),
            },
        )
    }
}

/// The ICMP message that `b` holds from its first byte, or why there is none.
pub open spec fn icmp_of(b: Seq<u8>) -> Result<IcmpView, DecodeError> {
    if b.len() < MIN_ICMP_HEADER_LEN {
        Err(DecodeError::MalformedIcmpHeader)
    } else if b[0] == TYPE_ECHO_REPLY || b[0] == TYPE_ECHO_REQUEST {
        if b.len() < ECHO_HEADER_LEN {
            Err(DecodeError::TruncatedEchoReply)
        } else {
            let identifier = be_u16_at(b, 4);
            let sequence = be_u16_at(b, 6);
            let payload = b.subrange(ECHO_HEADER_LEN as int, b.len() as int);
            if b[0] == TYPE_ECHO_REPLY {
                Ok(IcmpView::EchoReply { identifier, sequence, payload })
            } else {
                Ok(IcmpView::EchoRequest { identifier, sequence, payload })
            }
        }
    } else {
        Ok(IcmpView::Other { icmp_type: b[0], code: b[1] })
    }
}

/// The verdict on `m` against `identifier` and `sequence`.
pub open spec fn correlation_of(m: IcmpView, identifier: u16, sequence: u16) -> Correlation {
    match m {
        IcmpView::EchoReply { identifier: i, sequence: s, .. } => {
            if i == identifier && s == sequence {
                Correlation::Matched
            } else if s == sequence {
                Correlation::IdentifierMismatch
            } else if i == identifier {
                Correlation::SequenceMismatch
            } else {
                Correlation::BothMismatch
            }
        },
        _ => Correlation::NotAReply,
    }
}

/// The ICMP message after the IPv4 header of `b`, or why there is none.
pub open spec fn message_of(b: Seq<u8>) -> Result<IcmpView, DecodeError> {
    match envelope_of(b) {
        Err(e) => Err(e),
        Ok(env) => icmp_of(b.subrange(env.header_len as int, b.len() as int)),
    }
}

/// Whether `r` is what `icmp_of` gives on `b`.
pub open spec fn icmp_result_is(r: Result<IcmpMessage, DecodeError>, b: Seq<u8>) -> bool {
    match r {
        Ok(m) => icmp_of(b) == Ok::<IcmpView, DecodeError>(m@),
        Err(e) => icmp_of(b) == Err::<IcmpView, DecodeError>(e),
    }
}

/// Whether `r` is what `envelope_of` and `message_of` give on `b`.
pub open spec fn reply_result_is(r: Result<(Ipv4Envelope, IcmpMessage), DecodeError>, b: Seq<u8>) -> bool {
    match r {
        Ok((env, m)) => envelope_of(b) == Ok::<Ipv4Envelope, DecodeError>(env) && message_of(b)
            == Ok::<IcmpView, DecodeError>(m@),
        Err(e) => message_of(b) == Err::<IcmpView, DecodeError>(e),
    }
}

/// Reads the big-endian 16-bit value at `b[i]`, `b[i + 1]`.
fn read_be_u16(b: &[u8], i: usize) -> (r: u16)
    requires
        i + 1 < b@.len(),
    ensures
        r == be_u16_at(b@, i as int),
{
    (b[i] as u16) * 256 + b[i + 1] as u16
}

/// Parses the IPv4 header at the start of `buf`, locating its end by the
/// header length field alone.
pub fn parse_ipv4_envelope(buf: &[u8]) -> (r: Result<Ipv4Envelope, DecodeError>)
    ensures
        r == envelope_of(buf@),
{
    if buf.len() < MIN_IPV4_HEADER_LEN {
        return Err(DecodeError::MalformedIpHeader);
    }
    let header_len: u8 = (buf[0] % 16) * 4;
    if (header_len as usize) < MIN_IPV4_HEADER_LEN || header_len as usize > buf.len() {
        return Err(DecodeError::MalformedIpHeader);
    }
    let source: u32 = (buf[12] as u32) * 16777216 + (buf[13] as u32) * 65536 + (buf[14] as u32)
        * 256 + buf[15] as u32;
    Ok(Ipv4Envelope { header_len, total_len: read_be_u16(buf, 2), source })
}

/// Parses the ICMP message that starts at `buf[start]`.
fn decode_icmp_at(buf: &[u8], start: usize) -> (r: Result<IcmpMessage, DecodeError>)
    requires
        start <= buf@.len(),
    ensures
        icmp_result_is(r, buf@.subrange(start as int, buf@.len() as int)),
{
    let ghost b = buf@.subrange(start as int, buf@.len() as int);
    let len = buf.len() - start;
    if len < MIN_ICMP_HEADER_LEN {
        return Err(DecodeError::MalformedIcmpHeader);
    }
    let icmp_type = buf[start];
    let code = buf[start + 1];
    if icmp_type != TYPE_ECHO_REPLY && icmp_type != TYPE_ECHO_REQUEST {
        return Ok(IcmpMessage::Other { icmp_type, code });
    }
    if len < ECHO_HEADER_LEN {
        return Err(DecodeError::TruncatedEchoReply);
    }
    let identifier = read_be_u16(buf, start + 4);
    let sequence = read_be_u16(buf, start + 6);
    let mut payload: Vec<u8> = Vec::new();
    let mut i: usize = start + ECHO_HEADER_LEN;
    while i < buf.len()
        invariant
            start + ECHO_HEADER_LEN <= i <= buf@.len(),
            payload@ == buf@.subrange(start + ECHO_HEADER_LEN, i as int),
        decreases buf@.len() - i,
    {
        payload.push(buf[i]);
        i = i + 1;
        assert(payload@ =~= buf@.subrange(start + ECHO_HEADER_LEN, i as int));
    }
    assert(payload@ =~= b.subrange(ECHO_HEADER_LEN as int, b.len() as int));
    if icmp_type == TYPE_ECHO_REPLY {
        Ok(IcmpMessage::EchoReply { identifier, sequence, payload })
    } else {
        Ok(IcmpMessage::EchoRequest { identifier, sequence, payload })
    }
}

/// Parses `buf` as an ICMP message with no IP header in front.
pub fn decode_icmp(buf: &[u8]) -> (r: Result<IcmpMessage, DecodeError>)
    ensures
        icmp_result_is(r, buf@),
{
    let r = decode_icmp_at(buf, 0);
    assert(buf@.subrange(0, buf@.len() as int) =~= buf@);
    r
}

/// Parses a datagram that starts with an IPv4 header: the ICMP message
/// begins where the header's own length field says the header ends, whatever
/// the total length field claims.
pub fn decode_reply(buf: &[u8]) -> (r: Result<(Ipv4Envelope, IcmpMessage), DecodeError>)
    ensures
        reply_result_is(r, buf@),
{
    match parse_ipv4_envelope(buf) {
        Err(e) => Err(e),
        Ok(env) => match decode_icmp_at(buf, env.header_len as usize) {
            Err(e) => Err(e),
            Ok(m) => Ok((env, m)),
        },
    }
}

/// Compares a received message with the identifier and sequence number of the
/// request; only an Echo Reply is compared.
pub fn correlate(msg: &IcmpMessage, identifier: u16, sequence: u16) -> (r: Correlation)
    ensures
        r == correlation_of(msg@, identifier, sequence),
{
    match msg {
        IcmpMessage::EchoReply { identifier: i, sequence: s, .. } => {
            if *i == identifier && *s == sequence {
                Correlation::Matched
            } else if *s == sequence {
                Correlation::IdentifierMismatch
            } else if *i == identifier {
                Correlation::SequenceMismatch
            } else {
                Correlation::BothMismatch
            }
        },
        _ => Correlation::NotAReply,
    }
}

/// Whether `msg` is an Echo Reply whose payload is exactly `token`.
pub fn payload_matches(msg: &IcmpMessage, token: &[u8]) -> (r: bool)
    ensures
        r == (msg@ is EchoReply && msg@->EchoReply_payload == token@),
{
    match msg {
        IcmpMessage::EchoReply { payload, .. } => {
            if payload.len() != token.len() {
                assert(payload@.len() != token@.len());
                return false;
            }
            let mut i: usize = 0;
            while i < token.len()
                invariant
                    msg@ is EchoReply,
                    msg@->EchoReply_payload == payload@,
                    payload@.len() == token@.len(),
                    i <= token@.len(),
                    payload@.subrange(0, i as int) == token@.subrange(0, i as int),
                decreases token@.len() - i,
            {
                if payload[i] != token[i] {
                    assert(payload@[i as int] != token@[i as int]);
                    return false;
                }
                assert(payload@.subrange(0, i + 1) =~= token@.subrange(0, i + 1));
                i = i + 1;
            }
            assert(payload@ =~= payload@.subrange(0, i as int));
            assert(token@ =~= token@.subrange(0, i as int));
            true
        },
        _ => false,
    }
}

impl Ipv4Envelope {
    /// The payload length that the header reports: total length less header
    /// length, or zero where the total is the smaller.
    pub fn payload_len(&self) -> (r: u16)
        ensures
            r == (if self.total_len >= self.header_len as u16 {
                self.total_len - self.header_len as u16
            } else {
                0
            }),
    {
        if self.total_len >= self.header_len as u16 {
            self.total_len - self.header_len as u16
        } else {
            0
        }
    }
}

/// Decoding the bytes of an encoded Echo Request, with no IP header in front,
/// gives back its identifier, sequence number and payload.
pub proof fn lemma_encode_decode(identifier: u16, sequence: u16, payload: Seq<u8>)
    ensures
        icmp_of(echo_request(identifier, sequence, payload)) == Ok::<IcmpView, DecodeError>(
            IcmpView::EchoRequest { identifier, sequence, payload },
        ),
{
    let m = echo_request(identifier, sequence, payload);
    assert(m.subrange(ECHO_HEADER_LEN as int, m.len() as int) =~= payload);
}

/// Whatever the total length field of an IPv4 header holds, a first byte of
/// `0x45` puts the ICMP message at byte 20.
pub proof fn lemma_header_length_cut(b: Seq<u8>, total_hi: u8, total_lo: u8)
    requires
        b.len() >= MIN_IPV4_HEADER_LEN,
        b[0] == 0x45,
    ensures
        ({
            let t = b.update(2, total_hi).update(3, total_lo);
            &&& envelope_of(t) is Ok
            &&& envelope_of(t)->Ok_0.header_len == 20
            &&& envelope_of(t)->Ok_0.total_len == total_hi as nat * 256 + total_lo as nat
            &&& message_of(t) == icmp_of(b.subrange(20, b.len() as int))
        }),
{
    let t = b.update(2, total_hi).update(3, total_lo);
    assert(t.subrange(20, t.len() as int) =~= b.subrange(20, b.len() as int));
}

/// A message whose type is neither Echo Reply nor Echo Request decodes, with
/// no error, as such a message with its type and code, and is not compared
/// against any identifier or sequence number.
pub proof fn lemma_non_echo_not_reply(b: Seq<u8>, identifier: u16, sequence: u16)
    requires
        b.len() >= MIN_ICMP_HEADER_LEN,
        b[0] != TYPE_ECHO_REPLY,
        b[0] != TYPE_ECHO_REQUEST,
    ensures
        icmp_of(b) == Ok::<IcmpView, DecodeError>(IcmpView::Other { icmp_type: b[0], code: b[1] }),
        correlation_of(icmp_of(b)->Ok_0, identifier, sequence) == Correlation::NotAReply,
{
}

} // verus!
