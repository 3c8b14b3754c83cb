//! Reply-packet framing on the duplex byte stream.
//!
//! Commands go out as one 16-bit word, written big-endian.  The device
//! answers in framed packets: one header byte whose top bit is the reply
//! flag and whose low 7 bits give the payload length, followed by that
//! many payload bytes.  A short stream yields a truncated payload rather
//! than an error — the read is deliberately tolerant — but a stream that
//! ends before a reply-flagged packet arrives is a protocol violation.
//!
//! Everything here is pure: it states what a buffer of received bytes
//! means.  The program around the library feeds it the bytes it read and
//! writes the bytes it produces.

use vstd::prelude::*;

use crate::command::Command;
use crate::error::TypewriterError;

verus! {

/// One framed unit read from the stream.
#[derive(Debug, PartialEq, Eq)]
pub struct Packet {
    /// Set when the packet answers a previously sent command.
    pub is_reply: bool,
    /// The raw payload bytes.
    pub data: Vec<u8>,
}

/// The reply flag of a header byte: its top bit.
pub open spec fn spec_is_reply(header: u8) -> bool {
    header & 0x80 != 0
}

/// The payload length a header byte announces: its low 7 bits.
pub open spec fn spec_payload_len(header: u8) -> u8 {
    header & 0x7F
}

/// Splits a header byte into its reply flag and its payload length.
pub fn split_header(header: u8) -> (r: (bool, u8))
    ensures
        r.0 == spec_is_reply(header),
        r.1 == spec_payload_len(header),
        r.1 < 128,
{
    proof {
        assert(header & 0x7F < 128) by (bit_vector);
    }
    ((header & 0x80) != 0, header & 0x7F)
}

/// The two big-endian bytes of a 16-bit wire word.
pub open spec fn spec_be_bytes(word: u16) -> Seq<u8> {
    seq![(word >> 8) as u8, (word & 0xFF) as u8]
}

/// The bytes that carry one command on the wire: its word, big-endian.
pub fn encode_command_bytes(command: &Command) -> (r: Vec<u8>)
    ensures
        r@ == spec_be_bytes(command.spec_encode()),
{
    let word = command.encode();
    proof {
        assert(word >> 8 < 256 && word & 0xFF < 256) by (bit_vector);
    }
    let r = vec![(word >> 8) as u8, (word & 0xFF) as u8];
    proof {
        assert(r@ =~= spec_be_bytes(command.spec_encode()));
    }
    r
}

/// What decoding one packet at `start` yields: the reply flag, the
/// payload, and the index of the first byte after the packet.
///
/// `None` when the buffer is exhausted before a header byte.  A payload
/// that the buffer cuts short is returned truncated, mirroring the
/// tolerant read of the stream.
pub open spec fn spec_decode_packet(buf: Seq<u8>, start: int) -> Option<(bool, Seq<u8>, int)> {
    if !(0 <= start < buf.len()) {
        None
    } else {
        let header = buf[start];
        let want = start + 1 + spec_payload_len(header);
        let end = if want <= buf.len() {
            want
        } else {
            buf.len() as int
        };
        Some((spec_is_reply(header), buf.subrange(start + 1, end), end))
    }
}

/// Decodes one packet from `buf` at `start`, returning it together with
/// the index of the first byte after it; `None` when `start` is past the
/// end of the buffer.
pub fn decode_packet(buf: &Vec<u8>, start: usize) -> (r: Option<(Packet, usize)>)
    ensures
        match r {
            Some((packet, next)) => {
                &&& spec_decode_packet(buf@, start as int) matches Some((flag, data, end))
                &&& packet.is_reply == flag
                &&& packet.data@ == data
                &&& next == end
            },
            None => spec_decode_packet(buf@, start as int) is None,
        },
{
    if start >= buf.len() {
        return None;
    }
    let (is_reply, len) = split_header(buf[start]);
    let body = start + 1;
    let avail = buf.len() - body;
    let take: usize = if (len as usize) <= avail {
        len as usize
    } else {
        avail
    };
    let mut data: Vec<u8> = Vec::new();
    let mut k: usize = 0;
    while k < take
        invariant
            k <= take,
            body + take <= buf@.len(),
            buf@.len() <= usize::MAX,
            data@ =~= buf@.subrange(body as int, body + k as int),
        decreases take - k,
    {
        data.push(buf[body + k]);
        proof {
            assert(data@ =~= buf@.subrange(body as int, body + k + 1 as int));
        }
        k = k + 1;
    }
    proof {
        let ghost decoded = spec_decode_packet(buf@, start as int);
        assert(decoded matches Some((flag, spec_data, end)) && data@ =~= spec_data && body + take
            == end);
    }
    Some((Packet { is_reply, data }, body + take))
}

/// What scanning for the next reply packet yields: the payload of the
/// first reply-flagged packet at or after `start`, with the index that
/// follows it.  Packets without the reply flag are discarded; a buffer
/// that is exhausted first is a protocol violation.
pub open spec fn spec_find_reply(buf: Seq<u8>, start: int) -> Result<
    (Seq<u8>, int),
    TypewriterError,
>
    decreases buf.len() - start when 0 <= start
{
    match spec_decode_packet(buf, start) {
        None => Err(TypewriterError::ProtocolViolation),
        Some((flag, data, end)) => if flag {
            Ok((data, end))
        } else {
            spec_find_reply(buf, end)
        },
    }
}

/// Scans `buf` from `start` for the first reply-flagged packet and
/// returns its payload with the index that follows it, discarding the
/// non-reply packets before it.  Fails with `ProtocolViolation` when the
/// buffer is exhausted first.
pub fn find_reply(buf: &Vec<u8>, start: usize) -> (r: Result<(Vec<u8>, usize), TypewriterError>)
    ensures
        match r {
            Ok((payload, next)) => spec_find_reply(buf@, start as int) matches Ok((data, end))
                && payload@ == data && next == end,
            Err(e) => spec_find_reply(buf@, start as int) == Err::<
                (Seq<u8>, int),
                TypewriterError,
            >(e),
        },
{
    let mut pos = start;
    loop
        invariant
            spec_find_reply(buf@, start as int) == spec_find_reply(buf@, pos as int),
        decreases buf@.len() - pos,
    {
        match decode_packet(buf, pos) {
            None => {
                return Err(TypewriterError::ProtocolViolation);
            },
            Some((packet, next)) => {
                if packet.is_reply {
                    return Ok((packet.data, next));
                }
                proof {
                    assert(next > pos);
                }
                pos = next;
            },
        }
    }
}

/// Framing round-trip: a header byte followed by exactly the payload it
/// announces decodes to the header's reply flag, that exact payload, and
/// the end of the buffer.
pub proof fn lemma_packet_roundtrip(header: u8, payload: Seq<u8>)
    requires
        payload.len() == spec_payload_len(header),
    ensures
        spec_decode_packet(seq![header] + payload, 0) == Some(
            (spec_is_reply(header), payload, 1 + payload.len() as int),
        ),
{
    let buf = seq![header] + payload;
    assert(buf[0] == header);
    assert(buf.len() == 1 + payload.len());
    assert(buf.subrange(1, buf.len() as int) =~= payload);
}

} // verus!
