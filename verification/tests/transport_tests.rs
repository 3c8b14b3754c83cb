use typewriter::command::{Command, Control, Direction, Move};
use typewriter::error::TypewriterError;
use typewriter::transport::{decode_packet, encode_command_bytes, find_reply, split_header};

#[test]
fn header_split() {
    assert_eq!(split_header(0x83), (true, 3));
    assert_eq!(split_header(0x03), (false, 3));
    assert_eq!(split_header(0x80), (true, 0));
    assert_eq!(split_header(0x00), (false, 0));
    assert_eq!(split_header(0xFF), (true, 127));
    assert_eq!(split_header(0x7F), (false, 127));
}

#[test]
fn command_bytes_are_big_endian() {
    let mv = Command::Move(Move::new(3, Direction::Right).unwrap());
    assert_eq!(encode_command_bytes(&mv), vec![0xC0, 0x03]);
    let ctl = Command::Control(Control::Enq);
    assert_eq!(encode_command_bytes(&ctl), vec![0xA4, 0x00]);
}

#[test]
fn packet_decoding() {
    // reply flag set, two payload bytes, one byte left over
    let buf = vec![0x82, 1, 2, 5];
    let (p, next) = decode_packet(&buf, 0).unwrap();
    assert!(p.is_reply);
    assert_eq!(p.data, vec![1, 2]);
    assert_eq!(next, 3);
    // the leftover byte is a new header: no reply flag, length 5, but the
    // buffer is exhausted — a tolerant, truncated read
    let (p2, next2) = decode_packet(&buf, next).unwrap();
    assert!(!p2.is_reply);
    assert_eq!(p2.data, Vec::<u8>::new());
    assert_eq!(next2, 4);
    assert!(decode_packet(&buf, 4).is_none());
}

#[test]
fn packet_roundtrip() {
    // a header announcing 5 payload bytes, reply flag set
    let header: u8 = 0x85;
    let payload = [10u8, 20, 30, 40, 50];
    let mut buf = vec![header];
    buf.extend_from_slice(&payload);
    let (p, next) = decode_packet(&buf, 0).unwrap();
    assert_eq!(p.is_reply, header & 0x80 != 0);
    assert_eq!(p.data, payload.to_vec());
    assert_eq!(next, buf.len());
}

#[test]
fn truncated_payload_is_tolerated() {
    let buf = vec![0x05, 1, 2];
    let (p, next) = decode_packet(&buf, 0).unwrap();
    assert!(!p.is_reply);
    assert_eq!(p.data, vec![1, 2]);
    assert_eq!(next, 3);
}

#[test]
fn find_reply_skips_non_reply_packets() {
    // one non-reply packet of two bytes, then a reply packet of one byte
    let buf = vec![0x02, 9, 9, 0x81, 7];
    let (payload, next) = find_reply(&buf, 0).unwrap();
    assert_eq!(payload, vec![7]);
    assert_eq!(next, 5);
}

#[test]
fn find_reply_exhausted_is_protocol_violation() {
    assert_eq!(
        find_reply(&Vec::new(), 0),
        Err(TypewriterError::ProtocolViolation)
    );
    // only non-reply packets
    let buf = vec![0x01, 9, 0x00];
    assert_eq!(find_reply(&buf, 0), Err(TypewriterError::ProtocolViolation));
}
