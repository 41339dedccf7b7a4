use bytes::BytesMut;
use framing::codec::{decode_frame, encode_frame, FrameError};
use framing::conn::{Conn, RecvStep};
use framing::payload::Payload;
use framing::text::{deserialize_text, serialize_text};
use framing::MAX_FRAME_SIZE;

fn encoded(text: &str) -> Vec<u8> {
    let p = Payload::new();
    let mut buf = BytesMut::new();
    p.encode(text, &mut buf).unwrap();
    buf[..].to_vec()
}

#[test]
fn concrete_scenario_hello() {
    // Serializing "hello" gives 9 bytes, so the framed output is 13 bytes
    // whose first four are the little-endian 9.
    let p = Payload::new();
    let mut buf = BytesMut::new();
    assert_eq!(p.encode("hello", &mut buf), Ok(()));
    assert_eq!(buf.len(), 13);
    assert_eq!(&buf[..4], &[0x09, 0x00, 0x00, 0x00]);

    let all = buf[..].to_vec();
    let r = p.decode(&mut buf);
    assert_eq!(r, Ok(Some("hello".to_string())));
    assert!(buf.is_empty());

    // Only the first 10 of the 13 bytes: no frame yet, nothing consumed.
    let mut partial = BytesMut::new();
    partial.extend_from_slice(&all[..10]);
    assert_eq!(p.decode(&mut partial), Ok(None));
    assert_eq!(partial.len(), 10);
}

#[test]
fn round_trip_empty_string() {
    let p = Payload::new();
    let mut buf = BytesMut::new();
    assert_eq!(p.encode("", &mut buf), Ok(()));
    assert_eq!(buf.len(), 8);
    assert_eq!(&buf[..4], &[0x04, 0x00, 0x00, 0x00]);
    assert_eq!(p.decode(&mut buf), Ok(Some(String::new())));
    assert!(buf.is_empty());
}

#[test]
fn round_trip_multibyte_text() {
    let p = Payload::new();
    let mut buf = BytesMut::new();
    let text = "sz\u{00e9}p nap \u{1F680}";
    assert_eq!(p.encode(text, &mut buf), Ok(()));
    assert_eq!(p.decode(&mut buf), Ok(Some(text.to_string())));
    assert!(buf.is_empty());
}

#[test]
fn chunked_one_byte_at_a_time() {
    let all = encoded("szevasz");
    let mut conn = Conn::new();
    for (i, byte) in all.iter().enumerate() {
        let step = conn.on_read(&[*byte]);
        if i + 1 < all.len() {
            assert!(matches!(step, RecvStep::NeedMore));
        } else {
            match step {
                RecvStep::Received(s) => assert_eq!(s, "szevasz"),
                _ => panic!("expected the frame on the last byte"),
            }
        }
    }
}

#[test]
fn chunked_matches_all_at_once() {
    let all = encoded("szevasz");
    let mut conn = Conn::new();
    match conn.on_read(&all) {
        RecvStep::Received(s) => assert_eq!(s, "szevasz"),
        _ => panic!("expected the frame from a whole-frame chunk"),
    }
}

#[test]
fn oversize_prefix_rejected_unread() {
    // A prefix declaring more than MAX_FRAME_SIZE is fatal at once, with
    // nothing consumed, whatever follows the prefix.
    let p = Payload::new();
    let mut buf = BytesMut::new();
    buf.extend_from_slice(&[0xFF, 0xFF, 0xFF, 0xFF, 0x01, 0x02]);
    assert_eq!(p.decode(&mut buf), Err(FrameError::Oversize));
    assert_eq!(buf.len(), 6);

    // The smallest oversize declaration is rejected too.
    let over = (MAX_FRAME_SIZE as u32) + 1;
    let mut buf = BytesMut::new();
    buf.extend_from_slice(&over.to_le_bytes());
    assert_eq!(p.decode(&mut buf), Err(FrameError::Oversize));
    assert_eq!(buf.len(), 4);
}

#[test]
fn boundary_length_is_not_oversize() {
    // A declared length of exactly MAX_FRAME_SIZE is admissible: with only
    // the prefix buffered the decoder asks for more instead of failing.
    let p = Payload::new();
    let mut buf = BytesMut::new();
    buf.extend_from_slice(&(MAX_FRAME_SIZE as u32).to_le_bytes());
    assert_eq!(p.decode(&mut buf), Ok(None));
    assert_eq!(buf.len(), 4);
}

#[test]
fn oversize_encode_rejected_whole() {
    let p = Payload::new();
    let mut buf = BytesMut::new();
    let too_long = "a".repeat(MAX_FRAME_SIZE - 3);
    assert_eq!(p.encode(&too_long, &mut buf), Err(FrameError::Oversize));
    assert!(buf.is_empty());

    let longest = "a".repeat(MAX_FRAME_SIZE - 4);
    assert_eq!(p.encode(&longest, &mut buf), Ok(()));
    assert_eq!(buf.len(), 4 + MAX_FRAME_SIZE);
    assert_eq!(p.decode(&mut buf), Ok(Some(longest)));
    assert!(buf.is_empty());
}

#[test]
fn exact_consumption_two_frames() {
    let p = Payload::new();
    let mut buf = BytesMut::new();
    p.encode("alpha", &mut buf).unwrap();
    let first_len = buf.len();
    p.encode("beta", &mut buf).unwrap();
    let second_len = buf.len() - first_len;

    assert_eq!(p.decode(&mut buf), Ok(Some("alpha".to_string())));
    assert_eq!(buf.len(), second_len);
    assert_eq!(p.decode(&mut buf), Ok(Some("beta".to_string())));
    assert!(buf.is_empty());
}

#[test]
fn malformed_inner_length() {
    // A complete frame whose payload declares the wrong inner length.
    let payload = vec![0x00, 0x00, 0x00, 0x00, b'x'];
    let mut buf = BytesMut::new();
    assert_eq!(encode_frame(&payload, &mut buf), Ok(()));
    let p = Payload::new();
    assert_eq!(p.decode(&mut buf), Err(FrameError::Malformed));
}

#[test]
fn malformed_utf8_payload() {
    let payload = vec![0x01, 0x00, 0x00, 0x00, 0xFF];
    let mut buf = BytesMut::new();
    assert_eq!(encode_frame(&payload, &mut buf), Ok(()));
    let p = Payload::new();
    assert_eq!(p.decode(&mut buf), Err(FrameError::Malformed));
}

#[test]
fn end_of_stream_vs_stall() {
    // A zero-byte read over an empty buffer is the peer's clean close.
    let mut conn = Conn::new();
    assert!(matches!(conn.on_read(&[]), RecvStep::EndOfStream));

    // A zero-byte read over a buffered partial frame is a stall, not an
    // end of stream.
    let all = encoded("hello");
    let mut conn = Conn::new();
    assert!(matches!(conn.on_read(&all[..3]), RecvStep::NeedMore));
    assert!(matches!(conn.on_read(&[]), RecvStep::NeedMore));
    match conn.on_read(&all[3..]) {
        RecvStep::Received(s) => assert_eq!(s, "hello"),
        _ => panic!("expected the frame once the rest arrived"),
    }
}

#[test]
fn oversize_is_fatal_through_conn() {
    let mut conn = Conn::new();
    match conn.on_read(&[0xFF, 0xFF, 0xFF, 0xFF]) {
        RecvStep::Failed(e) => assert_eq!(e, FrameError::Oversize),
        _ => panic!("expected the oversize failure"),
    }
}

#[test]
fn stage_and_receive_loopback() {
    let mut sender = Conn::new();
    assert_eq!(sender.stage("hi"), Ok(()));
    let staged = sender.staged_bytes();
    assert_eq!(staged.len(), 10);
    assert_eq!(&staged[..4], &[0x06, 0x00, 0x00, 0x00]);

    // A transport that accepts four bytes leaves the rest staged.
    sender.consume_staged(4);
    let rest = sender.staged_bytes();
    assert_eq!(rest, staged[4..].to_vec());
    sender.consume_staged(rest.len());
    assert!(sender.staged_bytes().is_empty());

    let mut receiver = Conn::new();
    match receiver.on_read(&staged) {
        RecvStep::Received(s) => assert_eq!(s, "hi"),
        _ => panic!("expected the staged frame back"),
    }
}

#[test]
fn frame_then_partial_leftover() {
    let first = encoded("one");
    let second = encoded("two");
    let mut chunk = first.clone();
    chunk.extend_from_slice(&second[..2]);

    let mut conn = Conn::new();
    match conn.on_read(&chunk) {
        RecvStep::Received(s) => assert_eq!(s, "one"),
        _ => panic!("expected the first frame"),
    }
    assert!(matches!(conn.on_read(&[]), RecvStep::NeedMore));
    match conn.on_read(&second[2..]) {
        RecvStep::Received(s) => assert_eq!(s, "two"),
        _ => panic!("expected the second frame"),
    }
}

#[test]
fn serializer_alone_round_trips() {
    let bytes = serialize_text("szevasz").unwrap();
    assert_eq!(bytes.len(), 11);
    assert_eq!(&bytes[..4], &[0x07, 0x00, 0x00, 0x00]);
    assert_eq!(deserialize_text(&bytes), Ok("szevasz".to_string()));

    // Raw text with no inner prefix is not a serialized value.
    assert_eq!(
        deserialize_text(&b"hello".to_vec()),
        Err(FrameError::Malformed)
    );
}

#[test]
fn decode_frame_returns_payload_bytes() {
    let payload = vec![0x10, 0x20, 0x30];
    let mut buf = BytesMut::new();
    assert_eq!(encode_frame(&payload, &mut buf), Ok(()));
    assert_eq!(&buf[..4], &[0x03, 0x00, 0x00, 0x00]);
    assert_eq!(decode_frame(&mut buf), Ok(Some(payload)));
    assert!(buf.is_empty());
}
