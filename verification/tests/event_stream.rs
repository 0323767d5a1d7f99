use kiro::event_stream::{
    crc32c, decode_frame, parse_headers, read_i16, read_i32, read_i64, read_string, read_u16, read_u8,
    AwsEventStreamParser, Cursor, EventStreamError, Frame,
};

fn header_string(name: &str, value: &str) -> Vec<u8> {
    let mut h = vec![name.len() as u8];
    h.extend_from_slice(name.as_bytes());
    h.push(7);
    h.extend_from_slice(&(value.len() as u16).to_be_bytes());
    h.extend_from_slice(value.as_bytes());
    h
}

fn frame(headers: &[u8], payload: &[u8]) -> Vec<u8> {
    let total = (16 + headers.len() + payload.len()) as u32;
    let mut f = Vec::new();
    f.extend_from_slice(&total.to_be_bytes());
    f.extend_from_slice(&(headers.len() as u32).to_be_bytes());
    let prelude_crc = crc32c(&f[0..8]);
    f.extend_from_slice(&prelude_crc.to_be_bytes());
    f.extend_from_slice(headers);
    f.extend_from_slice(payload);
    let message_crc = crc32c(&f);
    f.extend_from_slice(&message_crc.to_be_bytes());
    f
}

fn event_frame(event_type: &str, payload: &str) -> Vec<u8> {
    let mut h = header_string(":message-type", "event");
    h.extend(header_string(":event-type", event_type));
    h.extend(header_string(":content-type", "application/json"));
    frame(&h, payload.as_bytes())
}

#[test]
fn crc32c_check_value() {
    assert_eq!(crc32c(b"123456789"), 0xE306_9283);
    assert_eq!(crc32c(b""), 0);
}

#[test]
fn decodes_one_event() {
    let f = event_frame("assistantResponseEvent", "{\"content\":\"hi\"}");
    let mut p = AwsEventStreamParser::new();
    let events = p.feed(&f);
    assert_eq!(events.len(), 1);
    let e = events[0].as_ref().unwrap();
    assert_eq!(e.message_type, "event");
    assert_eq!(e.event_type.as_deref(), Some("assistantResponseEvent"));
    assert_eq!(e.content_type.as_deref(), Some("application/json"));
    assert_eq!(e.exception_type, None);
    assert_eq!(e.payload, b"{\"content\":\"hi\"}".to_vec());
    assert!(e.is_event());
    assert!(!e.is_exception());
}

#[test]
fn chunking_does_not_change_events() {
    let mut stream = event_frame("assistantResponseEvent", "{\"content\":\"a\"}");
    stream.extend(event_frame("messageMetadataEvent", "{}"));
    stream.extend(event_frame("assistantResponseEvent", "{\"content\":\"b\"}"));
    let mut whole = AwsEventStreamParser::new();
    let all: Vec<_> = whole.feed(&stream).into_iter().map(|r| r.unwrap().payload).collect();
    assert_eq!(all.len(), 3);
    let mut bytewise = AwsEventStreamParser::new();
    let mut pieces = Vec::new();
    for b in &stream {
        for r in bytewise.feed(std::slice::from_ref(b)) {
            pieces.push(r.unwrap().payload);
        }
    }
    assert_eq!(all, pieces);
}

#[test]
fn incomplete_frame_waits() {
    let f = event_frame("assistantResponseEvent", "{}");
    let mut p = AwsEventStreamParser::new();
    assert!(p.feed(&f[..10]).is_empty());
    assert!(p.feed(&f[10..f.len() - 1]).is_empty());
    assert_eq!(p.feed(&f[f.len() - 1..]).len(), 1);
}

#[test]
fn reset_drops_partial_frame() {
    let f = event_frame("assistantResponseEvent", "{}");
    let mut p = AwsEventStreamParser::default();
    assert!(p.feed(&f[..20]).is_empty());
    p.reset();
    assert_eq!(p.feed(&f).len(), 1);
}

#[test]
fn invalid_length_is_rejected_and_stays() {
    let mut bad = vec![0u8; 16];
    bad[3] = 5;
    let mut p = AwsEventStreamParser::new();
    let events = p.feed(&bad);
    assert_eq!(events.len(), 1);
    assert_eq!(events[0].as_ref().unwrap_err(), &EventStreamError::InvalidMessageLength { length: 5 });
    assert_eq!(events[0].as_ref().unwrap_err().message(), "Invalid message length: 5");
    let again = p.feed(&[]);
    assert_eq!(again.len(), 1);
    assert!(again[0].is_err());
}

#[test]
fn prelude_crc_mismatch() {
    let mut f = event_frame("assistantResponseEvent", "{}");
    f[8] ^= 0xff;
    let mut p = AwsEventStreamParser::new();
    let events = p.feed(&f);
    match events[0].as_ref().unwrap_err() {
        EventStreamError::PreludeCrcMismatch { expected, computed } => assert_ne!(expected, computed),
        other => panic!("unexpected {:?}", other),
    }
}

#[test]
fn message_crc_mismatch() {
    let mut f = event_frame("assistantResponseEvent", "{}");
    let n = f.len();
    f[n - 5] ^= 0x01;
    let mut p = AwsEventStreamParser::new();
    let events = p.feed(&f);
    assert!(matches!(events[0], Err(EventStreamError::MessageCrcMismatch { .. })));
    let m = events[0].as_ref().unwrap_err().message();
    assert!(m.starts_with("Message CRC mismatch: expected "));
}

#[test]
fn events_before_a_bad_frame_are_kept() {
    let mut stream = event_frame("assistantResponseEvent", "{\"content\":\"a\"}");
    let mut bad = event_frame("assistantResponseEvent", "{}");
    bad[9] ^= 1;
    stream.extend(bad);
    let mut p = AwsEventStreamParser::new();
    let events = p.feed(&stream);
    assert_eq!(events.len(), 2);
    assert!(events[0].is_ok());
    assert!(events[1].is_err());
}

#[test]
fn header_block_overrun_cannot_be_fed() {
    let mut f = Vec::new();
    f.extend_from_slice(&16u32.to_be_bytes());
    f.extend_from_slice(&100u32.to_be_bytes());
    let c = crc32c(&f);
    f.extend_from_slice(&c.to_be_bytes());
    let c2 = crc32c(&f);
    f.extend_from_slice(&c2.to_be_bytes());
    let p = AwsEventStreamParser::new();
    assert!(!p.can_feed(&f));
    assert!(matches!(decode_frame(&f), Frame::HeadersOverrun));
    let ok = event_frame("assistantResponseEvent", "{}");
    assert!(p.can_feed(&ok));
}

#[test]
fn header_block_reaching_into_checksum_is_rejected() {
    let mut f = Vec::new();
    f.extend_from_slice(&20u32.to_be_bytes());
    f.extend_from_slice(&8u32.to_be_bytes());
    let c = crc32c(&f);
    f.extend_from_slice(&c.to_be_bytes());
    f.extend_from_slice(&[1, b'a', 200, 0]);
    let c2 = crc32c(&f);
    f.extend_from_slice(&c2.to_be_bytes());
    assert!(matches!(decode_frame(&f), Frame::Failed(EventStreamError::UnknownHeaderType { value_type: 200 })));
    let mut p = AwsEventStreamParser::new();
    assert!(p.can_feed(&f));
    let events = p.feed(&f);
    assert_eq!(events.len(), 1);
    assert_eq!(events[0].as_ref().err(), Some(&EventStreamError::UnknownHeaderType { value_type: 200 }));
    let again = p.feed(&[]);
    assert_eq!(again.len(), 1);
    assert_eq!(again[0].as_ref().err(), Some(&EventStreamError::UnknownHeaderType { value_type: 200 }));
}

#[test]
fn header_value_types() {
    let mut h = Vec::new();
    h.extend([1, b'a', 0]);
    h.extend([1, b'b', 1]);
    h.extend([1, b'c', 2, 200]);
    h.extend([1, b'd', 3, 0xff, 0xfe]);
    h.extend([1, b'e', 4, 0x80, 0, 0, 0]);
    h.extend([1, b'f', 5]);
    h.extend(i64::MIN.to_be_bytes());
    h.extend([1, b'g', 6, 0, 3, 0xde, 0xad, 0x01]);
    h.extend([1, b'h', 8]);
    h.extend(1_700_000_000_000i64.to_be_bytes());
    h.extend([1, b'i', 9]);
    h.extend([
        0x12, 0x34, 0x56, 0x78, 0x9a, 0xbc, 0xde, 0xf0, 0x01, 0x23, 0x45, 0x67, 0x89, 0xab, 0xcd, 0xef,
    ]);
    h.extend(header_string("j", "text"));
    let headers = parse_headers(&h).unwrap();
    let values: Vec<(&str, &str)> = headers.iter().map(|(k, v)| (k.as_str(), v.as_str())).collect();
    assert_eq!(
        values,
        vec![
            ("a", "true"),
            ("b", "false"),
            ("c", "200"),
            ("d", "-2"),
            ("e", "-2147483648"),
            ("f", "-9223372036854775808"),
            ("g", "dead01"),
            ("h", "1700000000000"),
            ("i", "12345678-9abc-def0-0123-456789abcdef"),
            ("j", "text"),
        ]
    );
}

#[test]
fn header_errors() {
    assert_eq!(parse_headers(&[1, b'a', 42]).unwrap_err(), EventStreamError::UnknownHeaderType { value_type: 42 });
    assert_eq!(
        parse_headers(&[1, b'a', 42]).unwrap_err().message(),
        "Unknown header type: 42"
    );
    assert_eq!(parse_headers(&[5, b'a']).unwrap_err(), EventStreamError::UnexpectedEof);
    assert_eq!(parse_headers(&[5, b'a']).unwrap_err().message(), "failed to fill whole buffer");
    let bad_name = parse_headers(&[1, 0xff, 0]).unwrap_err();
    assert_eq!(bad_name, EventStreamError::InvalidUtf8 { valid_up_to: 0, error_len: Some(1) });
    assert_eq!(bad_name.message(), "invalid utf-8 sequence of 1 bytes from index 0");
    assert_eq!(bad_name.message(), String::from_utf8(vec![0xff]).unwrap_err().to_string());
    let cut_value = parse_headers(&[1, b'a', 7, 0, 1, 0xc3]).unwrap_err();
    assert_eq!(cut_value, EventStreamError::InvalidUtf8 { valid_up_to: 0, error_len: None });
    assert_eq!(cut_value.message(), "incomplete utf-8 byte sequence from index 0");
    assert_eq!(cut_value.message(), String::from_utf8(vec![0xc3]).unwrap_err().to_string());
    let mid_name = parse_headers(&[3, b'a', 0xe2, 0x28, 0]).unwrap_err();
    assert_eq!(mid_name, EventStreamError::InvalidUtf8 { valid_up_to: 1, error_len: Some(1) });
    assert_eq!(mid_name.message(), String::from_utf8(vec![b'a', 0xe2, 0x28]).unwrap_err().to_string());
    assert_eq!(parse_headers(&[1, b'a', 3, 0]).unwrap_err(), EventStreamError::UnexpectedEof);
    assert!(parse_headers(&[]).unwrap().is_empty());
}

#[test]
fn cursor_reads() {
    let data = [0x01, 0xff, 0xfe, 0x80, 0x00, 0x00, 0x00, b'o', b'k'];
    let mut c = Cursor::new(&data);
    assert_eq!(read_u8(&mut c).unwrap(), 1);
    assert_eq!(read_i16(&mut c).unwrap(), -2);
    let mut c2 = Cursor::new(&data[1..]);
    assert_eq!(read_u16(&mut c2).unwrap(), 0xfffe);
    let mut c3 = Cursor::new(&data[3..]);
    assert_eq!(read_i32(&mut c3).unwrap(), i32::MIN);
    assert_eq!(read_string(&mut c3, 2).unwrap(), "ok");
    assert_eq!(read_u8(&mut c3).unwrap_err(), EventStreamError::UnexpectedEof);
    let mut c4 = Cursor::new(&data[..4]);
    assert_eq!(read_i64(&mut c4).unwrap_err(), EventStreamError::UnexpectedEof);
    let eight = (-5i64).to_be_bytes();
    let mut c5 = Cursor::new(&eight);
    assert_eq!(read_i64(&mut c5).unwrap(), -5);
}
