use cardinal::codec::{decode_content, decode_message, encode_content, map_create_outcome,
    map_publish_status};
use cardinal::message::{content_valid, DDSMessage, BUFFER_SIZE, MAX_CONTENT_BYTES};
use cardinal::DdsError;

#[test]
fn encode_simple_content() {
    let buf = encode_content("hi").unwrap();
    assert_eq!(buf.len(), BUFFER_SIZE);
    assert_eq!(buf[0], b'h');
    assert_eq!(buf[1], b'i');
    for i in 2..BUFFER_SIZE {
        assert_eq!(buf[i], 0);
    }
}

#[test]
fn boundary_255_bytes_accepted_and_round_trips() {
    let content = "x".repeat(MAX_CONTENT_BYTES);
    assert!(content_valid(&content));
    let buf = encode_content(&content).unwrap();
    let back = decode_content(&buf).unwrap();
    assert_eq!(back, content);
}

#[test]
fn boundary_256_bytes_rejected() {
    let content = "x".repeat(MAX_CONTENT_BYTES + 1);
    assert!(!content_valid(&content));
    assert_eq!(encode_content(&content), Err(DdsError::Serialization));
}

#[test]
fn embedded_terminator_rejected() {
    let content = "ab\0cd";
    assert!(!content_valid(content));
    assert_eq!(encode_content(content), Err(DdsError::Serialization));
}

#[test]
fn multibyte_content_round_trips() {
    let content = "héllo wörld ✓";
    assert!(content.len() <= MAX_CONTENT_BYTES);
    let buf = encode_content(content).unwrap();
    let back = decode_content(&buf).unwrap();
    assert_eq!(back, content);
}

#[test]
fn decode_stops_at_first_zero() {
    let mut buf = vec![0u8; BUFFER_SIZE];
    buf[0] = b'a';
    buf[1] = b'b';
    buf[2] = b'c';
    // bytes after the terminator are ignored
    buf[4] = b'z';
    let back = decode_content(&buf).unwrap();
    assert_eq!(back, "abc");
}

#[test]
fn decode_invalid_utf8_is_no_message() {
    let mut buf = vec![0u8; BUFFER_SIZE];
    buf[0] = 0xff;
    buf[1] = 0xfe;
    assert_eq!(decode_content(&buf), None);
    assert!(decode_message(&buf, 12345).is_none());
}

#[test]
fn decode_message_keeps_timestamp() {
    let mut buf = vec![0u8; BUFFER_SIZE];
    buf[0] = b'm';
    let m: DDSMessage = decode_message(&buf, 1_431_648_000).unwrap();
    assert_eq!(m.content, "m");
    assert_eq!(m.timestamp, 1_431_648_000);
}

#[test]
fn decode_message_replaces_out_of_range_timestamp() {
    let mut buf = vec![0u8; BUFFER_SIZE];
    buf[0] = b'm';
    // far outside the representable range of the date library
    let m = decode_message(&buf, i64::MIN).unwrap();
    assert_eq!(m.content, "m");
    assert_ne!(m.timestamp, i64::MIN);
}

#[test]
fn null_create_handle_is_initialization_error() {
    assert_eq!(map_create_outcome(true), Err(DdsError::Initialization));
    assert_eq!(map_create_outcome(false), Ok(()));
}

#[test]
fn publish_status_zero_is_ok() {
    assert_eq!(map_publish_status(0), Ok(()));
}

#[test]
fn publish_status_nonzero_is_transport_error() {
    assert_eq!(map_publish_status(1), Err(DdsError::Transport));
    assert_eq!(map_publish_status(-7), Err(DdsError::Transport));
}
