use clipboard_bridge::codec::{decode, encode, encode_message, encode_with_timestamp, ClipboardMessage};
use clipboard_bridge::errors::DecodeError;

#[test]
fn round_trip_fixed_timestamp() {
    let buffer = encode_with_timestamp("hello clipboard", 1_700_000_000);
    let message = decode(buffer.as_slice()).unwrap();
    assert_eq!(message.content, "hello clipboard");
    assert_eq!(message.timestamp, 1_700_000_000);
}

#[test]
fn round_trip_empty_content() {
    let buffer = encode_with_timestamp("", 0);
    assert_eq!(buffer.len(), 16);
    let message = decode(buffer.as_slice()).unwrap();
    assert_eq!(message.content, "");
    assert_eq!(message.timestamp, 0);
}

#[test]
fn round_trip_multibyte_content() {
    let text = "héllo 世界 📋";
    let buffer = encode_with_timestamp(text, u64::MAX);
    let message = decode(buffer.as_slice()).unwrap();
    assert_eq!(message.content, text);
    assert_eq!(message.timestamp, u64::MAX);
}

#[test]
fn encode_message_matches_fixed_timestamp_encoding() {
    let message = ClipboardMessage { content: "abc".to_string(), timestamp: 42 };
    assert_eq!(encode_message(&message), encode_with_timestamp("abc", 42));
}

#[test]
fn encode_stamps_a_decodable_message() {
    let buffer = encode("stamped");
    let message = decode(buffer.as_slice()).unwrap();
    assert_eq!(message.content, "stamped");
}

#[test]
fn wire_layout_is_length_content_timestamp() {
    let buffer = encode_with_timestamp("ab", 0x0102030405060708);
    assert_eq!(&buffer[0..8], &2u64.to_le_bytes());
    assert_eq!(&buffer[8..10], b"ab");
    assert_eq!(&buffer[10..18], &0x0102030405060708u64.to_le_bytes());
}

#[test]
fn every_truncation_fails() {
    let buffer = encode_with_timestamp("truncate me", 123_456);
    for cut in 0..buffer.len() {
        let result = decode(&buffer[0..cut]);
        assert!(result.is_err(), "prefix of length {} decoded", cut);
    }
}

#[test]
fn short_buffer_fails_truncated() {
    assert_eq!(decode(&[]), Err(DecodeError::Truncated));
    assert_eq!(decode(&[0u8; 15]), Err(DecodeError::Truncated));
}

#[test]
fn wrong_length_prefix_fails() {
    let mut buffer = encode_with_timestamp("xy", 7);
    buffer[0] = buffer[0].wrapping_add(1);
    assert_eq!(decode(buffer.as_slice()), Err(DecodeError::LengthMismatch));
}

#[test]
fn trailing_garbage_fails() {
    let mut buffer = encode_with_timestamp("xy", 7);
    buffer.push(0);
    assert_eq!(decode(buffer.as_slice()), Err(DecodeError::LengthMismatch));
}

#[test]
fn invalid_utf8_content_fails() {
    let mut buffer = Vec::new();
    buffer.extend_from_slice(&1u64.to_le_bytes());
    buffer.push(0xFF);
    buffer.extend_from_slice(&7u64.to_le_bytes());
    assert_eq!(decode(buffer.as_slice()), Err(DecodeError::InvalidText));
}
