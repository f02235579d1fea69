use altre::editor::input_buffer::{InputBuffer, InputBufferError};
use std::time::Duration;

#[test]
fn test_input_buffer_creation() {
    let buffer = InputBuffer::new();
    assert!(buffer.is_empty());
    assert_eq!(buffer.len(), 0);
}

#[test]
fn test_add_char() {
    let mut buffer = InputBuffer::new();
    assert!(buffer.add_char('a').is_ok());
    assert_eq!(buffer.len(), 1);
    assert_eq!(buffer.peek(), "a");
}

#[test]
fn test_add_str() {
    let mut buffer = InputBuffer::new();
    assert!(buffer.add_str("hello").is_ok());
    assert_eq!(buffer.len(), 5);
    assert_eq!(buffer.peek(), "hello");
}

#[test]
fn test_flush() {
    let mut buffer = InputBuffer::new();
    buffer.add_str("test").unwrap();
    let flushed = buffer.flush();
    assert_eq!(flushed, "test");
    assert!(buffer.is_empty());
}

#[test]
fn test_buffer_overflow() {
    let mut buffer = InputBuffer::with_config(1, 5);
    buffer.add_str("hello").unwrap();
    let result = buffer.add_char('!');
    assert!(result.is_err());
    match result {
        Err(InputBufferError::BufferOverflow { .. }) => {}
        _ => panic!("Expected BufferOverflow error"),
    }
}

#[test]
fn test_force_flush() {
    let mut buffer = InputBuffer::with_config(1000, 10);
    buffer.add_str("12345").unwrap();
    assert!(buffer.should_force_flush());
}

#[test]
fn input_buffer_test_utf8_support() {
    let mut buffer = InputBuffer::new();
    assert!(buffer.add_char('あ').is_ok());
    assert!(buffer.add_str("こんにちは").is_ok());
    let content = buffer.flush();
    assert_eq!(content, "あこんにちは");
}

#[test]
fn test_config_update() {
    let mut buffer = InputBuffer::new();
    buffer.add_str("test").unwrap();
    buffer.update_config(2, 3);
    assert_eq!(buffer.len(), 3);
    assert_eq!(buffer.peek(), "tes");
}

#[test]
fn test_stats() {
    let mut buffer = InputBuffer::with_config(100, 1024);
    buffer.add_str("hello").unwrap();
    let stats = buffer.stats();
    assert_eq!(stats.current_size, 5);
    assert_eq!(stats.max_size, 1024);
    assert_eq!(stats.timeout, Duration::from_millis(100));
    assert!(stats.last_input_age < Duration::from_millis(10));
}

#[test]
fn input_buffer_byte_counting_and_messages() {
    let mut buffer = InputBuffer::with_config(1000, 4);
    assert!(buffer.add_char('あ').is_ok());
    assert_eq!(buffer.len(), 3);
    let err = buffer.add_char('い').unwrap_err();
    assert_eq!(err.message(), "Input buffer overflow (max size: 4)");
    assert_eq!(buffer.peek(), "あ");
    buffer.clear();
    assert!(buffer.is_empty());
    assert!(!buffer.should_flush());
}

#[test]
fn shrinking_cuts_at_a_character_boundary() {
    let mut buffer = InputBuffer::new();
    buffer.add_str("aあい").unwrap();
    buffer.update_config(2, 5);
    assert_eq!(buffer.peek(), "aあ");
    buffer.update_config(2, 1);
    assert_eq!(buffer.peek(), "a");
    buffer.update_config(2, 0);
    assert_eq!(buffer.peek(), "");
}

#[test]
fn invalid_char_message_shows_the_character() {
    let err = InputBufferError::InvalidChar { ch: '\u{7}' };
    assert_eq!(err.message(), format!("Invalid input character: {:?}", '\u{7}'));
}
