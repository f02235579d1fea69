use altre::buffer::gap_buffer::GapBuffer;
use altre::error::BufferError;

#[test]
fn test_new_gap_buffer() {
    let gap_buffer = GapBuffer::new();
    assert_eq!(gap_buffer.char_len(), 0);
    assert_eq!(gap_buffer.get_text(), "");
}

#[test]
fn test_from_str() {
    let text = "Hello, world!";
    let gap_buffer = GapBuffer::from_str(text);
    assert_eq!(gap_buffer.get_text(), text);
    assert_eq!(gap_buffer.char_len(), text.chars().count());
}

#[test]
fn test_insert_char() {
    let mut gap_buffer = GapBuffer::new();
    gap_buffer.insert_char(0, 'A').unwrap();
    assert_eq!(gap_buffer.get_text(), "A");
    assert_eq!(gap_buffer.char_len(), 1);
}

#[test]
fn test_insert_char_middle() {
    let mut gap_buffer = GapBuffer::from_str("abcd");
    gap_buffer.insert_char(2, 'X').unwrap();
    assert_eq!(gap_buffer.get_text(), "abXcd");
    assert_eq!(gap_buffer.char_len(), 5);
}

#[test]
fn test_insert_str() {
    let mut gap_buffer = GapBuffer::new();
    gap_buffer.insert_str(0, "Hello").unwrap();
    assert_eq!(gap_buffer.get_text(), "Hello");
    assert_eq!(gap_buffer.char_len(), 5);
}

#[test]
fn test_delete_char() {
    let mut gap_buffer = GapBuffer::from_str("Hello");
    gap_buffer.delete_char(1).unwrap();
    assert_eq!(gap_buffer.get_text(), "Hllo");
    assert_eq!(gap_buffer.char_len(), 4);
}

#[test]
fn gap_buffer_test_delete_range() {
    let mut gap_buffer = GapBuffer::from_str("abcdef");
    let deleted = gap_buffer.delete_range(1, 4).unwrap();
    assert_eq!(deleted, "bcd");
    assert_eq!(gap_buffer.get_text(), "aef");
}

#[test]
fn test_line_start_positions() {
    let mut gap_buffer = GapBuffer::from_str("line1\nline2\nline3");
    let lines = gap_buffer.line_start_positions();
    assert_eq!(lines, vec![0, 6, 12]);
}

#[test]
fn gap_buffer_test_utf8_support() {
    let mut gap_buffer = GapBuffer::new();
    gap_buffer.insert_str(0, "こんにちは").unwrap();
    assert_eq!(gap_buffer.get_text(), "こんにちは");
    assert_eq!(gap_buffer.char_len(), 5);

    gap_buffer.insert_char(2, '!').unwrap();
    assert_eq!(gap_buffer.get_text(), "こん!にちは");
}

#[test]
fn gap_buffer_insert_then_delete_round_trips() {
    let mut buffer = GapBuffer::from_str("héllo wörld");
    buffer.insert(3, '🌟').unwrap();
    assert_eq!(buffer.delete(3).unwrap(), '🌟');
    assert_eq!(buffer.get_text(), "héllo wörld");
}

#[test]
fn gap_buffer_out_of_bounds_is_rejected_without_change() {
    let mut buffer = GapBuffer::from_str("abc");
    assert_eq!(buffer.insert(5, 'x'), Err(BufferError::InvalidCursorPosition { position: 5 }));
    assert_eq!(buffer.delete(3), Err(BufferError::InvalidCursorPosition { position: 3 }));
    assert_eq!(buffer.get_text(), "abc");
    assert!(buffer.substring(2, 1).is_err());
    assert!(buffer.delete_range(0, 9).is_err());
}

#[test]
fn gap_buffer_many_edits_keep_text() {
    let mut buffer = GapBuffer::with_capacity(2);
    let mut model: Vec<char> = Vec::new();
    for i in 0..200usize {
        let pos = (i * 7) % (model.len() + 1);
        let ch = char::from_u32(0x61 + (i as u32 % 26)).unwrap();
        buffer.insert(pos, ch).unwrap();
        model.insert(pos, ch);
        if i % 3 == 0 {
            let d = (i * 5) % model.len();
            assert_eq!(buffer.delete(d).unwrap(), model.remove(d));
        }
    }
    assert_eq!(buffer.get_text(), model.iter().collect::<String>());
    assert_eq!(buffer.len_bytes(), buffer.get_text().len());
    buffer.move_gap_to(0).unwrap();
    assert_eq!(buffer.gap_position(), 0);
    assert_eq!(buffer.get_text(), model.iter().collect::<String>());
}

#[test]
fn gap_buffer_replace_range_and_bytes() {
    let mut buffer = GapBuffer::from_str("hello world");
    buffer.replace_range(0, 5, "こんにちは").unwrap();
    assert_eq!(buffer.get_text(), "こんにちは world");
    assert_eq!(buffer.len_bytes(), "こんにちは world".len());
    assert!(!buffer.is_empty());
    let mut trailing = GapBuffer::from_str("a\nb\n");
    assert_eq!(trailing.line_start_positions(), vec![0, 2]);
}

#[test]
fn move_gap_takes_byte_offsets() {
    let mut buffer = GapBuffer::from_str("éa");
    buffer.move_gap_to(2).unwrap();
    assert_eq!(buffer.gap_position(), 1);
    assert_eq!(buffer.move_gap_to(1), Err(BufferError::Utf8Boundary { position: 1 }));
    assert_eq!(buffer.move_gap_to(4), Err(BufferError::InvalidCursorPosition { position: 4 }));
    buffer.move_gap_to(3).unwrap();
    assert_eq!(buffer.gap_position(), 2);
    assert_eq!(buffer.to_string(), "éa");
}

#[test]
fn empty_range_at_the_end_is_empty() {
    let mut buffer = GapBuffer::from_str("abc");
    assert_eq!(buffer.substring(3, 3), Ok(String::new()));
    assert_eq!(buffer.get_range(3, 3).unwrap(), "");
    assert_eq!(buffer.delete_range(3, 3), Ok(String::new()));
    assert_eq!(buffer.to_string(), "abc");
}
