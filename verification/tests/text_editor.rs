use altre::buffer::cursor::CursorPosition;
use altre::buffer::editor::EditOperations;
use altre::editor::text_editor::TextEditor;

#[test]
fn test_text_editor_creation() {
    let editor = TextEditor::new();
    assert_eq!(editor.to_string(), "");
    assert!(!editor.has_pending_input());
}

#[test]
fn test_buffered_input() {
    let mut editor = TextEditor::new();
    assert!(editor.buffer_input_char('a').is_ok());
    assert!(editor.has_pending_input());
    assert!(editor.flush_input_buffer().is_ok());
    assert!(!editor.has_pending_input());
    assert_eq!(editor.to_string(), "a");
}

#[test]
fn test_buffered_string_input() {
    let mut editor = TextEditor::new();
    assert!(editor.buffer_input_str("hello").is_ok());
    assert!(editor.has_pending_input());
    assert!(editor.flush_input_buffer().is_ok());
    assert_eq!(editor.to_string(), "hello");
}

#[test]
fn test_auto_flush_on_delete() {
    let mut editor = TextEditor::new();
    editor.buffer_input_char('a').unwrap();
    editor.buffer_input_char('b').unwrap();
    assert!(editor.has_pending_input());
    let deleted = editor.delete_backward().unwrap();
    assert_eq!(deleted, 'b');
    assert!(!editor.has_pending_input());
    assert_eq!(editor.to_string(), "a");
}

#[test]
fn test_performance_delegation() {
    let mut editor = TextEditor::new();
    assert!(editor.insert_char('x').is_ok());
    assert_eq!(editor.to_string(), "x");
    assert!(editor.insert_str(" world").is_ok());
    assert_eq!(editor.to_string(), "x world");
    assert!(editor.insert_newline().is_ok());
    assert!(editor.to_string().contains('\n'));
}

#[test]
fn test_cursor_operations() {
    let mut editor = TextEditor::from_str("test");
    let cursor = *editor.cursor();
    assert_eq!(cursor.char_pos, 0);
    let mut new_cursor: CursorPosition = cursor;
    new_cursor.char_pos = 2;
    editor.set_cursor(new_cursor);
    assert_eq!(editor.cursor().char_pos, 2);
}

#[test]
fn test_utf8_safety() {
    let mut editor = TextEditor::new();
    assert!(editor.buffer_input_char('あ').is_ok());
    assert!(editor.buffer_input_char('い').is_ok());
    assert!(editor.buffer_input_str("うえお").is_ok());
    assert!(editor.flush_input_buffer().is_ok());
    assert_eq!(editor.to_string(), "あいうえお");
}

#[test]
fn test_insert_string_optimized_goes_straight_into_text() {
    let mut editor = TextEditor::new();
    assert!(editor.insert_string_optimized("ab\r\ncd").is_ok());
    assert_eq!(editor.to_string(), "ab\ncd");
    assert!(!editor.has_pending_input());
}

#[test]
fn test_delete_forward_after_buffered_input() {
    let mut editor = TextEditor::from_str("xyz");
    editor.buffer_input_char('a').unwrap();
    let deleted = editor.delete_forward().unwrap();
    assert_eq!(deleted, 'x');
    assert_eq!(editor.to_string(), "ayz");
}

#[test]
fn edits_flush_pending_input_first() {
    let mut editor = TextEditor::new();
    editor.buffer_input_str("ab").unwrap();
    assert!(editor.has_pending_input());
    editor.insert_char('c').unwrap();
    assert!(!editor.has_pending_input());
    assert_eq!(editor.to_string(), "abc");
    assert_eq!(editor.cursor().char_pos, 3);
    editor.buffer_input_char('d').unwrap();
    assert_eq!(editor.delete_backward().unwrap(), 'd');
    assert_eq!(editor.to_string(), "abc");
    editor.buffer_input_char('e').unwrap();
    assert_eq!(editor.delete_range(0, 1).unwrap(), "a");
    assert_eq!(editor.to_string(), "bce");
}
