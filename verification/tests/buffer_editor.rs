use altre::buffer::editor::{EditOperations, TextEditor};

#[test]
fn test_basic_char_insertion() {
    let mut editor = TextEditor::new();
    assert!(editor.insert_char('a').is_ok());
    assert_eq!(editor.to_string(), "a");
    assert_eq!(editor.cursor.char_pos, 1);
}

#[test]
fn test_utf8_char_insertion() {
    let mut editor = TextEditor::new();
    assert!(editor.insert_char('あ').is_ok());
    assert_eq!(editor.to_string(), "あ");
    assert_eq!(editor.cursor.char_pos, 1);
}

#[test]
fn test_backspace_deletion() {
    let mut editor = TextEditor::from_str("hello");
    editor.cursor.char_pos = 5;
    let deleted = editor.delete_backward().unwrap();
    assert_eq!(deleted, 'o');
    assert_eq!(editor.to_string(), "hell");
    assert_eq!(editor.cursor.char_pos, 4);
}

#[test]
fn test_delete_forward() {
    let mut editor = TextEditor::from_str("hello");
    editor.cursor.char_pos = 0;
    let deleted = editor.delete_forward().unwrap();
    assert_eq!(deleted, 'h');
    assert_eq!(editor.to_string(), "ello");
    assert_eq!(editor.cursor.char_pos, 0);
}

#[test]
fn test_newline_insertion() {
    let mut editor = TextEditor::from_str("line1");
    editor.cursor.char_pos = 5;
    assert!(editor.insert_newline().is_ok());
    assert_eq!(editor.to_string(), "line1\n");
    assert_eq!(editor.cursor.line, 1);
    assert_eq!(editor.cursor.column, 0);
}

#[test]
fn test_string_insertion() {
    let mut editor = TextEditor::new();
    assert!(editor.insert_str("hello world").is_ok());
    assert_eq!(editor.to_string(), "hello world");
    assert_eq!(editor.cursor.char_pos, 11);
}

#[test]
fn test_delete_word_forward() {
    let mut editor = TextEditor::from_str("foo  bar");
    editor.cursor.char_pos = 0;
    let deleted = editor.delete_word_forward().unwrap();
    assert_eq!(deleted, "foo");
    assert_eq!(editor.to_string(), "  bar");
    let deleted_ws = editor.delete_word_forward().unwrap();
    assert_eq!(deleted_ws, "  bar");
    assert_eq!(editor.to_string(), "");
}

#[test]
fn test_delete_word_backward() {
    let mut editor = TextEditor::from_str("foo bar");
    editor.cursor.char_pos = 7;
    let deleted = editor.delete_word_backward().unwrap();
    assert_eq!(deleted, "bar");
    assert_eq!(editor.to_string(), "foo ");
    let deleted_again = editor.delete_word_backward().unwrap();
    assert_eq!(deleted_again, "foo ");
    assert_eq!(editor.to_string(), "");
}

#[test]
fn test_kill_line_forward() {
    let mut editor = TextEditor::from_str("hello\nworld");
    editor.cursor.char_pos = 0;
    let killed = editor.kill_line_forward().unwrap();
    assert_eq!(killed, "hello\n");
    assert_eq!(editor.to_string(), "world");
    assert_eq!(editor.cursor.char_pos, 0);

    let mut editor2 = TextEditor::from_str("line1\nline2");
    editor2.cursor.char_pos = "line1".chars().count();
    let killed_line_end = editor2.kill_line_forward().unwrap();
    assert_eq!(killed_line_end, "\n");
    assert_eq!(editor2.to_string(), "line1line2");
    assert_eq!(editor2.cursor.char_pos, "line1".chars().count());

    let mut editor3 = TextEditor::from_str("abc");
    editor3.cursor.char_pos = editor3.buffer.len_chars();
    let killed_eob = editor3.kill_line_forward().unwrap();
    assert_eq!(killed_eob, "");
    assert_eq!(editor3.to_string(), "abc");
}

#[test]
fn editor_test_line_ending_normalization() {
    let mut editor = TextEditor::new();
    assert!(editor.insert_str("line1\r\nline2").is_ok());
    assert_eq!(editor.to_string(), "line1\nline2");
    let mut editor2 = TextEditor::new();
    assert!(editor2.insert_str("line1\rline2").is_ok());
    assert_eq!(editor2.to_string(), "line1\nline2");
}

#[test]
fn test_cursor_boundary_handling() {
    let mut editor = TextEditor::from_str("test");
    editor.cursor.char_pos = 100;
    editor.clamp_cursor_position();
    assert_eq!(editor.cursor.char_pos, 4);
}

#[test]
fn editor_test_delete_range() {
    let mut editor = TextEditor::from_str("hello world");
    editor.cursor.char_pos = 5;
    let deleted = editor.delete_range(0, 5).unwrap();
    assert_eq!(deleted, "hello");
    assert_eq!(editor.to_string(), " world");
    assert_eq!(editor.cursor.char_pos, 0);
}

#[test]
fn test_invalid_char_rejection() {
    let mut editor = TextEditor::new();
    assert!(editor.insert_char('\u{0001}').is_err());
    assert!(editor.insert_char('\u{007F}').is_err());
}

#[test]
fn test_boundary_deletions() {
    let mut editor = TextEditor::new();
    assert!(editor.delete_backward().is_err());
    assert!(editor.delete_forward().is_err());
    editor.insert_char('a').unwrap();
    editor.cursor.char_pos = 0;
    assert!(editor.delete_backward().is_err());
    editor.cursor.char_pos = 1;
    assert!(editor.delete_forward().is_err());
}

#[test]
fn editor_insert_then_backspace_restores_text() {
    let mut editor = TextEditor::from_str("ab\ncd");
    editor.cursor.char_pos = 3;
    editor.cursor.line = 1;
    editor.insert_char('x').unwrap();
    assert_eq!(editor.to_string(), "ab\nxcd");
    assert_eq!(editor.delete_backward().unwrap(), 'x');
    assert_eq!(editor.to_string(), "ab\ncd");
    assert_eq!(editor.cursor.char_pos, 3);
}

#[test]
fn editor_move_cursor_and_errors() {
    let mut editor = TextEditor::from_str("ab\ncd");
    editor.move_cursor_to_char(99).unwrap();
    assert_eq!((editor.cursor.char_pos, editor.cursor.line, editor.cursor.column), (5, 1, 2));
    assert!(editor.delete_range(3, 1).is_err());
    match editor.insert_char('\u{0007}') {
        Err(altre::error::AltreError::Edit(m)) => assert!(m.starts_with("Invalid character: ")),
        _ => panic!("expected an edit error"),
    }
    match editor.delete_forward() {
        Err(altre::error::AltreError::Edit(m)) => assert_eq!(m, "Cursor at buffer end"),
        _ => panic!("expected an edit error"),
    }
}

#[test]
fn tab_is_valid_input() {
    let mut ed = TextEditor::new();
    assert!(ed.insert_char('\t').is_ok());
    assert_eq!(ed.to_string(), "\t");
}
