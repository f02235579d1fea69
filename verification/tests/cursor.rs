use altre::buffer::cursor::{CursorMover, CursorMovement, CursorPosition};

#[test]
fn test_cursor_creation() {
    let cursor = CursorPosition::new();
    assert_eq!(cursor.char_pos, 0);
    assert_eq!(cursor.line, 0);
    assert_eq!(cursor.column, 0);
}

#[test]
fn cursor_test_cursor_movement() {
    let text = "Hello\nWorld\n";
    let mut cursor = CursorPosition::new();

    assert!(CursorMover::move_cursor(&mut cursor, text, CursorMovement::Forward));
    assert_eq!(cursor.char_pos, 1);
    assert_eq!(cursor.column, 1);

    cursor.char_pos = 5;
    cursor.column = 5;
    assert!(CursorMover::move_cursor(&mut cursor, text, CursorMovement::Forward));
    assert_eq!(cursor.line, 1);
    assert_eq!(cursor.column, 0);
}

#[test]
fn test_line_navigation() {
    let text = "First line\nSecond line\nThird line";
    let mut cursor = CursorPosition::at(6, 0, 6);

    assert!(CursorMover::move_cursor(&mut cursor, text, CursorMovement::Down));
    assert_eq!(cursor.line, 1);
    assert_eq!(cursor.column, 6);

    assert!(CursorMover::move_cursor(&mut cursor, text, CursorMovement::Up));
    assert_eq!(cursor.line, 0);
    assert_eq!(cursor.column, 6);
}

#[test]
fn cursor_backward_over_newline_goes_to_previous_line_end() {
    let text = "ab\ncd";
    let mut cursor = CursorPosition::at(3, 1, 0);
    assert!(CursorMover::move_cursor(&mut cursor, text, CursorMovement::Backward));
    assert_eq!(cursor, CursorPosition::at(2, 0, 2));
    let mut origin = CursorPosition::new();
    assert!(!CursorMover::move_cursor(&mut origin, text, CursorMovement::Backward));
}

#[test]
fn cursor_line_end_start_and_buffer_ends() {
    let text = "Hello\r\nWorld";
    let mut cursor = CursorPosition::at(0, 0, 0);
    assert!(CursorMover::move_cursor(&mut cursor, text, CursorMovement::LineEnd));
    assert_eq!(cursor, CursorPosition::at(5, 0, 5));
    assert!(CursorMover::move_cursor(&mut cursor, text, CursorMovement::BufferEnd));
    assert_eq!(cursor, CursorPosition::at(12, 1, 5));
    assert!(CursorMover::move_cursor(&mut cursor, text, CursorMovement::LineStart));
    assert_eq!(cursor, CursorPosition::at(6, 1, 0));
    assert!(CursorMover::move_cursor(&mut cursor, text, CursorMovement::BufferStart));
    assert_eq!(cursor, CursorPosition::new());
    assert_eq!(CursorMover::calculate_line_length(text, 0), 5);
    assert_eq!(CursorMover::calculate_char_position(text, 1, 3), 9);
}

#[test]
fn cursor_position_simple_moves() {
    let mut c = CursorPosition::at(3, 1, 2);
    c.move_by(-5, 2, 1);
    assert_eq!(c, CursorPosition::at(0, 3, 3));
    c.move_forward();
    assert_eq!(c, CursorPosition::at(1, 3, 4));
    c.move_backward();
    assert_eq!(c, CursorPosition::at(0, 3, 3));
    c.move_up();
    c.move_down();
    c.move_to_line_start();
    assert_eq!(c, CursorPosition::at(0, 3, 0));
    c.move_to_origin();
    assert_eq!(c, CursorPosition::default());
}
