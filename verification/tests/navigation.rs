use altre::buffer::cursor::CursorPosition;
use altre::buffer::navigation::{
    BoundaryResult, NavigationAction, NavigationError, NavigationSystem, Position,
    PositionCalculator,
};

#[test]
fn test_basic_character_movement() {
    let mut nav_system = NavigationSystem::new();
    let text = "Hello, World!";
    assert!(nav_system.move_char_forward(text).unwrap());
    assert_eq!(nav_system.cursor.char_pos, 1);
    assert_eq!(nav_system.cursor.column, 1);
    assert!(nav_system.move_char_backward(text).unwrap());
    assert_eq!(nav_system.cursor.char_pos, 0);
    assert_eq!(nav_system.cursor.column, 0);
}

#[test]
fn test_line_movement_with_different_lengths() {
    let mut nav_system = NavigationSystem::new();
    let text = "Short\nThis is a longer line\nShort";
    nav_system.cursor = CursorPosition::at(15, 1, 9);
    assert!(nav_system.move_line_up(text).unwrap());
    assert_eq!(nav_system.cursor.line, 0);
    assert_eq!(nav_system.cursor.column, 5);
    assert!(nav_system.move_line_down(text).unwrap());
    assert_eq!(nav_system.cursor.line, 1);
    assert_eq!(nav_system.cursor.column, 5);
}

#[test]
fn test_utf8_character_navigation() {
    let mut nav_system = NavigationSystem::new();
    let text = "Hello 🌟 こんにちは 世界";
    nav_system.cursor.char_pos = 6;
    assert!(nav_system.move_char_forward(text).unwrap());
    assert_eq!(nav_system.cursor.char_pos, 7);
    nav_system.cursor.char_pos = 8;
    assert!(nav_system.move_char_forward(text).unwrap());
    assert_eq!(nav_system.cursor.char_pos, 9);
}

#[test]
fn test_boundary_conditions() {
    let mut nav_system = NavigationSystem::new();
    let text = "Single line";
    assert!(!nav_system.move_char_backward(text).unwrap());
    assert_eq!(nav_system.cursor.char_pos, 0);
    nav_system.cursor.char_pos = text.chars().count();
    assert!(!nav_system.move_char_forward(text).unwrap());
}

#[test]
fn test_tab_width_calculation() {
    let line_text = "a\tb\tc";
    let visual_col = Position::logical_to_visual_column(3, line_text, 4);
    assert_eq!(visual_col, 9);
}

#[test]
fn visual_column_counts_from_one_past_the_character() {
    assert_eq!(Position::logical_to_visual_column(0, "abc", 4), 2);
    assert_eq!(Position::logical_to_visual_column(1, "a\tb", 4), 5);
    assert_eq!(Position::logical_to_visual_column(9, "a\tb\tc", 4), 10);
    assert_eq!(Position::logical_to_visual_column(0, "", 4), 1);
    assert_eq!(Position::logical_to_visual_column(0, "あ", 4), 3);
}

#[test]
fn test_line_start_end_movement() {
    let mut nav_system = NavigationSystem::new();
    let text = "Hello\nWorld\n";
    nav_system.cursor.char_pos = 2;
    nav_system.cursor.line = 0;
    nav_system.cursor.column = 2;
    assert!(nav_system.move_line_start(text).unwrap());
    assert_eq!(nav_system.cursor.column, 0);
    assert!(nav_system.move_line_end(text).unwrap());
    assert_eq!(nav_system.cursor.column, 5);
}

#[test]
fn test_buffer_start_end_movement() {
    let mut nav_system = NavigationSystem::new();
    let text = "Line 1\nLine 2\nLine 3";
    nav_system.cursor.char_pos = 10;
    assert!(nav_system.move_buffer_start().unwrap());
    assert_eq!(nav_system.cursor.char_pos, 0);
    assert_eq!(nav_system.cursor.line, 0);
    assert_eq!(nav_system.cursor.column, 0);
    assert!(nav_system.move_buffer_end(text).unwrap());
    assert_eq!(nav_system.cursor.char_pos, text.chars().count());
}

#[test]
fn test_position_calculator() {
    let mut calc = PositionCalculator::new();
    let text = "Line 1\nLine 2\nLine 3";
    let pos = calc.char_pos_to_line_col(text, 8).unwrap();
    assert_eq!(pos.line, 1);
    assert_eq!(pos.logical_column, 1);
    let char_pos = calc.line_col_to_char_pos(text, 1, 1).unwrap();
    assert_eq!(char_pos, 8);
}

#[test]
fn test_char_display_width() {
    assert_eq!(Position::char_display_width('a'), 1);
    assert_eq!(Position::char_display_width('あ'), 2);
    assert_eq!(Position::char_display_width('🌟'), 2);
    assert_eq!(Position::char_display_width('\t'), 1);
}

#[test]
fn navigation_boundaries_and_unimplemented_actions() {
    let mut nav = NavigationSystem::new();
    assert_eq!(nav.handle_buffer_start_boundary(NavigationAction::MoveLineUp), BoundaryResult::Stopped);
    assert_eq!(nav.handle_buffer_start_boundary(NavigationAction::MoveBufferStart), BoundaryResult::AlreadyAtBoundary);
    assert_eq!(nav.handle_buffer_end_boundary(NavigationAction::MoveBufferEnd, ""), BoundaryResult::AlreadyAtBoundary);
    assert_eq!(nav.handle_empty_file_navigation(NavigationAction::MoveCharForward), BoundaryResult::Stopped);
    match nav.navigate("abc", NavigationAction::MoveWordForward) {
        Err(NavigationError::TextProcessingError(msg)) => assert_eq!(msg, "Unimplemented navigation action: MoveWordForward"),
        _ => panic!("expected an unimplemented-action error"),
    }
    let mut calc = PositionCalculator::new();
    assert!(matches!(calc.line_col_to_char_pos("a\nb", 5, 0), Err(NavigationError::InvalidLine(5))));
}

#[test]
fn navigation_recover_clamps_cursor() {
    let mut nav = NavigationSystem::new();
    nav.cursor = CursorPosition::at(50, 7, 7);
    nav.recover_from_invalid_position("ab\ncd").unwrap();
    assert_eq!(nav.cursor, CursorPosition::at(5, 1, 2));
}

#[test]
fn position_engine_is_reachable_for_changes() {
    let mut nav_system = NavigationSystem::new();
    let engine = nav_system.position_engine();
    let p = engine.char_pos_to_line_col("ab\ncd", 4).unwrap();
    assert_eq!(p.line, 1);
    assert_eq!(p.logical_column, 1);
    assert_eq!(engine.line_col_to_char_pos("ab\ncd", p.line, p.logical_column).unwrap(), 4);
}

#[test]
fn position_engine_round_trips_every_position() {
    let text = "ab\n\ncd\tef\nx";
    let mut engine = PositionCalculator::new();
    for c in 0..=text.chars().count() {
        let p = engine.char_pos_to_line_col(text, c).unwrap();
        assert_eq!(p.char_pos, c);
        assert_eq!(engine.line_col_to_char_pos(text, p.line, p.logical_column).unwrap(), c);
    }
}
