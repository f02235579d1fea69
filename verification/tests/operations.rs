use altre::buffer::cursor::CursorMovement;
use altre::buffer::gap_buffer::GapBuffer;
use altre::buffer::operations::{EditEngine, EditHistory, EditOperationBuilder};
use altre::buffer::{Buffer, BufferManager};

#[test]
fn test_insert_char_operation() {
    let mut buffer = Buffer::new();
    let operation = EditOperationBuilder::insert_char(0, 'A');
    let result = EditEngine::apply_operation(&mut buffer, operation);
    assert!(result.success);
    assert!(result.text_changed);
    assert!(result.cursor_moved);
    assert_eq!(buffer.content.get_text(), "A");
    assert_eq!(buffer.cursor.char_pos, 1);
}

#[test]
fn test_insert_string_operation() {
    let mut buffer = Buffer::new();
    let operation = EditOperationBuilder::insert_string(0, "Hello".to_string());
    let result = EditEngine::apply_operation(&mut buffer, operation);
    assert!(result.success);
    assert!(result.text_changed);
    assert_eq!(buffer.content.get_text(), "Hello");
    assert_eq!(buffer.cursor.char_pos, 5);
}

#[test]
fn test_delete_char_operation() {
    let mut buffer = Buffer::new();
    buffer.content = GapBuffer::from_str("Hello");
    let operation = EditOperationBuilder::delete_char(1);
    let result = EditEngine::apply_operation(&mut buffer, operation);
    assert!(result.success);
    assert!(result.text_changed);
    assert_eq!(buffer.content.get_text(), "Hllo");
    assert_eq!(buffer.cursor.char_pos, 1);
}

#[test]
fn operations_test_cursor_movement() {
    let mut buffer = Buffer::new();
    buffer.content = GapBuffer::from_str("Hello\nWorld");
    let operation = EditOperationBuilder::move_cursor(CursorMovement::Forward);
    let result = EditEngine::apply_operation(&mut buffer, operation);
    assert!(result.success);
    assert!(result.cursor_moved);
    assert!(!result.text_changed);
    assert_eq!(buffer.cursor.char_pos, 1);
}

#[test]
fn test_edit_history() {
    let mut history = EditHistory::new();
    assert!(history.is_empty());
    assert!(!history.can_undo());
    assert!(!history.can_redo());
    let operation = EditOperationBuilder::insert_char(0, 'A');
    history.push_operation(operation);
    assert_eq!(history.len(), 1);
    assert!(history.can_undo());
    assert!(!history.can_redo());
}

#[test]
fn test_delete_range_operation_and_errors() {
    let mut buffer = Buffer::new();
    buffer.content = GapBuffer::from_str("ab\ncdef");
    let result = EditEngine::apply_operation(&mut buffer, EditOperationBuilder::delete_range(4, 6));
    assert!(result.success);
    assert_eq!(buffer.content.get_text(), "ab\ncf");
    assert_eq!(buffer.cursor.char_pos, 4);
    assert_eq!(buffer.cursor.line, 1);
    assert_eq!(buffer.cursor.column, 1);
    assert!(buffer.is_modified());

    let bad = EditEngine::apply_operation(&mut buffer, EditOperationBuilder::delete_range(3, 3));
    assert!(!bad.success);
    assert_eq!(bad.error_message.as_deref(), Some("無効な削除範囲です"));
    let far = EditEngine::apply_operation(&mut buffer, EditOperationBuilder::delete_range(1, 99));
    assert_eq!(far.error_message.as_deref(), Some("削除範囲が範囲外です"));
    let past = EditEngine::apply_operation(&mut buffer, EditOperationBuilder::delete_char(5));
    assert_eq!(past.error_message.as_deref(), Some("削除位置が範囲外です"));
    let ins = EditEngine::apply_operation(&mut buffer, EditOperationBuilder::insert_char(9, 'x'));
    assert_eq!(ins.error_message.as_deref(), Some("Buffer operation failed"));
    assert_eq!(buffer.content.get_text(), "ab\ncf");
}

#[test]
fn test_buffer_manager() {
    let mut manager = BufferManager::new();
    assert!(manager.current_buffer_id().is_none());
    let a = manager.create_buffer();
    let b = manager.create_buffer();
    assert_eq!((a, b), (0, 1));
    assert_eq!(manager.current_buffer_id(), Some(0));
    assert!(manager.switch_to_buffer(1).is_ok());
    assert_eq!(manager.current_buffer_id(), Some(1));
    assert!(manager.switch_to_buffer(5).is_err());
    manager.current_buffer_mut().unwrap().set_modified(true);
    assert!(manager.get_buffer(1).unwrap().is_modified());
    assert!(!manager.get_buffer(0).unwrap().is_modified());
    assert!(manager.get_buffer(2).is_none());
}
