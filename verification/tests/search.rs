use altre::buffer::editor::TextEditor;
use altre::search::replace::QueryReplaceController;
use altre::search::types::{SearchDirection, SearchStatus};
use altre::search::SearchController;

#[test]
fn incremental_search_moves_cursor_forward() {
    let mut editor = TextEditor::from_str("hello world hello");
    let mut controller = SearchController::new();
    controller.start(&mut editor, SearchDirection::Forward);
    controller.input_char(&mut editor, 'w');
    assert_eq!(editor.cursor().char_pos, 6);
    let ui = controller.ui_state().expect("ui state");
    assert_eq!(ui.current_match, Some(1));
    assert_eq!(ui.total_matches, 1);
}

#[test]
fn repeat_forward_wraps() {
    let mut editor = TextEditor::from_str("foo foo");
    let mut controller = SearchController::new();
    controller.start(&mut editor, SearchDirection::Forward);
    controller.input_char(&mut editor, 'f');
    controller.input_char(&mut editor, 'o');
    controller.input_char(&mut editor, 'o');
    controller.repeat_forward(&mut editor);
    assert_eq!(editor.cursor().char_pos, 4);
    controller.repeat_forward(&mut editor);
    assert_eq!(editor.cursor().char_pos, 0);
    let ui = controller.ui_state().expect("ui state");
    assert!(ui.wrapped);
}

#[test]
fn delete_char_resets_when_empty() {
    let mut editor = TextEditor::from_str("abc");
    let mut controller = SearchController::new();
    controller.start(&mut editor, SearchDirection::Forward);
    controller.input_char(&mut editor, 'a');
    controller.delete_char(&mut editor);
    assert!(controller.highlights().is_empty());
    let ui = controller.ui_state().expect("ui state");
    assert_eq!(ui.pattern, "");
}

#[test]
fn search_not_found_and_case_folding() {
    let mut editor = TextEditor::from_str("Hello hello");
    let mut controller = SearchController::new();
    controller.start(&mut editor, SearchDirection::Forward);
    controller.input_char(&mut editor, 'h');
    assert_eq!(controller.ui_state().unwrap().total_matches, 2);
    controller.input_char(&mut editor, 'z');
    let ui = controller.ui_state().unwrap();
    assert_eq!(ui.status, SearchStatus::NotFound);
    assert_eq!(ui.message.as_deref(), Some("hz は見つかりません"));
    assert!(ui.is_error());
    controller.cancel(&mut editor);
    assert!(!controller.is_active());
    assert_eq!(editor.cursor().char_pos, 0);
}

#[test]
fn backward_search_and_accept_keeps_pattern() {
    let mut editor = TextEditor::from_str("ab ab ab");
    editor.move_cursor_to_char(7).unwrap();
    let mut controller = SearchController::new();
    controller.start(&mut editor, SearchDirection::Backward);
    controller.input_char(&mut editor, 'a');
    assert_eq!(editor.cursor().char_pos, 6);
    controller.repeat_backward(&mut editor);
    assert_eq!(editor.cursor().char_pos, 3);
    let highlights = controller.highlights().to_vec();
    assert_eq!(highlights.len(), 3);
    assert!(highlights[1].is_current);
    controller.accept();
    assert!(!controller.is_active());
    controller.start(&mut editor, SearchDirection::Forward);
    assert_eq!(controller.ui_state().unwrap().pattern, "a");
}

#[test]
fn literal_start_and_accept() {
    let mut editor = TextEditor::from_str("hello world hello");
    let mut controller = QueryReplaceController::new();
    let start = controller.start_literal(editor.to_string().as_str(), "hello".to_string(), "hi".to_string(), true);
    assert_eq!(start.total_matches, 2);
    assert!(controller.is_active());
    let progress = controller.accept_current(&mut editor).unwrap();
    assert_eq!(editor.to_string(), "hi world hello");
    assert_eq!(progress.replaced, 1);
    assert!(!progress.finished);
    assert_eq!(controller.current_range(), Some((9, 14)));
    let progress = controller.accept_current(&mut editor).unwrap();
    assert_eq!(editor.to_string(), "hi world hi");
    assert!(progress.finished);
}

#[test]
fn literal_skip() {
    let mut editor = TextEditor::from_str("abc abc");
    let mut controller = QueryReplaceController::new();
    controller.start_literal(editor.to_string().as_str(), "abc".to_string(), "XYZ".to_string(), true);
    let progress = controller.skip_current();
    assert_eq!(progress.skipped, 1);
    assert!(!progress.finished);
    assert_eq!(controller.current_range(), Some((4, 7)));
    let progress = controller.accept_current(&mut editor).unwrap();
    assert_eq!(progress.replaced, 1);
    assert!(progress.finished);
    assert_eq!(editor.to_string(), "abc XYZ");
}

#[test]
fn cancel_restores_original_text() {
    let mut editor = TextEditor::from_str("one two one");
    let mut controller = QueryReplaceController::new();
    controller.start_literal(editor.to_string().as_str(), "one".to_string(), "1".to_string(), true);
    controller.accept_current(&mut editor).unwrap();
    let summary = controller.cancel(&mut editor).unwrap();
    assert!(summary.cancelled);
    assert_eq!(editor.to_string(), "one two one");
    assert!(!controller.is_active());
}

#[test]
fn highlights_generated() {
    let text = "abc\nabc";
    let mut controller = QueryReplaceController::new();
    controller.start_literal(text, "abc".to_string(), "x".to_string(), true);
    let highlights = controller.highlights(text);
    assert_eq!(highlights.len(), 2);
    assert_eq!(highlights[0].line, 0);
    assert_eq!(highlights[1].line, 1);
}

#[test]
fn query_replace_literal_flow() {
    let mut editor = TextEditor::from_str("foo bar foo");
    let mut controller = QueryReplaceController::new();
    let start = controller.start_literal(editor.to_string().as_str(), "foo".to_string(), "baz".to_string(), true);
    assert_eq!(start.total_matches, 2);
    let progress = controller.accept_current(&mut editor).unwrap();
    assert_eq!(editor.to_string(), "baz bar foo");
    assert_eq!(progress.replaced, 1);
    let progress = controller.skip_current();
    assert_eq!(progress.skipped, 1);
    assert!(progress.finished);
    let summary = controller.finish();
    assert_eq!(summary.replaced, 1);
    assert_eq!(summary.skipped, 1);
    assert!(!summary.cancelled);
}

#[test]
fn query_replace_accept_all_then_cancel_restores() {
    let mut editor = TextEditor::from_str("a-a-a");
    let mut controller = QueryReplaceController::new();
    controller.start_literal(editor.to_string().as_str(), "a".to_string(), "xyz".to_string(), true);
    let preview = controller.current_preview(editor.to_string().as_str()).unwrap();
    assert_eq!(preview, ("a".to_string(), "xyz".to_string(), 1, 3));
    let progress = controller.accept_all(&mut editor).unwrap();
    assert_eq!(progress.replaced, 3);
    assert_eq!(editor.to_string(), "xyz-xyz-xyz");
    controller.cancel(&mut editor).unwrap();
    assert_eq!(editor.to_string(), "a-a-a");
}

#[test]
fn query_replace_no_match_starts_nothing() {
    let mut controller = QueryReplaceController::new();
    let start = controller.start_literal("abc", "zz".to_string(), "y".to_string(), false);
    assert_eq!(start.total_matches, 0);
    assert!(!controller.is_active());
    assert_eq!(controller.pattern(), None);
}

#[test]
fn progress_adds_up_after_accept_and_skip() {
    let mut editor = TextEditor::from_str("ab ab ab");
    let mut controller = QueryReplaceController::new();
    controller.start_literal(editor.to_string().as_str(), "ab".to_string(), "xyz".to_string(), true);
    controller.accept_current(&mut editor).unwrap();
    assert_eq!(controller.current_range(), Some((4, 6)));
    controller.skip_current();
    let p = controller.progress();
    assert_eq!(p.replaced + p.skipped + p.remaining, controller.total_matches());
    assert_eq!(p.remaining, 1);
    assert!(!p.finished);
    let summary = controller.cancel(&mut editor).unwrap();
    assert!(summary.cancelled);
    assert_eq!(editor.to_string(), "ab ab ab");
}
