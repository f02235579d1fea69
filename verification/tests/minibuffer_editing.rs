use altre::input::keybinding::{Key, KeyCode, KeyModifiers};
use altre::minibuffer::{MinibufferMode, MinibufferResult, ModernMinibuffer};

fn plain(code: KeyCode) -> Key {
    Key { modifiers: KeyModifiers { ctrl: false, alt: false, shift: false }, code }
}

fn ctrl(c: char) -> Key {
    Key { modifiers: KeyModifiers { ctrl: true, alt: false, shift: false }, code: KeyCode::Char(c) }
}

fn type_text(m: &mut ModernMinibuffer, text: &str) {
    for c in text.chars() {
        m.handle_key(plain(KeyCode::Char(c)));
    }
}

#[test]
fn editing_keys_change_input_at_cursor() {
    let mut m = ModernMinibuffer::new();
    m.start_execute_command();
    type_text(&mut m, "héllo");
    assert_eq!(m.state().input, "héllo");
    assert_eq!(m.state().cursor_pos, 5);
    m.handle_key(plain(KeyCode::Left));
    m.handle_key(plain(KeyCode::Left));
    m.handle_key(plain(KeyCode::Backspace));
    assert_eq!(m.state().input, "hélo");
    m.handle_key(ctrl('a'));
    m.handle_key(plain(KeyCode::Delete));
    assert_eq!(m.state().input, "élo");
    assert_eq!(m.state().cursor_pos, 0);
    m.handle_key(ctrl('e'));
    assert_eq!(m.state().cursor_pos, 3);
    m.handle_key(plain(KeyCode::Right));
    assert_eq!(m.state().cursor_pos, 3);
}

#[test]
fn submit_records_history_and_walks_it() {
    let mut m = ModernMinibuffer::new();
    m.start_execute_command();
    type_text(&mut m, "first");
    assert_eq!(m.handle_key(plain(KeyCode::Enter)), MinibufferResult::Execute("first".to_string()));
    m.start_execute_command();
    type_text(&mut m, "second");
    m.handle_key(plain(KeyCode::Enter));
    m.start_execute_command();
    m.handle_key(ctrl('p'));
    assert_eq!(m.state().input, "second");
    m.handle_key(ctrl('p'));
    assert_eq!(m.state().input, "first");
    m.handle_key(ctrl('p'));
    assert_eq!(m.state().input, "first");
    m.handle_key(ctrl('n'));
    assert_eq!(m.state().input, "second");
    m.handle_key(ctrl('n'));
    assert_eq!(m.state().input, "");
    assert_eq!(m.state().history_index, None);
}

#[test]
fn find_file_submit_and_cancel() {
    let mut m = ModernMinibuffer::new();
    m.start_find_file(Some("a.txt"));
    assert_eq!(m.state().prompt, "Find file: ");
    assert_eq!(m.state().cursor_pos, 5);
    assert_eq!(m.handle_key(plain(KeyCode::Enter)), MinibufferResult::Execute("find-file a.txt".to_string()));
    assert!(!m.is_active());
    m.start_write_file(None);
    assert_eq!(m.handle_key(ctrl('g')), MinibufferResult::Cancel);
    assert!(matches!(m.state().mode, MinibufferMode::Inactive));
}

#[test]
fn supplied_completions_are_capped_and_cycled() {
    let mut m = ModernMinibuffer::new();
    m.start_find_file(Some("sr"));
    assert_eq!(m.completion_request(), Some("sr".to_string()));
    let many: Vec<String> = (0..60).map(|i| format!("src{}", i)).collect();
    m.supply_completions(many);
    assert_eq!(m.state().completions.len(), 50);
    assert_eq!(m.state().selected_completion, Some(0));
    m.handle_key(plain(KeyCode::Up));
    assert_eq!(m.state().selected_completion, Some(49));
    m.handle_key(plain(KeyCode::Down));
    assert_eq!(m.state().selected_completion, Some(0));
    m.handle_key(plain(KeyCode::Tab));
    assert_eq!(m.state().input, "src0");
    assert!(m.state().completions.is_empty());
}

#[test]
fn short_input_asks_no_completion() {
    let mut m = ModernMinibuffer::new();
    m.start_find_file(Some("é"));
    assert_eq!(m.completion_request(), Some("é".to_string()));
    m.start_find_file(Some("a"));
    assert_eq!(m.completion_request(), None);
    m.start_execute_command();
    type_text(&mut m, "abc");
    assert_eq!(m.completion_request(), None);
}
