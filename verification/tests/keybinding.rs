use altre::input::keybinding::{
    Action, DeleteDirection, Direction, Key, KeyCode, KeyModifiers, KeyParseError, KeyProcessResult, KeySequence,
    ModernKeyMap,
};

#[test]
fn test_modern_keymap_single_key() {
    let mut keymap = ModernKeyMap::new();
    let result = keymap.process_key(Key::ctrl_n());
    assert_eq!(result, KeyProcessResult::Action(Action::MoveCursor(Direction::Down)));
}

#[test]
fn test_modern_keymap_cx_prefix() {
    let mut keymap = ModernKeyMap::new();
    let result1 = keymap.process_key(Key::ctrl_x());
    assert_eq!(result1, KeyProcessResult::PartialMatch);
    let result2 = keymap.process_key(Key::ctrl_f());
    assert_eq!(result2, KeyProcessResult::Action(Action::FileOpen));
}

#[test]
fn test_modern_keymap_insertable_char() {
    let mut keymap = ModernKeyMap::new();
    let key = Key { modifiers: KeyModifiers { ctrl: false, alt: false, shift: false }, code: KeyCode::Char('a') };
    let result = keymap.process_key(key);
    assert_eq!(result, KeyProcessResult::Action(Action::InsertChar('a')));
}

#[test]
fn test_key_sequence_parse() {
    let sequence = KeySequence::parse("C-x C-f").unwrap();
    assert_eq!(sequence.keys.len(), 2);
    assert_eq!(sequence.keys[0], Key::ctrl_x());
    assert_eq!(sequence.keys[1], Key::ctrl_f());
}

#[test]
fn test_key_sequence_parse_errors_and_names() {
    assert_eq!(KeySequence::parse(""), Err(KeyParseError::EmptySequence));
    assert_eq!(KeySequence::parse("C-x Foo"), Err(KeyParseError::UnknownKey("Foo".to_string())));
    assert_eq!(KeySequence::parse("C-あ"), Err(KeyParseError::UnknownKey("あ".to_string())));
    let seq = KeySequence::parse("  M-S-Enter\tBackspace ").unwrap();
    assert_eq!(seq.keys.len(), 2);
    assert_eq!(
        seq.keys[0],
        Key { modifiers: KeyModifiers { ctrl: false, alt: true, shift: true }, code: KeyCode::Enter }
    );
    assert_eq!(seq.keys[1].code, KeyCode::Backspace);
}

#[test]
fn test_system_keys_and_prefix_reset() {
    let mut keymap = ModernKeyMap::new();
    assert_eq!(keymap.process_key(Key::ctrl_c()), KeyProcessResult::NoMatch);
    assert_eq!(keymap.process_key(Key::ctrl_x()), KeyProcessResult::PartialMatch);
    assert!(keymap.is_partial_match());
    keymap.reset_partial_match();
    assert!(!keymap.is_partial_match());
    let bs = Key { modifiers: KeyModifiers { ctrl: false, alt: false, shift: false }, code: KeyCode::Backspace };
    assert_eq!(keymap.process_key(bs), KeyProcessResult::Action(Action::DeleteChar(DeleteDirection::Backward)));
    assert_eq!(keymap.process_key(Key::ctrl_x()), KeyProcessResult::PartialMatch);
    assert_eq!(keymap.process_key(Key::ctrl_n()), KeyProcessResult::NoMatch);
    assert!(!keymap.is_partial_match());
}

#[test]
fn ctrl_x_ctrl_c_quits() {
    let mut km = ModernKeyMap::new();
    assert_eq!(km.process_key(Key::ctrl_x()), KeyProcessResult::PartialMatch);
    assert_eq!(km.process_key(Key::ctrl_c()), KeyProcessResult::Action(Action::Quit));
    assert!(!km.is_partial_match());
}
