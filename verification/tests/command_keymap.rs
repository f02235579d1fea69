use altre::input::command_keymap::{KeyCombination, KeyLookupResult, KeyMap, LegacyKeySequence};
use altre::input::keybinding::{KeyBinding, KeyCode, KeyModifiers};

fn ctrl(c: char) -> KeyCombination {
    KeyCombination::ctrl(KeyCode::Char(c))
}

fn command_of(r: KeyLookupResult) -> String {
    match r {
        KeyLookupResult::Command(cmd) => cmd,
        KeyLookupResult::Prefix => panic!("Expected command, got a prefix"),
        KeyLookupResult::Unbound => panic!("Expected command, got nothing bound"),
    }
}

#[test]
fn test_key_combination() {
    let ctrl_f = KeyCombination::ctrl(KeyCode::Char('f'));
    assert_eq!(ctrl_f.code, KeyCode::Char('f'));
    assert_eq!(ctrl_f.modifiers, KeyModifiers { ctrl: true, alt: false, shift: false });
}

#[test]
fn test_key_sequence() {
    let mut seq = LegacyKeySequence::new(vec![]);
    assert!(seq.is_empty());

    seq.push(KeyCombination::ctrl(KeyCode::Char('x')));
    assert_eq!(seq.len(), 1);
    assert!(!seq.is_empty());
}

#[test]
fn test_keymap_basic_commands() {
    let mut keymap = KeyMap::new();
    let result = keymap.process_key(ctrl('f'));
    match result {
        KeyLookupResult::Command(cmd) => assert_eq!(cmd, "forward-char"),
        _ => panic!("Expected command"),
    }
}

#[test]
fn test_keymap_prefix_sequence() {
    let mut keymap = KeyMap::new();
    let result = keymap.process_key(ctrl('x'));
    match result {
        KeyLookupResult::Prefix => {},
        _ => panic!("Expected prefix"),
    }
    let result = keymap.process_key(ctrl('f'));
    match result {
        KeyLookupResult::Command(cmd) => assert_eq!(cmd, "find-file"),
        _ => panic!("Expected command"),
    }
}

#[test]
fn keymap_sequence_starts_over_after_a_command() {
    let mut keymap = KeyMap::new();
    assert!(matches!(keymap.process_key(ctrl('x')), KeyLookupResult::Prefix));
    assert_eq!(keymap.current_sequence().len(), 1);
    assert_eq!(command_of(keymap.process_key(ctrl('s'))), "save-buffer");
    assert!(keymap.current_sequence().is_empty());
    assert!(matches!(keymap.process_key(ctrl('x')), KeyLookupResult::Prefix));
}

#[test]
fn keymap_unbound_key_after_prefix_starts_over() {
    let mut keymap = KeyMap::new();
    assert!(matches!(keymap.process_key(ctrl('x')), KeyLookupResult::Prefix));
    assert!(matches!(keymap.process_key(ctrl('z')), KeyLookupResult::Unbound));
    assert!(keymap.current_sequence().is_empty());
    assert_eq!(command_of(keymap.process_key(ctrl('f'))), "forward-char");
}

#[test]
fn keymap_default_bindings() {
    let mut keymap = KeyMap::default();
    assert_eq!(command_of(keymap.process_key(ctrl('b'))), "backward-char");
    assert_eq!(command_of(keymap.process_key(ctrl('n'))), "next-line");
    assert_eq!(command_of(keymap.process_key(ctrl('p'))), "previous-line");
    assert_eq!(command_of(keymap.process_key(ctrl('d'))), "delete-char");
    assert_eq!(command_of(keymap.process_key(KeyCombination::plain(KeyCode::Backspace))), "delete-backward-char");
    assert!(matches!(keymap.process_key(KeyCombination::alt(KeyCode::Char('f'))), KeyLookupResult::Unbound));
    assert!(matches!(keymap.process_key(ctrl('x')), KeyLookupResult::Prefix));
    assert_eq!(command_of(keymap.process_key(ctrl('c'))), "save-buffers-kill-terminal");
}

#[test]
fn keymap_rebinding_replaces_the_command() {
    let mut keymap = KeyMap::new();
    keymap.bind_global(LegacyKeySequence::single(ctrl('f')), KeyBinding::Command("my-forward".to_string()));
    assert_eq!(command_of(keymap.process_key(ctrl('f'))), "my-forward");
    assert_eq!(command_of(keymap.process_key(ctrl('b'))), "backward-char");
}

#[test]
fn keymap_start_of_a_bound_sequence_waits() {
    let mut keymap = KeyMap::new();
    let a = KeyCombination::plain(KeyCode::Char('a'));
    keymap.bind_global(LegacyKeySequence::new(vec![ctrl('c'), a]), KeyBinding::Command("say-a".to_string()));
    assert!(matches!(keymap.process_key(ctrl('c')), KeyLookupResult::Prefix));
    assert_eq!(command_of(keymap.process_key(a)), "say-a");
}

#[test]
fn keymap_reset_drops_typed_keys() {
    let mut keymap = KeyMap::new();
    assert!(matches!(keymap.process_key(ctrl('x')), KeyLookupResult::Prefix));
    keymap.reset_sequence();
    assert!(keymap.current_sequence().is_empty());
    assert_eq!(command_of(keymap.process_key(ctrl('f'))), "forward-char");
}

#[test]
fn key_sequence_prefixes() {
    let cx_cf = LegacyKeySequence::new(vec![ctrl('x'), ctrl('f')]);
    let cx = LegacyKeySequence::single(ctrl('x'));
    let cf = LegacyKeySequence::single(ctrl('f'));
    assert!(cx_cf.starts_with(&cx));
    assert!(cx_cf.starts_with(&cx_cf));
    assert!(!cx_cf.starts_with(&cf));
    assert!(!cx.starts_with(&cx_cf));
    assert!(cx.is_complete());
    assert!(!LegacyKeySequence::new(vec![]).is_complete());
    assert!(cx.same_keys(&LegacyKeySequence::new(vec![ctrl('x')])));
    assert!(!cx.same_keys(&cx_cf));
}
