use altre::app::keys::{TermKey, TermKeyCode};
use altre::buffer::cursor::CursorPosition;
use altre::gui::keymap::{describe_key_event, KeyConversionError, KeySequencePayload, KeyStrokePayload};
use altre::gui::logging::DebugLogger;
use altre::gui::options::{default_log_path, BackendOptions};
use altre::gui::snapshot::{BufferSnapshot, EditorSnapshot, MinibufferSnapshot, RenderMetadata, ViewportSnapshot};
use altre::minibuffer::system::MinibufferSystem;
use altre::search::types::{HighlightKind, SearchHighlight};
use altre::ui::gui_theme::GuiThemeConfig;
use altre::ui::viewport::ViewportState;
use std::path::PathBuf;

fn stroke(key: &str, ctrl: bool) -> KeyStrokePayload {
    KeyStrokePayload { key: key.into(), ctrl, alt: false, shift: false }
}

#[test]
fn converts_simple_key() {
    let payload = KeyStrokePayload { key: "a".into(), ctrl: false, alt: false, shift: false };
    let event = payload.to_key_event().unwrap();
    assert_eq!(event.code, TermKeyCode::Char('a'));
    assert!(!event.ctrl && !event.alt && !event.shift);
}

#[test]
fn converts_ctrl_key() {
    let payload = KeyStrokePayload { key: "x".into(), ctrl: true, alt: false, shift: false };
    let event = payload.to_key_event().unwrap();
    assert_eq!(event.code, TermKeyCode::Char('x'));
    assert!(event.ctrl);
}

#[test]
fn rejects_unknown_key() {
    let payload = KeyStrokePayload { key: "F13".into(), ctrl: false, alt: false, shift: false };
    assert!(payload.to_key_event().is_err());
}

#[test]
fn converts_sequence_payload() {
    let payload = KeySequencePayload::from_sequence(vec![vec![stroke("x", true)], vec![stroke("f", true)]]);
    let events = payload.into_key_events().expect("キー列の変換に失敗しました");
    assert_eq!(events.len(), 2);
    assert!(events[0].ctrl);
    assert_eq!(events[1].code, TermKeyCode::Char('f'));
}

#[test]
fn named_keys_in_any_case() {
    for (name, code) in [
        ("Enter", TermKeyCode::Enter),
        (" backspace ", TermKeyCode::Backspace),
        ("ESC", TermKeyCode::Esc),
        ("escape", TermKeyCode::Esc),
        ("Left", TermKeyCode::Left),
        ("tab", TermKeyCode::Tab),
    ] {
        assert_eq!(stroke(name, false).to_key_event().unwrap().code, code);
    }
}

#[test]
fn unknown_key_message_names_the_trimmed_key() {
    match stroke(" F13 ", false).to_key_event() {
        Err(err) => {
            assert!(matches!(&err, KeyConversionError::UnsupportedKey(k) if k == "F13"));
            assert_eq!(err.message(), "未対応のキーです: F13");
        }
        Ok(_) => panic!("expected an error"),
    }
    assert!(stroke("é", false).to_key_event().is_err());
}

#[test]
fn sequence_with_unknown_key_fails() {
    let payload = KeySequencePayload::from_strokes(vec![stroke("a", false), stroke("bogus", false)]);
    assert_eq!(payload.sequence.len(), 2);
    let err = payload.into_key_events().unwrap_err();
    assert_eq!(err.message(), "Application error: キー入力の変換に失敗しました: 未対応のキーです: bogus");
}

#[test]
fn sequence_events_keep_modifiers() {
    let payload = KeySequencePayload::from_strokes(vec![
        KeyStrokePayload { key: "x".into(), ctrl: false, alt: true, shift: false },
        stroke("Up", false),
    ]);
    let events = payload.into_key_events().unwrap();
    assert_eq!(
        events,
        vec![
            TermKey { code: TermKeyCode::Char('x'), ctrl: false, alt: true, shift: false },
            TermKey { code: TermKeyCode::Up, ctrl: false, alt: false, shift: false },
        ]
    );
}

#[test]
fn options_merge_prefers_overrides() {
    let base = BackendOptions {
        debug_log_path: Some(PathBuf::from("/a.log")),
        initial_file: Some(PathBuf::from("/a.txt")),
        working_directory: None,
    };
    let overrides = BackendOptions {
        debug_log_path: None,
        initial_file: Some(PathBuf::from("/b.txt")),
        working_directory: Some(PathBuf::from("/w")),
    };
    let merged = base.merged_with(&overrides);
    assert_eq!(merged.debug_log_path, Some(PathBuf::from("/a.log")));
    assert_eq!(merged.initial_file, Some(PathBuf::from("/b.txt")));
    assert_eq!(merged.working_directory, Some(PathBuf::from("/w")));
}

#[test]
fn log_path_given_or_in_home() {
    let given = BackendOptions { debug_log_path: Some(PathBuf::from("/tmp/x.log")), ..BackendOptions::default() };
    assert_eq!(given.resolve_log_path(), Some(PathBuf::from("/tmp/x.log")));
    assert_eq!(default_log_path(None), None);
    assert_eq!(
        default_log_path(Some(PathBuf::from("/home/me"))),
        Some(PathBuf::from("/home/me/.altre-log/debug.log"))
    );
}

#[test]
fn logger_keeps_its_path() {
    let logger = DebugLogger::new(PathBuf::from("/tmp/log.jsonl"));
    assert_eq!(logger.path(), &PathBuf::from("/tmp/log.jsonl"));
}

#[test]
fn buffer_snapshot_splits_lines() {
    let cursor = CursorPosition { char_pos: 3, line: 1, column: 1 };
    let snap = BufferSnapshot::from_text("ab\ncd\n", &cursor);
    assert_eq!(snap.lines, vec!["ab".to_string(), "cd".to_string(), String::new()]);
    assert_eq!((snap.cursor.line, snap.cursor.column), (1, 1));
}

#[test]
fn editor_snapshot_collects_parts() {
    let system = MinibufferSystem::new();
    let metadata = RenderMetadata {
        status_label: "*scratch*".to_string(),
        is_modified: true,
        search_ui: None,
        highlights: vec![SearchHighlight {
            line: 0,
            start_column: 1,
            end_column: 2,
            is_current: true,
            kind: HighlightKind::Selection,
        }],
    };
    let view = ViewportState { top_line: 2, height: 10, scroll_x: 0, width: 40 };
    let snap = EditorSnapshot::new("a", &CursorPosition::new(), &metadata, &system, view, GuiThemeConfig::default());
    assert_eq!(snap.buffer.lines, vec!["a".to_string()]);
    assert_eq!(snap.minibuffer.mode, "inactive");
    assert_eq!(snap.status.label, "*scratch*");
    assert!(snap.status.is_modified);
    assert_eq!(snap.viewport, ViewportSnapshot { top_line: 2, height: 10, scroll_x: 0, width: 40 });
    assert_eq!(snap.theme.app_background, "#1c1c1c");
    assert_eq!(snap.highlights.len(), 1);
    assert_eq!(snap.highlights[0].kind, "selection");
    assert!(snap.search_ui.is_none());
}

#[test]
fn minibuffer_snapshot_names_the_mode() {
    let mut system = MinibufferSystem::new();
    system.start_find_file(Some("/tmp/")).unwrap();
    let snap = MinibufferSnapshot::from_system(&system);
    assert_eq!(snap.mode, "find-file");
    assert_eq!(snap.prompt, "Find file: ");
    assert_eq!(snap.input, "/tmp/");
}

#[test]
fn key_log_describes_presses() {
    let k = TermKey { code: TermKeyCode::Char('x'), ctrl: true, alt: true, shift: false };
    assert_eq!(describe_key_event(&k), "C-M-x");
    let f = TermKey { code: TermKeyCode::F(12), ctrl: false, alt: false, shift: true };
    assert_eq!(describe_key_event(&f), "S-F12");
    let home = TermKey { code: TermKeyCode::Home, ctrl: false, alt: false, shift: false };
    assert_eq!(describe_key_event(&home), "Unknown");
}
