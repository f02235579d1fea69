use altre::error::{
    AltreError, BufferError, ConfigError, EditError, ErrorDisplay, ErrorLevel, ErrorReport, FileError,
    SystemError, SystemInfo, UiError,
};
use std::time::{Duration, Instant};

fn system_info() -> SystemInfo {
    SystemInfo {
        os: "linux".to_string(),
        architecture: "x86_64".to_string(),
        memory_usage: 0,
        version: "0.1.0".to_string(),
    }
}

#[test]
fn test_error_display_creation() {
    let error = AltreError::File(FileError::NotFound { path: "test.txt".to_string() });
    let display = ErrorDisplay::new(&error);
    assert_eq!(display.level, ErrorLevel::Error);
    assert!(display.message.contains("ファイルが見つかりません"));
    assert!(!display.is_expired());
}

#[test]
fn test_error_display_expiry() {
    let error = AltreError::File(FileError::NotFound { path: "test.txt".to_string() });
    let mut display = ErrorDisplay::new(&error);
    assert!(!display.is_expired());
    display.start_time = Instant::now() - Duration::from_secs(6);
    assert!(display.is_expired());
}

#[test]
fn test_fatal_error_detection() {
    let fatal_error = AltreError::System(SystemError::OutOfMemory);
    let display = ErrorDisplay::new(&fatal_error);
    assert_eq!(display.level, ErrorLevel::Fatal);
    assert!(display.message.contains("メモリ不足"));
}

#[test]
fn test_utf8_error_conversion() {
    let bytes: Vec<u8> = vec![0xff, 0xfe];
    let utf8_error = std::str::from_utf8(&bytes).unwrap_err();
    let altre_error: AltreError = utf8_error.into();
    match altre_error {
        AltreError::Buffer(BufferError::Utf8Boundary { position }) => {
            assert_eq!(position, 0);
        }
        _ => panic!("Expected Utf8Boundary error"),
    }
}

#[test]
fn test_error_message_catalog_permission_denied() {
    let error = AltreError::File(FileError::PermissionDenied { path: "/tmp/test".to_string() });
    let display = ErrorDisplay::new(&error);
    assert_eq!(display.level, ErrorLevel::Error);
    assert!(display.message.contains("アクセス権限がありません"));
    assert!(display.message.contains("/tmp/test"));
}

#[test]
fn test_error_report_generation() {
    let error = AltreError::Application("テストエラー".to_string());
    let report = ErrorReport::generate(error, "unit_test", system_info());
    let formatted = report.format_for_developer();
    assert!(formatted.contains("Altre Editor Error Report"));
    assert!(formatted.contains("unit_test"));
    assert!(formatted.contains("テストエラー"));
}

#[test]
fn test_error_display_exact_messages() {
    let d = ErrorDisplay::new(&AltreError::Buffer(BufferError::Utf8Boundary { position: 12 }));
    assert_eq!(d.message, "文字境界エラーが発生しました: 位置 12");
    assert_eq!(d.level, ErrorLevel::Warning);
    let d = ErrorDisplay::new(&AltreError::Ui(UiError::ScreenTooSmall { width: 80, height: 24 }));
    assert_eq!(d.message, "画面サイズが小さすぎます: 80x24");
    let d = ErrorDisplay::new(&AltreError::Config(ConfigError::InvalidValue {
        key: "tab".to_string(),
        value: "x".to_string(),
    }));
    assert_eq!(d.message, "設定値が無効です: tab = x");
    let d = ErrorDisplay::new(&AltreError::Buffer(BufferError::Overflow));
    assert_eq!(d.message, "バッファ容量を超過しました");
    let d = ErrorDisplay::new(&AltreError::Edit(String::new()));
    assert_eq!(d.message, "編集操作でエラーが発生しました");
    let d = ErrorDisplay::new(&AltreError::Buffer(BufferError::Empty));
    assert_eq!(d.message, "無効なカーソル位置です: バッファが空です");
}

#[test]
fn test_edit_error_messages() {
    assert_eq!(EditError::OutOfBounds(7).message(), "Position 7 is out of bounds");
    assert_eq!(EditError::AtBufferEnd.message(), "Cursor at buffer end");
    let e: EditError = BufferError::Overflow.into();
    assert_eq!(e.message(), "Memory allocation failed");
    let a: AltreError = FileError::Io { message: "x".to_string() }.into();
    assert!(matches!(a, AltreError::File(FileError::Io { .. })));
}

#[test]
fn developer_report_shows_errors_and_system_facts_as_debug() {
    let errors = vec![
        AltreError::File(FileError::NotFound { path: "a \"b\"".to_string() }),
        AltreError::Buffer(BufferError::Overflow),
        AltreError::Buffer(BufferError::InvalidCursorPosition { position: 42 }),
        AltreError::Ui(UiError::ScreenTooSmall { width: 80, height: 24 }),
        AltreError::Config(ConfigError::InvalidValue { key: "k".to_string(), value: "v\n".to_string() }),
        AltreError::Edit("x\ty".to_string()),
    ];
    for error in errors {
        let expected_error = format!("\nError: {:?}\n", error);
        let report = ErrorReport::generate(error, "ctx", system_info());
        let formatted = report.format_for_developer();
        assert!(formatted.contains(&expected_error), "{}", formatted);
        let expected_info = format!("\nSystem Info:\n{:?}\n", system_info());
        assert!(formatted.contains(&expected_info), "{}", formatted);
    }
}

#[test]
fn invalid_char_message_shows_the_character_in_debug_form() {
    let error = EditError::InvalidChar('\u{1b}');
    assert_eq!(error.message(), format!("Invalid character: {:?}", '\u{1b}'));
}
