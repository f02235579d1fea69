//! Error types of the editor and their user-facing messages.
use crate::text::{
    char_debug, char_for_debug, concat_str, debug_quoted, decimal, owned, quote_for_debug, u64_to_string,
    usize_to_string,
};
use crate::time::{duration_from_secs, duration_nanos, elapsed_nanos, instant_now, system_time_now};
use std::time::{Duration, Instant, SystemTime};
use vstd::prelude::*;

verus! {

/// Errors of file operations.
#[derive(Debug, Clone)]
pub enum FileError {
    NotFound { path: String },
    PermissionDenied { path: String },
    InvalidPath { path: String },
    Encoding { message: String },
    Io { message: String },
}

/// Errors of buffer operations.
#[derive(Debug, Clone, PartialEq, Eq, Structural)]
pub enum BufferError {
    InvalidCursorPosition { position: usize },
    Overflow,
    Utf8Boundary { position: usize },
    Empty,
}

/// Errors of the terminal user interface.
#[derive(Debug, Clone)]
pub enum UiError {
    TerminalInit,
    ScreenTooSmall { width: u16, height: u16 },
    RenderingFailed { component: String },
}

/// Errors of input processing.
#[derive(Debug, Clone)]
pub enum InputError {
    InvalidKeySequence { sequence: String },
    CommandNotFound { command: String },
    InvalidArgument { arg: String },
}

/// Fatal system errors.
#[derive(Debug, Clone)]
pub enum SystemError {
    OutOfMemory,
    FileSystemFull,
    TooManyOpenFiles,
    SystemCallFailed { call: String },
}

/// Errors of the configuration.
#[derive(Debug, Clone)]
pub enum ConfigError {
    InvalidFile { path: String },
    MissingRequired { key: String },
    InvalidValue { key: String, value: String },
}

/// Error of the whole application.
#[derive(Debug, Clone)]
pub enum AltreError {
    File(FileError),
    Buffer(BufferError),
    Ui(UiError),
    Input(InputError),
    System(SystemError),
    Config(ConfigError),
    Application(String),
    Path(String),
    Edit(String),
}

/// Result type of the application.
pub type Result<T> = core::result::Result<T, AltreError>;

/// Severity of an error.
#[derive(Debug, Clone, Copy, PartialEq, Eq, Structural)]
pub enum ErrorLevel {
    Info,
    Warning,
    Error,
    Fatal,
}

/// Errors of editing operations.
#[derive(Debug, Clone)]
pub enum EditError {
    OutOfBounds(usize),
    NotCharBoundary(usize),
    InvalidChar(char),
    AtBufferStart,
    AtBufferEnd,
    BufferError(String),
    OutOfMemory,
    Cancelled,
}

/// The text of an edit error, as its `Display` shows it; characters are
/// shown through their `Debug` form, which only the caller can supply.
pub open spec fn edit_error_text(e: EditError, shown_char: Seq<char>) -> Seq<char> {
    match e {
        EditError::OutOfBounds(p) => "Position "@ + decimal(p as nat) + " is out of bounds"@,
        EditError::NotCharBoundary(p) => "Position "@ + decimal(p as nat)
            + " is not on a character boundary"@,
        EditError::InvalidChar(_) => "Invalid character: "@ + shown_char,
        EditError::AtBufferStart => "Cursor at buffer start"@,
        EditError::AtBufferEnd => "Cursor at buffer end"@,
        EditError::BufferError(m) => "Buffer operation failed: "@ + m@,
        EditError::OutOfMemory => "Memory allocation failed"@,
        EditError::Cancelled => "Operation cancelled"@,
    }
}

/// The character an error shows, in its `Debug` form (nothing for errors
/// about no character).
pub open spec fn shown_char_of(e: EditError) -> Seq<char> {
    match e {
        EditError::InvalidChar(c) => char_debug(c),
        _ => Seq::empty(),
    }
}

impl EditError {
    /// The message of this error (its `Display` text).
    pub fn message(&self) -> (s: String)
        ensures
            s@ == edit_error_text(*self, shown_char_of(*self)),
    {
        match self {
            EditError::OutOfBounds(p) => {
                let s = concat_str("Position ", usize_to_string(*p).as_str());
                concat_str(s.as_str(), " is out of bounds")
            },
            EditError::NotCharBoundary(p) => {
                let s = concat_str("Position ", usize_to_string(*p).as_str());
                concat_str(s.as_str(), " is not on a character boundary")
            },
            EditError::InvalidChar(c) => {
                let shown = char_for_debug(*c);
                let s = concat_str("Invalid character: ", shown.as_str());
                assert(s@ == edit_error_text(*self, shown@));
                s
            },
            EditError::AtBufferStart => owned("Cursor at buffer start"),
            EditError::AtBufferEnd => owned("Cursor at buffer end"),
            EditError::BufferError(m) => concat_str("Buffer operation failed: ", m.as_str()),
            EditError::OutOfMemory => owned("Memory allocation failed"),
            EditError::Cancelled => owned("Operation cancelled"),
        }
    }

    /// The edit error a buffer error stands for.
    pub fn from_buffer_error(error: BufferError) -> (e: EditError)
        ensures
            e == edit_error_of_buffer_error(error),
    {
        match error {
            BufferError::InvalidCursorPosition { position } => EditError::OutOfBounds(position),
            BufferError::Utf8Boundary { position } => EditError::NotCharBoundary(position),
            BufferError::Overflow => EditError::OutOfMemory,
            BufferError::Empty => EditError::AtBufferStart,
        }
    }
}

/// The edit error that stands for a buffer error.
pub open spec fn edit_error_of_buffer_error(error: BufferError) -> EditError {
    match error {
        BufferError::InvalidCursorPosition { position } => EditError::OutOfBounds(position),
        BufferError::Utf8Boundary { position } => EditError::NotCharBoundary(position),
        BufferError::Overflow => EditError::OutOfMemory,
        BufferError::Empty => EditError::AtBufferStart,
    }
}

/// The `Display` text of an application error.
pub open spec fn altre_error_text(e: AltreError) -> Seq<char> {
    match e {
        AltreError::File(_) => "File operation failed"@,
        AltreError::Buffer(_) => "Buffer operation failed"@,
        AltreError::Ui(_) => "UI operation failed"@,
        AltreError::Input(_) => "Input processing failed"@,
        AltreError::System(_) => "System error"@,
        AltreError::Config(_) => "Configuration error"@,
        AltreError::Application(m) => "Application error: "@ + m@,
        AltreError::Path(m) => "Path error: "@ + m@,
        AltreError::Edit(m) => "Edit error: "@ + m@,
    }
}

impl AltreError {
    /// The text of this error (its `Display` text).
    pub fn message(&self) -> (r: String)
        ensures
            r@ == altre_error_text(*self),
    {
        match self {
            AltreError::File(_) => owned("File operation failed"),
            AltreError::Buffer(_) => owned("Buffer operation failed"),
            AltreError::Ui(_) => owned("UI operation failed"),
            AltreError::Input(_) => owned("Input processing failed"),
            AltreError::System(_) => owned("System error"),
            AltreError::Config(_) => owned("Configuration error"),
            AltreError::Application(m) => concat_str("Application error: ", m.as_str()),
            AltreError::Path(m) => concat_str("Path error: ", m.as_str()),
            AltreError::Edit(m) => concat_str("Edit error: ", m.as_str()),
        }
    }

    /// An application error carrying the message of an edit error.
    pub fn from_edit(error: EditError) -> (e: AltreError)
        ensures
            e matches AltreError::Edit(m) && m@ == edit_error_text(error, shown_char_of(error)),
    {
        AltreError::Edit(error.message())
    }

    /// The application error wrapping a buffer error.
    pub fn from_buffer(error: BufferError) -> (e: AltreError)
        ensures
            e == AltreError::Buffer(error),
    {
        AltreError::Buffer(error)
    }

    /// Whether this is a fatal system error.
    pub fn is_system(&self) -> (r: bool)
        ensures
            r == (self is System),
    {
        match self {
            AltreError::System(_) => true,
            _ => false,
        }
    }
}


/// Entries of the message catalog.
#[derive(Debug, Clone, Copy, PartialEq, Eq, Structural)]
pub enum MessageKey {
    FileNotFound,
    PermissionDenied,
    InvalidPath,
    EncodingError,
    IoError,
    BufferInvalidCursor,
    BufferUtf8,
    BufferOverflow,
    SystemOutOfMemory,
    SystemDiskFull,
    SystemTooManyFiles,
    SystemCallFailed,
    InputInvalidCommand,
    InputInvalidKeySequence,
    InputInvalidArgument,
    UiTerminalInit,
    UiScreenTooSmall,
    UiRenderingFailed,
    ConfigInvalidFile,
    ConfigMissingRequired,
    ConfigInvalidValue,
    Application,
    Path,
    Edit,
}

/// The catalog: the Japanese text and the level of each entry.
pub open spec fn catalog(key: MessageKey) -> (Seq<char>, ErrorLevel) {
    match key {
        MessageKey::FileNotFound => ("ファイルが見つかりません"@, ErrorLevel::Error),
        MessageKey::PermissionDenied => ("アクセス権限がありません"@, ErrorLevel::Error),
        MessageKey::InvalidPath => ("無効なパスです"@, ErrorLevel::Error),
        MessageKey::EncodingError => ("文字エンコーディングエラー"@, ErrorLevel::Error),
        MessageKey::IoError => ("ファイル操作中にエラーが発生しました"@, ErrorLevel::Error),
        MessageKey::BufferInvalidCursor => ("無効なカーソル位置です"@, ErrorLevel::Error),
        MessageKey::BufferUtf8 => ("文字境界エラーが発生しました"@, ErrorLevel::Warning),
        MessageKey::BufferOverflow => ("バッファ容量を超過しました"@, ErrorLevel::Error),
        MessageKey::SystemOutOfMemory => ("メモリ不足のため終了します"@, ErrorLevel::Fatal),
        MessageKey::SystemDiskFull => ("ディスク容量不足のため終了します"@, ErrorLevel::Fatal),
        MessageKey::SystemTooManyFiles => ("開いているファイルが多すぎます"@, ErrorLevel::Fatal),
        MessageKey::SystemCallFailed => ("システムコールが失敗しました"@, ErrorLevel::Error),
        MessageKey::InputInvalidCommand => ("コマンドが見つかりません"@, ErrorLevel::Error),
        MessageKey::InputInvalidKeySequence => ("無効なキーシーケンスです"@, ErrorLevel::Warning),
        MessageKey::InputInvalidArgument => ("無効な引数です"@, ErrorLevel::Error),
        MessageKey::UiTerminalInit => ("ターミナル初期化に失敗しました"@, ErrorLevel::Fatal),
        MessageKey::UiScreenTooSmall => ("画面サイズが小さすぎます"@, ErrorLevel::Error),
        MessageKey::UiRenderingFailed => ("描画に失敗しました"@, ErrorLevel::Error),
        MessageKey::ConfigInvalidFile => ("無効な設定ファイルです"@, ErrorLevel::Error),
        MessageKey::ConfigMissingRequired => ("必須設定が不足しています"@, ErrorLevel::Error),
        MessageKey::ConfigInvalidValue => ("設定値が無効です"@, ErrorLevel::Error),
        MessageKey::Application => ("アプリケーションエラーが発生しました"@, ErrorLevel::Error),
        MessageKey::Path => ("パスエラーが発生しました"@, ErrorLevel::Error),
        MessageKey::Edit => ("編集操作でエラーが発生しました"@, ErrorLevel::Error),
    }
}

fn catalog_entry(key: MessageKey) -> (r: (&'static str, ErrorLevel))
    ensures
        r.0@ == catalog(key).0,
        r.1 == catalog(key).1,
{
    match key {
        MessageKey::FileNotFound => ("ファイルが見つかりません", ErrorLevel::Error),
        MessageKey::PermissionDenied => ("アクセス権限がありません", ErrorLevel::Error),
        MessageKey::InvalidPath => ("無効なパスです", ErrorLevel::Error),
        MessageKey::EncodingError => ("文字エンコーディングエラー", ErrorLevel::Error),
        MessageKey::IoError => ("ファイル操作中にエラーが発生しました", ErrorLevel::Error),
        MessageKey::BufferInvalidCursor => ("無効なカーソル位置です", ErrorLevel::Error),
        MessageKey::BufferUtf8 => ("文字境界エラーが発生しました", ErrorLevel::Warning),
        MessageKey::BufferOverflow => ("バッファ容量を超過しました", ErrorLevel::Error),
        MessageKey::SystemOutOfMemory => ("メモリ不足のため終了します", ErrorLevel::Fatal),
        MessageKey::SystemDiskFull => ("ディスク容量不足のため終了します", ErrorLevel::Fatal),
        MessageKey::SystemTooManyFiles => ("開いているファイルが多すぎます", ErrorLevel::Fatal),
        MessageKey::SystemCallFailed => ("システムコールが失敗しました", ErrorLevel::Error),
        MessageKey::InputInvalidCommand => ("コマンドが見つかりません", ErrorLevel::Error),
        MessageKey::InputInvalidKeySequence => ("無効なキーシーケンスです", ErrorLevel::Warning),
        MessageKey::InputInvalidArgument => ("無効な引数です", ErrorLevel::Error),
        MessageKey::UiTerminalInit => ("ターミナル初期化に失敗しました", ErrorLevel::Fatal),
        MessageKey::UiScreenTooSmall => ("画面サイズが小さすぎます", ErrorLevel::Error),
        MessageKey::UiRenderingFailed => ("描画に失敗しました", ErrorLevel::Error),
        MessageKey::ConfigInvalidFile => ("無効な設定ファイルです", ErrorLevel::Error),
        MessageKey::ConfigMissingRequired => ("必須設定が不足しています", ErrorLevel::Error),
        MessageKey::ConfigInvalidValue => ("設定値が無効です", ErrorLevel::Error),
        MessageKey::Application => ("アプリケーションエラーが発生しました", ErrorLevel::Error),
        MessageKey::Path => ("パスエラーが発生しました", ErrorLevel::Error),
        MessageKey::Edit => ("編集操作でエラーが発生しました", ErrorLevel::Error),
    }
}

/// A catalog text followed by `": "` and the detail, when there is a
/// non-empty detail.
pub open spec fn with_detail(text: Seq<char>, detail: Option<Seq<char>>) -> Seq<char> {
    match detail {
        Some(d) => if d.len() > 0 {
            text + ": "@ + d
        } else {
            text
        },
        None => text,
    }
}

/// The catalog entry an error is shown with.
pub open spec fn error_key(e: AltreError) -> MessageKey {
    match e {
        AltreError::File(f) => match f {
            FileError::NotFound { .. } => MessageKey::FileNotFound,
            FileError::PermissionDenied { .. } => MessageKey::PermissionDenied,
            FileError::InvalidPath { .. } => MessageKey::InvalidPath,
            FileError::Encoding { .. } => MessageKey::EncodingError,
            FileError::Io { .. } => MessageKey::IoError,
        },
        AltreError::Buffer(b) => match b {
            BufferError::InvalidCursorPosition { .. } => MessageKey::BufferInvalidCursor,
            BufferError::Utf8Boundary { .. } => MessageKey::BufferUtf8,
            BufferError::Overflow => MessageKey::BufferOverflow,
            BufferError::Empty => MessageKey::BufferInvalidCursor,
        },
        AltreError::System(x) => match x {
            SystemError::OutOfMemory => MessageKey::SystemOutOfMemory,
            SystemError::FileSystemFull => MessageKey::SystemDiskFull,
            SystemError::TooManyOpenFiles => MessageKey::SystemTooManyFiles,
            SystemError::SystemCallFailed { .. } => MessageKey::SystemCallFailed,
        },
        AltreError::Input(i) => match i {
            InputError::CommandNotFound { .. } => MessageKey::InputInvalidCommand,
            InputError::InvalidKeySequence { .. } => MessageKey::InputInvalidKeySequence,
            InputError::InvalidArgument { .. } => MessageKey::InputInvalidArgument,
        },
        AltreError::Ui(u) => match u {
            UiError::TerminalInit => MessageKey::UiTerminalInit,
            UiError::ScreenTooSmall { .. } => MessageKey::UiScreenTooSmall,
            UiError::RenderingFailed { .. } => MessageKey::UiRenderingFailed,
        },
        AltreError::Config(c) => match c {
            ConfigError::InvalidFile { .. } => MessageKey::ConfigInvalidFile,
            ConfigError::MissingRequired { .. } => MessageKey::ConfigMissingRequired,
            ConfigError::InvalidValue { .. } => MessageKey::ConfigInvalidValue,
        },
        AltreError::Application(_) => MessageKey::Application,
        AltreError::Path(_) => MessageKey::Path,
        AltreError::Edit(_) => MessageKey::Edit,
    }
}

/// The detail an error is shown with.
pub open spec fn error_detail(e: AltreError) -> Option<Seq<char>> {
    match e {
        AltreError::File(f) => match f {
            FileError::NotFound { path } => Some(path@),
            FileError::PermissionDenied { path } => Some(path@),
            FileError::InvalidPath { path } => Some(path@),
            FileError::Encoding { message } => Some(message@),
            FileError::Io { message } => Some(message@),
        },
        AltreError::Buffer(b) => match b {
            BufferError::InvalidCursorPosition { position } => Some(decimal(position as nat)),
            BufferError::Utf8Boundary { position } => Some("位置 "@ + decimal(position as nat)),
            BufferError::Overflow => None,
            BufferError::Empty => Some("バッファが空です"@),
        },
        AltreError::System(x) => match x {
            SystemError::SystemCallFailed { call } => Some(call@),
            _ => None,
        },
        AltreError::Input(i) => match i {
            InputError::CommandNotFound { command } => Some(command@),
            InputError::InvalidKeySequence { sequence } => Some(sequence@),
            InputError::InvalidArgument { arg } => Some(arg@),
        },
        AltreError::Ui(u) => match u {
            UiError::TerminalInit => None,
            UiError::ScreenTooSmall { width, height } => Some(
                decimal(width as nat) + "x"@ + decimal(height as nat),
            ),
            UiError::RenderingFailed { component } => Some(component@),
        },
        AltreError::Config(c) => match c {
            ConfigError::InvalidFile { path } => Some(path@),
            ConfigError::MissingRequired { key } => Some(key@),
            ConfigError::InvalidValue { key, value } => Some(key@ + " = "@ + value@),
        },
        AltreError::Application(m) => Some(m@),
        AltreError::Path(m) => Some(m@),
        AltreError::Edit(m) => Some(m@),
    }
}

/// The message shown for an error.
pub open spec fn error_message(e: AltreError) -> Seq<char> {
    with_detail(catalog(error_key(e)).0, error_detail(e))
}

/// The level an error is shown with.
pub open spec fn error_level(e: AltreError) -> ErrorLevel {
    catalog(error_key(e)).1
}

/// The catalog text of `key` with `detail` appended.
fn compose(key: MessageKey, detail: Option<String>) -> (r: (String, ErrorLevel))
    ensures
        r.0@ == with_detail(catalog(key).0, match detail {
            Some(d) => Some(d@),
            None => None,
        }),
        r.1 == catalog(key).1,
{
    let (text, level) = catalog_entry(key);
    let message = match detail {
        Some(d) => if d.as_str().is_empty() {
            owned(text)
        } else {
            let head = concat_str(text, ": ");
            concat_str(head.as_str(), d.as_str())
        },
        None => owned(text),
    };
    (message, level)
}

/// `"a" + sep + "b"` as a string.
fn joined(a: &str, sep: &str, b: &str) -> (r: String)
    ensures
        r@ == a@ + sep@ + b@,
{
    let head = concat_str(a, sep);
    concat_str(head.as_str(), b)
}

/// What the status line shows for an error, and for how long.
#[derive(Debug)]
pub struct ErrorDisplay {
    pub message: String,
    pub level: ErrorLevel,
    pub start_time: Instant,
    pub duration: Duration,
}

/// Seconds an error stays on display.
pub const ERROR_DISPLAY_SECS: u64 = 5;

impl ErrorDisplay {
    /// The display of `error`, starting now, for five seconds.
    pub fn new(error: &AltreError) -> (r: Self)
        ensures
            r.message@ == error_message(*error),
            r.level == error_level(*error),
    {
        let (message, level) = Self::format_error(error);
        Self {
            message,
            level,
            start_time: instant_now(),
            duration: duration_from_secs(ERROR_DISPLAY_SECS),
        }
    }

    fn format_error(error: &AltreError) -> (r: (String, ErrorLevel))
        ensures
            r.0@ == error_message(*error),
            r.1 == error_level(*error),
    {
        match error {
            AltreError::File(f) => match f {
                FileError::NotFound { path } => compose(MessageKey::FileNotFound, Some(path.clone())),
                FileError::PermissionDenied { path } => compose(MessageKey::PermissionDenied, Some(path.clone())),
                FileError::InvalidPath { path } => compose(MessageKey::InvalidPath, Some(path.clone())),
                FileError::Encoding { message } => compose(MessageKey::EncodingError, Some(message.clone())),
                FileError::Io { message } => compose(MessageKey::IoError, Some(message.clone())),
            },
            AltreError::Buffer(b) => match b {
                BufferError::InvalidCursorPosition { position } => compose(
                    MessageKey::BufferInvalidCursor,
                    Some(usize_to_string(*position)),
                ),
                BufferError::Utf8Boundary { position } => {
                    let d = concat_str("位置 ", usize_to_string(*position).as_str());
                    compose(MessageKey::BufferUtf8, Some(d))
                },
                BufferError::Overflow => compose(MessageKey::BufferOverflow, None),
                BufferError::Empty => compose(MessageKey::BufferInvalidCursor, Some(owned("バッファが空です"))),
            },
            AltreError::System(x) => match x {
                SystemError::OutOfMemory => compose(MessageKey::SystemOutOfMemory, None),
                SystemError::FileSystemFull => compose(MessageKey::SystemDiskFull, None),
                SystemError::TooManyOpenFiles => compose(MessageKey::SystemTooManyFiles, None),
                SystemError::SystemCallFailed { call } => compose(MessageKey::SystemCallFailed, Some(call.clone())),
            },
            AltreError::Input(i) => match i {
                InputError::CommandNotFound { command } => compose(MessageKey::InputInvalidCommand, Some(command.clone())),
                InputError::InvalidKeySequence { sequence } => compose(
                    MessageKey::InputInvalidKeySequence,
                    Some(sequence.clone()),
                ),
                InputError::InvalidArgument { arg } => compose(MessageKey::InputInvalidArgument, Some(arg.clone())),
            },
            AltreError::Ui(u) => match u {
                UiError::TerminalInit => compose(MessageKey::UiTerminalInit, None),
                UiError::ScreenTooSmall { width, height } => {
                    let w = usize_to_string(*width as usize);
                    let h = usize_to_string(*height as usize);
                    compose(MessageKey::UiScreenTooSmall, Some(joined(w.as_str(), "x", h.as_str())))
                },
                UiError::RenderingFailed { component } => compose(
                    MessageKey::UiRenderingFailed,
                    Some(component.clone()),
                ),
            },
            AltreError::Config(c) => match c {
                ConfigError::InvalidFile { path } => compose(MessageKey::ConfigInvalidFile, Some(path.clone())),
                ConfigError::MissingRequired { key } => compose(MessageKey::ConfigMissingRequired, Some(key.clone())),
                ConfigError::InvalidValue { key, value } => compose(
                    MessageKey::ConfigInvalidValue,
                    Some(joined(key.as_str(), " = ", value.as_str())),
                ),
            },
            AltreError::Application(m) => compose(MessageKey::Application, Some(m.clone())),
            AltreError::Path(m) => compose(MessageKey::Path, Some(m.clone())),
            AltreError::Edit(m) => compose(MessageKey::Edit, Some(m.clone())),
        }
    }

    /// Whether the display time has run out.
    pub fn is_expired(&self) -> (r: bool) {
        display_time_over(elapsed_nanos(&self.start_time), duration_nanos(&self.duration))
    }
}

/// A display that has been shown for `elapsed` of its `duration`
/// nanoseconds has run out when `elapsed` reached `duration`.
pub fn display_time_over(elapsed: u128, duration: u128) -> (r: bool)
    ensures
        r == (elapsed >= duration),
{
    elapsed >= duration
}

/// Facts about the system an error report records.
#[derive(Debug, Clone)]
pub struct SystemInfo {
    pub os: String,
    pub architecture: String,
    pub memory_usage: u64,
    pub version: String,
}

/// A report of an error for developers.
#[derive(Debug)]
pub struct ErrorReport {
    pub error: AltreError,
    pub timestamp: SystemTime,
    pub context: String,
    pub stack_trace: String,
    pub system_info: SystemInfo,
}

/// What `{:?}` writes for a point of the system clock (std prints the
/// value it holds, seconds and nanoseconds).
pub uninterp spec fn system_time_text(t: SystemTime) -> Seq<char>;

/// `<SystemTime as Debug>`: the rendering of a point of the system clock.
#[verifier::external_body]
fn system_time_debug(t: &SystemTime) -> (r: String)
    ensures
        r@ == system_time_text(*t),
{
    format!("{:?}", t)
}

/// A struct-like variant with one field, as `{:?}` writes it.
pub open spec fn debug_struct1(v: Seq<char>, f: Seq<char>, x: Seq<char>) -> Seq<char> {
    v + " { "@ + f + ": "@ + x + " }"@
}

/// A struct-like variant with two fields, as `{:?}` writes it.
pub open spec fn debug_struct2(v: Seq<char>, f1: Seq<char>, x1: Seq<char>, f2: Seq<char>, x2: Seq<char>) -> Seq<char> {
    v + " { "@ + f1 + ": "@ + x1 + ", "@ + f2 + ": "@ + x2 + " }"@
}

/// A tuple variant with one field, as `{:?}` writes it.
pub open spec fn debug_tuple1(v: Seq<char>, x: Seq<char>) -> Seq<char> {
    v + "("@ + x + ")"@
}

fn render_struct1(v: &str, f: &str, x: &str) -> (r: String)
    ensures
        r@ == debug_struct1(v@, f@, x@),
{
    let a = concat_str(v, " { ");
    let b = concat_str(a.as_str(), f);
    let c = concat_str(b.as_str(), ": ");
    let d = concat_str(c.as_str(), x);
    concat_str(d.as_str(), " }")
}

fn render_struct2(v: &str, f1: &str, x1: &str, f2: &str, x2: &str) -> (r: String)
    ensures
        r@ == debug_struct2(v@, f1@, x1@, f2@, x2@),
{
    let a = concat_str(v, " { ");
    let b = concat_str(a.as_str(), f1);
    let c = concat_str(b.as_str(), ": ");
    let d = concat_str(c.as_str(), x1);
    let e = concat_str(d.as_str(), ", ");
    let g = concat_str(e.as_str(), f2);
    let h = concat_str(g.as_str(), ": ");
    let i = concat_str(h.as_str(), x2);
    concat_str(i.as_str(), " }")
}

fn render_tuple1(v: &str, x: &str) -> (r: String)
    ensures
        r@ == debug_tuple1(v@, x@),
{
    let a = concat_str(v, "(");
    let b = concat_str(a.as_str(), x);
    concat_str(b.as_str(), ")")
}

/// A FileError as `{:?}` writes it.
pub open spec fn file_error_debug(e: FileError) -> Seq<char> {
    match e {
        FileError::NotFound { path } => debug_struct1("NotFound"@, "path"@, debug_quoted(path@)),
        FileError::PermissionDenied { path } => debug_struct1("PermissionDenied"@, "path"@, debug_quoted(path@)),
        FileError::InvalidPath { path } => debug_struct1("InvalidPath"@, "path"@, debug_quoted(path@)),
        FileError::Encoding { message } => debug_struct1("Encoding"@, "message"@, debug_quoted(message@)),
        FileError::Io { message } => debug_struct1("Io"@, "message"@, debug_quoted(message@)),
    }
}

fn render_file_error_debug(e: &FileError) -> (r: String)
    ensures
        r@ == file_error_debug(*e),
{
    match e {
        FileError::NotFound { path } => {
            let x = quote_for_debug(path.as_str());
            render_struct1("NotFound", "path", x.as_str())
        },
        FileError::PermissionDenied { path } => {
            let x = quote_for_debug(path.as_str());
            render_struct1("PermissionDenied", "path", x.as_str())
        },
        FileError::InvalidPath { path } => {
            let x = quote_for_debug(path.as_str());
            render_struct1("InvalidPath", "path", x.as_str())
        },
        FileError::Encoding { message } => {
            let x = quote_for_debug(message.as_str());
            render_struct1("Encoding", "message", x.as_str())
        },
        FileError::Io { message } => {
            let x = quote_for_debug(message.as_str());
            render_struct1("Io", "message", x.as_str())
        },
    }
}

/// A BufferError as `{:?}` writes it.
pub open spec fn buffer_error_debug(e: BufferError) -> Seq<char> {
    match e {
        BufferError::InvalidCursorPosition { position } => debug_struct1("InvalidCursorPosition"@, "position"@, decimal(position as nat)),
        BufferError::Overflow => "Overflow"@,
        BufferError::Utf8Boundary { position } => debug_struct1("Utf8Boundary"@, "position"@, decimal(position as nat)),
        BufferError::Empty => "Empty"@,
    }
}

fn render_buffer_error_debug(e: &BufferError) -> (r: String)
    ensures
        r@ == buffer_error_debug(*e),
{
    match e {
        BufferError::InvalidCursorPosition { position } => {
            let x = usize_to_string(*position);
            render_struct1("InvalidCursorPosition", "position", x.as_str())
        },
        BufferError::Overflow => owned("Overflow"),
        BufferError::Utf8Boundary { position } => {
            let x = usize_to_string(*position);
            render_struct1("Utf8Boundary", "position", x.as_str())
        },
        BufferError::Empty => owned("Empty"),
    }
}

/// A UiError as `{:?}` writes it.
pub open spec fn ui_error_debug(e: UiError) -> Seq<char> {
    match e {
        UiError::TerminalInit => "TerminalInit"@,
        UiError::ScreenTooSmall { width, height } => debug_struct2("ScreenTooSmall"@, "width"@, decimal(width as nat), "height"@, decimal(height as nat)),
        UiError::RenderingFailed { component } => debug_struct1("RenderingFailed"@, "component"@, debug_quoted(component@)),
    }
}

fn render_ui_error_debug(e: &UiError) -> (r: String)
    ensures
        r@ == ui_error_debug(*e),
{
    match e {
        UiError::TerminalInit => owned("TerminalInit"),
        UiError::ScreenTooSmall { width, height } => {
            let x1 = usize_to_string(*width as usize);
            let x2 = usize_to_string(*height as usize);
            render_struct2("ScreenTooSmall", "width", x1.as_str(), "height", x2.as_str())
        },
        UiError::RenderingFailed { component } => {
            let x = quote_for_debug(component.as_str());
            render_struct1("RenderingFailed", "component", x.as_str())
        },
    }
}

/// A InputError as `{:?}` writes it.
pub open spec fn input_error_debug(e: InputError) -> Seq<char> {
    match e {
        InputError::InvalidKeySequence { sequence } => debug_struct1("InvalidKeySequence"@, "sequence"@, debug_quoted(sequence@)),
        InputError::CommandNotFound { command } => debug_struct1("CommandNotFound"@, "command"@, debug_quoted(command@)),
        InputError::InvalidArgument { arg } => debug_struct1("InvalidArgument"@, "arg"@, debug_quoted(arg@)),
    }
}

fn render_input_error_debug(e: &InputError) -> (r: String)
    ensures
        r@ == input_error_debug(*e),
{
    match e {
        InputError::InvalidKeySequence { sequence } => {
            let x = quote_for_debug(sequence.as_str());
            render_struct1("InvalidKeySequence", "sequence", x.as_str())
        },
        InputError::CommandNotFound { command } => {
            let x = quote_for_debug(command.as_str());
            render_struct1("CommandNotFound", "command", x.as_str())
        },
        InputError::InvalidArgument { arg } => {
            let x = quote_for_debug(arg.as_str());
            render_struct1("InvalidArgument", "arg", x.as_str())
        },
    }
}

/// A SystemError as `{:?}` writes it.
pub open spec fn system_error_debug(e: SystemError) -> Seq<char> {
    match e {
        SystemError::OutOfMemory => "OutOfMemory"@,
        SystemError::FileSystemFull => "FileSystemFull"@,
        SystemError::TooManyOpenFiles => "TooManyOpenFiles"@,
        SystemError::SystemCallFailed { call } => debug_struct1("SystemCallFailed"@, "call"@, debug_quoted(call@)),
    }
}

fn render_system_error_debug(e: &SystemError) -> (r: String)
    ensures
        r@ == system_error_debug(*e),
{
    match e {
        SystemError::OutOfMemory => owned("OutOfMemory"),
        SystemError::FileSystemFull => owned("FileSystemFull"),
        SystemError::TooManyOpenFiles => owned("TooManyOpenFiles"),
        SystemError::SystemCallFailed { call } => {
            let x = quote_for_debug(call.as_str());
            render_struct1("SystemCallFailed", "call", x.as_str())
        },
    }
}

/// A ConfigError as `{:?}` writes it.
pub open spec fn config_error_debug(e: ConfigError) -> Seq<char> {
    match e {
        ConfigError::InvalidFile { path } => debug_struct1("InvalidFile"@, "path"@, debug_quoted(path@)),
        ConfigError::MissingRequired { key } => debug_struct1("MissingRequired"@, "key"@, debug_quoted(key@)),
        ConfigError::InvalidValue { key, value } => debug_struct2("InvalidValue"@, "key"@, debug_quoted(key@), "value"@, debug_quoted(value@)),
    }
}

fn render_config_error_debug(e: &ConfigError) -> (r: String)
    ensures
        r@ == config_error_debug(*e),
{
    match e {
        ConfigError::InvalidFile { path } => {
            let x = quote_for_debug(path.as_str());
            render_struct1("InvalidFile", "path", x.as_str())
        },
        ConfigError::MissingRequired { key } => {
            let x = quote_for_debug(key.as_str());
            render_struct1("MissingRequired", "key", x.as_str())
        },
        ConfigError::InvalidValue { key, value } => {
            let x1 = quote_for_debug(key.as_str());
            let x2 = quote_for_debug(value.as_str());
            render_struct2("InvalidValue", "key", x1.as_str(), "value", x2.as_str())
        },
    }
}

/// An application error as `{:?}` writes it.
pub open spec fn altre_error_debug(e: AltreError) -> Seq<char> {
    match e {
        AltreError::File(x) => debug_tuple1("File"@, file_error_debug(x)),
        AltreError::Buffer(x) => debug_tuple1("Buffer"@, buffer_error_debug(x)),
        AltreError::Ui(x) => debug_tuple1("Ui"@, ui_error_debug(x)),
        AltreError::Input(x) => debug_tuple1("Input"@, input_error_debug(x)),
        AltreError::System(x) => debug_tuple1("System"@, system_error_debug(x)),
        AltreError::Config(x) => debug_tuple1("Config"@, config_error_debug(x)),
        AltreError::Application(m) => debug_tuple1("Application"@, debug_quoted(m@)),
        AltreError::Path(m) => debug_tuple1("Path"@, debug_quoted(m@)),
        AltreError::Edit(m) => debug_tuple1("Edit"@, debug_quoted(m@)),
    }
}

fn render_altre_error_debug(e: &AltreError) -> (r: String)
    ensures
        r@ == altre_error_debug(*e),
{
    match e {
        AltreError::File(x) => {
            let inner = render_file_error_debug(x);
            render_tuple1("File", inner.as_str())
        },
        AltreError::Buffer(x) => {
            let inner = render_buffer_error_debug(x);
            render_tuple1("Buffer", inner.as_str())
        },
        AltreError::Ui(x) => {
            let inner = render_ui_error_debug(x);
            render_tuple1("Ui", inner.as_str())
        },
        AltreError::Input(x) => {
            let inner = render_input_error_debug(x);
            render_tuple1("Input", inner.as_str())
        },
        AltreError::System(x) => {
            let inner = render_system_error_debug(x);
            render_tuple1("System", inner.as_str())
        },
        AltreError::Config(x) => {
            let inner = render_config_error_debug(x);
            render_tuple1("Config", inner.as_str())
        },
        AltreError::Application(m) => {
            let inner = quote_for_debug(m.as_str());
            render_tuple1("Application", inner.as_str())
        },
        AltreError::Path(m) => {
            let inner = quote_for_debug(m.as_str());
            render_tuple1("Path", inner.as_str())
        },
        AltreError::Edit(m) => {
            let inner = quote_for_debug(m.as_str());
            render_tuple1("Edit", inner.as_str())
        },
    }
}

/// The system facts as `{:?}` writes them.
pub open spec fn system_info_debug_text(i: SystemInfo) -> Seq<char> {
    "SystemInfo { os: "@ + debug_quoted(i.os@) + ", architecture: "@ + debug_quoted(i.architecture@)
        + ", memory_usage: "@ + decimal(i.memory_usage as nat) + ", version: "@ + debug_quoted(i.version@) + " }"@
}

fn render_system_info_debug(i: &SystemInfo) -> (r: String)
    ensures
        r@ == system_info_debug_text(*i),
{
    let os = quote_for_debug(i.os.as_str());
    let arch = quote_for_debug(i.architecture.as_str());
    let mem = u64_to_string(i.memory_usage);
    let ver = quote_for_debug(i.version.as_str());
    let a = concat_str("SystemInfo { os: ", os.as_str());
    let b = concat_str(a.as_str(), ", architecture: ");
    let c = concat_str(b.as_str(), arch.as_str());
    let d = concat_str(c.as_str(), ", memory_usage: ");
    let e = concat_str(d.as_str(), mem.as_str());
    let f = concat_str(e.as_str(), ", version: ");
    let g = concat_str(f.as_str(), ver.as_str());
    concat_str(g.as_str(), " }")
}

/// `std::backtrace::Backtrace::capture`, rendered; it is empty of frames
/// unless backtraces are enabled in the environment.
#[verifier::external_body]
fn capture_backtrace() -> String {
    format!("{}", std::backtrace::Backtrace::capture())
}

/// The fixed lines of a developer report around its parts.
pub open spec fn report_text(
    time: Seq<char>,
    context: Seq<char>,
    error: Seq<char>,
    trace: Seq<char>,
    info: Seq<char>,
) -> Seq<char> {
    "=== Altre Editor Error Report ===\nTime: "@ + time + "\nContext: "@ + context + "\nError: "@ + error
        + "\nStack Trace:\n"@ + trace + "\nSystem Info:\n"@ + info + "\n================================"@
}

impl ErrorReport {
    /// A report of `error` in `context`, taken now; the system facts are
    /// gathered by the caller.
    pub fn generate(error: AltreError, context: &str, system_info: SystemInfo) -> (r: Self)
        ensures
            r.error == error,
            r.context@ == context@,
            r.system_info == system_info,
    {
        Self {
            error,
            timestamp: system_time_now(),
            context: owned(context),
            stack_trace: capture_backtrace(),
            system_info,
        }
    }

    /// The report as text for developers.
    pub fn format_for_developer(&self) -> (r: String)
        ensures
            r@ == report_text(
                system_time_text(self.timestamp),
                self.context@,
                altre_error_debug(self.error),
                self.stack_trace@,
                system_info_debug_text(self.system_info),
            ),
    {
        let time = system_time_debug(&self.timestamp);
        let error = render_altre_error_debug(&self.error);
        let info = render_system_info_debug(&self.system_info);
        let mut r = concat_str("=== Altre Editor Error Report ===\nTime: ", time.as_str());
        r = joined(r.as_str(), "\nContext: ", self.context.as_str());
        r = joined(r.as_str(), "\nError: ", error.as_str());
        r = joined(r.as_str(), "\nStack Trace:\n", self.stack_trace.as_str());
        r = joined(r.as_str(), "\nSystem Info:\n", info.as_str());
        r = concat_str(r.as_str(), "\n================================");
        assert(r@ == report_text(time@, self.context@, error@, self.stack_trace@, info@));
        r
    }
}


/// A UTF-8 decoding error of std.
#[verifier::external_type_specification]
#[verifier::external_body]
pub struct ExUtf8Error(std::str::Utf8Error);

/// The length of the valid prefix that a UTF-8 decoding error reports.
pub uninterp spec fn utf8_valid_up_to(e: std::str::Utf8Error) -> usize;

/// `Utf8Error::valid_up_to`: the index up to which the input was valid.
#[verifier::external_body]
fn valid_up_to(e: &std::str::Utf8Error) -> (r: usize)
    ensures
        r == utf8_valid_up_to(*e),
{
    e.valid_up_to()
}

impl From<FileError> for AltreError {
    fn from(error: FileError) -> (r: Self) {
        AltreError::File(error)
    }
}

impl vstd::std_specs::convert::FromSpecImpl<FileError> for AltreError {
    open spec fn obeys_from_spec() -> bool {
        true
    }

    open spec fn from_spec(error: FileError) -> Self {
        AltreError::File(error)
    }
}

impl From<BufferError> for AltreError {
    fn from(error: BufferError) -> (r: Self) {
        AltreError::Buffer(error)
    }
}

impl vstd::std_specs::convert::FromSpecImpl<BufferError> for AltreError {
    open spec fn obeys_from_spec() -> bool {
        true
    }

    open spec fn from_spec(error: BufferError) -> Self {
        AltreError::Buffer(error)
    }
}

impl From<UiError> for AltreError {
    fn from(error: UiError) -> (r: Self) {
        AltreError::Ui(error)
    }
}

impl vstd::std_specs::convert::FromSpecImpl<UiError> for AltreError {
    open spec fn obeys_from_spec() -> bool {
        true
    }

    open spec fn from_spec(error: UiError) -> Self {
        AltreError::Ui(error)
    }
}

impl From<InputError> for AltreError {
    fn from(error: InputError) -> (r: Self) {
        AltreError::Input(error)
    }
}

impl vstd::std_specs::convert::FromSpecImpl<InputError> for AltreError {
    open spec fn obeys_from_spec() -> bool {
        true
    }

    open spec fn from_spec(error: InputError) -> Self {
        AltreError::Input(error)
    }
}

impl From<SystemError> for AltreError {
    fn from(error: SystemError) -> (r: Self) {
        AltreError::System(error)
    }
}

impl vstd::std_specs::convert::FromSpecImpl<SystemError> for AltreError {
    open spec fn obeys_from_spec() -> bool {
        true
    }

    open spec fn from_spec(error: SystemError) -> Self {
        AltreError::System(error)
    }
}

impl From<ConfigError> for AltreError {
    fn from(error: ConfigError) -> (r: Self) {
        AltreError::Config(error)
    }
}

impl vstd::std_specs::convert::FromSpecImpl<ConfigError> for AltreError {
    open spec fn obeys_from_spec() -> bool {
        true
    }

    open spec fn from_spec(error: ConfigError) -> Self {
        AltreError::Config(error)
    }
}

impl From<BufferError> for EditError {
    fn from(error: BufferError) -> (r: Self) {
        EditError::from_buffer_error(error)
    }
}

impl vstd::std_specs::convert::FromSpecImpl<BufferError> for EditError {
    open spec fn obeys_from_spec() -> bool {
        true
    }

    open spec fn from_spec(error: BufferError) -> Self {
        edit_error_of_buffer_error(error)
    }
}

impl From<std::str::Utf8Error> for AltreError {
    fn from(error: std::str::Utf8Error) -> (r: Self) {
        AltreError::Buffer(BufferError::Utf8Boundary { position: valid_up_to(&error) })
    }
}

impl vstd::std_specs::convert::FromSpecImpl<std::str::Utf8Error> for AltreError {
    open spec fn obeys_from_spec() -> bool {
        true
    }

    open spec fn from_spec(error: std::str::Utf8Error) -> Self {
        AltreError::Buffer(BufferError::Utf8Boundary { position: utf8_valid_up_to(error) })
    }
}

} // verus!
