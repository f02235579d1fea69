//! The minibuffer: prompts for file names, commands and expressions,
//! with in-line editing, completion and session history.
pub mod commands;
pub mod completion;
pub mod history;
pub mod system;

use crate::input::keybinding::{Key, KeyCode};
use crate::text::{char_utf8_width, chars_of, concat_str, owned, string_from_chars, utf8_len, utf8_width};
use crate::time::{duration_from_secs, duration_nanos, elapsed_nanos, instant_now, nanos_of};
use crate::error::display_time_over;
use crate::collate::texts;
use history::{history_added, SessionHistory};
use std::time::{Duration, Instant};
use vstd::prelude::*;

verus! {

/// Seconds an error message stays on display.
pub const ERROR_MESSAGE_SECS: u64 = 5;

/// Seconds an information message stays on display by default.
pub const INFO_MESSAGE_SECS: u64 = 3;

/// Most completion candidates kept for display.
pub const MAX_SHOWN_COMPLETIONS: usize = 50;

/// What the minibuffer is doing.
#[derive(Debug, Clone, PartialEq)]
pub enum MinibufferMode {
    /// Not in use.
    Inactive,
    /// Reading a file name to open.
    FindFile,
    /// Reading a command name (`M-x`).
    ExecuteCommand,
    /// Reading an expression to evaluate.
    EvalExpression,
    /// Reading a file name to save to.
    WriteFile,
    /// Reading a buffer name to switch to.
    SwitchBuffer,
    /// Reading a buffer name to kill.
    KillBuffer,
    /// Asking whether to save.
    SaveConfirmation,
    /// Reading the pattern of a query replace.
    QueryReplacePattern { is_regex: bool },
    /// Reading the replacement of a query replace for `pattern`.
    QueryReplaceReplacement { is_regex: bool, pattern: String },
    /// Showing an error message since `shown_at`, for `lifetime`.
    ErrorDisplay { message: String, shown_at: Instant, lifetime: Duration },
    /// Showing an information message since `shown_at`, for `lifetime`.
    InfoDisplay { message: String, shown_at: Instant, lifetime: Duration },
}

/// A mode with its texts as character sequences and a message's
/// lifetime in nanoseconds; when it was shown is left out.
pub enum ModeView {
    Inactive,
    FindFile,
    ExecuteCommand,
    EvalExpression,
    WriteFile,
    SwitchBuffer,
    KillBuffer,
    SaveConfirmation,
    QueryReplacePattern(bool),
    QueryReplaceReplacement(bool, Seq<char>),
    ErrorDisplay(Seq<char>, nat),
    InfoDisplay(Seq<char>, nat),
}

impl View for MinibufferMode {
    type V = ModeView;

    open spec fn view(&self) -> ModeView {
        match self {
            MinibufferMode::Inactive => ModeView::Inactive,
            MinibufferMode::FindFile => ModeView::FindFile,
            MinibufferMode::ExecuteCommand => ModeView::ExecuteCommand,
            MinibufferMode::EvalExpression => ModeView::EvalExpression,
            MinibufferMode::WriteFile => ModeView::WriteFile,
            MinibufferMode::SwitchBuffer => ModeView::SwitchBuffer,
            MinibufferMode::KillBuffer => ModeView::KillBuffer,
            MinibufferMode::SaveConfirmation => ModeView::SaveConfirmation,
            MinibufferMode::QueryReplacePattern { is_regex } => ModeView::QueryReplacePattern(*is_regex),
            MinibufferMode::QueryReplaceReplacement { is_regex, pattern } =>
                ModeView::QueryReplaceReplacement(*is_regex, pattern@),
            MinibufferMode::ErrorDisplay { message, lifetime, .. } =>
                ModeView::ErrorDisplay(message@, nanos_of(*lifetime) as nat),
            MinibufferMode::InfoDisplay { message, lifetime, .. } =>
                ModeView::InfoDisplay(message@, nanos_of(*lifetime) as nat),
        }
    }
}

/// The state of the minibuffer.
#[derive(Debug, Clone)]
pub struct MinibufferState {
    /// Current mode.
    pub mode: MinibufferMode,
    /// Text typed so far.
    pub input: String,
    /// Cursor position in `input`, in characters.
    pub cursor_pos: usize,
    /// Prompt shown before the input.
    pub prompt: String,
    /// Completion candidates.
    pub completions: Vec<String>,
    /// Index of the selected candidate.
    pub selected_completion: Option<usize>,
    /// Inputs submitted in this session.
    pub history: SessionHistory,
    /// Position while walking the history.
    pub history_index: Option<usize>,
    /// Message shown in the status line.
    pub status_message: Option<String>,
}

/// The state with its texts as character sequences.
#[verifier::ext_equal]
pub struct StateView {
    pub mode: ModeView,
    pub input: Seq<char>,
    pub cursor: nat,
    pub prompt: Seq<char>,
    pub completions: Seq<Seq<char>>,
    pub selected: Option<usize>,
    pub history: Seq<Seq<char>>,
    pub history_index: Option<usize>,
    pub status: Option<Seq<char>>,
}

impl View for MinibufferState {
    type V = StateView;

    open spec fn view(&self) -> StateView {
        StateView {
            mode: self.mode@,
            input: self.input@,
            cursor: self.cursor_pos as nat,
            prompt: self.prompt@,
            completions: texts(self.completions@),
            selected: self.selected_completion,
            history: self.history@,
            history_index: self.history_index,
            status: match self.status_message {
                Some(m) => Some(m@),
                None => None,
            },
        }
    }
}

impl MinibufferState {
    /// Well-formed: the cursor lies within the input and the selected
    /// candidate and history position exist.
    pub open spec fn wf(&self) -> bool {
        &&& self.cursor_pos <= self.input@.len()
        &&& (self.selected_completion matches Some(i) ==> i < self.completions@.len())
        &&& (self.history_index matches Some(i) ==> i < self.history@.len())
        &&& self.history.wf()
    }

    /// A fresh, inactive state.
    pub fn new() -> (r: Self)
        ensures
            r.wf(),
            r@ == initial_state(),
    {
        let r = MinibufferState {
            mode: MinibufferMode::Inactive,
            input: String::new(),
            cursor_pos: 0,
            prompt: String::new(),
            completions: Vec::new(),
            selected_completion: None,
            history: SessionHistory::new(),
            history_index: None,
            status_message: None,
        };
        assert(r@ =~= initial_state());
        r
    }
}

impl Default for MinibufferState {
    fn default() -> (r: Self)
        ensures
            r.wf(),
            r@ == initial_state(),
    {
        MinibufferState::new()
    }
}

/// The state of a minibuffer that was never used.
pub open spec fn initial_state() -> StateView {
    StateView {
        mode: ModeView::Inactive,
        input: Seq::empty(),
        cursor: 0,
        prompt: Seq::empty(),
        completions: Seq::empty(),
        selected: None,
        history: Seq::empty(),
        history_index: None,
        status: None,
    }
}

/// Colours of the minibuffer's parts.
#[derive(Debug, Clone)]
pub struct MinibufferStyle {
    pub prompt_color: String,
    pub input_color: String,
    pub completion_color: String,
    pub selected_completion_color: String,
    pub error_color: String,
    pub border_color: String,
}

impl Default for MinibufferStyle {
    fn default() -> (r: Self)
        ensures
            r.prompt_color@ == "blue"@,
            r.input_color@ == "white"@,
            r.completion_color@ == "gray"@,
            r.selected_completion_color@ == "black_on_blue"@,
            r.error_color@ == "red"@,
            r.border_color@ == "dark_gray"@,
    {
        MinibufferStyle {
            prompt_color: owned("blue"),
            input_color: owned("white"),
            completion_color: owned("gray"),
            selected_completion_color: owned("black_on_blue"),
            error_color: owned("red"),
            border_color: owned("dark_gray"),
        }
    }
}

/// An input event of the minibuffer.
#[derive(Debug, Clone, Copy, PartialEq)]
pub enum MinibufferEvent {
    Input(char),
    Backspace,
    Delete,
    MoveCursor(CursorDirection),
    Submit,
    Complete,
    Cancel,
    HistoryPrevious,
    HistoryNext,
    CompletionNext,
    CompletionPrevious,
}

/// Where a cursor movement goes.
#[derive(Debug, Clone, Copy, PartialEq)]
pub enum CursorDirection {
    Left,
    Right,
    Home,
    End,
}

/// What handling an input produced.
#[derive(Debug, Clone, PartialEq)]
pub enum MinibufferResult {
    /// Keep going.
    Continue,
    /// Run this command line.
    Execute(String),
    /// Evaluate this expression.
    EvalExpression(String),
    /// Save the buffer to this path.
    SaveFileAs(String),
    /// Switch to this buffer.
    SwitchBuffer(String),
    /// Kill this buffer.
    KillBuffer(String),
    /// Start replacing `pattern` by `replacement`.
    QueryReplace { pattern: String, replacement: String, is_regex: bool },
    /// The input was cancelled.
    Cancel,
    /// Nothing could be done.
    Invalid,
}

/// A result with its texts as character sequences.
pub enum ResultView {
    Continue,
    Execute(Seq<char>),
    EvalExpression(Seq<char>),
    SaveFileAs(Seq<char>),
    SwitchBuffer(Seq<char>),
    KillBuffer(Seq<char>),
    QueryReplace(Seq<char>, Seq<char>, bool),
    Cancel,
    Invalid,
}

impl View for MinibufferResult {
    type V = ResultView;

    open spec fn view(&self) -> ResultView {
        match self {
            MinibufferResult::Continue => ResultView::Continue,
            MinibufferResult::Execute(s) => ResultView::Execute(s@),
            MinibufferResult::EvalExpression(s) => ResultView::EvalExpression(s@),
            MinibufferResult::SaveFileAs(s) => ResultView::SaveFileAs(s@),
            MinibufferResult::SwitchBuffer(s) => ResultView::SwitchBuffer(s@),
            MinibufferResult::KillBuffer(s) => ResultView::KillBuffer(s@),
            MinibufferResult::QueryReplace { pattern, replacement, is_regex } =>
                ResultView::QueryReplace(pattern@, replacement@, *is_regex),
            MinibufferResult::Cancel => ResultView::Cancel,
            MinibufferResult::Invalid => ResultView::Invalid,
        }
    }
}

/// Errors of the minibuffer's file and command handling.
#[derive(Debug, Clone)]
pub enum MinibufferError {
    FileNotFound(String),
    PermissionDenied(String),
    InvalidPath(String),
    IoError(String),
    CommandNotFound(String),
    InvalidInput(String),
}

/// The message shown to the user for an error.
pub open spec fn minibuffer_error_text(e: MinibufferError) -> Seq<char> {
    match e {
        MinibufferError::FileNotFound(p) => "ファイルが見つかりません: "@ + p@,
        MinibufferError::PermissionDenied(p) => "アクセス権限がありません: "@ + p@,
        MinibufferError::InvalidPath(p) => "無効なパスです: "@ + p@,
        MinibufferError::IoError(m) => "ファイル操作エラー: "@ + m@,
        MinibufferError::CommandNotFound(c) => "コマンドが見つかりません: "@ + c@,
        MinibufferError::InvalidInput(i) => "無効な入力です: "@ + i@,
    }
}

impl MinibufferError {
    /// The message shown to the user.
    pub fn user_message(&self) -> (r: String)
        ensures
            r@ == minibuffer_error_text(*self),
    {
        match self {
            MinibufferError::FileNotFound(p) => concat_str("ファイルが見つかりません: ", p.as_str()),
            MinibufferError::PermissionDenied(p) => concat_str("アクセス権限がありません: ", p.as_str()),
            MinibufferError::InvalidPath(p) => concat_str("無効なパスです: ", p.as_str()),
            MinibufferError::IoError(m) => concat_str("ファイル操作エラー: ", m.as_str()),
            MinibufferError::CommandNotFound(c) => concat_str("コマンドが見つかりません: ", c.as_str()),
            MinibufferError::InvalidInput(i) => concat_str("無効な入力です: ", i.as_str()),
        }
    }
}

/// Something that runs commands named in the minibuffer.
pub trait CommandExecutor {
    /// Runs `command` with `args`.
    fn execute_command(&mut self, command: &str, args: &[String]) -> Result<String, MinibufferError>;

    /// Names of the commands it knows.
    fn get_available_commands(&self) -> Vec<String>;
}

/// Requests from key bindings to start reading.
#[derive(Debug, Clone, PartialEq)]
pub enum MinibufferAction {
    FindFile,
    ExecuteCommand,
    EvalExpression,
    SaveFile,
    QueryReplace { is_regex: bool, initial: Option<String> },
}


// ---------------------------------------------------------------------------
// the state machine, stated over views
// ---------------------------------------------------------------------------

/// `s` with another mode.
pub open spec fn with_mode(s: StateView, m: ModeView) -> StateView {
    StateView { mode: m, ..s }
}

/// `s` with no completion candidates and none selected.
pub open spec fn without_completions(s: StateView) -> StateView {
    StateView { completions: Seq::empty(), selected: None, ..s }
}

/// `s` with another input and the cursor at `cursor`.
pub open spec fn with_input(s: StateView, input: Seq<char>, cursor: nat) -> StateView {
    StateView { input, cursor, ..s }
}

/// The minibuffer put out of use: input, candidates and history position
/// are dropped; prompt, history and status message stay.
pub open spec fn deactivated(s: StateView) -> StateView {
    StateView {
        mode: ModeView::Inactive,
        input: Seq::empty(),
        cursor: 0,
        completions: Seq::empty(),
        selected: None,
        history_index: None,
        ..s
    }
}

/// Starting to read in mode `m` with prompt `prompt` and initial input
/// `input`, the cursor at its end.
pub open spec fn started(s: StateView, m: ModeView, prompt: Seq<char>, input: Seq<char>) -> StateView {
    without_completions(StateView { mode: m, prompt, input, cursor: input.len(), ..s })
}

/// An error message shown for the error lifetime.
pub open spec fn with_error(s: StateView, message: Seq<char>) -> StateView {
    with_mode(s, ModeView::ErrorDisplay(message, ERROR_MESSAGE_SECS as nat * 1_000_000_000))
}

/// The event a key stands for.
pub open spec fn key_event(key: Key) -> MinibufferEvent {
    let ctrl = key.modifiers.ctrl;
    match key.code {
        KeyCode::Char(ch) => {
            if !ctrl && !key.modifiers.alt {
                MinibufferEvent::Input(ch)
            } else if ctrl && ch == 'g' {
                MinibufferEvent::Cancel
            } else if ctrl && ch == 'a' {
                MinibufferEvent::MoveCursor(CursorDirection::Home)
            } else if ctrl && ch == 'e' {
                MinibufferEvent::MoveCursor(CursorDirection::End)
            } else if ctrl && ch == 'p' {
                MinibufferEvent::HistoryPrevious
            } else if ctrl && ch == 'n' {
                MinibufferEvent::HistoryNext
            } else {
                MinibufferEvent::Input('\0')
            }
        },
        KeyCode::Backspace => MinibufferEvent::Backspace,
        KeyCode::Delete => MinibufferEvent::Delete,
        KeyCode::Enter => MinibufferEvent::Submit,
        KeyCode::Tab => MinibufferEvent::Complete,
        KeyCode::Left => MinibufferEvent::MoveCursor(CursorDirection::Left),
        KeyCode::Right => MinibufferEvent::MoveCursor(CursorDirection::Right),
        KeyCode::Down => MinibufferEvent::CompletionNext,
        KeyCode::Up => MinibufferEvent::CompletionPrevious,
        _ => MinibufferEvent::Input('\0'),
    }
}

/// Typing `ch` at the cursor; the NUL character stands for a key that
/// means nothing here and is not inserted.
pub open spec fn inserted(s: StateView, ch: char) -> StateView {
    if ch == '\0' {
        s
    } else {
        with_input(s, s.input.insert(s.cursor as int, ch), s.cursor + 1)
    }
}

/// Deleting the character before the cursor.
pub open spec fn deleted_backward(s: StateView) -> StateView {
    if s.cursor == 0 {
        s
    } else {
        with_input(s, s.input.remove(s.cursor - 1), (s.cursor - 1) as nat)
    }
}

/// Deleting the character at the cursor.
pub open spec fn deleted_forward(s: StateView) -> StateView {
    if s.cursor >= s.input.len() {
        s
    } else {
        with_input(s, s.input.remove(s.cursor as int), s.cursor)
    }
}

/// Moving the cursor.
pub open spec fn moved(s: StateView, d: CursorDirection) -> StateView {
    let c: nat = match d {
        CursorDirection::Left => if s.cursor > 0 { (s.cursor - 1) as nat } else { s.cursor },
        CursorDirection::Right => if s.cursor < s.input.len() { s.cursor + 1 } else { s.cursor },
        CursorDirection::Home => 0,
        CursorDirection::End => s.input.len(),
    };
    StateView { cursor: c, ..s }
}

/// Taking the first completion candidate as the input.
pub open spec fn completed(s: StateView) -> StateView {
    if s.completions.len() == 0 {
        s
    } else {
        without_completions(with_input(s, s.completions[0], s.completions[0].len()))
    }
}

/// Selecting the next candidate, wrapping around.
pub open spec fn next_selected(s: StateView) -> StateView {
    if s.completions.len() == 0 {
        s
    } else {
        let i: usize = match s.selected {
            Some(i) => ((i + 1) % (s.completions.len() as int)) as usize,
            None => 0,
        };
        StateView { selected: Some(i), ..s }
    }
}

/// Selecting the previous candidate, wrapping around.
pub open spec fn previous_selected(s: StateView) -> StateView {
    if s.completions.len() == 0 {
        s
    } else {
        let i: usize = match s.selected {
            Some(i) => if i == 0 { (s.completions.len() - 1) as usize } else { (i - 1) as usize },
            None => (s.completions.len() - 1) as usize,
        };
        StateView { selected: Some(i), ..s }
    }
}

/// Stepping back to an older history entry.
pub open spec fn history_back(s: StateView) -> StateView {
    if s.history.len() == 0 {
        s
    } else {
        let next: int = match s.history_index {
            Some(i) => i + 1,
            None => 0,
        };
        if next >= s.history.len() {
            s
        } else {
            without_completions(StateView {
                input: s.history[next],
                cursor: s.history[next].len(),
                history_index: Some(next as usize),
                ..s
            })
        }
    }
}

/// Stepping forward to a newer history entry, or to an empty input past
/// the newest one.
pub open spec fn history_forward(s: StateView) -> StateView {
    match s.history_index {
        Some(i) => if i == 0 {
            without_completions(StateView { input: Seq::empty(), cursor: 0, history_index: None, ..s })
        } else {
            without_completions(StateView {
                input: s.history[i - 1],
                cursor: s.history[i - 1].len(),
                history_index: Some((i - 1) as usize),
                ..s
            })
        },
        None => s,
    }
}

/// The input recorded in the history and the minibuffer put out of use.
pub open spec fn finished(s: StateView) -> StateView {
    deactivated(StateView { history: history_added(s.history, s.input), ..s })
}

/// The prompt asking for the replacement of `pattern`.
pub open spec fn replacement_prompt(pattern: Seq<char>) -> Seq<char> {
    "Query replace "@ + pattern + " with: "@
}

/// Pressing Enter.
pub open spec fn submitted(s: StateView) -> (StateView, ResultView) {
    let empty = s.input.len() == 0;
    match s.mode {
        ModeView::FindFile => if empty {
            (with_error(s, "No file specified"@), ResultView::Continue)
        } else {
            (finished(s), ResultView::Execute("find-file "@ + s.input))
        },
        ModeView::ExecuteCommand => if empty {
            (with_error(s, "No command specified"@), ResultView::Continue)
        } else {
            (finished(s), ResultView::Execute(s.input))
        },
        ModeView::EvalExpression => if empty {
            (with_error(s, "式が入力されていません"@), ResultView::Continue)
        } else {
            (finished(s), ResultView::EvalExpression(s.input))
        },
        ModeView::WriteFile => if empty {
            (with_error(s, "ファイル名を入力してください"@), ResultView::Continue)
        } else {
            (finished(s), ResultView::SaveFileAs(s.input))
        },
        ModeView::SwitchBuffer => (finished(s), ResultView::SwitchBuffer(s.input)),
        ModeView::KillBuffer => (finished(s), ResultView::KillBuffer(s.input)),
        ModeView::QueryReplacePattern(r) => if empty {
            (with_error(s, "置換する文字列を入力してください"@), ResultView::Continue)
        } else {
            (
                started(
                    StateView { history: history_added(s.history, s.input), ..s },
                    ModeView::QueryReplaceReplacement(r, s.input),
                    replacement_prompt(s.input),
                    Seq::empty(),
                ),
                ResultView::Continue,
            )
        },
        ModeView::QueryReplaceReplacement(r, p) => (finished(s), ResultView::QueryReplace(p, s.input, r)),
        _ => (s, ResultView::Continue),
    }
}

/// Handling an event while reading input.
pub open spec fn event_step(s: StateView, e: MinibufferEvent) -> (StateView, ResultView) {
    match e {
        MinibufferEvent::Input(ch) => (without_completions(inserted(s, ch)), ResultView::Continue),
        MinibufferEvent::Backspace => (without_completions(deleted_backward(s)), ResultView::Continue),
        MinibufferEvent::Delete => (without_completions(deleted_forward(s)), ResultView::Continue),
        MinibufferEvent::Submit => submitted(s),
        MinibufferEvent::Cancel => (deactivated(s), ResultView::Cancel),
        MinibufferEvent::Complete => (completed(s), ResultView::Continue),
        MinibufferEvent::MoveCursor(d) => (moved(s, d), ResultView::Continue),
        MinibufferEvent::CompletionNext => (next_selected(s), ResultView::Continue),
        MinibufferEvent::CompletionPrevious => (previous_selected(s), ResultView::Continue),
        MinibufferEvent::HistoryPrevious => (history_back(s), ResultView::Continue),
        MinibufferEvent::HistoryNext => (history_forward(s), ResultView::Continue),
    }
}

/// Handling a key: nothing happens while inactive, any key dismisses a
/// message, and otherwise the key's event is handled.
pub open spec fn key_step(s: StateView, key: Key) -> (StateView, ResultView) {
    match s.mode {
        ModeView::Inactive => (s, ResultView::Continue),
        ModeView::ErrorDisplay(..) => (deactivated(s), ResultView::Continue),
        ModeView::InfoDisplay(..) => (deactivated(s), ResultView::Continue),
        _ => event_step(s, key_event(key)),
    }
}

/// Whether file-name completion is wanted for the state: in the modes
/// that read a file name, once the input is at least two bytes long.
pub open spec fn wants_path_completion(s: StateView) -> bool {
    (s.mode is FindFile || s.mode is WriteFile) && utf8_len(s.input) >= 2
}


/// Starting to read for a key-binding request.
pub open spec fn action_started(s: StateView, a: MinibufferAction) -> StateView {
    match a {
        MinibufferAction::FindFile => started(s, ModeView::FindFile, "Find file: "@, Seq::empty()),
        MinibufferAction::ExecuteCommand => started(s, ModeView::ExecuteCommand, "M-x "@, Seq::empty()),
        MinibufferAction::EvalExpression => started(s, ModeView::EvalExpression, "Eval: "@, Seq::empty()),
        MinibufferAction::SaveFile => started(s, ModeView::WriteFile, "Save file: "@, Seq::empty()),
        MinibufferAction::QueryReplace { is_regex, initial } => started(
            s,
            ModeView::QueryReplacePattern(is_regex),
            query_prompt(is_regex),
            match initial {
                Some(t) => t@,
                None => Seq::empty(),
            },
        ),
    }
}

/// The prompt asking for the pattern of a query replace.
pub open spec fn query_prompt(is_regex: bool) -> Seq<char> {
    if is_regex {
        "Query replace regexp: "@
    } else {
        "Query replace: "@
    }
}

/// The text of an optional initial input.
pub open spec fn initial_text(t: Option<&str>) -> Seq<char> {
    match t {
        Some(t) => t@,
        None => Seq::empty(),
    }
}

/// The candidates kept when `candidates` are offered: the first
/// `MAX_SHOWN_COMPLETIONS`, the first of them selected.
pub open spec fn with_candidates(s: StateView, candidates: Seq<Seq<char>>) -> StateView {
    let kept = if candidates.len() <= MAX_SHOWN_COMPLETIONS {
        candidates
    } else {
        candidates.take(MAX_SHOWN_COMPLETIONS as int)
    };
    StateView { completions: kept, selected: if kept.len() == 0 { None } else { Some(0) }, ..s }
}

/// The minibuffer: its state and look.
#[derive(Debug)]
pub struct ModernMinibuffer {
    state: MinibufferState,
    style: MinibufferStyle,
}

impl View for ModernMinibuffer {
    type V = StateView;

    closed spec fn view(&self) -> StateView {
        self.state@
    }
}

impl ModernMinibuffer {
    /// Well-formed: the state is.
    pub closed spec fn wf(&self) -> bool {
        self.state.wf()
    }

    /// The look of the minibuffer.
    pub closed spec fn look(&self) -> MinibufferStyle {
        self.style
    }

    /// A new, inactive minibuffer with the default look.
    pub fn new() -> (r: Self)
        ensures
            r.wf(),
            r@ == initial_state(),
    {
        ModernMinibuffer { state: MinibufferState::new(), style: MinibufferStyle::default() }
    }

    fn clear_completions(&mut self)
        requires
            old(self).wf(),
        ensures
            final(self).wf(),
            final(self)@ == without_completions(old(self)@),
    {
        self.state.completions = Vec::new();
        self.state.selected_completion = None;
        assert(self@ =~= without_completions(old(self)@));
    }

    fn start(&mut self, mode: MinibufferMode, prompt: &str, input: Option<&str>)
        requires
            old(self).wf(),
        ensures
            final(self).wf(),
            final(self)@ == started(old(self)@, mode@, prompt@, initial_text(input)),
    {
        self.state.mode = mode;
        self.state.prompt = owned(prompt);
        self.state.input = match input {
            Some(t) => owned(t),
            None => String::new(),
        };
        self.state.cursor_pos = chars_of(self.state.input.as_str()).len();
        self.clear_completions();
        assert(self@ =~= started(old(self)@, mode@, prompt@, initial_text(input)));
    }

    /// Starts reading a file name to open, with an optional initial path.
    pub fn start_find_file(&mut self, initial_path: Option<&str>)
        requires
            old(self).wf(),
        ensures
            final(self).wf(),
            final(self)@ == started(old(self)@, ModeView::FindFile, "Find file: "@, initial_text(initial_path)),
    {
        self.start(MinibufferMode::FindFile, "Find file: ", initial_path);
    }

    /// Starts reading a command name.
    pub fn start_execute_command(&mut self)
        requires
            old(self).wf(),
        ensures
            final(self).wf(),
            final(self)@ == started(old(self)@, ModeView::ExecuteCommand, "M-x "@, Seq::empty()),
    {
        self.start(MinibufferMode::ExecuteCommand, "M-x ", None);
    }

    /// Starts reading a file name to save to, with an optional initial path.
    pub fn start_write_file(&mut self, initial_path: Option<&str>)
        requires
            old(self).wf(),
        ensures
            final(self).wf(),
            final(self)@ == started(old(self)@, ModeView::WriteFile, "Save file: "@, initial_text(initial_path)),
    {
        self.start(MinibufferMode::WriteFile, "Save file: ", initial_path);
    }

    /// Starts reading an expression to evaluate.
    pub fn start_eval_expression(&mut self)
        requires
            old(self).wf(),
        ensures
            final(self).wf(),
            final(self)@ == started(old(self)@, ModeView::EvalExpression, "Eval: "@, Seq::empty()),
    {
        self.start(MinibufferMode::EvalExpression, "Eval: ", None);
    }

    /// Starts reading the pattern of a query replace.
    pub fn start_query_replace(&mut self, is_regex: bool, initial: Option<&str>)
        requires
            old(self).wf(),
        ensures
            final(self).wf(),
            final(self)@ == started(
                old(self)@,
                ModeView::QueryReplacePattern(is_regex),
                query_prompt(is_regex),
                initial_text(initial),
            ),
    {
        let prompt = if is_regex { "Query replace regexp: " } else { "Query replace: " };
        self.start(MinibufferMode::QueryReplacePattern { is_regex }, prompt, initial);
    }

    /// Starts reading the name of a buffer to switch to; the names of the
    /// open buffers are offered as candidates.
    pub fn start_switch_buffer(&mut self, buffers: &[String], initial: Option<&str>)
        requires
            old(self).wf(),
        ensures
            final(self).wf(),
            final(self)@ == with_candidates(
                started(old(self)@, ModeView::SwitchBuffer, "Switch to buffer: "@, initial_text(initial)),
                texts(buffers@),
            ),
    {
        self.start(MinibufferMode::SwitchBuffer, "Switch to buffer: ", initial);
        self.offer(buffers);
    }

    /// Starts reading the name of a buffer to kill; the names of the open
    /// buffers are offered as candidates.
    pub fn start_kill_buffer(&mut self, buffers: &[String], initial: Option<&str>)
        requires
            old(self).wf(),
        ensures
            final(self).wf(),
            final(self)@ == with_candidates(
                started(old(self)@, ModeView::KillBuffer, "Kill buffer: "@, initial_text(initial)),
                texts(buffers@),
            ),
    {
        self.start(MinibufferMode::KillBuffer, "Kill buffer: ", initial);
        self.offer(buffers);
    }

    fn offer(&mut self, candidates: &[String])
        requires
            old(self).wf(),
        ensures
            final(self).wf(),
            final(self)@ == with_candidates(old(self)@, texts(candidates@)),
    {
        let n = if candidates.len() <= MAX_SHOWN_COMPLETIONS { candidates.len() } else { MAX_SHOWN_COMPLETIONS };
        let mut kept: Vec<String> = Vec::new();
        let mut i: usize = 0;
        while i < n
            invariant
                n <= candidates.len(),
                i <= n,
                kept@ == candidates@.take(i as int),
            decreases n - i,
        {
            kept.push(candidates[i].clone());
            assert(kept@ =~= candidates@.take(i + 1));
            i += 1;
        }
        assert(texts(kept@) =~= texts(candidates@).take(n as int));
        assert(texts(candidates@).take(n as int) =~= (if candidates@.len() <= MAX_SHOWN_COMPLETIONS {
            texts(candidates@)
        } else {
            texts(candidates@).take(MAX_SHOWN_COMPLETIONS as int)
        }));
        self.state.selected_completion = if n == 0 { None } else { Some(0) };
        self.state.completions = kept;
        assert(self@ =~= with_candidates(old(self)@, texts(candidates@)));
    }

    /// Takes the file-name completion candidates found for the input:
    /// the first `MAX_SHOWN_COMPLETIONS` are kept and the first of them
    /// selected.
    pub fn supply_completions(&mut self, candidates: Vec<String>)
        requires
            old(self).wf(),
        ensures
            final(self).wf(),
            final(self)@ == with_candidates(old(self)@, texts(candidates@)),
    {
        self.offer(candidates.as_slice());
    }

    /// The input to find file-name candidates for, when the mode reads a
    /// file name and the input is at least two bytes long.
    pub fn completion_request(&self) -> (r: Option<String>)
        ensures
            r is Some <==> wants_path_completion(self@),
            r matches Some(t) ==> t@ == self@.input,
    {
        let path_mode = match self.state.mode {
            MinibufferMode::FindFile => true,
            MinibufferMode::WriteFile => true,
            _ => false,
        };
        if !path_mode {
            return None;
        }
        let v = chars_of(self.state.input.as_str());
        let short = v.len() == 0 || (v.len() == 1 && char_utf8_width(v[0]) == 1);
        proof {
            crate::text::lemma_utf8_len_bounds(v@);
            if v@.len() == 1 {
                assert(v@.drop_last() =~= Seq::<char>::empty());
                assert(utf8_len(v@.drop_last()) == 0);
                assert(v@.last() == v@[0]);
                assert(utf8_len(v@) == utf8_width(v@[0]));
            }
            if v@.len() == 0 {
                assert(utf8_len(v@) == 0);
            }
        }
        if short {
            None
        } else {
            Some(self.state.input.clone())
        }
    }

    /// Shows an error message for the error lifetime.
    pub fn show_error(&mut self, message: String)
        requires
            old(self).wf(),
        ensures
            final(self).wf(),
            final(self)@ == with_error(old(self)@, message@),
    {
        let lifetime = duration_from_secs(ERROR_MESSAGE_SECS);
        self.state.mode = MinibufferMode::ErrorDisplay { message, shown_at: instant_now(), lifetime };
        assert(self@ =~= with_error(old(self)@, message@));
    }

    /// Shows an information message for the default lifetime.
    pub fn show_info(&mut self, message: String)
        requires
            old(self).wf(),
        ensures
            final(self).wf(),
            final(self)@ == with_mode(
                old(self)@,
                ModeView::InfoDisplay(message@, INFO_MESSAGE_SECS as nat * 1_000_000_000),
            ),
    {
        self.show_info_with_duration(message, None);
    }

    /// Shows an information message for `duration`, or the default
    /// lifetime.
    pub fn show_info_with_duration(&mut self, message: String, duration: Option<Duration>)
        requires
            old(self).wf(),
        ensures
            final(self).wf(),
            final(self)@ == with_mode(
                old(self)@,
                ModeView::InfoDisplay(
                    message@,
                    match duration {
                        Some(d) => nanos_of(d) as nat,
                        None => INFO_MESSAGE_SECS as nat * 1_000_000_000,
                    },
                ),
            ),
    {
        let lifetime = match duration {
            Some(d) => d,
            None => duration_from_secs(INFO_MESSAGE_SECS),
        };
        self.state.mode = MinibufferMode::InfoDisplay { message, shown_at: instant_now(), lifetime };
    }

    /// Sets or clears the status-line message.
    pub fn set_status_message(&mut self, message: Option<String>)
        requires
            old(self).wf(),
        ensures
            final(self).wf(),
            final(self)@ == (StateView {
                status: match message {
                    Some(m) => Some(m@),
                    None => None,
                },
                ..old(self)@
            }),
    {
        self.state.status_message = message;
        assert(self@ =~= (StateView {
            status: match message {
                Some(m) => Some(m@),
                None => None,
            },
            ..old(self)@
        }));
    }

    /// Puts the minibuffer out of use.
    pub fn deactivate(&mut self)
        requires
            old(self).wf(),
        ensures
            final(self).wf(),
            final(self)@ == deactivated(old(self)@),
    {
        self.state.mode = MinibufferMode::Inactive;
        self.state.input = String::new();
        self.state.completions = Vec::new();
        self.state.selected_completion = None;
        self.state.cursor_pos = 0;
        self.state.history_index = None;
        assert(self@ =~= deactivated(old(self)@));
    }

    /// The current state.
    pub fn state(&self) -> (r: &MinibufferState)
        ensures
            r@ == self@,
            self.wf() ==> r.wf(),
    {
        &self.state
    }

    /// The look.
    pub fn style(&self) -> (r: &MinibufferStyle)
        ensures
            *r == self.look(),
    {
        &self.style
    }

    /// Whether the minibuffer is in use (reading input or showing a
    /// message).
    pub fn is_active(&self) -> (r: bool)
        ensures
            r == !(self@.mode is Inactive),
    {
        match self.state.mode {
            MinibufferMode::Inactive => false,
            _ => true,
        }
    }

    /// Starts reading for a key-binding request.
    pub fn handle_action(&mut self, action: MinibufferAction) -> (r: MinibufferResult)
        requires
            old(self).wf(),
        ensures
            final(self).wf(),
            final(self)@ == action_started(old(self)@, action),
            r@ == ResultView::Continue,
    {
        match action {
            MinibufferAction::FindFile => self.start_find_file(None),
            MinibufferAction::ExecuteCommand => self.start_execute_command(),
            MinibufferAction::EvalExpression => self.start_eval_expression(),
            MinibufferAction::SaveFile => self.start_write_file(None),
            MinibufferAction::QueryReplace { is_regex, initial } => {
                match initial {
                    Some(t) => self.start_query_replace(is_regex, Some(t.as_str())),
                    None => self.start_query_replace(is_regex, None),
                }
            },
        }
        MinibufferResult::Continue
    }
}

impl ModernMinibuffer {
    /// Handles a key: nothing happens while inactive, any key dismisses a
    /// message (as does its running out), and otherwise the key's event
    /// is handled.
    pub fn handle_key(&mut self, key: Key) -> (r: MinibufferResult)
        requires
            old(self).wf(),
        ensures
            final(self).wf(),
            (final(self)@, r@) == key_step(old(self)@, key),
    {
        self.check_message_expiry();
        match self.state.mode {
            MinibufferMode::Inactive => MinibufferResult::Continue,
            MinibufferMode::ErrorDisplay { .. } => {
                self.deactivate();
                MinibufferResult::Continue
            },
            MinibufferMode::InfoDisplay { .. } => {
                self.deactivate();
                MinibufferResult::Continue
            },
            _ => self.handle_input_key(key),
        }
    }

    /// The event a key stands for.
    pub fn key_to_event(&self, key: Key) -> (e: MinibufferEvent)
        ensures
            e == key_event(key),
    {
        let ctrl = key.modifiers.ctrl;
        match key.code {
            KeyCode::Char(ch) => {
                if !ctrl && !key.modifiers.alt {
                    MinibufferEvent::Input(ch)
                } else if ctrl && ch == 'g' {
                    MinibufferEvent::Cancel
                } else if ctrl && ch == 'a' {
                    MinibufferEvent::MoveCursor(CursorDirection::Home)
                } else if ctrl && ch == 'e' {
                    MinibufferEvent::MoveCursor(CursorDirection::End)
                } else if ctrl && ch == 'p' {
                    MinibufferEvent::HistoryPrevious
                } else if ctrl && ch == 'n' {
                    MinibufferEvent::HistoryNext
                } else {
                    MinibufferEvent::Input('\0')
                }
            },
            KeyCode::Backspace => MinibufferEvent::Backspace,
            KeyCode::Delete => MinibufferEvent::Delete,
            KeyCode::Enter => MinibufferEvent::Submit,
            KeyCode::Tab => MinibufferEvent::Complete,
            KeyCode::Left => MinibufferEvent::MoveCursor(CursorDirection::Left),
            KeyCode::Right => MinibufferEvent::MoveCursor(CursorDirection::Right),
            KeyCode::Down => MinibufferEvent::CompletionNext,
            KeyCode::Up => MinibufferEvent::CompletionPrevious,
            _ => MinibufferEvent::Input('\0'),
        }
    }

    fn handle_input_key(&mut self, key: Key) -> (r: MinibufferResult)
        requires
            old(self).wf(),
        ensures
            final(self).wf(),
            (final(self)@, r@) == event_step(old(self)@, key_event(key)),
    {
        let event = self.key_to_event(key);
        match event {
            MinibufferEvent::Input(ch) => {
                self.insert_char(ch);
                self.clear_completions();
                MinibufferResult::Continue
            },
            MinibufferEvent::Backspace => {
                self.delete_backward();
                self.clear_completions();
                MinibufferResult::Continue
            },
            MinibufferEvent::Delete => {
                self.delete_forward();
                self.clear_completions();
                MinibufferResult::Continue
            },
            MinibufferEvent::Submit => self.submit(),
            MinibufferEvent::Cancel => {
                self.deactivate();
                MinibufferResult::Cancel
            },
            MinibufferEvent::Complete => {
                self.handle_completion();
                MinibufferResult::Continue
            },
            MinibufferEvent::MoveCursor(direction) => {
                self.move_cursor(direction);
                MinibufferResult::Continue
            },
            MinibufferEvent::CompletionNext => {
                self.select_next_completion();
                MinibufferResult::Continue
            },
            MinibufferEvent::CompletionPrevious => {
                self.select_previous_completion();
                MinibufferResult::Continue
            },
            MinibufferEvent::HistoryPrevious => {
                self.history_previous();
                MinibufferResult::Continue
            },
            MinibufferEvent::HistoryNext => {
                self.history_next();
                MinibufferResult::Continue
            },
        }
    }

    fn insert_char(&mut self, ch: char)
        requires
            old(self).wf(),
        ensures
            final(self).wf(),
            final(self)@ == inserted(old(self)@, ch),
    {
        if ch == '\0' {
            return;
        }
        let mut v = chars_of(self.state.input.as_str());
        v.insert(self.state.cursor_pos, ch);
        let n = v.len();
        assert(self.state.cursor_pos < n);
        self.state.input = string_from_chars(&v);
        self.state.cursor_pos = self.state.cursor_pos + 1;
        assert(self@ =~= inserted(old(self)@, ch));
    }

    fn delete_backward(&mut self)
        requires
            old(self).wf(),
        ensures
            final(self).wf(),
            final(self)@ == deleted_backward(old(self)@),
    {
        if self.state.cursor_pos == 0 {
            return;
        }
        let mut v = chars_of(self.state.input.as_str());
        v.remove(self.state.cursor_pos - 1);
        self.state.input = string_from_chars(&v);
        self.state.cursor_pos = self.state.cursor_pos - 1;
        assert(self@ =~= deleted_backward(old(self)@));
    }

    fn delete_forward(&mut self)
        requires
            old(self).wf(),
        ensures
            final(self).wf(),
            final(self)@ == deleted_forward(old(self)@),
    {
        let mut v = chars_of(self.state.input.as_str());
        if self.state.cursor_pos >= v.len() {
            return;
        }
        v.remove(self.state.cursor_pos);
        self.state.input = string_from_chars(&v);
        assert(self@ =~= deleted_forward(old(self)@));
    }

    fn move_cursor(&mut self, direction: CursorDirection)
        requires
            old(self).wf(),
        ensures
            final(self).wf(),
            final(self)@ == moved(old(self)@, direction),
    {
        let count = chars_of(self.state.input.as_str()).len();
        match direction {
            CursorDirection::Left => {
                if self.state.cursor_pos > 0 {
                    self.state.cursor_pos = self.state.cursor_pos - 1;
                }
            },
            CursorDirection::Right => {
                if self.state.cursor_pos < count {
                    self.state.cursor_pos = self.state.cursor_pos + 1;
                }
            },
            CursorDirection::Home => {
                self.state.cursor_pos = 0;
            },
            CursorDirection::End => {
                self.state.cursor_pos = count;
            },
        }
        assert(self@ =~= moved(old(self)@, direction));
    }

    fn set_input(&mut self, text: String)
        requires
            old(self).wf(),
        ensures
            final(self).wf(),
            final(self)@ == with_input(old(self)@, text@, text@.len()),
    {
        self.state.cursor_pos = chars_of(text.as_str()).len();
        self.state.input = text;
        assert(self@ =~= with_input(old(self)@, text@, text@.len()));
    }

    fn handle_completion(&mut self)
        requires
            old(self).wf(),
        ensures
            final(self).wf(),
            final(self)@ == completed(old(self)@),
    {
        if self.state.completions.len() == 0 {
            return;
        }
        let first = self.state.completions[0].clone();
        self.set_input(first);
        self.clear_completions();
        assert(self@ =~= completed(old(self)@));
    }

    fn select_next_completion(&mut self)
        requires
            old(self).wf(),
        ensures
            final(self).wf(),
            final(self)@ == next_selected(old(self)@),
    {
        let n = self.state.completions.len();
        if n == 0 {
            return;
        }
        let next = match self.state.selected_completion {
            Some(index) => (index + 1) % n,
            None => 0,
        };
        self.state.selected_completion = Some(next);
        assert(self@ =~= next_selected(old(self)@));
    }

    fn select_previous_completion(&mut self)
        requires
            old(self).wf(),
        ensures
            final(self).wf(),
            final(self)@ == previous_selected(old(self)@),
    {
        let n = self.state.completions.len();
        if n == 0 {
            return;
        }
        let prev = match self.state.selected_completion {
            Some(index) => if index == 0 { n - 1 } else { index - 1 },
            None => n - 1,
        };
        self.state.selected_completion = Some(prev);
        assert(self@ =~= previous_selected(old(self)@));
    }

    fn history_previous(&mut self)
        requires
            old(self).wf(),
        ensures
            final(self).wf(),
            final(self)@ == history_back(old(self)@),
    {
        let len = self.state.history.len();
        if len == 0 {
            return;
        }
        let next = match self.state.history_index {
            Some(index) => {
                if index + 1 < len {
                    index + 1
                } else {
                    return;
                }
            },
            None => 0,
        };
        let entry = self.state.history.get_entry(next).unwrap().clone();
        self.set_input(entry);
        self.state.history_index = Some(next);
        self.clear_completions();
        assert(self@ =~= history_back(old(self)@));
    }

    fn history_next(&mut self)
        requires
            old(self).wf(),
        ensures
            final(self).wf(),
            final(self)@ == history_forward(old(self)@),
    {
        match self.state.history_index {
            Some(index) => {
                if index == 0 {
                    self.set_input(String::new());
                    self.state.history_index = None;
                } else {
                    let entry = self.state.history.get_entry(index - 1).unwrap().clone();
                    self.set_input(entry);
                    self.state.history_index = Some(index - 1);
                }
                self.clear_completions();
                assert(self@ =~= history_forward(old(self)@));
            },
            None => {},
        }
    }

    fn finish(&mut self)
        requires
            old(self).wf(),
        ensures
            final(self).wf(),
            final(self)@ == finished(old(self)@),
    {
        let entry = self.state.input.clone();
        self.state.history.add_entry(entry);
        proof {
            history::lemma_history_added_len(old(self).state.history@, entry@);
        }
        self.deactivate();
        assert(self@ =~= finished(old(self)@));
    }

    fn submit(&mut self) -> (r: MinibufferResult)
        requires
            old(self).wf(),
        ensures
            final(self).wf(),
            (final(self)@, r@) == submitted(old(self)@),
    {
        let input = self.state.input.clone();
        let empty = input.as_str().is_empty();
        match &self.state.mode {
            MinibufferMode::FindFile => {
                if empty {
                    self.show_error(owned("No file specified"));
                    MinibufferResult::Continue
                } else {
                    self.finish();
                    MinibufferResult::Execute(concat_str("find-file ", input.as_str()))
                }
            },
            MinibufferMode::ExecuteCommand => {
                if empty {
                    self.show_error(owned("No command specified"));
                    MinibufferResult::Continue
                } else {
                    self.finish();
                    MinibufferResult::Execute(input)
                }
            },
            MinibufferMode::EvalExpression => {
                if empty {
                    self.show_error(owned("式が入力されていません"));
                    MinibufferResult::Continue
                } else {
                    self.finish();
                    MinibufferResult::EvalExpression(input)
                }
            },
            MinibufferMode::WriteFile => {
                if empty {
                    self.show_error(owned("ファイル名を入力してください"));
                    MinibufferResult::Continue
                } else {
                    self.finish();
                    MinibufferResult::SaveFileAs(input)
                }
            },
            MinibufferMode::SwitchBuffer => {
                self.finish();
                MinibufferResult::SwitchBuffer(input)
            },
            MinibufferMode::KillBuffer => {
                self.finish();
                MinibufferResult::KillBuffer(input)
            },
            MinibufferMode::QueryReplacePattern { is_regex } => {
                let is_regex = *is_regex;
                if empty {
                    self.show_error(owned("置換する文字列を入力してください"));
                    MinibufferResult::Continue
                } else {
                    let prompt = concat_str(concat_str("Query replace ", input.as_str()).as_str(), " with: ");
                    let entry = input.clone();
                    self.state.history.add_entry(entry);
                    proof {
                        history::lemma_history_added_len(old(self).state.history@, entry@);
                    }
                    self.start(
                        MinibufferMode::QueryReplaceReplacement { is_regex, pattern: input },
                        prompt.as_str(),
                        None,
                    );
                    MinibufferResult::Continue
                }
            },
            MinibufferMode::QueryReplaceReplacement { is_regex, pattern } => {
                let is_regex = *is_regex;
                let pattern = pattern.clone();
                self.finish();
                MinibufferResult::QueryReplace { pattern, replacement: input, is_regex }
            },
            _ => MinibufferResult::Continue,
        }
    }

    fn check_message_expiry(&mut self)
        requires
            old(self).wf(),
        ensures
            final(self).wf(),
            final(self)@ == old(self)@ || ((old(self)@.mode is ErrorDisplay || old(self)@.mode is InfoDisplay)
                && final(self)@ == deactivated(old(self)@)),
    {
        let expired = match &self.state.mode {
            MinibufferMode::ErrorDisplay { shown_at, lifetime, .. } => display_time_over(
                elapsed_nanos(shown_at),
                duration_nanos(lifetime),
            ),
            MinibufferMode::InfoDisplay { shown_at, lifetime, .. } => display_time_over(
                elapsed_nanos(shown_at),
                duration_nanos(lifetime),
            ),
            _ => false,
        };
        if expired {
            self.deactivate();
        }
    }
}

impl Default for ModernMinibuffer {
    fn default() -> (r: Self)
        ensures
            r.wf(),
            r@ == initial_state(),
    {
        Self::new()
    }
}

} // verus!
