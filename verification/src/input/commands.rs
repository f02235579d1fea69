//! Editor commands: their names, and the processor that applies them to
//! an editor with a kill ring. Opening and saving files is handed to the
//! application as a request.
use crate::buffer::cursor::CursorPosition;
use crate::buffer::editor::{normalize_newlines, EditOperations, TextEditor};
use crate::buffer::navigation::{NavigationAction, NavigationError, NavigationSystem};
use crate::editor::kill_ring::KillRing;
use crate::error::{altre_error_text, edit_error_text, AltreError, EditError, Result};
use crate::file::operations::FileBuffer;
use crate::text::{char_debug, char_for_debug, chars_of, concat_str, debug_quoted, owned, quote_for_debug, str_equal, MAX_TEXT_CHARS};
use vstd::prelude::*;

verus! {

/// A file operation the application has to carry out for a command.
#[derive(Debug, Clone, PartialEq, Eq)]
pub enum FileRequest {
    Open { path: String },
    Save,
}

/// The outcome of a command.
#[derive(Debug, Clone)]
pub struct CommandResult {
    pub success: bool,
    pub message: Option<String>,
    pub needs_refresh: bool,
    pub should_quit: bool,
    pub file_request: Option<FileRequest>,
}

/// `r` has the given flags and message, and no file request.
pub open spec fn result_is(r: CommandResult, success: bool, message: Option<Seq<char>>, refresh: bool, quit: bool) -> bool {
    &&& r.success == success
    &&& match message {
        Some(m) => r.message matches Some(x) && x@ == m,
        None => r.message is None,
    }
    &&& r.needs_refresh == refresh
    &&& r.should_quit == quit
    &&& r.file_request is None
}

impl CommandResult {
    /// Success; the screen needs redrawing.
    pub fn success() -> (r: Self)
        ensures
            result_is(r, true, None, true, false),
    {
        Self { success: true, message: None, needs_refresh: true, should_quit: false, file_request: None }
    }

    /// Success with a message.
    pub fn success_with_message(message: String) -> (r: Self)
        ensures
            result_is(r, true, Some(message@), true, false),
    {
        Self { success: true, message: Some(message), needs_refresh: true, should_quit: false, file_request: None }
    }

    /// Failure with a message.
    pub fn error(message: String) -> (r: Self)
        ensures
            result_is(r, false, Some(message@), false, false),
    {
        Self { success: false, message: Some(message), needs_refresh: false, should_quit: false, file_request: None }
    }

    /// Quit the application.
    pub fn quit() -> (r: Self)
        ensures
            result_is(r, true, Some("アプリケーションを終了します"@), false, true),
    {
        Self {
            success: true,
            message: Some(owned("アプリケーションを終了します")),
            needs_refresh: false,
            should_quit: true,
            file_request: None,
        }
    }

    /// Success without redrawing.
    pub fn success_no_refresh() -> (r: Self)
        ensures
            result_is(r, true, None, false, false),
    {
        Self { success: true, message: None, needs_refresh: false, should_quit: false, file_request: None }
    }

    /// A file operation for the application to carry out.
    pub fn request(request: FileRequest) -> (r: Self)
        ensures
            r.success && r.message is None && !r.needs_refresh && !r.should_quit && r.file_request == Some(request),
    {
        Self { success: true, message: None, needs_refresh: false, should_quit: false, file_request: Some(request) }
    }
}

/// How a kill joins the last kill ring entry.
#[derive(Debug, Clone, Copy, PartialEq, Eq, Structural)]
pub enum KillJoin {
    Append,
    Prepend,
}

/// The kind of the previous command.
#[derive(Debug, Clone, Copy, PartialEq, Eq, Structural)]
pub enum LastCommand {
    Other,
    Kill,
    Yank,
}

/// An editor command.
#[derive(Debug, Clone, PartialEq)]
pub enum Command {
    ForwardChar,
    BackwardChar,
    NextLine,
    PreviousLine,
    ForwardWord,
    BackwardWord,
    InsertChar(char),
    DeleteBackwardChar,
    DeleteChar,
    InsertNewline,
    KillWordForward,
    KillWordBackward,
    KillLine,
    Yank,
    YankPop,
    KeyboardQuit,
    Undo,
    Redo,
    SetMark,
    KillRegion,
    CopyRegion,
    ExchangePointAndMark,
    MarkBuffer,
    ScrollPageDown,
    ScrollPageUp,
    Recenter,
    ScrollLeft,
    ScrollRight,
    FindFile,
    SaveBuffer,
    WriteFile,        // C-x C-w (別名保存),
    SaveAllBuffers,   // C-x s (全バッファ保存),
    SwitchToBuffer,   // C-x b,
    KillBuffer,       // C-x k,
    ListBuffers,      // C-x C-b,
    SplitWindowBelow,   // C-x 2,
    SplitWindowRight,   // C-x 3,
    DeleteOtherWindows, // C-x 1,
    DeleteWindow,       // C-x 0,
    OtherWindow,        // C-x o,
    SaveBuffersKillTerminal,
    Quit,
    ExecuteCommand,
    MoveLineStart,
    MoveLineEnd,
    MoveBufferStart,
    MoveBufferEnd,
    EvalExpression,
    QueryReplace,
    RegexQueryReplace,
    Unknown(String),
}

/// The command called `name`, if any.
pub open spec fn command_named(name: Seq<char>) -> Option<Command> {
    if name == "forward-char"@ {
        Some(Command::ForwardChar)
    } else if name == "backward-char"@ {
        Some(Command::BackwardChar)
    } else if name == "next-line"@ {
        Some(Command::NextLine)
    } else if name == "previous-line"@ {
        Some(Command::PreviousLine)
    } else if name == "forward-word"@ {
        Some(Command::ForwardWord)
    } else if name == "backward-word"@ {
        Some(Command::BackwardWord)
    } else if name == "delete-backward-char"@ {
        Some(Command::DeleteBackwardChar)
    } else if name == "delete-char"@ {
        Some(Command::DeleteChar)
    } else if name == "newline"@ {
        Some(Command::InsertNewline)
    } else if name == "kill-word"@ {
        Some(Command::KillWordForward)
    } else if name == "backward-kill-word"@ {
        Some(Command::KillWordBackward)
    } else if name == "kill-line"@ {
        Some(Command::KillLine)
    } else if name == "yank"@ {
        Some(Command::Yank)
    } else if name == "yank-pop"@ {
        Some(Command::YankPop)
    } else if name == "keyboard-quit"@ {
        Some(Command::KeyboardQuit)
    } else if name == "undo"@ {
        Some(Command::Undo)
    } else if name == "redo"@ {
        Some(Command::Redo)
    } else if name == "set-mark-command"@ {
        Some(Command::SetMark)
    } else if name == "kill-region"@ {
        Some(Command::KillRegion)
    } else if name == "copy-region-as-kill"@ {
        Some(Command::CopyRegion)
    } else if name == "exchange-point-and-mark"@ {
        Some(Command::ExchangePointAndMark)
    } else if name == "mark-whole-buffer"@ {
        Some(Command::MarkBuffer)
    } else if name == "scroll-up"@ {
        Some(Command::ScrollPageDown)
    } else if name == "scroll-down"@ {
        Some(Command::ScrollPageUp)
    } else if name == "recenter-top-bottom"@ {
        Some(Command::Recenter)
    } else if name == "scroll-left"@ {
        Some(Command::ScrollLeft)
    } else if name == "scroll-right"@ {
        Some(Command::ScrollRight)
    } else if name == "find-file"@ {
        Some(Command::FindFile)
    } else if name == "save-buffer"@ {
        Some(Command::SaveBuffer)
    } else if name == "write-file"@ {
        Some(Command::WriteFile)
    } else if name == "save-some-buffers"@ {
        Some(Command::SaveAllBuffers)
    } else if name == "switch-to-buffer"@ {
        Some(Command::SwitchToBuffer)
    } else if name == "kill-buffer"@ {
        Some(Command::KillBuffer)
    } else if name == "list-buffers"@ {
        Some(Command::ListBuffers)
    } else if name == "split-window-below"@ {
        Some(Command::SplitWindowBelow)
    } else if name == "split-window-right"@ {
        Some(Command::SplitWindowRight)
    } else if name == "delete-other-windows"@ {
        Some(Command::DeleteOtherWindows)
    } else if name == "delete-window"@ {
        Some(Command::DeleteWindow)
    } else if name == "other-window"@ {
        Some(Command::OtherWindow)
    } else if name == "save-buffers-kill-terminal"@ {
        Some(Command::SaveBuffersKillTerminal)
    } else if name == "quit"@ {
        Some(Command::Quit)
    } else if name == "execute-command"@ {
        Some(Command::ExecuteCommand)
    } else if name == "eval-expression"@ {
        Some(Command::EvalExpression)
    } else if name == "move-beginning-of-line"@ {
        Some(Command::MoveLineStart)
    } else if name == "move-end-of-line"@ {
        Some(Command::MoveLineEnd)
    } else if name == "beginning-of-buffer"@ {
        Some(Command::MoveBufferStart)
    } else if name == "end-of-buffer"@ {
        Some(Command::MoveBufferEnd)
    } else if name == "query-replace"@ {
        Some(Command::QueryReplace)
    } else if name == "query-replace-regexp"@ {
        Some(Command::RegexQueryReplace)
    } else {
        None
    }
}

/// The command for `name`: a known command, or `Unknown` with the name.
pub open spec fn command_from(name: Seq<char>, c: Command) -> bool {
    match command_named(name) {
        Some(k) => c == k,
        None => c matches Command::Unknown(n) && n@ == name,
    }
}

/// The description of a command.
pub open spec fn command_description(c: Command) -> Seq<char> {
    match c {
        Command::ForwardChar => "カーソルを右に移動"@,
        Command::BackwardChar => "カーソルを左に移動"@,
        Command::NextLine => "カーソルを下に移動"@,
        Command::PreviousLine => "カーソルを上に移動"@,
        Command::ForwardWord => "次の単語末尾に移動"@,
        Command::BackwardWord => "前の単語先頭に移動"@,
        Command::InsertChar(_) => "文字を挿入"@,
        Command::DeleteBackwardChar => "前の文字を削除"@,
        Command::DeleteChar => "カーソル位置の文字を削除"@,
        Command::KillWordForward => "次の単語を削除"@,
        Command::KillWordBackward => "前の単語を削除"@,
        Command::KillLine => "行末まで削除"@,
        Command::Yank => "キルリングから貼り付け"@,
        Command::YankPop => "直前のヤンクを置き換え"@,
        Command::KeyboardQuit => "操作をキャンセル"@,
        Command::Undo => "直前の操作を取り消し"@,
        Command::Redo => "取り消した操作をやり直し"@,
        Command::SetMark => "マークを設定"@,
        Command::KillRegion => "リージョンを削除"@,
        Command::CopyRegion => "リージョンをコピー"@,
        Command::ExchangePointAndMark => "カーソルとマークを交換"@,
        Command::MarkBuffer => "バッファ全体を選択"@,
        Command::ScrollPageDown => "画面を下にスクロール"@,
        Command::ScrollPageUp => "画面を上にスクロール"@,
        Command::Recenter => "画面を再配置"@,
        Command::ScrollLeft => "画面を左にスクロール"@,
        Command::ScrollRight => "画面を右にスクロール"@,
        Command::InsertNewline => "改行を挿入"@,
        Command::FindFile => "ファイルを開く"@,
        Command::SaveBuffer => "バッファを保存"@,
        Command::WriteFile => "別名でファイルを保存"@,
        Command::SaveAllBuffers => "すべてのバッファを保存"@,
        Command::SwitchToBuffer => "バッファを切り替え"@,
        Command::KillBuffer => "バッファを削除"@,
        Command::ListBuffers => "バッファ一覧を表示"@,
        Command::SplitWindowBelow => "ウィンドウを上下に分割"@,
        Command::SplitWindowRight => "ウィンドウを左右に分割"@,
        Command::DeleteOtherWindows => "現在のウィンドウのみ表示"@,
        Command::DeleteWindow => "現在のウィンドウを閉じる"@,
        Command::OtherWindow => "次のウィンドウに移動"@,
        Command::SaveBuffersKillTerminal => "保存して終了"@,
        Command::Quit => "終了"@,
        Command::ExecuteCommand => "コマンドを実行"@,
        Command::EvalExpression => "式を評価"@,
        Command::MoveLineStart => "行頭に移動"@,
        Command::MoveLineEnd => "行末に移動"@,
        Command::MoveBufferStart => "バッファ先頭に移動"@,
        Command::MoveBufferEnd => "バッファ末尾に移動"@,
        Command::QueryReplace => "クエリ置換を実行"@,
        Command::RegexQueryReplace => "正規表現クエリ置換を実行"@,
        Command::Unknown(_) => "不明なコマンド"@,
    }
}

impl Command {
    /// The command called `cmd` (`Unknown` for other names).
    pub fn from_string(cmd: &str) -> (r: Self)
        ensures
            command_from(cmd@, r),
    {
        if str_equal(cmd, "forward-char") {
            Command::ForwardChar
        } else if str_equal(cmd, "backward-char") {
            Command::BackwardChar
        } else if str_equal(cmd, "next-line") {
            Command::NextLine
        } else if str_equal(cmd, "previous-line") {
            Command::PreviousLine
        } else if str_equal(cmd, "forward-word") {
            Command::ForwardWord
        } else if str_equal(cmd, "backward-word") {
            Command::BackwardWord
        } else if str_equal(cmd, "delete-backward-char") {
            Command::DeleteBackwardChar
        } else if str_equal(cmd, "delete-char") {
            Command::DeleteChar
        } else if str_equal(cmd, "newline") {
            Command::InsertNewline
        } else if str_equal(cmd, "kill-word") {
            Command::KillWordForward
        } else if str_equal(cmd, "backward-kill-word") {
            Command::KillWordBackward
        } else if str_equal(cmd, "kill-line") {
            Command::KillLine
        } else if str_equal(cmd, "yank") {
            Command::Yank
        } else if str_equal(cmd, "yank-pop") {
            Command::YankPop
        } else if str_equal(cmd, "keyboard-quit") {
            Command::KeyboardQuit
        } else if str_equal(cmd, "undo") {
            Command::Undo
        } else if str_equal(cmd, "redo") {
            Command::Redo
        } else if str_equal(cmd, "set-mark-command") {
            Command::SetMark
        } else if str_equal(cmd, "kill-region") {
            Command::KillRegion
        } else if str_equal(cmd, "copy-region-as-kill") {
            Command::CopyRegion
        } else if str_equal(cmd, "exchange-point-and-mark") {
            Command::ExchangePointAndMark
        } else if str_equal(cmd, "mark-whole-buffer") {
            Command::MarkBuffer
        } else if str_equal(cmd, "scroll-up") {
            Command::ScrollPageDown
        } else if str_equal(cmd, "scroll-down") {
            Command::ScrollPageUp
        } else if str_equal(cmd, "recenter-top-bottom") {
            Command::Recenter
        } else if str_equal(cmd, "scroll-left") {
            Command::ScrollLeft
        } else if str_equal(cmd, "scroll-right") {
            Command::ScrollRight
        } else if str_equal(cmd, "find-file") {
            Command::FindFile
        } else if str_equal(cmd, "save-buffer") {
            Command::SaveBuffer
        } else if str_equal(cmd, "write-file") {
            Command::WriteFile
        } else if str_equal(cmd, "save-some-buffers") {
            Command::SaveAllBuffers
        } else if str_equal(cmd, "switch-to-buffer") {
            Command::SwitchToBuffer
        } else if str_equal(cmd, "kill-buffer") {
            Command::KillBuffer
        } else if str_equal(cmd, "list-buffers") {
            Command::ListBuffers
        } else if str_equal(cmd, "split-window-below") {
            Command::SplitWindowBelow
        } else if str_equal(cmd, "split-window-right") {
            Command::SplitWindowRight
        } else if str_equal(cmd, "delete-other-windows") {
            Command::DeleteOtherWindows
        } else if str_equal(cmd, "delete-window") {
            Command::DeleteWindow
        } else if str_equal(cmd, "other-window") {
            Command::OtherWindow
        } else if str_equal(cmd, "save-buffers-kill-terminal") {
            Command::SaveBuffersKillTerminal
        } else if str_equal(cmd, "quit") {
            Command::Quit
        } else if str_equal(cmd, "execute-command") {
            Command::ExecuteCommand
        } else if str_equal(cmd, "eval-expression") {
            Command::EvalExpression
        } else if str_equal(cmd, "move-beginning-of-line") {
            Command::MoveLineStart
        } else if str_equal(cmd, "move-end-of-line") {
            Command::MoveLineEnd
        } else if str_equal(cmd, "beginning-of-buffer") {
            Command::MoveBufferStart
        } else if str_equal(cmd, "end-of-buffer") {
            Command::MoveBufferEnd
        } else if str_equal(cmd, "query-replace") {
            Command::QueryReplace
        } else if str_equal(cmd, "query-replace-regexp") {
            Command::RegexQueryReplace
        } else {
            Command::Unknown(owned(cmd))
        }
    }

    /// A one-line description of the command.
    pub fn description(&self) -> (r: &'static str)
        ensures
            r@ == command_description(*self),
    {
        match self {
            Command::ForwardChar => "カーソルを右に移動",
            Command::BackwardChar => "カーソルを左に移動",
            Command::NextLine => "カーソルを下に移動",
            Command::PreviousLine => "カーソルを上に移動",
            Command::ForwardWord => "次の単語末尾に移動",
            Command::BackwardWord => "前の単語先頭に移動",
            Command::InsertChar(_) => "文字を挿入",
            Command::DeleteBackwardChar => "前の文字を削除",
            Command::DeleteChar => "カーソル位置の文字を削除",
            Command::KillWordForward => "次の単語を削除",
            Command::KillWordBackward => "前の単語を削除",
            Command::KillLine => "行末まで削除",
            Command::Yank => "キルリングから貼り付け",
            Command::YankPop => "直前のヤンクを置き換え",
            Command::KeyboardQuit => "操作をキャンセル",
            Command::Undo => "直前の操作を取り消し",
            Command::Redo => "取り消した操作をやり直し",
            Command::SetMark => "マークを設定",
            Command::KillRegion => "リージョンを削除",
            Command::CopyRegion => "リージョンをコピー",
            Command::ExchangePointAndMark => "カーソルとマークを交換",
            Command::MarkBuffer => "バッファ全体を選択",
            Command::ScrollPageDown => "画面を下にスクロール",
            Command::ScrollPageUp => "画面を上にスクロール",
            Command::Recenter => "画面を再配置",
            Command::ScrollLeft => "画面を左にスクロール",
            Command::ScrollRight => "画面を右にスクロール",
            Command::InsertNewline => "改行を挿入",
            Command::FindFile => "ファイルを開く",
            Command::SaveBuffer => "バッファを保存",
            Command::WriteFile => "別名でファイルを保存",
            Command::SaveAllBuffers => "すべてのバッファを保存",
            Command::SwitchToBuffer => "バッファを切り替え",
            Command::KillBuffer => "バッファを削除",
            Command::ListBuffers => "バッファ一覧を表示",
            Command::SplitWindowBelow => "ウィンドウを上下に分割",
            Command::SplitWindowRight => "ウィンドウを左右に分割",
            Command::DeleteOtherWindows => "現在のウィンドウのみ表示",
            Command::DeleteWindow => "現在のウィンドウを閉じる",
            Command::OtherWindow => "次のウィンドウに移動",
            Command::SaveBuffersKillTerminal => "保存して終了",
            Command::Quit => "終了",
            Command::ExecuteCommand => "コマンドを実行",
            Command::EvalExpression => "式を評価",
            Command::MoveLineStart => "行頭に移動",
            Command::MoveLineEnd => "行末に移動",
            Command::MoveBufferStart => "バッファ先頭に移動",
            Command::MoveBufferEnd => "バッファ末尾に移動",
            Command::QueryReplace => "クエリ置換を実行",
            Command::RegexQueryReplace => "正規表現クエリ置換を実行",
            Command::Unknown(_) => "不明なコマンド",
        }
    }
}


/// The ring after pushing `t` in front (dropping the oldest entry when at
/// capacity `cap`).
pub open spec fn pushed(ring: Seq<Seq<char>>, cap: nat, t: Seq<char>) -> Seq<Seq<char>> {
    if ring.len() == cap && ring.len() > 0 {
        seq![t] + ring.drop_last()
    } else {
        seq![t] + ring
    }
}

/// The ring after recording kill `t`: right after another kill it joins
/// the newest entry (after it or before it), otherwise it is pushed.
pub open spec fn recorded(ring: Seq<Seq<char>>, cap: nat, last: LastCommand, t: Seq<char>, join: KillJoin) -> Seq<Seq<char>> {
    if last == LastCommand::Kill {
        if ring.len() == 0 {
            seq![t]
        } else {
            match join {
                KillJoin::Append => ring.update(0, ring[0] + t),
                KillJoin::Prepend => ring.update(0, t + ring[0]),
            }
        }
    } else {
        pushed(ring, cap, t)
    }
}

/// The command messages of this module.
pub open spec fn app_side_message() -> Seq<char> {
    "このコマンドはアプリ側で処理します"@
}

/// Applies commands to an editor, with a kill ring and the file buffer the
/// editor shows.
pub struct CommandProcessor {
    editor: TextEditor,
    current_buffer: Option<FileBuffer>,
    kill_ring: KillRing,
    last_command: LastCommand,
    last_yank_range: Option<(usize, usize)>,
}

impl CommandProcessor {
    /// The editor and the buffer are well formed.
    pub closed spec fn wf(&self) -> bool {
        &&& self.editor.wf()
        &&& self.current_buffer matches Some(b) ==> b.wf()
    }

    /// The editor.
    pub closed spec fn editor_state(&self) -> TextEditor {
        self.editor
    }

    /// The kill ring.
    pub closed spec fn ring(&self) -> Seq<Seq<char>> {
        self.kill_ring@
    }

    /// The capacity of the kill ring.
    pub closed spec fn ring_cap(&self) -> nat {
        self.kill_ring.cap()
    }

    /// The kind of the previous command.
    pub closed spec fn last(&self) -> LastCommand {
        self.last_command
    }

    /// Where the last yank put its text: start and length.
    pub closed spec fn yank_range(&self) -> Option<(usize, usize)> {
        self.last_yank_range
    }

    /// The buffer the editor shows.
    pub closed spec fn buffer(&self) -> Option<FileBuffer> {
        self.current_buffer
    }

    /// An empty editor, an empty kill ring, no buffer.
    pub fn new() -> (r: Self)
        ensures
            r.wf(),
            r.editor_state().text() == Seq::<char>::empty(),
            r.ring() == Seq::<Seq<char>>::empty(),
            r.ring_cap() == crate::editor::kill_ring::DEFAULT_CAPACITY,
            r.last() == LastCommand::Other,
            r.yank_range() is None,
            r.buffer() is None,
    {
        Self {
            editor: TextEditor::new(),
            current_buffer: None,
            kill_ring: KillRing::new(),
            last_command: LastCommand::Other,
            last_yank_range: None,
        }
    }

    /// The editor.
    pub fn editor(&self) -> (r: &TextEditor)
        ensures
            *r == self.editor_state(),
    {
        &self.editor
    }

    /// The buffer the editor shows.
    pub fn current_buffer(&self) -> (r: Option<&FileBuffer>)
        ensures
            match self.buffer() {
                Some(b) => r == Some(&b),
                None => r is None,
            },
    {
        match &self.current_buffer {
            Some(b) => Some(b),
            None => None,
        }
    }

    /// The buffer the editor shows, for changes.
    pub fn current_buffer_mut(&mut self) -> (r: Option<&mut FileBuffer>)
        ensures
            old(self).buffer() is None ==> r is None && *final(self) == *old(self),
            old(self).buffer() matches Some(b) ==> (r matches Some(x) && *x == b && final(self).buffer() == Some(*final(x))),
            final(self).editor_state() == old(self).editor_state(),
            final(self).ring() == old(self).ring(),
            final(self).last() == old(self).last(),
    {
        match &mut self.current_buffer {
            Some(b) => Some(b),
            None => None,
        }
    }

    /// Shows `buffer`: the editor gets its content, the command context is
    /// reset.
    pub fn set_current_buffer(&mut self, buffer: FileBuffer)
        requires
            buffer.wf(),
            buffer.content@.len() + 0x10000 <= crate::buffer::gap_buffer::MAX_BUFFER_CHARS,
        ensures
            final(self).wf(),
            final(self).buffer() == Some(buffer),
            final(self).editor_state().text() == buffer.content@,
            final(self).editor_state().cursor == (CursorPosition { char_pos: 0, line: 0, column: 0 }),
            final(self).ring() == old(self).ring(),
            final(self).last() == LastCommand::Other,
            final(self).yank_range() is None,
    {
        self.editor = TextEditor::from_str(buffer.content.as_str());
        self.current_buffer = Some(buffer);
        self.reset_command_context();
    }

    /// Replaces the editor content with `content`; the buffer (a new
    /// untitled one when there is none) takes the content too.
    pub fn sync_editor_content(&mut self, content: &str)
        requires
            old(self).wf(),
            content@.len() + 0x10000 <= crate::buffer::gap_buffer::MAX_BUFFER_CHARS,
        ensures
            final(self).wf(),
            final(self).editor_state().text() == content@,
            final(self).editor_state().cursor == (CursorPosition { char_pos: 0, line: 0, column: 0 }),
            final(self).buffer() matches Some(b) && b.content@ == content@,
            old(self).buffer() is None ==> (final(self).buffer() matches Some(b) && b.name@ == "untitled"@
                && b.path is None && b.change_tracker.saved() == Seq::<char>::empty()),
            final(self).ring() == old(self).ring(),
            final(self).ring_cap() == old(self).ring_cap(),
            final(self).last() == LastCommand::Other,
            final(self).yank_range() is None,
    {
        self.editor = TextEditor::from_str(content);
        match &mut self.current_buffer {
            Some(buffer) => {
                buffer.content = owned(content);
            },
            None => {
                let mut buffer = FileBuffer::new_empty(owned("untitled"));
                buffer.content = owned(content);
                self.current_buffer = Some(buffer);
            },
        }
        self.last_command = LastCommand::Other;
        self.last_yank_range = None;
    }

    fn record_kill(&mut self, text: String, join: KillJoin)
        ensures
            final(self).editor == old(self).editor,
            final(self).current_buffer == old(self).current_buffer,
            text@.len() == 0 ==> *final(self) == *old(self),
            text@.len() > 0 ==> final(self).ring() == recorded(old(self).ring(), old(self).ring_cap(), old(self).last(), text@, join)
                && final(self).last() == LastCommand::Kill && final(self).yank_range() is None,
            final(self).ring_cap() == old(self).ring_cap(),
    {
        if text.as_str().is_empty() {
            return;
        }
        match join {
            KillJoin::Append => {
                match self.last_command {
                    LastCommand::Kill => self.kill_ring.append_to_front(text.as_str()),
                    _ => self.kill_ring.push(text),
                }
            },
            KillJoin::Prepend => {
                match self.last_command {
                    LastCommand::Kill => self.kill_ring.prepend_to_front(text.as_str()),
                    _ => self.kill_ring.push(text),
                }
            },
        }
        self.last_command = LastCommand::Kill;
        self.last_yank_range = None;
    }

    fn reset_command_context(&mut self)
        ensures
            final(self).editor == old(self).editor,
            final(self).current_buffer == old(self).current_buffer,
            final(self).kill_ring == old(self).kill_ring,
            final(self).last_command == LastCommand::Other,
            final(self).last_yank_range is None,
    {
        self.last_command = LastCommand::Other;
        self.last_yank_range = None;
    }

    /// Asks the application to open the file at `path`.
    pub fn open_file(&mut self, path: String) -> (r: CommandResult)
        ensures
            old(self).wf() ==> final(self).wf(),
            *final(self) == *old(self) || (final(self).last() == LastCommand::Other && final(self).yank_range() is None
                && final(self).editor_state() == old(self).editor_state()),
            r.file_request == Some(FileRequest::Open { path }),
            r.success,
    {
        self.reset_command_context();
        CommandResult::request(FileRequest::Open { path })
    }

    /// Shows a buffer the application opened (or created, for a new file)
    /// at `shown_path`.
    pub fn finish_open(&mut self, buffer: FileBuffer, shown_path: &str, created: bool) -> (r: CommandResult)
        requires
            buffer.wf(),
            buffer.content@.len() + 0x10000 <= crate::buffer::gap_buffer::MAX_BUFFER_CHARS,
        ensures
            final(self).wf(),
            final(self).buffer() == Some(buffer),
            final(self).editor_state().text() == buffer.content@,
            result_is(r, true, Some((if created { "新規ファイルを作成しました: "@ } else { "ファイルを開きました: "@ }) + shown_path@), true, false),
    {
        self.set_current_buffer(buffer);
        if created {
            CommandResult::success_with_message(concat_str("新規ファイルを作成しました: ", shown_path))
        } else {
            CommandResult::success_with_message(concat_str("ファイルを開きました: ", shown_path))
        }
    }

    /// Copies the editor content into the buffer before a save: without a
    /// buffer the save is refused, an unchanged buffer needs no save,
    /// otherwise the application is asked to save it.
    pub fn prepare_save(&mut self) -> (r: CommandResult)
        requires
            old(self).wf(),
        ensures
            final(self).wf(),
            final(self).editor_state() == old(self).editor_state(),
            final(self).last() == LastCommand::Other,
            old(self).buffer() is None ==> result_is(r, false, Some("保存するバッファがありません"@), false, false),
            old(self).buffer() is Some ==> (final(self).buffer() matches Some(b) && b.content@ == old(self).editor_state().text()
                && (result_is(r, true, Some("変更なし"@), true, false) || r.file_request == Some(FileRequest::Save))),
            old(self).buffer() matches Some(b0) ==> (r.file_request == Some(FileRequest::Save) <==> crate::file::metadata::text_hash(
                old(self).editor_state().text(),
            ) != crate::file::metadata::text_hash(b0.change_tracker.saved())),
            old(self).buffer() matches Some(b0) && crate::file::metadata::text_hash(old(self).editor_state().text())
                == crate::file::metadata::text_hash(b0.change_tracker.saved()) ==> result_is(r, true, Some("変更なし"@), true, false),
    {
        self.reset_command_context();
        let content = self.editor.to_string();
        match &mut self.current_buffer {
            Some(buffer) => {
                buffer.content = content;
                if !buffer.change_tracker.is_modified(buffer.content.as_str()) {
                    return CommandResult::success_with_message(owned("変更なし"));
                }
                CommandResult::request(FileRequest::Save)
            },
            None => CommandResult::error(owned("保存するバッファがありません")),
        }
    }

    /// Records that the application saved the buffer, under `saved_as`
    /// when it was saved under a new name; says whether there was a buffer.
    pub fn complete_save(&mut self, saved_as: Option<std::path::PathBuf>) -> (r: bool)
        requires
            old(self).wf(),
        ensures
            final(self).wf(),
            r == old(self).buffer() is Some,
            final(self).editor_state() == old(self).editor_state(),
            final(self).ring() == old(self).ring(),
            old(self).buffer() is None ==> *final(self) == *old(self),
            old(self).buffer() matches Some(b0) ==> (final(self).buffer() matches Some(b) && b.content == b0.content
                && b.change_tracker.saved() == b0.content@ && b.path == match saved_as {
                Some(p) => Some(p),
                None => b0.path,
            }),
    {
        match &mut self.current_buffer {
            Some(buffer) => {
                match saved_as {
                    Some(path) => buffer.set_path(path),
                    None => {},
                }
                buffer.mark_saved();
                true
            },
            None => false,
        }
    }

    /// Applies `command`.
    pub fn execute(&mut self, command: Command) -> (r: CommandResult)
        requires
            old(self).wf(),
        ensures
            final(self).wf(),
            final(self).buffer() == old(self).buffer() || command == Command::SaveBuffer || command == Command::SaveAllBuffers,
            executed(*old(self), command, *final(self), r),
    {
        match command {
            Command::ForwardChar => self.navigate(NavigationAction::MoveCharForward),
            Command::BackwardChar => self.navigate(NavigationAction::MoveCharBackward),
            Command::NextLine => self.navigate(NavigationAction::MoveLineDown),
            Command::PreviousLine => self.navigate(NavigationAction::MoveLineUp),
            Command::ForwardWord => self.navigate(NavigationAction::MoveWordForward),
            Command::BackwardWord => self.navigate(NavigationAction::MoveWordBackward),
            Command::InsertChar(ch) => {
                if !self.cursor_can_grow(1) {
                    return self.cursor_overflow();
                }
                let res = self.editor.insert_char(ch);
                self.handle_edit(res)
            },
            Command::DeleteBackwardChar => {
                let res = self.editor.delete_backward();
                self.handle_delete(res)
            },
            Command::DeleteChar => {
                let res = self.editor.delete_forward();
                self.handle_delete(res)
            },
            Command::InsertNewline => {
                if !self.cursor_can_grow(1) {
                    return self.cursor_overflow();
                }
                let res = self.editor.insert_newline();
                self.handle_edit(res)
            },
            Command::KillWordForward => {
                let res = self.editor.delete_word_forward();
                self.handle_kill(res, KillJoin::Append)
            },
            Command::KillWordBackward => {
                if self.editor.cursor().char_pos > self.editor.buffer.len_chars() {
                    return self.cursor_overflow();
                }
                let res = self.editor.delete_word_backward();
                self.handle_kill(res, KillJoin::Prepend)
            },
            Command::KillLine => {
                let res = self.editor.kill_line_forward();
                self.handle_kill(res, KillJoin::Append)
            },
            Command::Yank => self.handle_yank(),
            Command::YankPop => self.handle_yank_pop(),
            Command::KeyboardQuit => self.handle_keyboard_quit(),
            Command::ScrollPageDown | Command::ScrollPageUp | Command::Recenter | Command::ScrollLeft
            | Command::ScrollRight | Command::SplitWindowBelow | Command::SplitWindowRight
            | Command::DeleteOtherWindows | Command::DeleteWindow | Command::OtherWindow
            | Command::SwitchToBuffer | Command::KillBuffer | Command::ListBuffers | Command::SetMark
            | Command::KillRegion | Command::CopyRegion | Command::ExchangePointAndMark | Command::MarkBuffer
            | Command::QueryReplace | Command::RegexQueryReplace | Command::Undo | Command::Redo => {
                CommandResult::error(owned("このコマンドはアプリ側で処理します"))
            },
            Command::FindFile => {
                self.reset_command_context();
                CommandResult::request(FileRequest::Open { path: owned("README.md") })
            },
            Command::SaveBuffer => self.prepare_save(),
            Command::WriteFile => CommandResult::error(owned("write-file はミニバッファ経由で実行してください")),
            Command::SaveAllBuffers => match &self.current_buffer {
                Some(buffer) => if buffer.path.is_some() {
                    self.prepare_save()
                } else {
                    CommandResult::success_with_message(owned("保存すべき変更がありません"))
                },
                None => CommandResult::error(owned("保存するバッファがありません")),
            },
            Command::SaveBuffersKillTerminal | Command::Quit => {
                self.reset_command_context();
                CommandResult::quit()
            },
            Command::ExecuteCommand => {
                self.reset_command_context();
                CommandResult::success_with_message(owned("M-x は現在未実装です"))
            },
            Command::EvalExpression => {
                self.reset_command_context();
                CommandResult::success_with_message(owned("eval-expression はミニバッファで処理されます"))
            },
            Command::MoveLineStart => self.navigate(NavigationAction::MoveLineStart),
            Command::MoveLineEnd => self.navigate(NavigationAction::MoveLineEnd),
            Command::MoveBufferStart => self.navigate(NavigationAction::MoveBufferStart),
            Command::MoveBufferEnd => self.navigate(NavigationAction::MoveBufferEnd),
            Command::Unknown(cmd) => CommandResult::error(concat_str("不明なコマンド: ", cmd.as_str())),
        }
    }

    /// The cursor's line and column can grow by `n`.
    fn cursor_can_grow(&self, n: usize) -> (r: bool)
        ensures
            r == (self.editor.cursor.line + n <= usize::MAX && self.editor.cursor.column + n <= usize::MAX),
    {
        let c = self.editor.cursor();
        c.line <= usize::MAX - n && c.column <= usize::MAX - n
    }

    /// The refusal of an edit whose cursor cannot advance.
    fn cursor_overflow(&mut self) -> (r: CommandResult)
        ensures
            final(self).editor == old(self).editor,
            final(self).current_buffer == old(self).current_buffer,
            final(self).kill_ring == old(self).kill_ring,
            final(self).last_command == LastCommand::Other,
            final(self).last_yank_range is None,
            result_is(r, false, Some("Edit error: "@ + edit_error_text(
                EditError::OutOfBounds(old(self).editor.cursor.char_pos),
                Seq::empty(),
            )), false, false),
    {
        self.reset_command_context();
        let e = AltreError::from_edit(EditError::OutOfBounds(self.editor.cursor().char_pos));
        CommandResult::error(e.message())
    }

    fn navigate(&mut self, action: NavigationAction) -> (r: CommandResult)
        requires
            old(self).wf(),
        ensures
            final(self).wf(),
            final(self).editor_state().text() == old(self).editor_state().text(),
            final(self).current_buffer == old(self).current_buffer,
            final(self).kill_ring == old(self).kill_ring,
            final(self).last_command == LastCommand::Other,
            final(self).last_yank_range is None,
            r.file_request is None,
            !r.should_quit,
            moved(*old(self), action, *final(self), r),
    {
        let c = *self.editor.cursor();
        let len = self.editor.buffer.len_chars();
        proof {
            self.editor.buffer.lemma_len_bound();
        }
        if (action == NavigationAction::MoveCharForward && c.char_pos < len && (c.line == usize::MAX
            || c.column == usize::MAX)) || (action == NavigationAction::MoveCharBackward && c.char_pos > len) {
            self.reset_command_context();
            return CommandResult::error(NavigationError::InvalidPosition(c.char_pos).message());
        }
        match self.editor.navigate(action) {
            Ok(_) => {
                self.reset_command_context();
                CommandResult::success()
            },
            Err(err) => {
                self.reset_command_context();
                CommandResult::error(err.message())
            },
        }
    }

    fn handle_edit(&mut self, result: Result<()>) -> (r: CommandResult)
        ensures
            final(self).editor == old(self).editor,
            final(self).current_buffer == old(self).current_buffer,
            final(self).kill_ring == old(self).kill_ring,
            final(self).last_command == LastCommand::Other,
            final(self).last_yank_range is None,
            match result {
                Ok(_) => result_is(r, true, None, true, false),
                Err(e) => result_is(r, false, Some(altre_error_text(e)), false, false),
            },
    {
        match result {
            Ok(_) => {
                self.reset_command_context();
                CommandResult::success()
            },
            Err(err) => {
                self.reset_command_context();
                CommandResult::error(err.message())
            },
        }
    }

    fn handle_delete(&mut self, result: Result<char>) -> (r: CommandResult)
        ensures
            final(self).editor == old(self).editor,
            final(self).current_buffer == old(self).current_buffer,
            final(self).kill_ring == old(self).kill_ring,
            final(self).last_command == LastCommand::Other,
            final(self).last_yank_range is None,
            match result {
                Ok(_) => result_is(r, true, None, true, false),
                Err(e) => result_is(r, false, Some(altre_error_text(e)), false, false),
            },
    {
        match result {
            Ok(_) => {
                self.reset_command_context();
                CommandResult::success()
            },
            Err(err) => {
                self.reset_command_context();
                CommandResult::error(err.message())
            },
        }
    }

    fn handle_kill(&mut self, result: Result<String>, join: KillJoin) -> (r: CommandResult)
        ensures
            final(self).editor == old(self).editor,
            final(self).current_buffer == old(self).current_buffer,
            final(self).ring_cap() == old(self).ring_cap(),
            match result {
                Ok(t) => result_is(r, true, None, true, false) && if t@.len() == 0 {
                    final(self).ring() == old(self).ring() && final(self).last() == LastCommand::Other
                        && final(self).yank_range() is None
                } else {
                    final(self).ring() == recorded(old(self).ring(), old(self).ring_cap(), old(self).last(), t@, join)
                        && final(self).last() == LastCommand::Kill && final(self).yank_range() is None
                },
                Err(e) => result_is(r, false, Some(altre_error_text(e)), false, false) && final(self).ring()
                    == old(self).ring() && final(self).last() == LastCommand::Other,
            },
    {
        match result {
            Ok(text) => {
                if text.as_str().is_empty() {
                    self.reset_command_context();
                    return CommandResult::success();
                }
                self.record_kill(text, join);
                CommandResult::success()
            },
            Err(err) => {
                self.reset_command_context();
                CommandResult::error(err.message())
            },
        }
    }

    fn handle_yank(&mut self) -> (r: CommandResult)
        requires
            old(self).wf(),
        ensures
            final(self).wf(),
            final(self).current_buffer == old(self).current_buffer,
            final(self).kill_ring == old(self).kill_ring,
            old(self).ring().len() == 0 ==> result_is(r, false, Some("キルリングが空です"@), false, false)
                && final(self).editor == old(self).editor && final(self).last() == LastCommand::Other,
            r.success ==> final(self).last() == LastCommand::Yank && final(self).yank_range() == Some(
                (old(self).editor.cursor.char_pos, old(self).ring()[0].len() as usize),
            ),
            r.success && old(self).ring()[0].len() == 0 ==> final(self).editor.text() == old(self).editor.text(),
            r.success && old(self).ring()[0].len() > 0 ==> final(self).editor.text() == old(self).editor.text().take(old(self).editor.cursor.char_pos as int)
                + crate::buffer::editor::normalize_newlines(old(self).ring()[0]) + old(self).editor.text().skip(
                old(self).editor.cursor.char_pos as int,
            ),
            !r.success ==> final(self).last() == LastCommand::Other,
            !r.success ==> final(self).editor.text() == old(self).editor.text(),
            old(self).ring().len() > 0 && old(self).editor.cursor.line + old(self).ring()[0].len() <= usize::MAX
                && old(self).editor.cursor.column + old(self).ring()[0].len() <= usize::MAX && (old(self).ring()[0].len() == 0
                || old(self).editor.cursor.char_pos <= old(self).editor.text().len() && crate::buffer::editor::room_for(
                old(self).editor.text(),
                old(self).ring()[0].len() as int,
            )) ==> r.success,
            r.file_request is None,
    {
        let text = match self.kill_ring.yank() {
            Some(t) => t,
            None => {
                self.reset_command_context();
                return CommandResult::error(owned("キルリングが空です"));
            },
        };
        let start = self.editor.cursor().char_pos;
        let text_chars = chars_of(text.as_str());
        let len = text_chars.len();
        assert(len == text@.len());
        if !self.cursor_can_grow(len) {
            return self.cursor_overflow();
        }
        match self.editor.insert_str(text.as_str()) {
            Ok(_) => {
                if len == 0 {
                    self.last_command = LastCommand::Yank;
                    self.last_yank_range = Some((start, len));
                    return CommandResult::success();
                }
                self.last_command = LastCommand::Yank;
                self.last_yank_range = Some((start, len));
                CommandResult::success()
            },
            Err(err) => {
                self.reset_command_context();
                CommandResult::error(err.message())
            },
        }
    }

    fn handle_yank_pop(&mut self) -> (r: CommandResult)
        requires
            old(self).wf(),
        ensures
            final(self).wf(),
            final(self).current_buffer == old(self).current_buffer,
            old(self).last() != LastCommand::Yank ==> result_is(r, false, Some("直前のコマンドがヤンクではありません"@), false, false)
                && final(self).editor == old(self).editor && final(self).kill_ring == old(self).kill_ring,
            old(self).last() == LastCommand::Yank && old(self).yank_range() is None ==> result_is(
                r,
                false,
                Some("ヤンク範囲を特定できません"@),
                false,
                false,
            ),
            r.success ==> old(self).last() == LastCommand::Yank && final(self).last() == LastCommand::Yank
                && final(self).ring() == crate::editor::kill_ring::rotated(old(self).ring()),
            !r.success ==> final(self).last() == LastCommand::Other,
            r.file_request is None,
    {
        match self.last_command {
            LastCommand::Yank => {},
            _ => {
                self.reset_command_context();
                return CommandResult::error(owned("直前のコマンドがヤンクではありません"));
            },
        }
        let (start, previous_len) = match self.last_yank_range {
            Some(range) => range,
            None => {
                self.reset_command_context();
                return CommandResult::error(owned("ヤンク範囲を特定できません"));
            },
        };
        match self.editor.move_cursor_to_char(start) {
            Ok(_) => {},
            Err(err) => {
                self.reset_command_context();
                return CommandResult::error(err.message());
            },
        }
        let len = self.editor.buffer.len_chars();
        if previous_len > usize::MAX - start || (previous_len == 0 && start == len && len > 0) {
            self.reset_command_context();
            return self.cursor_overflow();
        }
        match self.editor.delete_range(start, start + previous_len) {
            Ok(_) => {},
            Err(err) => {
                self.reset_command_context();
                return CommandResult::error(err.message());
            },
        }
        let next_text = match self.kill_ring.rotate() {
            Some(t) => t,
            None => {
                self.reset_command_context();
                return CommandResult::error(owned("キルリングが空です"));
            },
        };
        let new_len = chars_of(next_text.as_str()).len();
        if !self.cursor_can_grow(new_len) {
            return self.cursor_overflow();
        }
        match self.editor.insert_str(next_text.as_str()) {
            Ok(_) => {},
            Err(err) => {
                self.reset_command_context();
                return CommandResult::error(err.message());
            },
        }
        self.last_command = LastCommand::Yank;
        self.last_yank_range = Some((start, new_len));
        CommandResult::success()
    }

    fn handle_keyboard_quit(&mut self) -> (r: CommandResult)
        ensures
            final(self).editor == old(self).editor,
            final(self).current_buffer == old(self).current_buffer,
            final(self).kill_ring == old(self).kill_ring,
            final(self).last_command == LastCommand::Other,
            final(self).last_yank_range is None,
            result_is(r, true, Some("操作をキャンセルしました"@), true, false),
    {
        self.reset_command_context();
        CommandResult::success_with_message(owned("操作をキャンセルしました"))
    }
}

impl Default for CommandProcessor {
    fn default() -> (r: Self)
        ensures
            r.wf(),
    {
        Self::new()
    }
}

/// The navigation action of a motion command.
pub open spec fn motion_action(c: Command) -> NavigationAction {
    match c {
        Command::ForwardChar => NavigationAction::MoveCharForward,
        Command::BackwardChar => NavigationAction::MoveCharBackward,
        Command::NextLine => NavigationAction::MoveLineDown,
        Command::PreviousLine => NavigationAction::MoveLineUp,
        Command::ForwardWord => NavigationAction::MoveWordForward,
        Command::BackwardWord => NavigationAction::MoveWordBackward,
        Command::MoveLineStart => NavigationAction::MoveLineStart,
        Command::MoveLineEnd => NavigationAction::MoveLineEnd,
        Command::MoveBufferStart => NavigationAction::MoveBufferStart,
        _ => NavigationAction::MoveBufferEnd,
    }
}

/// A motion from cursor `c` over a text of `len` characters that would
/// carry the cursor's line or column past their limit, or that starts past
/// the text's end.
pub open spec fn motion_blocked(c: CursorPosition, len: int, action: NavigationAction) -> bool {
    ||| action == NavigationAction::MoveCharForward && c.char_pos < len && (c.line == usize::MAX || c.column
        == usize::MAX)
    ||| action == NavigationAction::MoveCharBackward && c.char_pos > len
}

/// The cursor after `action` from `p0` to `p1`: a blocked motion and one
/// the navigation system refuses fail and leave the cursor; with nowhere
/// to move the cursor stays; otherwise the cursor goes where the
/// navigation system moves it and the command succeeds, unless the move
/// took too long, which fails and leaves the cursor.
pub open spec fn moved(p0: CommandProcessor, action: NavigationAction, p1: CommandProcessor, r: CommandResult) -> bool {
    let e0 = p0.editor_state();
    let nav0 = NavigationSystem { cursor: e0.cursor, ..e0.navigation };
    let out = NavigationSystem::dispatch_outcome(nav0, e0.text(), action);
    let blocked = motion_blocked(e0.cursor, e0.text().len() as int, action);
    &&& blocked ==> !r.success && p1.editor_state().cursor == e0.cursor
    &&& out is None ==> !r.success
    &&& out != Some(true) ==> p1.editor_state().cursor == e0.cursor
    &&& r.success ==> out is Some
    &&& out == Some(true) && !blocked ==> (r.success && p1.editor_state().cursor == NavigationSystem::dispatch_state(
        nav0,
        e0.text(),
        action,
    ).0) || (!r.success && p1.editor_state().cursor == e0.cursor)
}

/// A kill that succeeded: the text becomes `t`, and the killed text `d`,
/// when there is any, goes into the kill ring, joined as `join` says to a
/// previous kill.
pub open spec fn killed(
    p0: CommandProcessor,
    p1: CommandProcessor,
    r: CommandResult,
    d: Seq<char>,
    t: Seq<char>,
    join: KillJoin,
) -> bool {
    &&& r.success
    &&& p1.editor_state().text() == t
    &&& if d.len() == 0 {
        p1.ring() == p0.ring() && p1.last() == LastCommand::Other
    } else {
        p1.ring() == recorded(p0.ring(), p0.ring_cap(), p0.last(), d, join) && p1.last() == LastCommand::Kill
    }
}

/// What a command does to the processor and what it answers.
pub open spec fn executed(p0: CommandProcessor, c: Command, p1: CommandProcessor, r: CommandResult) -> bool {
    let t0 = p0.editor_state().text();
    let t1 = p1.editor_state().text();
    match c {
        Command::ForwardChar | Command::BackwardChar | Command::NextLine | Command::PreviousLine
        | Command::ForwardWord | Command::BackwardWord | Command::MoveLineStart | Command::MoveLineEnd
        | Command::MoveBufferStart | Command::MoveBufferEnd => t1 == t0 && p1.ring() == p0.ring()
            && p1.last() == LastCommand::Other && !r.should_quit && r.file_request is None && moved(
            p0,
            motion_action(c),
            p1,
            r,
        ),
        Command::InsertChar(ch) => {
            let cur = p0.editor_state().cursor;
            &&& p1.ring() == p0.ring()
            &&& p1.last() == LastCommand::Other
            &&& r.success ==> t1 == t0.insert(cur.char_pos as int, ch) && p1.editor_state().cursor
                == crate::buffer::editor::after_typing(cur, ch)
            &&& !r.success ==> t1 == t0
            &&& crate::buffer::editor::valid_input_char(ch) && cur.line < usize::MAX && cur.column < usize::MAX
                && cur.char_pos <= t0.len() && crate::buffer::editor::room_for(t0, 1) ==> r.success
        },
        Command::InsertNewline => {
            let cur = p0.editor_state().cursor;
            &&& p1.ring() == p0.ring()
            &&& p1.last() == LastCommand::Other
            &&& r.success ==> t1 == t0.insert(cur.char_pos as int, '\n') && p1.editor_state().cursor
                == crate::buffer::editor::after_typing(cur, '\n')
            &&& !r.success ==> t1 == t0
            &&& cur.line < usize::MAX && cur.column < usize::MAX && cur.char_pos <= t0.len()
                && crate::buffer::editor::room_for(t0, 1) ==> r.success
        },
        Command::DeleteBackwardChar => {
            let pos = p0.editor_state().cursor.char_pos;
            &&& p1.ring() == p0.ring()
            &&& p1.last() == LastCommand::Other
            &&& r.success ==> t1 == t0.remove(pos - 1) && p1.editor_state().cursor.char_pos == pos - 1
            &&& !r.success ==> t1 == t0
            &&& 0 < pos <= t0.len() ==> r.success
        },
        Command::DeleteChar => {
            let pos = p0.editor_state().cursor.char_pos;
            &&& p1.ring() == p0.ring()
            &&& p1.last() == LastCommand::Other
            &&& r.success ==> t1 == t0.remove(pos as int) && p1.editor_state().cursor == p0.editor_state().cursor
            &&& !r.success ==> t1 == t0
            &&& pos < t0.len() ==> r.success
        },
        Command::KillWordForward => {
            let start = p0.editor_state().cursor.char_pos as int;
            let end = crate::buffer::editor::word_end_forward(t0, start);
            if end == start {
                killed(p0, p1, r, Seq::empty(), t0, KillJoin::Append)
            } else if start < t0.len() {
                killed(p0, p1, r, t0.subrange(start, end), t0.take(start) + t0.skip(end), KillJoin::Append)
            } else {
                !r.success && t1 == t0 && p1.ring() == p0.ring() && p1.last() == LastCommand::Other
            }
        },
        Command::KillWordBackward => {
            let end = p0.editor_state().cursor.char_pos as int;
            let start = crate::buffer::editor::word_start_backward(t0, end);
            if end > t0.len() {
                !r.success && t1 == t0 && p1.ring() == p0.ring() && p1.last() == LastCommand::Other
            } else if start == end {
                killed(p0, p1, r, Seq::empty(), t0, KillJoin::Prepend)
            } else {
                killed(p0, p1, r, t0.subrange(start, end), t0.take(start) + t0.skip(end), KillJoin::Prepend)
            }
        },
        Command::KillLine => {
            let start = p0.editor_state().cursor.char_pos as int;
            let end = crate::buffer::editor::kill_line_end(t0, start);
            if start >= t0.len() {
                killed(p0, p1, r, Seq::empty(), t0, KillJoin::Append) && p1.editor_state().cursor
                    == p0.editor_state().cursor
            } else {
                killed(p0, p1, r, t0.subrange(start, end), t0.take(start) + t0.skip(end), KillJoin::Append)
                    && p1.editor_state().cursor == crate::buffer::editor::synced(p0.editor_state().cursor, t1)
            }
        },
        Command::Yank => {
            let c = p0.editor_state().cursor;
            &&& p0.ring().len() == 0 ==> !r.success && t1 == t0
            &&& r.success ==> p1.last() == LastCommand::Yank && p1.ring() == p0.ring() && t1 == (if p0.ring()[0].len() == 0 {
                t0
            } else {
                t0.take(c.char_pos as int) + normalize_newlines(p0.ring()[0]) + t0.skip(c.char_pos as int)
            })
            &&& !r.success ==> t1 == t0 || p0.ring().len() > 0
            &&& p0.ring().len() > 0 && c.line + p0.ring()[0].len() <= usize::MAX && c.column + p0.ring()[0].len()
                <= usize::MAX && (p0.ring()[0].len() == 0 || c.char_pos <= t0.len()
                && crate::buffer::editor::room_for(t0, p0.ring()[0].len() as int)) ==> r.success
        },
        Command::YankPop => (p0.last() != LastCommand::Yank ==> !r.success && t1 == t0 && p1.ring() == p0.ring()) && (
        r.success ==> p1.ring() == crate::editor::kill_ring::rotated(p0.ring())),
        Command::KeyboardQuit => result_is(r, true, Some("操作をキャンセルしました"@), true, false) && t1 == t0
            && p1.last() == LastCommand::Other,
        Command::ScrollPageDown | Command::ScrollPageUp | Command::Recenter | Command::ScrollLeft
        | Command::ScrollRight | Command::SplitWindowBelow | Command::SplitWindowRight
        | Command::DeleteOtherWindows | Command::DeleteWindow | Command::OtherWindow | Command::SwitchToBuffer
        | Command::KillBuffer | Command::ListBuffers | Command::SetMark | Command::KillRegion
        | Command::CopyRegion | Command::ExchangePointAndMark | Command::MarkBuffer | Command::QueryReplace
        | Command::RegexQueryReplace | Command::Undo | Command::Redo => result_is(r, false, Some(app_side_message()), false, false)
            && p1 == p0,
        Command::FindFile => r.file_request == Some(FileRequest::Open { path: r.file_request->Some_0->path })
            && r.file_request->Some_0->Open_path@ == "README.md"@ && t1 == t0,
        Command::SaveBuffer => t1 == t0 && (p0.buffer() is None ==> result_is(r, false, Some("保存するバッファがありません"@), false, false)),
        Command::WriteFile => result_is(r, false, Some("write-file はミニバッファ経由で実行してください"@), false, false) && p1 == p0,
        Command::SaveAllBuffers => t1 == t0 && (p0.buffer() is None ==> result_is(r, false, Some("保存するバッファがありません"@), false, false))
            && (p0.buffer() matches Some(b) && b.path is None ==> result_is(r, true, Some("保存すべき変更がありません"@), true, false)),
        Command::SaveBuffersKillTerminal | Command::Quit => result_is(r, true, Some("アプリケーションを終了します"@), false, true)
            && t1 == t0 && p1.last() == LastCommand::Other,
        Command::ExecuteCommand => result_is(r, true, Some("M-x は現在未実装です"@), true, false) && t1 == t0,
        Command::EvalExpression => result_is(r, true, Some("eval-expression はミニバッファで処理されます"@), true, false) && t1 == t0,
        Command::Unknown(name) => result_is(r, false, Some("不明なコマンド: "@ + name@), false, false) && p1 == p0,
    }
}

/// The context a command runs in.
#[derive(Debug)]
pub struct CommandContext {
    pub buffer_id: Option<usize>,
    pub args: Vec<String>,
    pub prefix_arg: Option<i32>,
}

impl CommandContext {
    /// No buffer, no arguments.
    pub fn new() -> (r: Self)
        ensures
            r.buffer_id is None,
            r.args@.len() == 0,
            r.prefix_arg is None,
    {
        Self { buffer_id: None, args: Vec::new(), prefix_arg: None }
    }

    /// The given arguments.
    pub fn with_args(args: Vec<String>) -> (r: Self)
        ensures
            r.buffer_id is None,
            r.args@ == args@,
            r.prefix_arg is None,
    {
        Self { buffer_id: None, args, prefix_arg: None }
    }
}

impl Default for CommandContext {
    fn default() -> (r: Self)
        ensures
            r.buffer_id is None,
            r.args@.len() == 0,
    {
        Self::new()
    }
}

/// How a command is written for the user: its variant name, with its
/// argument in brackets.
pub open spec fn command_debug(c: Command) -> Seq<char> {
    match c {
        Command::ForwardChar => "ForwardChar"@,
        Command::BackwardChar => "BackwardChar"@,
        Command::NextLine => "NextLine"@,
        Command::PreviousLine => "PreviousLine"@,
        Command::ForwardWord => "ForwardWord"@,
        Command::BackwardWord => "BackwardWord"@,
        Command::DeleteBackwardChar => "DeleteBackwardChar"@,
        Command::DeleteChar => "DeleteChar"@,
        Command::InsertNewline => "InsertNewline"@,
        Command::KillWordForward => "KillWordForward"@,
        Command::KillWordBackward => "KillWordBackward"@,
        Command::KillLine => "KillLine"@,
        Command::Yank => "Yank"@,
        Command::YankPop => "YankPop"@,
        Command::KeyboardQuit => "KeyboardQuit"@,
        Command::Undo => "Undo"@,
        Command::Redo => "Redo"@,
        Command::SetMark => "SetMark"@,
        Command::KillRegion => "KillRegion"@,
        Command::CopyRegion => "CopyRegion"@,
        Command::ExchangePointAndMark => "ExchangePointAndMark"@,
        Command::MarkBuffer => "MarkBuffer"@,
        Command::ScrollPageDown => "ScrollPageDown"@,
        Command::ScrollPageUp => "ScrollPageUp"@,
        Command::Recenter => "Recenter"@,
        Command::ScrollLeft => "ScrollLeft"@,
        Command::ScrollRight => "ScrollRight"@,
        Command::FindFile => "FindFile"@,
        Command::SaveBuffer => "SaveBuffer"@,
        Command::WriteFile => "WriteFile"@,
        Command::SaveAllBuffers => "SaveAllBuffers"@,
        Command::SwitchToBuffer => "SwitchToBuffer"@,
        Command::KillBuffer => "KillBuffer"@,
        Command::ListBuffers => "ListBuffers"@,
        Command::SplitWindowBelow => "SplitWindowBelow"@,
        Command::SplitWindowRight => "SplitWindowRight"@,
        Command::DeleteOtherWindows => "DeleteOtherWindows"@,
        Command::DeleteWindow => "DeleteWindow"@,
        Command::OtherWindow => "OtherWindow"@,
        Command::SaveBuffersKillTerminal => "SaveBuffersKillTerminal"@,
        Command::Quit => "Quit"@,
        Command::ExecuteCommand => "ExecuteCommand"@,
        Command::MoveLineStart => "MoveLineStart"@,
        Command::MoveLineEnd => "MoveLineEnd"@,
        Command::MoveBufferStart => "MoveBufferStart"@,
        Command::MoveBufferEnd => "MoveBufferEnd"@,
        Command::EvalExpression => "EvalExpression"@,
        Command::QueryReplace => "QueryReplace"@,
        Command::RegexQueryReplace => "RegexQueryReplace"@,
        Command::InsertChar(ch) => "InsertChar("@ + char_debug(ch) + ")"@,
        Command::Unknown(name) => "Unknown("@ + debug_quoted(name@) + ")"@,
    }
}

impl Command {
    /// The command written for the user, as its debug form shows it.
    pub fn debug_text(&self) -> (r: String)
        ensures
            r@ == command_debug(*self),
    {
        match self {
            Command::ForwardChar => owned("ForwardChar"),
            Command::BackwardChar => owned("BackwardChar"),
            Command::NextLine => owned("NextLine"),
            Command::PreviousLine => owned("PreviousLine"),
            Command::ForwardWord => owned("ForwardWord"),
            Command::BackwardWord => owned("BackwardWord"),
            Command::DeleteBackwardChar => owned("DeleteBackwardChar"),
            Command::DeleteChar => owned("DeleteChar"),
            Command::InsertNewline => owned("InsertNewline"),
            Command::KillWordForward => owned("KillWordForward"),
            Command::KillWordBackward => owned("KillWordBackward"),
            Command::KillLine => owned("KillLine"),
            Command::Yank => owned("Yank"),
            Command::YankPop => owned("YankPop"),
            Command::KeyboardQuit => owned("KeyboardQuit"),
            Command::Undo => owned("Undo"),
            Command::Redo => owned("Redo"),
            Command::SetMark => owned("SetMark"),
            Command::KillRegion => owned("KillRegion"),
            Command::CopyRegion => owned("CopyRegion"),
            Command::ExchangePointAndMark => owned("ExchangePointAndMark"),
            Command::MarkBuffer => owned("MarkBuffer"),
            Command::ScrollPageDown => owned("ScrollPageDown"),
            Command::ScrollPageUp => owned("ScrollPageUp"),
            Command::Recenter => owned("Recenter"),
            Command::ScrollLeft => owned("ScrollLeft"),
            Command::ScrollRight => owned("ScrollRight"),
            Command::FindFile => owned("FindFile"),
            Command::SaveBuffer => owned("SaveBuffer"),
            Command::WriteFile => owned("WriteFile"),
            Command::SaveAllBuffers => owned("SaveAllBuffers"),
            Command::SwitchToBuffer => owned("SwitchToBuffer"),
            Command::KillBuffer => owned("KillBuffer"),
            Command::ListBuffers => owned("ListBuffers"),
            Command::SplitWindowBelow => owned("SplitWindowBelow"),
            Command::SplitWindowRight => owned("SplitWindowRight"),
            Command::DeleteOtherWindows => owned("DeleteOtherWindows"),
            Command::DeleteWindow => owned("DeleteWindow"),
            Command::OtherWindow => owned("OtherWindow"),
            Command::SaveBuffersKillTerminal => owned("SaveBuffersKillTerminal"),
            Command::Quit => owned("Quit"),
            Command::ExecuteCommand => owned("ExecuteCommand"),
            Command::MoveLineStart => owned("MoveLineStart"),
            Command::MoveLineEnd => owned("MoveLineEnd"),
            Command::MoveBufferStart => owned("MoveBufferStart"),
            Command::MoveBufferEnd => owned("MoveBufferEnd"),
            Command::EvalExpression => owned("EvalExpression"),
            Command::QueryReplace => owned("QueryReplace"),
            Command::RegexQueryReplace => owned("RegexQueryReplace"),
            Command::InsertChar(ch) => {
                let inner = char_for_debug(*ch);
                let head = concat_str("InsertChar(", inner.as_str());
                concat_str(head.as_str(), ")")
            },
            Command::Unknown(name) => {
                let inner = quote_for_debug(name.as_str());
                let head = concat_str("Unknown(", inner.as_str());
                concat_str(head.as_str(), ")")
            },
        }
    }
}

} // verus!
