//! The minibuffer system: the minibuffer with its completion engines and
//! settings, turning what the user entered into requests for the editor.
use super::completion::{CommandCompletion, PathCompletion};
use super::{
    action_started, deactivated, key_step, started, with_error, with_mode, wants_path_completion,
    with_candidates, query_prompt, MinibufferAction, MinibufferMode, MinibufferResult, MinibufferState,
    ModeView, ModernMinibuffer, ResultView, StateView, INFO_MESSAGE_SECS,
};
use crate::collate::{join_texts, joined, texts};
use crate::error::AltreError;
use crate::input::keybinding::Key;
use crate::text::{chars_of, concat_str, owned, starts_with_chars, str_equal, string_from_range, trim_text, trimmed};
use crate::time::{duration_from_secs, elapsed, instant_now, nanos_of};
use std::time::{Duration, Instant};
use vstd::prelude::*;

verus! {

/// Settings of the minibuffer system.
#[derive(Debug, Clone)]
pub struct MinibufferConfig {
    /// Whether completion runs as the user types.
    pub auto_completion: bool,
    /// Most completion candidates.
    pub max_completions: usize,
    /// How long error messages stay.
    pub error_display_duration: Duration,
    /// How long information messages stay.
    pub info_display_duration: Duration,
    /// Most history entries.
    pub max_history_size: usize,
    /// Whether hidden files are offered.
    pub show_hidden_files: bool,
}

impl Default for MinibufferConfig {
    fn default() -> (r: Self)
        ensures
            r.auto_completion,
            r.max_completions == 50,
            nanos_of(r.error_display_duration) == 5_000_000_000,
            nanos_of(r.info_display_duration) == 3_000_000_000,
            r.max_history_size == 100,
            !r.show_hidden_files,
    {
        MinibufferConfig {
            auto_completion: true,
            max_completions: 50,
            error_display_duration: duration_from_secs(5),
            info_display_duration: duration_from_secs(3),
            max_history_size: 100,
            show_hidden_files: false,
        }
    }
}

/// The state of the system as the editor sees it.
#[derive(Debug, Clone, Copy, PartialEq, Eq, Structural)]
pub enum SystemState {
    Inactive,
    FindFile,
    ExecuteCommand,
    ErrorDisplay,
    InfoDisplay,
}

/// The system state a minibuffer mode shows as.
pub open spec fn system_state(m: ModeView) -> SystemState {
    match m {
        ModeView::Inactive => SystemState::Inactive,
        ModeView::FindFile => SystemState::FindFile,
        ModeView::ExecuteCommand => SystemState::ExecuteCommand,
        ModeView::EvalExpression => SystemState::ExecuteCommand,
        ModeView::SwitchBuffer => SystemState::ExecuteCommand,
        ModeView::KillBuffer => SystemState::ExecuteCommand,
        ModeView::ErrorDisplay(..) => SystemState::ErrorDisplay,
        ModeView::InfoDisplay(..) => SystemState::InfoDisplay,
        _ => SystemState::Inactive,
    }
}

/// Events the system handles.
#[derive(Debug, Clone)]
pub enum SystemEvent {
    /// A key press.
    KeyInput(Key),
    /// A request from a key binding.
    Action(MinibufferAction),
    /// Show an error message.
    ShowError(String),
    /// Show an information message.
    ShowInfo(String),
    /// Periodic update.
    Update,
}

/// File operations the editor is asked to perform.
#[derive(Debug, Clone)]
pub enum FileOperation {
    /// Open this file.
    Open(String),
    /// Save the current buffer.
    Save,
    /// Save the current buffer under this name.
    SaveAs(String),
}

/// What the editor is asked to do.
#[derive(Debug, Clone)]
pub enum SystemResponse {
    /// Nothing to do; keep going.
    Continue,
    /// Run this command.
    ExecuteCommand(String),
    /// Perform a file operation.
    FileOperation(FileOperation),
    /// Switch to this buffer.
    SwitchBuffer(String),
    /// Kill this buffer.
    KillBuffer(String),
    /// List the buffers.
    ListBuffers,
    /// Start a query replace.
    QueryReplace { pattern: String, replacement: String, is_regex: bool },
    /// Quit the editor.
    Quit,
    /// The input meant nothing.
    Ignored,
}

/// A response with its texts as character sequences.
pub enum ResponseView {
    Continue,
    ExecuteCommand(Seq<char>),
    Open(Seq<char>),
    Save,
    SaveAs(Seq<char>),
    SwitchBuffer(Seq<char>),
    KillBuffer(Seq<char>),
    ListBuffers,
    QueryReplace(Seq<char>, Seq<char>, bool),
    Quit,
    Nothing,
}

impl View for SystemResponse {
    type V = ResponseView;

    open spec fn view(&self) -> ResponseView {
        match self {
            SystemResponse::Continue => ResponseView::Continue,
            SystemResponse::ExecuteCommand(c) => ResponseView::ExecuteCommand(c@),
            SystemResponse::FileOperation(FileOperation::Open(p)) => ResponseView::Open(p@),
            SystemResponse::FileOperation(FileOperation::Save) => ResponseView::Save,
            SystemResponse::FileOperation(FileOperation::SaveAs(p)) => ResponseView::SaveAs(p@),
            SystemResponse::SwitchBuffer(n) => ResponseView::SwitchBuffer(n@),
            SystemResponse::KillBuffer(n) => ResponseView::KillBuffer(n@),
            SystemResponse::ListBuffers => ResponseView::ListBuffers,
            SystemResponse::QueryReplace { pattern, replacement, is_regex } =>
                ResponseView::QueryReplace(pattern@, replacement@, *is_regex),
            SystemResponse::Quit => ResponseView::Quit,
            SystemResponse::Ignored => ResponseView::Nothing,
        }
    }
}

/// What handling a command does to the minibuffer.
pub enum Effect {
    Nothing,
    ShowError(Seq<char>),
    StartWriteFile,
    StartQueryReplace(bool),
    StartEval,
    Evaluate(Seq<char>),
    Deactivate,
}

/// The minibuffer after an effect.
pub open spec fn applied(s: StateView, e: Effect) -> StateView {
    match e {
        Effect::Nothing => s,
        Effect::ShowError(m) => with_error(s, m),
        Effect::StartWriteFile => started(s, ModeView::WriteFile, "Save file: "@, Seq::empty()),
        Effect::StartQueryReplace(r) => started(s, ModeView::QueryReplacePattern(r), query_prompt(r), Seq::empty()),
        Effect::StartEval => started(s, ModeView::EvalExpression, "Eval: "@, Seq::empty()),
        Effect::Evaluate(_) => s,
        Effect::Deactivate => deactivated(s),
    }
}

/// Evaluating an expression: an empty one is an error, otherwise the
/// trimmed expression is handed to the evaluator.
pub open spec fn evaluation_effect(expr: Seq<char>) -> Effect {
    let e = trimmed(expr);
    if e.len() == 0 {
        Effect::ShowError("式が入力されていません"@)
    } else {
        Effect::Evaluate(e)
    }
}

/// The response to a command line and what it does to the minibuffer.
pub open spec fn execute_outcome(cmd: Seq<char>) -> (ResponseView, Effect) {
    if "find-file "@.is_prefix_of(cmd) {
        let name = cmd.skip("find-file "@.len() as int);
        if name.len() == 0 {
            (ResponseView::Continue, Effect::ShowError("No file specified"@))
        } else {
            (ResponseView::Open(name), Effect::Nothing)
        }
    } else if cmd == "save-buffer"@ || cmd == "save-some-buffers"@ {
        (ResponseView::Save, Effect::Nothing)
    } else if cmd == "write-file"@ || cmd == "save-buffer-as"@ {
        (ResponseView::Continue, Effect::StartWriteFile)
    } else if "switch-to-buffer "@.is_prefix_of(cmd) {
        (ResponseView::SwitchBuffer(trimmed(cmd.skip("switch-to-buffer "@.len() as int))), Effect::Nothing)
    } else if cmd == "switch-to-buffer"@ {
        (ResponseView::SwitchBuffer(Seq::empty()), Effect::Nothing)
    } else if "kill-buffer "@.is_prefix_of(cmd) {
        (ResponseView::KillBuffer(trimmed(cmd.skip("kill-buffer "@.len() as int))), Effect::Nothing)
    } else if cmd == "kill-buffer"@ {
        (ResponseView::KillBuffer(Seq::empty()), Effect::Nothing)
    } else if cmd == "list-buffers"@ {
        (ResponseView::ListBuffers, Effect::Nothing)
    } else if cmd == "query-replace"@ {
        (ResponseView::Continue, Effect::StartQueryReplace(false))
    } else if cmd == "query-replace-regexp"@ {
        (ResponseView::Continue, Effect::StartQueryReplace(true))
    } else if "eval-expression "@.is_prefix_of(cmd) {
        (ResponseView::Continue, evaluation_effect(cmd.skip("eval-expression "@.len() as int)))
    } else if cmd == "eval-expression"@ {
        (ResponseView::Continue, Effect::StartEval)
    } else if "write-file "@.is_prefix_of(cmd) {
        let path = trimmed(cmd.skip("write-file "@.len() as int));
        if path.len() == 0 {
            (ResponseView::Continue, Effect::ShowError("ファイル名を入力してください"@))
        } else {
            (ResponseView::SaveAs(path), Effect::Nothing)
        }
    } else if cmd == "quit"@ || cmd == "save-buffers-kill-terminal"@ {
        (ResponseView::Quit, Effect::Nothing)
    } else {
        (ResponseView::ExecuteCommand(cmd), Effect::Nothing)
    }
}

/// The response to what the minibuffer produced.
pub open spec fn result_outcome(r: ResultView) -> (ResponseView, Effect) {
    match r {
        ResultView::Continue => (ResponseView::Continue, Effect::Nothing),
        ResultView::Execute(c) => execute_outcome(c),
        ResultView::SwitchBuffer(n) => (ResponseView::SwitchBuffer(n), Effect::Nothing),
        ResultView::KillBuffer(n) => (ResponseView::KillBuffer(n), Effect::Nothing),
        ResultView::EvalExpression(e) => (ResponseView::Continue, evaluation_effect(e)),
        ResultView::SaveFileAs(p) => (ResponseView::SaveAs(p), Effect::Nothing),
        ResultView::QueryReplace(p, r, x) => (ResponseView::QueryReplace(p, r, x), Effect::Nothing),
        ResultView::Cancel => (ResponseView::Continue, Effect::Deactivate),
        ResultView::Invalid => (ResponseView::Nothing, Effect::Nothing),
    }
}

/// The expression waiting for the evaluator after an effect.
pub open spec fn pending_after(p: Option<Seq<char>>, e: Effect) -> Option<Seq<char>> {
    match e {
        Effect::Evaluate(x) => Some(x),
        _ => p,
    }
}

/// What an evaluation of an expression in the minibuffer produced.
#[derive(Debug, Clone)]
pub struct MinibufferOutcome {
    /// The value shown, or the error message.
    pub output: String,
    /// Messages printed while evaluating.
    pub messages: Vec<String>,
    /// Whether the evaluation failed.
    pub is_error: bool,
}

/// The information message for a successful evaluation: the output, with
/// the printed messages joined by ` | ` in brackets when there are any.
pub open spec fn evaluation_message(output: Seq<char>, messages: Seq<Seq<char>>) -> Seq<char> {
    let extras = joined(messages, " | "@);
    if messages.len() == 0 || extras.len() == 0 {
        output
    } else {
        output + " ("@ + extras + ")"@
    }
}

/// Figures of the system.
#[derive(Debug, Clone)]
pub struct PerformanceStats {
    /// When the system was last updated.
    pub last_update: Instant,
    /// Time since then.
    pub uptime: Duration,
    /// Completion candidates shown.
    pub completions_count: usize,
    /// History entries.
    pub history_size: usize,
}


/// What follows `prefix` in `c`, when `c` begins with it.
fn after_prefix(c: &Vec<char>, prefix: &str) -> (r: Option<String>)
    ensures
        r is Some <==> prefix@.is_prefix_of(c@),
        r matches Some(t) ==> t@ == c@.skip(prefix@.len() as int),
{
    let p = chars_of(prefix);
    if starts_with_chars(c, &p) {
        let t = string_from_range(c, p.len(), c.len());
        assert(c@.subrange(p@.len() as int, c@.len() as int) =~= c@.skip(prefix@.len() as int));
        Some(t)
    } else {
        None
    }
}

/// The minibuffer with its completion engines and settings.
pub struct MinibufferSystem {
    minibuffer: ModernMinibuffer,
    path_completion: PathCompletion,
    command_completion: CommandCompletion,
    last_update: Instant,
    config: MinibufferConfig,
    pending_evaluation: Option<String>,
}

impl View for MinibufferSystem {
    type V = StateView;

    closed spec fn view(&self) -> StateView {
        self.minibuffer@
    }
}

impl MinibufferSystem {
    /// Well-formed: the minibuffer and the command list are.
    pub closed spec fn wf(&self) -> bool {
        self.minibuffer.wf() && self.command_completion.wf()
    }

    /// The expression waiting for the evaluator.
    pub closed spec fn pending(&self) -> Option<Seq<char>> {
        match self.pending_evaluation {
            Some(e) => Some(e@),
            None => None,
        }
    }

    /// The settings.
    pub closed spec fn settings(&self) -> MinibufferConfig {
        self.config
    }

    /// The command names offered for completion.
    pub closed spec fn command_names(&self) -> Seq<Seq<char>> {
        self.command_completion@
    }

    /// Whether hidden files are offered by file-path completion.
    pub closed spec fn hidden_files_shown(&self) -> bool {
        self.path_completion.show_hidden
    }

    /// A system with the default settings.
    pub fn new() -> (r: Self)
        ensures
            r.wf(),
            r@ == super::initial_state(),
            r.pending() is None,
            r.command_names().to_multiset() == super::completion::builtin_command_names().to_multiset(),
            !r.hidden_files_shown(),
    {
        Self::with_config(MinibufferConfig::default())
    }

    /// A system with the given settings.
    pub fn with_config(config: MinibufferConfig) -> (r: Self)
        ensures
            r.wf(),
            r@ == super::initial_state(),
            r.pending() is None,
            r.settings() == config,
            r.command_names().to_multiset() == super::completion::builtin_command_names().to_multiset(),
            r.hidden_files_shown() == config.show_hidden_files,
    {
        let show = config.show_hidden_files;
        MinibufferSystem {
            minibuffer: ModernMinibuffer::new(),
            path_completion: PathCompletion::new().with_hidden_files(show),
            command_completion: CommandCompletion::new(),
            last_update: instant_now(),
            config,
            pending_evaluation: None,
        }
    }

    /// The state as the editor sees it.
    pub fn state(&self) -> (r: SystemState)
        ensures
            r == system_state(self@.mode),
    {
        match &self.minibuffer.state().mode {
            MinibufferMode::Inactive => SystemState::Inactive,
            MinibufferMode::FindFile => SystemState::FindFile,
            MinibufferMode::ExecuteCommand => SystemState::ExecuteCommand,
            MinibufferMode::EvalExpression => SystemState::ExecuteCommand,
            MinibufferMode::SwitchBuffer => SystemState::ExecuteCommand,
            MinibufferMode::KillBuffer => SystemState::ExecuteCommand,
            MinibufferMode::ErrorDisplay { .. } => SystemState::ErrorDisplay,
            MinibufferMode::InfoDisplay { .. } => SystemState::InfoDisplay,
            _ => SystemState::Inactive,
        }
    }

    /// Whether the minibuffer is in use.
    pub fn is_active(&self) -> (r: bool)
        ensures
            r == !(self@.mode is Inactive),
    {
        self.minibuffer.is_active()
    }

    /// Whether a message is on display.
    pub fn is_message_displayed(&self) -> (r: bool)
        ensures
            r == (self@.mode is ErrorDisplay || self@.mode is InfoDisplay),
    {
        match &self.minibuffer.state().mode {
            MinibufferMode::ErrorDisplay { .. } => true,
            MinibufferMode::InfoDisplay { .. } => true,
            _ => false,
        }
    }

    /// The text typed so far.
    pub fn current_input(&self) -> (r: &str)
        ensures
            r@ == self@.input,
    {
        self.minibuffer.state().input.as_str()
    }

    /// The prompt.
    pub fn current_prompt(&self) -> (r: &str)
        ensures
            r@ == self@.prompt,
    {
        self.minibuffer.state().prompt.as_str()
    }

    /// The completion candidates.
    pub fn completions(&self) -> (r: &[String])
        ensures
            texts(r@) == self@.completions,
    {
        self.minibuffer.state().completions.as_slice()
    }

    /// Index of the selected candidate.
    pub fn selected_completion(&self) -> (r: Option<usize>)
        ensures
            r == self@.selected,
    {
        self.minibuffer.state().selected_completion
    }

    /// The state of the minibuffer.
    pub fn minibuffer_state(&self) -> (r: &MinibufferState)
        ensures
            r@ == self@,
            self.wf() ==> r.wf(),
    {
        self.minibuffer.state()
    }

    /// Handles an event and says what the editor is to do.
    pub fn handle_event(&mut self, event: SystemEvent) -> (r: Result<SystemResponse, AltreError>)
        requires
            old(self).wf(),
        ensures
            final(self).wf(),
            final(self).settings() == old(self).settings(),
            final(self).command_names() == old(self).command_names(),
            r is Ok,
            match event {
                SystemEvent::KeyInput(key) => {
                    let (s1, rv) = key_step(old(self)@, key);
                    let (resp, eff) = result_outcome(rv);
                    &&& r->Ok_0@ == resp
                    &&& final(self)@ == applied(s1, eff)
                    &&& final(self).pending() == pending_after(old(self).pending(), eff)
                },
                SystemEvent::Action(a) => {
                    &&& r->Ok_0@ == ResponseView::Continue
                    &&& final(self)@ == action_started(old(self)@, a)
                    &&& final(self).pending() == old(self).pending()
                },
                SystemEvent::ShowError(m) => {
                    &&& r->Ok_0@ == ResponseView::Continue
                    &&& final(self)@ == with_error(old(self)@, m@)
                    &&& final(self).pending() == old(self).pending()
                },
                SystemEvent::ShowInfo(m) => {
                    &&& r->Ok_0@ == ResponseView::Continue
                    &&& final(self)@ == with_mode(
                        old(self)@,
                        ModeView::InfoDisplay(m@, INFO_MESSAGE_SECS as nat * 1_000_000_000),
                    )
                    &&& final(self).pending() == old(self).pending()
                },
                SystemEvent::Update => {
                    &&& r->Ok_0@ == ResponseView::Continue
                    &&& final(self)@ == old(self)@
                    &&& final(self).pending() == old(self).pending()
                },
            },
    {
        match event {
            SystemEvent::KeyInput(key) => {
                let result = self.minibuffer.handle_key(key);
                Ok(self.respond(result))
            },
            SystemEvent::Action(action) => {
                let _ = self.minibuffer.handle_action(action);
                Ok(SystemResponse::Continue)
            },
            SystemEvent::ShowError(message) => {
                self.minibuffer.show_error(message);
                Ok(SystemResponse::Continue)
            },
            SystemEvent::ShowInfo(message) => {
                self.minibuffer.show_info(message);
                Ok(SystemResponse::Continue)
            },
            SystemEvent::Update => {
                self.last_update = instant_now();
                Ok(SystemResponse::Continue)
            },
        }
    }

    /// Starts reading for a key-binding request.
    pub fn handle_action(&mut self, action: MinibufferAction) -> (r: Result<SystemResponse, AltreError>)
        requires
            old(self).wf(),
        ensures
            final(self).wf(),
            final(self).settings() == old(self).settings(),
            final(self).command_names() == old(self).command_names(),
            final(self).pending() == old(self).pending(),
            r matches Ok(x) && x@ == ResponseView::Continue,
            final(self)@ == action_started(old(self)@, action),
    {
        let _ = self.minibuffer.handle_action(action);
        Ok(SystemResponse::Continue)
    }

    fn respond(&mut self, result: MinibufferResult) -> (r: SystemResponse)
        requires
            old(self).wf(),
        ensures
            final(self).wf(),
            final(self).settings() == old(self).settings(),
            final(self).command_names() == old(self).command_names(),
            ({
                let (resp, eff) = result_outcome(result@);
                &&& r@ == resp
                &&& final(self)@ == applied(old(self)@, eff)
                &&& final(self).pending() == pending_after(old(self).pending(), eff)
            }),
    {
        match result {
            MinibufferResult::Continue => SystemResponse::Continue,
            MinibufferResult::Execute(command) => self.handle_execute_result(command),
            MinibufferResult::SwitchBuffer(name) => SystemResponse::SwitchBuffer(name),
            MinibufferResult::KillBuffer(name) => SystemResponse::KillBuffer(name),
            MinibufferResult::EvalExpression(expr) => self.handle_eval_expression(expr.as_str()),
            MinibufferResult::SaveFileAs(path) => SystemResponse::FileOperation(FileOperation::SaveAs(path)),
            MinibufferResult::QueryReplace { pattern, replacement, is_regex } =>
                SystemResponse::QueryReplace { pattern, replacement, is_regex },
            MinibufferResult::Cancel => {
                self.minibuffer.deactivate();
                SystemResponse::Continue
            },
            MinibufferResult::Invalid => SystemResponse::Ignored,
        }
    }

    /// The response to a command line submitted in the minibuffer, and
    /// what it does to the minibuffer (see `execute_outcome`).
    pub fn handle_execute_result(&mut self, command: String) -> (r: SystemResponse)
        requires
            old(self).wf(),
        ensures
            final(self).wf(),
            final(self).settings() == old(self).settings(),
            final(self).command_names() == old(self).command_names(),
            ({
                let (resp, eff) = execute_outcome(command@);
                &&& r@ == resp
                &&& final(self)@ == applied(old(self)@, eff)
                &&& final(self).pending() == pending_after(old(self).pending(), eff)
            }),
    {
        let c = chars_of(command.as_str());
        let cmd = command.as_str();
        if let Some(name) = after_prefix(&c, "find-file ") {
            if name.as_str().is_empty() {
                self.minibuffer.show_error(owned("No file specified"));
                SystemResponse::Continue
            } else {
                SystemResponse::FileOperation(FileOperation::Open(name))
            }
        } else if str_equal(cmd, "save-buffer") || str_equal(cmd, "save-some-buffers") {
            SystemResponse::FileOperation(FileOperation::Save)
        } else if str_equal(cmd, "write-file") || str_equal(cmd, "save-buffer-as") {
            self.minibuffer.start_write_file(None);
            SystemResponse::Continue
        } else if let Some(name) = after_prefix(&c, "switch-to-buffer ") {
            SystemResponse::SwitchBuffer(trim_text(name.as_str()))
        } else if str_equal(cmd, "switch-to-buffer") {
            SystemResponse::SwitchBuffer(String::new())
        } else if let Some(name) = after_prefix(&c, "kill-buffer ") {
            SystemResponse::KillBuffer(trim_text(name.as_str()))
        } else if str_equal(cmd, "kill-buffer") {
            SystemResponse::KillBuffer(String::new())
        } else if str_equal(cmd, "list-buffers") {
            SystemResponse::ListBuffers
        } else if str_equal(cmd, "query-replace") {
            self.minibuffer.start_query_replace(false, None);
            SystemResponse::Continue
        } else if str_equal(cmd, "query-replace-regexp") {
            self.minibuffer.start_query_replace(true, None);
            SystemResponse::Continue
        } else if let Some(expr) = after_prefix(&c, "eval-expression ") {
            self.handle_eval_expression(expr.as_str())
        } else if str_equal(cmd, "eval-expression") {
            self.minibuffer.start_eval_expression();
            SystemResponse::Continue
        } else if let Some(path) = after_prefix(&c, "write-file ") {
            let trimmed_path = trim_text(path.as_str());
            if trimmed_path.as_str().is_empty() {
                self.minibuffer.show_error(owned("ファイル名を入力してください"));
                SystemResponse::Continue
            } else {
                SystemResponse::FileOperation(FileOperation::SaveAs(trimmed_path))
            }
        } else if str_equal(cmd, "quit") || str_equal(cmd, "save-buffers-kill-terminal") {
            SystemResponse::Quit
        } else {
            SystemResponse::ExecuteCommand(command)
        }
    }

    fn handle_eval_expression(&mut self, expr: &str) -> (r: SystemResponse)
        requires
            old(self).wf(),
        ensures
            final(self).wf(),
            final(self).settings() == old(self).settings(),
            final(self).command_names() == old(self).command_names(),
            r@ == ResponseView::Continue,
            final(self)@ == applied(old(self)@, evaluation_effect(expr@)),
            final(self).pending() == pending_after(old(self).pending(), evaluation_effect(expr@)),
    {
        let expression = trim_text(expr);
        if expression.as_str().is_empty() {
            self.minibuffer.show_error(owned("式が入力されていません"));
        } else {
            self.pending_evaluation = Some(expression);
        }
        SystemResponse::Continue
    }

    /// The expression waiting for the evaluator, if any.
    pub fn evaluation_request(&self) -> (r: Option<String>)
        ensures
            match r {
                Some(e) => self.pending() == Some(e@),
                None => self.pending() is None,
            },
    {
        match &self.pending_evaluation {
            Some(e) => Some(e.clone()),
            None => None,
        }
    }

    /// Shows what the evaluator produced for the waiting expression: an
    /// error message, or the output with the printed messages.
    pub fn finish_evaluation(&mut self, outcome: MinibufferOutcome)
        requires
            old(self).wf(),
        ensures
            final(self).wf(),
            final(self).settings() == old(self).settings(),
            final(self).command_names() == old(self).command_names(),
            final(self).pending() is None,
            outcome.is_error ==> final(self)@ == with_error(old(self)@, outcome.output@),
            !outcome.is_error ==> final(self)@ == with_mode(
                old(self)@,
                ModeView::InfoDisplay(
                    evaluation_message(outcome.output@, texts(outcome.messages@)),
                    INFO_MESSAGE_SECS as nat * 1_000_000_000,
                ),
            ),
    {
        self.pending_evaluation = None;
        if outcome.is_error {
            self.minibuffer.show_error(outcome.output);
        } else {
            let mut message = outcome.output;
            if outcome.messages.len() > 0 {
                let extras = join_texts(&outcome.messages, " | ");
                if !extras.as_str().is_empty() {
                    let a = concat_str(message.as_str(), " (");
                    let b = concat_str(a.as_str(), extras.as_str());
                    message = concat_str(b.as_str(), ")");
                }
            }
            self.minibuffer.show_info(message);
        }
    }

    /// The input to find file-name candidates for, when wanted.
    pub fn completion_request(&self) -> (r: Option<String>)
        ensures
            r is Some <==> wants_path_completion(self@),
            r matches Some(t) ==> t@ == self@.input,
    {
        self.minibuffer.completion_request()
    }

    /// Takes the file-name candidates found for the input.
    pub fn supply_completions(&mut self, candidates: Vec<String>)
        requires
            old(self).wf(),
        ensures
            final(self).wf(),
            final(self).settings() == old(self).settings(),
            final(self).pending() == old(self).pending(),
            final(self)@ == with_candidates(old(self)@, texts(candidates@)),
    {
        self.minibuffer.supply_completions(candidates);
    }

    /// The file-path completion settings.
    pub fn path_completion(&self) -> (r: &PathCompletion)
        ensures
            r.show_hidden == self.hidden_files_shown(),
    {
        &self.path_completion
    }

    /// Starts reading a file name to open.
    pub fn start_find_file(&mut self, initial_path: Option<&str>) -> (r: Result<SystemResponse, AltreError>)
        requires
            old(self).wf(),
        ensures
            final(self).wf(),
            final(self).settings() == old(self).settings(),
            final(self).pending() == old(self).pending(),
            r matches Ok(x) && x@ == ResponseView::Continue,
            final(self)@ == started(old(self)@, ModeView::FindFile, "Find file: "@, super::initial_text(initial_path)),
    {
        self.minibuffer.start_find_file(initial_path);
        Ok(SystemResponse::Continue)
    }

    /// Starts reading a command name.
    pub fn start_execute_command(&mut self) -> (r: Result<SystemResponse, AltreError>)
        requires
            old(self).wf(),
        ensures
            final(self).wf(),
            final(self).settings() == old(self).settings(),
            final(self).pending() == old(self).pending(),
            r matches Ok(x) && x@ == ResponseView::Continue,
            final(self)@ == started(old(self)@, ModeView::ExecuteCommand, "M-x "@, Seq::empty()),
    {
        self.minibuffer.start_execute_command();
        Ok(SystemResponse::Continue)
    }

    /// Starts reading a file name to save to.
    pub fn start_write_file(&mut self, initial_path: Option<&str>) -> (r: Result<SystemResponse, AltreError>)
        requires
            old(self).wf(),
        ensures
            final(self).wf(),
            final(self).settings() == old(self).settings(),
            final(self).pending() == old(self).pending(),
            r matches Ok(x) && x@ == ResponseView::Continue,
            final(self)@ == started(old(self)@, ModeView::WriteFile, "Save file: "@, super::initial_text(initial_path)),
    {
        self.minibuffer.start_write_file(initial_path);
        Ok(SystemResponse::Continue)
    }

    /// Starts reading a buffer to switch to, offering `buffers`.
    pub fn start_switch_buffer(&mut self, buffers: &[String], initial: Option<&str>) -> (r: Result<SystemResponse, AltreError>)
        requires
            old(self).wf(),
        ensures
            final(self).wf(),
            final(self).settings() == old(self).settings(),
            final(self).pending() == old(self).pending(),
            r matches Ok(x) && x@ == ResponseView::Continue,
            final(self)@ == with_candidates(
                started(old(self)@, ModeView::SwitchBuffer, "Switch to buffer: "@, super::initial_text(initial)),
                texts(buffers@),
            ),
    {
        self.minibuffer.start_switch_buffer(buffers, initial);
        Ok(SystemResponse::Continue)
    }

    /// Starts reading a buffer to kill, offering `buffers`.
    pub fn start_kill_buffer(&mut self, buffers: &[String], initial: Option<&str>) -> (r: Result<SystemResponse, AltreError>)
        requires
            old(self).wf(),
        ensures
            final(self).wf(),
            final(self).settings() == old(self).settings(),
            final(self).pending() == old(self).pending(),
            r matches Ok(x) && x@ == ResponseView::Continue,
            final(self)@ == with_candidates(
                started(old(self)@, ModeView::KillBuffer, "Kill buffer: "@, super::initial_text(initial)),
                texts(buffers@),
            ),
    {
        self.minibuffer.start_kill_buffer(buffers, initial);
        Ok(SystemResponse::Continue)
    }

    /// Starts reading an expression.
    pub fn start_eval_expression(&mut self) -> (r: Result<SystemResponse, AltreError>)
        requires
            old(self).wf(),
        ensures
            final(self).wf(),
            final(self).settings() == old(self).settings(),
            final(self).pending() == old(self).pending(),
            r matches Ok(x) && x@ == ResponseView::Continue,
            final(self)@ == started(old(self)@, ModeView::EvalExpression, "Eval: "@, Seq::empty()),
    {
        self.minibuffer.start_eval_expression();
        Ok(SystemResponse::Continue)
    }

    /// Shows an error message.
    pub fn show_error(&mut self, message: &str) -> (r: Result<SystemResponse, AltreError>)
        requires
            old(self).wf(),
        ensures
            final(self).wf(),
            final(self).settings() == old(self).settings(),
            final(self).pending() == old(self).pending(),
            r matches Ok(x) && x@ == ResponseView::Continue,
            final(self)@ == with_error(old(self)@, message@),
    {
        self.minibuffer.show_error(owned(message));
        Ok(SystemResponse::Continue)
    }

    /// Shows an information message.
    pub fn show_info(&mut self, message: &str) -> (r: Result<SystemResponse, AltreError>)
        requires
            old(self).wf(),
        ensures
            final(self).wf(),
            final(self).settings() == old(self).settings(),
            final(self).pending() == old(self).pending(),
            r matches Ok(x) && x@ == ResponseView::Continue,
            final(self)@ == with_mode(
                old(self)@,
                ModeView::InfoDisplay(message@, INFO_MESSAGE_SECS as nat * 1_000_000_000),
            ),
    {
        self.minibuffer.show_info(owned(message));
        Ok(SystemResponse::Continue)
    }

    /// Shows an information message for `duration`, or the default time.
    pub fn show_info_with_duration(&mut self, message: &str, duration: Option<Duration>) -> (r: Result<
        SystemResponse,
        AltreError,
    >)
        requires
            old(self).wf(),
        ensures
            final(self).wf(),
            final(self).settings() == old(self).settings(),
            final(self).pending() == old(self).pending(),
            r matches Ok(x) && x@ == ResponseView::Continue,
            final(self)@ == with_mode(
                old(self)@,
                ModeView::InfoDisplay(
                    message@,
                    match duration {
                        Some(d) => nanos_of(d) as nat,
                        None => INFO_MESSAGE_SECS as nat * 1_000_000_000,
                    },
                ),
            ),
    {
        self.minibuffer.show_info_with_duration(owned(message), duration);
        Ok(SystemResponse::Continue)
    }

    /// Sets or clears the status-line message.
    pub fn set_status_message(&mut self, message: Option<String>)
        requires
            old(self).wf(),
        ensures
            final(self).wf(),
            final(self).settings() == old(self).settings(),
            final(self).pending() == old(self).pending(),
            final(self)@ == (StateView {
                status: match message {
                    Some(m) => Some(m@),
                    None => None,
                },
                ..old(self)@
            }),
    {
        self.minibuffer.set_status_message(message);
    }

    /// Puts the minibuffer out of use.
    pub fn deactivate(&mut self)
        requires
            old(self).wf(),
        ensures
            final(self).wf(),
            final(self).settings() == old(self).settings(),
            final(self).pending() == old(self).pending(),
            final(self)@ == deactivated(old(self)@),
    {
        self.minibuffer.deactivate();
    }

    /// Replaces the settings; file-path completion follows the new
    /// hidden-file setting.
    pub fn update_config(&mut self, config: MinibufferConfig)
        requires
            old(self).wf(),
        ensures
            final(self).wf(),
            final(self)@ == old(self)@,
            final(self).settings() == config,
            final(self).hidden_files_shown() == config.show_hidden_files,
            final(self).pending() == old(self).pending(),
    {
        let show = config.show_hidden_files;
        self.config = config;
        self.path_completion = PathCompletion::new().with_hidden_files(show);
    }

    /// The settings.
    pub fn config(&self) -> (r: &MinibufferConfig)
        ensures
            *r == self.settings(),
    {
        &self.config
    }

    /// Offers another command name for completion.
    pub fn add_command(&mut self, command: String)
        requires
            old(self).wf(),
        ensures
            final(self).wf(),
            final(self)@ == old(self)@,
            final(self).settings() == old(self).settings(),
            final(self).pending() == old(self).pending(),
            old(self).command_names().contains(command@) ==> final(self).command_names() == old(
                self,
            ).command_names(),
            !old(self).command_names().contains(command@) ==> final(self).command_names().to_multiset()
                == old(self).command_names().to_multiset().insert(command@) && final(self).command_names().len()
                == old(self).command_names().len() + 1,
    {
        self.command_completion.add_command(command);
    }

    /// The command names offered, sorted.
    pub fn available_commands(&self) -> (r: &[String])
        ensures
            texts(r@) == self.command_names(),
    {
        self.command_completion.all_commands()
    }

    /// Figures of the system.
    pub fn performance_stats(&self) -> (r: PerformanceStats)
        ensures
            r.completions_count == self@.completions.len(),
            r.history_size == self@.history.len(),
    {
        PerformanceStats {
            last_update: self.last_update,
            uptime: elapsed(&self.last_update),
            completions_count: self.minibuffer.state().completions.len(),
            history_size: self.minibuffer.state().history.len(),
        }
    }
}

impl Default for MinibufferSystem {
    fn default() -> (r: Self)
        ensures
            r.wf(),
            r@ == super::initial_state(),
    {
        Self::new()
    }
}

/// Builds a minibuffer system from settings.
pub struct MinibufferSystemBuilder {
    config: MinibufferConfig,
}

impl MinibufferSystemBuilder {
    /// The settings the system will have.
    pub closed spec fn settings(&self) -> MinibufferConfig {
        self.config
    }

    /// A builder with the default settings.
    pub fn new() -> (r: Self)
        ensures
            r.settings().auto_completion,
            r.settings().max_completions == 50,
            r.settings().max_history_size == 100,
            !r.settings().show_hidden_files,
    {
        MinibufferSystemBuilder { config: MinibufferConfig::default() }
    }

    /// Turns completion while typing on or off.
    pub fn auto_completion(self, enabled: bool) -> (r: Self)
        ensures
            r.settings() == (MinibufferConfig { auto_completion: enabled, ..self.settings() }),
    {
        MinibufferSystemBuilder { config: MinibufferConfig { auto_completion: enabled, ..self.config } }
    }

    /// Sets the most completion candidates.
    pub fn max_completions(self, max: usize) -> (r: Self)
        ensures
            r.settings() == (MinibufferConfig { max_completions: max, ..self.settings() }),
    {
        MinibufferSystemBuilder { config: MinibufferConfig { max_completions: max, ..self.config } }
    }

    /// Sets how long errors stay.
    pub fn error_display_duration(self, duration: Duration) -> (r: Self)
        ensures
            r.settings() == (MinibufferConfig { error_display_duration: duration, ..self.settings() }),
    {
        MinibufferSystemBuilder { config: MinibufferConfig { error_display_duration: duration, ..self.config } }
    }

    /// Sets how long information messages stay.
    pub fn info_display_duration(self, duration: Duration) -> (r: Self)
        ensures
            r.settings() == (MinibufferConfig { info_display_duration: duration, ..self.settings() }),
    {
        MinibufferSystemBuilder { config: MinibufferConfig { info_display_duration: duration, ..self.config } }
    }

    /// Sets the most history entries.
    pub fn max_history_size(self, size: usize) -> (r: Self)
        ensures
            r.settings() == (MinibufferConfig { max_history_size: size, ..self.settings() }),
    {
        MinibufferSystemBuilder { config: MinibufferConfig { max_history_size: size, ..self.config } }
    }

    /// Shows hidden files or not.
    pub fn show_hidden_files(self, show: bool) -> (r: Self)
        ensures
            r.settings() == (MinibufferConfig { show_hidden_files: show, ..self.settings() }),
    {
        MinibufferSystemBuilder { config: MinibufferConfig { show_hidden_files: show, ..self.config } }
    }

    /// The system with these settings.
    pub fn build(self) -> (r: MinibufferSystem)
        ensures
            r.wf(),
            r@ == super::initial_state(),
            r.settings() == self.settings(),
    {
        MinibufferSystem::with_config(self.config)
    }
}

impl Default for MinibufferSystemBuilder {
    fn default() -> (r: Self)
        ensures
            r.settings().max_completions == 50,
    {
        Self::new()
    }
}

} // verus!
