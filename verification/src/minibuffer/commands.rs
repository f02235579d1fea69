//! Commands run from the minibuffer (`M-x`): their registry, aliases,
//! history and what running one asks of the editor.
use crate::collate::{sorted_copy, sorted_texts, texts};
use crate::error::AltreError;
use crate::file::path::{path_from_text, path_text};
use crate::input::keybinding::{split_words, words};
use crate::text::{chars_equal, chars_of, concat_str, owned, starts_with_chars, str_equal, string_from_chars};
use std::path::PathBuf;
use vstd::prelude::*;

verus! {

/// What running a command asks for.
#[derive(Debug, Clone)]
pub enum CommandResult {
    /// Done, with a message.
    Success(String),
    /// Failed, with a message.
    Error(String),
    /// A file operation.
    FileOperation(FileOperationType),
    /// A buffer operation.
    BufferOperation(BufferOperationType),
    /// A system operation.
    SystemOperation(SystemOperationType),
    /// Nothing to do.
    Nothing,
}

/// File operations.
#[derive(Debug, Clone)]
pub enum FileOperationType {
    Open { path: PathBuf },
    Save,
    SaveAs { path: PathBuf },
    Close,
    New,
}

/// Buffer operations.
#[derive(Debug, Clone)]
pub enum BufferOperationType {
    Switch { buffer_id: usize },
    Delete { buffer_id: usize },
    List,
    Reload,
}

/// System operations.
#[derive(Debug, Clone, Copy, PartialEq, Eq, Structural)]
pub enum SystemOperationType {
    Quit,
    ForceQuit,
    OpenConfig,
    ShowHelp,
}

/// A command result with texts as character sequences and paths by
/// their text.
pub enum CommandOutcome {
    Success(Seq<char>),
    Error(Seq<char>),
    Open(Option<Seq<char>>),
    Save,
    SaveAs(Option<Seq<char>>),
    Close,
    New,
    Switch(usize),
    Delete(usize),
    List,
    Reload,
    System(SystemOperationType),
    Nothing,
}

impl View for CommandResult {
    type V = CommandOutcome;

    open spec fn view(&self) -> CommandOutcome {
        match self {
            CommandResult::Success(m) => CommandOutcome::Success(m@),
            CommandResult::Error(m) => CommandOutcome::Error(m@),
            CommandResult::FileOperation(FileOperationType::Open { path }) => CommandOutcome::Open(path_text(*path)),
            CommandResult::FileOperation(FileOperationType::Save) => CommandOutcome::Save,
            CommandResult::FileOperation(FileOperationType::SaveAs { path }) => CommandOutcome::SaveAs(
                path_text(*path),
            ),
            CommandResult::FileOperation(FileOperationType::Close) => CommandOutcome::Close,
            CommandResult::FileOperation(FileOperationType::New) => CommandOutcome::New,
            CommandResult::BufferOperation(BufferOperationType::Switch { buffer_id }) => CommandOutcome::Switch(
                *buffer_id,
            ),
            CommandResult::BufferOperation(BufferOperationType::Delete { buffer_id }) => CommandOutcome::Delete(
                *buffer_id,
            ),
            CommandResult::BufferOperation(BufferOperationType::List) => CommandOutcome::List,
            CommandResult::BufferOperation(BufferOperationType::Reload) => CommandOutcome::Reload,
            CommandResult::SystemOperation(op) => CommandOutcome::System(*op),
            CommandResult::Nothing => CommandOutcome::Nothing,
        }
    }
}

/// When a command can run.
#[derive(Debug, Clone, Copy, PartialEq, Eq, Structural)]
pub enum ExecCondition {
    /// Always.
    Always,
    /// When the buffer has a file.
    HasFile,
    /// When there is a current buffer.
    HasBuffer,
    /// When there is more than one buffer.
    SeveralBuffers,
}

/// The situation a command runs in.
#[derive(Debug, Clone)]
pub struct CommandContext {
    /// The current buffer's file.
    pub current_file: Option<PathBuf>,
    /// The current buffer.
    pub current_buffer_id: Option<usize>,
    /// Whether the buffer has unsaved changes.
    pub buffer_modified: bool,
    /// Number of open buffers.
    pub buffer_count: usize,
    /// The directory paths are resolved against.
    pub root_path: PathBuf,
}

impl CommandContext {
    /// A context with no file and no buffer, resolving paths against
    /// `root_path`.
    pub fn new(root_path: PathBuf) -> (r: Self)
        ensures
            r.current_file is None,
            r.current_buffer_id is None,
            !r.buffer_modified,
            r.buffer_count == 0,
            r.root_path == root_path,
    {
        CommandContext {
            current_file: None,
            current_buffer_id: None,
            buffer_modified: false,
            buffer_count: 0,
            root_path,
        }
    }
}

impl Default for CommandContext {
    /// A context with no file and no buffer, resolving paths against `.`.
    fn default() -> (r: Self)
        ensures
            r.current_file is None,
            r.current_buffer_id is None,
            !r.buffer_modified,
            r.buffer_count == 0,
            path_text(r.root_path) == Some("."@),
    {
        CommandContext::new(path_from_text("."))
    }
}

/// Whether a condition holds in a context.
pub open spec fn condition_holds(c: ExecCondition, ctx: CommandContext) -> bool {
    match c {
        ExecCondition::Always => true,
        ExecCondition::HasFile => ctx.current_file is Some,
        ExecCondition::HasBuffer => ctx.current_buffer_id is Some,
        ExecCondition::SeveralBuffers => ctx.buffer_count > 1,
    }
}

/// A command: its name, description, when it can run, its key binding
/// and what its arguments are.
#[derive(Debug, Clone)]
pub struct CommandDefinition {
    pub name: String,
    pub description: String,
    pub condition: ExecCondition,
    pub keybinding: Option<String>,
    pub args_description: Option<String>,
}

impl CommandDefinition {
    /// Whether the command can run in `context`.
    pub fn can_execute(&self, context: &CommandContext) -> (r: bool)
        ensures
            r == condition_holds(self.condition, *context),
    {
        match self.condition {
            ExecCondition::Always => true,
            ExecCondition::HasFile => context.current_file.is_some(),
            ExecCondition::HasBuffer => context.current_buffer_id.is_some(),
            ExecCondition::SeveralBuffers => context.buffer_count > 1,
        }
    }
}

/// The last element of `s` whose key is `k`.
pub open spec fn find_by<T>(s: Seq<T>, key: spec_fn(T) -> Seq<char>, k: Seq<char>) -> Option<T>
    decreases s.len(),
{
    if s.len() == 0 {
        None
    } else if key(s.last()) == k {
        Some(s.last())
    } else {
        find_by(s.drop_last(), key, k)
    }
}

/// `s` without the elements whose key is `k`.
pub open spec fn without_key<T>(s: Seq<T>, key: spec_fn(T) -> Seq<char>, k: Seq<char>) -> Seq<T> {
    s.filter(key_differs(key, k))
}

/// Whether an element's key differs from `k`.
pub open spec fn key_differs<T>(key: spec_fn(T) -> Seq<char>, k: Seq<char>) -> spec_fn(T) -> bool {
    |x: T| key(x) != k
}

/// Dropping the elements with key `k` leaves what is found for other keys.
pub proof fn lemma_find_without<T>(s: Seq<T>, key: spec_fn(T) -> Seq<char>, k: Seq<char>, other: Seq<char>)
    requires
        other != k,
    ensures
        find_by(without_key(s, key, k), key, other) == find_by(s, key, other),
        find_by(without_key(s, key, k), key, k) is None,
    decreases s.len(),
{
    reveal(Seq::filter);
    if s.len() > 0 {
        lemma_find_without(s.drop_last(), key, k, other);
        let f = key_differs(key, k);
        let t = s.drop_last().filter(f);
        if f(s.last()) {
            assert(without_key(s, key, k) == t.push(s.last()));
            assert(t.push(s.last()).drop_last() =~= t);
        } else {
            assert(without_key(s, key, k) == t);
        }
    }
}

/// The name of a command.
pub open spec fn def_name() -> spec_fn(CommandDefinition) -> Seq<char> {
    |d: CommandDefinition| d.name@
}

/// The alias of an alias entry.
pub open spec fn alias_name() -> spec_fn((String, String)) -> Seq<char> {
    |a: (String, String)| a.0@
}

/// The history after `command` ran: a repeat of the last entry is not
/// recorded again, and the oldest entry goes once there are more than
/// `max` entries.
pub open spec fn history_pushed(h: Seq<Seq<char>>, command: Seq<char>, max: nat) -> Seq<Seq<char>> {
    if h.len() > 0 && h.last() == command {
        h
    } else if h.len() + 1 > max {
        h.push(command).drop_first()
    } else {
        h.push(command)
    }
}

/// What a built-in command asks for, given its arguments and context.
pub open spec fn builtin_outcome(name: Seq<char>, args: Seq<Seq<char>>, ctx: CommandContext) -> CommandOutcome {
    if name == "find-file"@ {
        if args.len() == 0 {
            CommandOutcome::Error("No filename specified"@)
        } else {
            CommandOutcome::Open(Some(args[0]))
        }
    } else if name == "save-buffer"@ {
        if ctx.current_file is Some {
            CommandOutcome::Save
        } else {
            CommandOutcome::Error("No file associated with buffer"@)
        }
    } else if name == "write-file"@ || name == "save-buffer-as"@ {
        if args.len() == 0 {
            CommandOutcome::Error("No filename specified"@)
        } else {
            CommandOutcome::SaveAs(Some(args[0]))
        }
    } else if name == "save-some-buffers"@ {
        if ctx.current_file is Some {
            CommandOutcome::Save
        } else {
            CommandOutcome::Success("No buffers need saving"@)
        }
    } else if name == "switch-to-buffer"@ {
        if args.len() == 0 {
            CommandOutcome::List
        } else {
            CommandOutcome::Switch(0)
        }
    } else if name == "list-buffers"@ {
        CommandOutcome::List
    } else if name == "kill-buffer"@ {
        match ctx.current_buffer_id {
            Some(id) => CommandOutcome::Delete(id),
            None => CommandOutcome::Error("No buffer to kill"@),
        }
    } else if name == "quit"@ || name == "save-buffers-kill-terminal"@ {
        CommandOutcome::System(SystemOperationType::Quit)
    } else if name == "forward-char"@ || name == "backward-char"@ || name == "next-line"@ || name
        == "previous-line"@ {
        CommandOutcome::Success("Executed: "@ + name)
    } else {
        CommandOutcome::Error("Command not implemented: "@ + name)
    }
}


/// The parts of a command definition, its texts as character sequences.
pub open spec fn def_summary(d: CommandDefinition) -> (
    Seq<char>,
    Seq<char>,
    ExecCondition,
    Option<Seq<char>>,
    Option<Seq<char>>,
) {
    (
        d.name@,
        d.description@,
        d.condition,
        match d.keybinding {
            Some(k) => Some(k@),
            None => None,
        },
        match d.args_description {
            Some(a) => Some(a@),
            None => None,
        },
    )
}

/// The built-in commands, in the order they are registered.
pub open spec fn builtin_commands() -> Seq<(Seq<char>, Seq<char>, ExecCondition, Option<Seq<char>>, Option<Seq<char>>)> {
    seq![
        ("find-file"@, "ファイルを開く"@, ExecCondition::Always, Some("C-x C-f"@), Some("filename"@)),
        ("save-buffer"@, "現在のバッファを保存"@, ExecCondition::HasFile, Some("C-x C-s"@), None),
        ("write-file"@, "別名でファイルを保存"@, ExecCondition::HasBuffer, Some("C-x C-w"@), Some("filename"@)),
        ("save-buffer-as"@, "名前を付けてバッファを保存"@, ExecCondition::HasBuffer, None, Some("filename"@)),
        ("save-some-buffers"@, "すべてのバッファを保存"@, ExecCondition::Always, Some("C-x s"@), None),
        ("split-window-below"@, "ウィンドウを上下に分割"@, ExecCondition::Always, Some("C-x 2"@), None),
        ("split-window-right"@, "ウィンドウを左右に分割"@, ExecCondition::Always, Some("C-x 3"@), None),
        ("delete-other-windows"@, "現在のウィンドウのみ表示"@, ExecCondition::Always, Some("C-x 1"@), None),
        ("delete-window"@, "現在のウィンドウを閉じる"@, ExecCondition::Always, Some("C-x 0"@), None),
        ("other-window"@, "次のウィンドウに移動"@, ExecCondition::Always, Some("C-x o"@), None),
        ("switch-to-buffer"@, "バッファを切り替え"@, ExecCondition::SeveralBuffers, Some("C-x b"@), Some("buffer-name"@)),
        ("list-buffers"@, "バッファ一覧を表示"@, ExecCondition::Always, Some("C-x C-b"@), None),
        ("kill-buffer"@, "バッファを削除"@, ExecCondition::HasBuffer, Some("C-x k"@), Some("buffer-name"@)),
        ("quit"@, "エディタを終了"@, ExecCondition::Always, Some("C-x C-c"@), None),
        ("save-buffers-kill-terminal"@, "全バッファを保存してエディタを終了"@, ExecCondition::Always, Some("C-x C-c"@), None),
        ("eval-expression"@, "alisp式を評価"@, ExecCondition::Always, Some("M-:"@), Some("expression"@)),
        ("forward-char"@, "カーソルを右に移動"@, ExecCondition::Always, Some("C-f"@), None),
        ("backward-char"@, "カーソルを左に移動"@, ExecCondition::Always, Some("C-b"@), None),
        ("next-line"@, "カーソルを下に移動"@, ExecCondition::Always, Some("C-n"@), None),
        ("previous-line"@, "カーソルを上に移動"@, ExecCondition::Always, Some("C-p"@), None),
    ]
}

/// The built-in aliases and the commands they stand for.
pub open spec fn builtin_aliases() -> Seq<(Seq<char>, Seq<char>)> {
    seq![("ff"@, "find-file"@), ("sb"@, "save-buffer"@), ("exit"@, "quit"@), ("q"@, "quit"@)]
}

/// An alias entry with its texts as character sequences.
pub open spec fn alias_summary(a: (String, String)) -> (Seq<char>, Seq<char>) {
    (a.0@, a.1@)
}

/// Most history entries of a new processor.
pub const COMMAND_HISTORY_LIMIT: usize = 100;

/// The command registry with aliases and the history of run commands.
pub struct CommandProcessor {
    commands: Vec<CommandDefinition>,
    aliases: Vec<(String, String)>,
    history: Vec<String>,
    max_history_size: usize,
}

impl CommandProcessor {
    /// The registered commands, in registration order.
    pub closed spec fn definitions(&self) -> Seq<CommandDefinition> {
        self.commands@
    }

    /// The alias entries.
    pub closed spec fn alias_entries(&self) -> Seq<(String, String)> {
        self.aliases@
    }

    /// The history of run command lines, oldest first.
    pub closed spec fn history_view(&self) -> Seq<Seq<char>> {
        texts(self.history@)
    }

    /// Most history entries.
    pub closed spec fn history_limit(&self) -> nat {
        self.max_history_size as nat
    }

    /// The command registered under `name`.
    pub open spec fn lookup(&self, name: Seq<char>) -> Option<CommandDefinition> {
        find_by(self.definitions(), def_name(), name)
    }

    /// The command `alias` stands for.
    pub open spec fn alias_of(&self, alias: Seq<char>) -> Option<Seq<char>> {
        match find_by(self.alias_entries(), alias_name(), alias) {
            Some(e) => Some(e.1@),
            None => None,
        }
    }

    /// The command a name stands for: an alias's target, or the name.
    pub open spec fn resolve(&self, name: Seq<char>) -> Seq<char> {
        match self.alias_of(name) {
            Some(t) => t,
            None => name,
        }
    }

    /// Well-formed: the history is within its limit.
    pub open spec fn wf(&self) -> bool {
        &&& self.history_limit() > 0
        &&& self.history_view().len() <= self.history_limit()
    }

    /// A processor with the built-in commands and aliases and an empty
    /// history.
    pub fn new() -> (r: Self)
        ensures
            r.wf(),
            r.definitions().map_values(|d: CommandDefinition| def_summary(d)) == builtin_commands(),
            r.alias_entries().map_values(|a: (String, String)| alias_summary(a)) == builtin_aliases(),
            r.history_view() == Seq::<Seq<char>>::empty(),
            r.history_limit() == COMMAND_HISTORY_LIMIT,
    {
        let mut commands: Vec<CommandDefinition> = Vec::new();
        commands.push(definition("find-file", "ファイルを開く", ExecCondition::Always, Some("C-x C-f"), Some("filename")));
        commands.push(definition("save-buffer", "現在のバッファを保存", ExecCondition::HasFile, Some("C-x C-s"), None));
        commands.push(definition("write-file", "別名でファイルを保存", ExecCondition::HasBuffer, Some("C-x C-w"), Some("filename")));
        commands.push(definition("save-buffer-as", "名前を付けてバッファを保存", ExecCondition::HasBuffer, None, Some("filename")));
        commands.push(definition("save-some-buffers", "すべてのバッファを保存", ExecCondition::Always, Some("C-x s"), None));
        commands.push(definition("split-window-below", "ウィンドウを上下に分割", ExecCondition::Always, Some("C-x 2"), None));
        commands.push(definition("split-window-right", "ウィンドウを左右に分割", ExecCondition::Always, Some("C-x 3"), None));
        commands.push(definition("delete-other-windows", "現在のウィンドウのみ表示", ExecCondition::Always, Some("C-x 1"), None));
        commands.push(definition("delete-window", "現在のウィンドウを閉じる", ExecCondition::Always, Some("C-x 0"), None));
        commands.push(definition("other-window", "次のウィンドウに移動", ExecCondition::Always, Some("C-x o"), None));
        commands.push(definition("switch-to-buffer", "バッファを切り替え", ExecCondition::SeveralBuffers, Some("C-x b"), Some("buffer-name")));
        commands.push(definition("list-buffers", "バッファ一覧を表示", ExecCondition::Always, Some("C-x C-b"), None));
        commands.push(definition("kill-buffer", "バッファを削除", ExecCondition::HasBuffer, Some("C-x k"), Some("buffer-name")));
        commands.push(definition("quit", "エディタを終了", ExecCondition::Always, Some("C-x C-c"), None));
        commands.push(definition("save-buffers-kill-terminal", "全バッファを保存してエディタを終了", ExecCondition::Always, Some("C-x C-c"), None));
        commands.push(definition("eval-expression", "alisp式を評価", ExecCondition::Always, Some("M-:"), Some("expression")));
        commands.push(definition("forward-char", "カーソルを右に移動", ExecCondition::Always, Some("C-f"), None));
        commands.push(definition("backward-char", "カーソルを左に移動", ExecCondition::Always, Some("C-b"), None));
        commands.push(definition("next-line", "カーソルを下に移動", ExecCondition::Always, Some("C-n"), None));
        commands.push(definition("previous-line", "カーソルを上に移動", ExecCondition::Always, Some("C-p"), None));
        let mut aliases: Vec<(String, String)> = Vec::new();
        aliases.push((owned("ff"), owned("find-file")));
        aliases.push((owned("sb"), owned("save-buffer")));
        aliases.push((owned("exit"), owned("quit")));
        aliases.push((owned("q"), owned("quit")));
        let r = CommandProcessor { commands, aliases, history: Vec::new(), max_history_size: COMMAND_HISTORY_LIMIT };
        proof {
            assert(r.definitions().map_values(|d: CommandDefinition| def_summary(d)) =~= builtin_commands());
            assert(r.alias_entries().map_values(|a: (String, String)| alias_summary(a)) =~= builtin_aliases());
            assert(r.history_view() =~= Seq::<Seq<char>>::empty());
        }
        r
    }
}

/// A command definition from its parts.
fn definition(
    name: &str,
    description: &str,
    condition: ExecCondition,
    keybinding: Option<&str>,
    args_description: Option<&str>,
) -> (r: CommandDefinition)
    ensures
        def_summary(r) == (
            name@,
            description@,
            condition,
            match keybinding {
                Some(k) => Some(k@),
                None => None::<Seq<char>>,
            },
            match args_description {
                Some(a) => Some(a@),
                None => None::<Seq<char>>,
            },
        ),
{
    CommandDefinition {
        name: owned(name),
        description: owned(description),
        condition,
        keybinding: match keybinding {
            Some(k) => Some(owned(k)),
            None => None,
        },
        args_description: match args_description {
            Some(a) => Some(owned(a)),
            None => None,
        },
    }
}


/// Elements after index `m` with other keys do not change what is found.
pub proof fn lemma_find_by_take<T>(s: Seq<T>, key: spec_fn(T) -> Seq<char>, k: Seq<char>, m: int)
    requires
        0 <= m <= s.len(),
        forall|j: int| m <= j < s.len() ==> key(#[trigger] s[j]) != k,
    ensures
        find_by(s, key, k) == find_by(s.take(m), key, k),
    decreases s.len() - m,
{
    if m < s.len() {
        assert(s.drop_last().take(m) =~= s.take(m));
        assert forall|j: int| m <= j < s.drop_last().len() implies key(#[trigger] s.drop_last()[j]) != k by {
            assert(s.drop_last()[j] == s[j]);
        }
        lemma_find_by_take(s.drop_last(), key, k, m);
    } else {
        assert(s.take(m) =~= s);
    }
}

/// Replacing the last element with key `key(x)` by `x`: `x` is found for
/// its key, and other keys find what they found before.
pub proof fn lemma_find_update<T>(s: Seq<T>, key: spec_fn(T) -> Seq<char>, i: int, x: T, o: Seq<char>)
    requires
        0 <= i < s.len(),
        key(s[i]) == key(x),
        forall|j: int| i < j < s.len() ==> key(#[trigger] s[j]) != key(x),
    ensures
        find_by(s.update(i, x), key, o) == (if o == key(x) { Some(x) } else { find_by(s, key, o) }),
    decreases s.len(),
{
    let u = s.update(i, x);
    if i == s.len() - 1 {
        assert(u.drop_last() =~= s.drop_last());
    } else {
        assert(u.drop_last() =~= s.drop_last().update(i, x));
        assert forall|j: int| i < j < s.drop_last().len() implies key(#[trigger] s.drop_last()[j]) != key(x) by {
            assert(s.drop_last()[j] == s[j]);
        }
        lemma_find_update(s.drop_last(), key, i, x, o);
    }
}

/// The last index whose command has the name `name`.
fn last_command_index(v: &Vec<CommandDefinition>, name: &Vec<char>) -> (r: Option<usize>)
    ensures
        match r {
            Some(i) => i < v@.len() && v@[i as int].name@ == name@ && find_by(v@, def_name(), name@) == Some(
                v@[i as int],
            ) && forall|j: int| i < j < v@.len() ==> (#[trigger] v@[j]).name@ != name@,
            None => find_by(v@, def_name(), name@) is None,
        },
{
    let mut i: usize = v.len();
    while i > 0
        invariant
            i <= v.len(),
            forall|j: int| i <= j < v@.len() ==> (#[trigger] v@[j]).name@ != name@,
        decreases i,
    {
        let e = chars_of(v[i - 1].name.as_str());
        if chars_equal(&e, name) {
            proof {
                assert forall|j: int| i <= j < v@.len() implies def_name()(#[trigger] v@[j]) != name@ by {}
                lemma_find_by_take(v@, def_name(), name@, i as int);
                assert(v@.take(i as int).last() == v@[i - 1]);
            }
            return Some(i - 1);
        }
        i -= 1;
    }
    proof {
        assert forall|j: int| 0 <= j < v@.len() implies def_name()(#[trigger] v@[j]) != name@ by {}
        lemma_find_by_take(v@, def_name(), name@, 0);
    }
    None
}

/// The last index whose alias is `name`.
fn last_alias_index(v: &Vec<(String, String)>, name: &Vec<char>) -> (r: Option<usize>)
    ensures
        match r {
            Some(i) => i < v@.len() && v@[i as int].0@ == name@ && find_by(v@, alias_name(), name@) == Some(
                v@[i as int],
            ) && forall|j: int| i < j < v@.len() ==> (#[trigger] v@[j]).0@ != name@,
            None => find_by(v@, alias_name(), name@) is None,
        },
{
    let mut i: usize = v.len();
    while i > 0
        invariant
            i <= v.len(),
            forall|j: int| i <= j < v@.len() ==> (#[trigger] v@[j]).0@ != name@,
        decreases i,
    {
        let e = chars_of(v[i - 1].0.as_str());
        if chars_equal(&e, name) {
            proof {
                assert forall|j: int| i <= j < v@.len() implies alias_name()(#[trigger] v@[j]) != name@ by {}
                lemma_find_by_take(v@, alias_name(), name@, i as int);
                assert(v@.take(i as int).last() == v@[i - 1]);
            }
            return Some(i - 1);
        }
        i -= 1;
    }
    proof {
        assert forall|j: int| 0 <= j < v@.len() implies alias_name()(#[trigger] v@[j]) != name@ by {}
        lemma_find_by_take(v@, alias_name(), name@, 0);
    }
    None
}

impl CommandProcessor {
    /// Registers a command, replacing one of the same name.
    pub fn register_command(&mut self, command: CommandDefinition)
        requires
            old(self).wf(),
        ensures
            final(self).wf(),
            final(self).lookup(command.name@) == Some(command),
            forall|n: Seq<char>| n != command.name@ ==> #[trigger] final(self).lookup(n) == old(self).lookup(n),
            final(self).alias_entries() == old(self).alias_entries(),
            final(self).history_view() == old(self).history_view(),
            final(self).history_limit() == old(self).history_limit(),
    {
        let name = chars_of(command.name.as_str());
        match last_command_index(&self.commands, &name) {
            Some(i) => {
                let ghost before = self.commands@;
                let ghost c = command;
                self.commands.set(i, command);
                proof {
                    assert(self.commands@ == before.update(i as int, c));
                    lemma_find_update(before, def_name(), i as int, c, c.name@);
                    assert forall|n: Seq<char>| n != c.name@ implies #[trigger] find_by(
                        self.commands@,
                        def_name(),
                        n,
                    ) == find_by(before, def_name(), n) by {
                        lemma_find_update(before, def_name(), i as int, c, n);
                    }
                }
            },
            None => {
                let ghost before = self.commands@;
                let ghost c = command;
                self.commands.push(command);
                proof {
                    assert(self.commands@.drop_last() =~= before);
                }
            },
        }
    }

    /// Registers an alias for a command, replacing an alias of the same
    /// name.
    pub fn register_alias(&mut self, alias: String, command: String)
        requires
            old(self).wf(),
        ensures
            final(self).wf(),
            final(self).alias_of(alias@) == Some(command@),
            forall|n: Seq<char>| n != alias@ ==> #[trigger] final(self).alias_of(n) == old(self).alias_of(n),
            final(self).definitions() == old(self).definitions(),
            final(self).history_view() == old(self).history_view(),
            final(self).history_limit() == old(self).history_limit(),
    {
        let name = chars_of(alias.as_str());
        let ghost before = self.aliases@;
        let ghost entry = (alias, command);
        match last_alias_index(&self.aliases, &name) {
            Some(i) => {
                self.aliases.set(i, (alias, command));
                proof {
                    assert(self.aliases@ == before.update(i as int, entry));
                    lemma_find_update(before, alias_name(), i as int, entry, entry.0@);
                    assert forall|n: Seq<char>| n != entry.0@ implies #[trigger] find_by(
                        self.aliases@,
                        alias_name(),
                        n,
                    ) == find_by(before, alias_name(), n) by {
                        lemma_find_update(before, alias_name(), i as int, entry, n);
                    }
                }
            },
            None => {
                self.aliases.push((alias, command));
                proof {
                    assert(self.aliases@.drop_last() =~= before);
                }
            },
        }
    }

    /// Whether `command_name` is a command or an alias.
    pub fn command_exists(&self, command_name: &str) -> (r: bool)
        ensures
            r == (self.lookup(command_name@) is Some || self.alias_of(command_name@) is Some),
    {
        let name = chars_of(command_name);
        last_command_index(&self.commands, &name).is_some() || last_alias_index(&self.aliases, &name).is_some()
    }

    /// The command a name resolves to, following an alias.
    pub fn get_command_info(&self, command_name: &str) -> (r: Option<&CommandDefinition>)
        ensures
            match r {
                Some(d) => self.lookup(self.resolve(command_name@)) == Some(*d),
                None => self.lookup(self.resolve(command_name@)) is None,
            },
    {
        let name = chars_of(command_name);
        let resolved = match last_alias_index(&self.aliases, &name) {
            Some(i) => chars_of(self.aliases[i].1.as_str()),
            None => name,
        };
        match last_command_index(&self.commands, &resolved) {
            Some(i) => Some(&self.commands[i]),
            None => None,
        }
    }

    /// All registered commands, in registration order.
    pub fn list_commands(&self) -> (r: Vec<&CommandDefinition>)
        ensures
            r@.len() == self.definitions().len(),
            forall|i: int| 0 <= i < r@.len() ==> *(#[trigger] r@[i]) == self.definitions()[i],
    {
        let mut out: Vec<&CommandDefinition> = Vec::new();
        let mut i: usize = 0;
        while i < self.commands.len()
            invariant
                i <= self.commands.len(),
                out@.len() == i,
                forall|k: int| 0 <= k < i ==> *(#[trigger] out@[k]) == self.commands@[k],
            decreases self.commands.len() - i,
        {
            out.push(&self.commands[i]);
            i += 1;
        }
        out
    }

    /// The commands that can run in `context`, in registration order.
    pub fn executable_commands(&self, context: &CommandContext) -> (r: Vec<&CommandDefinition>)
        ensures
            r@.map_values(|d: &CommandDefinition| *d) == self.definitions().filter(
                |d: CommandDefinition| condition_holds(d.condition, *context),
            ),
    {
        let ghost f = |d: CommandDefinition| condition_holds(d.condition, *context);
        let mut out: Vec<&CommandDefinition> = Vec::new();
        let mut i: usize = 0;
        while i < self.commands.len()
            invariant
                i <= self.commands.len(),
                f == (|d: CommandDefinition| condition_holds(d.condition, *context)),
                out@.map_values(|d: &CommandDefinition| *d) == self.commands@.take(i as int).filter(f),
            decreases self.commands.len() - i,
        {
            proof {
                reveal(Seq::filter);
                assert(self.commands@.take(i + 1).drop_last() =~= self.commands@.take(i as int));
            }
            if self.commands[i].can_execute(context) {
                let ghost before = out@;
                out.push(&self.commands[i]);
                assert(out@.map_values(|d: &CommandDefinition| *d) =~= before.map_values(
                    |d: &CommandDefinition| *d,
                ).push(self.commands@[i as int]));
            }
            i += 1;
        }
        assert(self.commands@.take(self.commands@.len() as int) =~= self.commands@);
        out
    }

    /// The command lines run so far, oldest first.
    pub fn get_history(&self) -> (r: &[String])
        ensures
            texts(r@) == self.history_view(),
    {
        self.history.as_slice()
    }

    /// Forgets the history.
    pub fn clear_history(&mut self)
        requires
            old(self).wf(),
        ensures
            final(self).wf(),
            final(self).history_view() == Seq::<Seq<char>>::empty(),
            final(self).definitions() == old(self).definitions(),
            final(self).alias_entries() == old(self).alias_entries(),
            final(self).history_limit() == old(self).history_limit(),
    {
        self.history = Vec::new();
        assert(texts(self.history@) =~= Seq::<Seq<char>>::empty());
    }

    fn add_to_history(&mut self, command: String)
        requires
            old(self).wf(),
        ensures
            final(self).wf(),
            final(self).history_view() == history_pushed(
                old(self).history_view(),
                command@,
                old(self).history_limit(),
            ),
            final(self).definitions() == old(self).definitions(),
            final(self).alias_entries() == old(self).alias_entries(),
            final(self).history_limit() == old(self).history_limit(),
    {
        let n = self.history.len();
        if n > 0 && str_equal(self.history[n - 1].as_str(), command.as_str()) {
            return;
        }
        let ghost before = texts(self.history@);
        let ghost c = command@;
        self.history.push(command);
        assert(texts(self.history@) =~= before.push(c));
        if self.history.len() > self.max_history_size {
            self.history.remove(0);
            assert(texts(self.history@) =~= before.push(c).drop_first());
        }
    }
}

impl Default for CommandProcessor {
    fn default() -> (r: Self)
        ensures
            r.wf(),
            r.history_view() == Seq::<Seq<char>>::empty(),
    {
        Self::new()
    }
}


/// The names of the commands.
pub open spec fn names_of(defs: Seq<CommandDefinition>) -> Seq<Seq<char>> {
    defs.map_values(|d: CommandDefinition| d.name@)
}

/// The aliases of the alias entries.
pub open spec fn aliases_of(entries: Seq<(String, String)>) -> Seq<Seq<char>> {
    entries.map_values(|a: (String, String)| a.0@)
}

/// The message for a command that cannot run in the context.
pub open spec fn cannot_run_message(name: Seq<char>) -> Seq<char> {
    "Command '"@ + name + "' cannot be executed in current context"@
}

impl CommandProcessor {
    /// Runs a command line: its first word names a command or an alias,
    /// the rest are arguments. An empty line asks for nothing; an unknown
    /// command is an error; a command that cannot run in `context` says
    /// so; otherwise the line is recorded in the history and the command
    /// says what it asks of the editor (see `builtin_outcome`).
    pub fn execute_command(&mut self, command_line: &str, context: &CommandContext) -> (r: Result<
        CommandResult,
        AltreError,
    >)
        requires
            old(self).wf(),
        ensures
            final(self).wf(),
            final(self).definitions() == old(self).definitions(),
            final(self).alias_entries() == old(self).alias_entries(),
            final(self).history_limit() == old(self).history_limit(),
            ({
                let ws = words(command_line@);
                if ws.len() == 0 {
                    &&& r matches Ok(x) && x@ == CommandOutcome::Nothing
                    &&& final(self).history_view() == old(self).history_view()
                } else {
                    let name = old(self).resolve(ws[0]);
                    match old(self).lookup(name) {
                        None => {
                            &&& r matches Err(AltreError::Application(m)) && m@ == "Unknown command: "@ + name
                            &&& final(self).history_view() == old(self).history_view()
                        },
                        Some(d) => if !condition_holds(d.condition, *context) {
                            &&& r matches Ok(x) && x@ == CommandOutcome::Error(cannot_run_message(name))
                            &&& final(self).history_view() == old(self).history_view()
                        } else {
                            &&& r matches Ok(x) && x@ == builtin_outcome(name, ws.skip(1), *context)
                            &&& final(self).history_view() == history_pushed(
                                old(self).history_view(),
                                command_line@,
                                old(self).history_limit(),
                            )
                        },
                    }
                }
            }),
    {
        let chars = chars_of(command_line);
        let parts = split_words(&chars);
        if parts.len() == 0 {
            return Ok(CommandResult::Nothing);
        }
        let resolved: String = match last_alias_index(&self.aliases, &parts[0]) {
            Some(i) => self.aliases[i].1.clone(),
            None => string_from_chars(&parts[0]),
        };
        let rc = chars_of(resolved.as_str());
        let index = match last_command_index(&self.commands, &rc) {
            Some(i) => i,
            None => {
                return Err(AltreError::Application(concat_str("Unknown command: ", resolved.as_str())));
            },
        };
        if !self.commands[index].can_execute(context) {
            let a = concat_str("Command '", resolved.as_str());
            return Ok(CommandResult::Error(concat_str(a.as_str(), "' cannot be executed in current context")));
        }
        self.add_to_history(owned(command_line));
        let mut args: Vec<String> = Vec::new();
        let mut k: usize = 1;
        while k < parts.len()
            invariant
                1 <= k <= parts.len(),
                parts@.len() == words(command_line@).len(),
                forall|m: int| 0 <= m < parts@.len() ==> (#[trigger] parts@[m])@ == words(command_line@)[m],
                texts(args@) == words(command_line@).subrange(1, k as int),
            decreases parts.len() - k,
        {
            let ghost before = texts(args@);
            args.push(string_from_chars(&parts[k]));
            assert(texts(args@) =~= before.push(parts@[k as int]@));
            assert(words(command_line@).subrange(1, k + 1) =~= words(command_line@).subrange(1, k as int).push(
                words(command_line@)[k as int],
            ));
            k += 1;
        }
        assert(words(command_line@).subrange(1, parts@.len() as int) =~= words(command_line@).skip(1));
        Ok(execute_builtin_command(resolved.as_str(), &args, context))
    }

    /// The names of all commands and aliases that begin with `prefix`,
    /// sorted.
    pub fn complete_command(&self, prefix: &str) -> (r: Vec<String>)
        ensures
            sorted_texts(texts(r@)),
            texts(r@).to_multiset() == (names_of(self.definitions()).filter(
                super::completion::begins_with(prefix@),
            ) + aliases_of(self.alias_entries()).filter(super::completion::begins_with(prefix@))).to_multiset(),
    {
        let p = chars_of(prefix);
        let ghost f = super::completion::begins_with(prefix@);
        let mut matches: Vec<String> = Vec::new();
        let mut i: usize = 0;
        while i < self.commands.len()
            invariant
                i <= self.commands.len(),
                p@ == prefix@,
                f == super::completion::begins_with(prefix@),
                texts(matches@) == names_of(self.commands@.take(i as int)).filter(f),
            decreases self.commands.len() - i,
        {
            let e = chars_of(self.commands[i].name.as_str());
            proof {
                reveal(Seq::filter);
                assert(names_of(self.commands@.take(i + 1)).drop_last() =~= names_of(self.commands@.take(i as int)));
                assert(names_of(self.commands@.take(i + 1)).last() == self.commands@[i as int].name@);
            }
            if starts_with_chars(&e, &p) {
                let ghost before = texts(matches@);
                matches.push(self.commands[i].name.clone());
                assert(texts(matches@) =~= before.push(self.commands@[i as int].name@));
            }
            i += 1;
        }
        assert(self.commands@.take(self.commands@.len() as int) =~= self.commands@);
        let ghost from_commands = texts(matches@);
        let mut j: usize = 0;
        while j < self.aliases.len()
            invariant
                j <= self.aliases.len(),
                p@ == prefix@,
                f == super::completion::begins_with(prefix@),
                texts(matches@) == from_commands + aliases_of(self.aliases@.take(j as int)).filter(f),
            decreases self.aliases.len() - j,
        {
            let e = chars_of(self.aliases[j].0.as_str());
            proof {
                reveal(Seq::filter);
                assert(aliases_of(self.aliases@.take(j + 1)).drop_last() =~= aliases_of(self.aliases@.take(j as int)));
                assert(aliases_of(self.aliases@.take(j + 1)).last() == self.aliases@[j as int].0@);
            }
            if starts_with_chars(&e, &p) {
                let ghost before = texts(matches@);
                matches.push(self.aliases[j].0.clone());
                assert(texts(matches@) =~= before.push(self.aliases@[j as int].0@));
            }
            j += 1;
        }
        assert(self.aliases@.take(self.aliases@.len() as int) =~= self.aliases@);
        sorted_copy(&matches)
    }
}

/// What a built-in command asks for (see `builtin_outcome`).
fn execute_builtin_command(command: &str, args: &Vec<String>, context: &CommandContext) -> (r: CommandResult)
    ensures
        r@ == builtin_outcome(command@, texts(args@), *context),
{
    if str_equal(command, "find-file") {
        if args.len() == 0 {
            CommandResult::Error(owned("No filename specified"))
        } else {
            CommandResult::FileOperation(FileOperationType::Open { path: path_from_text(args[0].as_str()) })
        }
    } else if str_equal(command, "save-buffer") {
        if context.current_file.is_some() {
            CommandResult::FileOperation(FileOperationType::Save)
        } else {
            CommandResult::Error(owned("No file associated with buffer"))
        }
    } else if str_equal(command, "write-file") || str_equal(command, "save-buffer-as") {
        if args.len() == 0 {
            CommandResult::Error(owned("No filename specified"))
        } else {
            CommandResult::FileOperation(FileOperationType::SaveAs { path: path_from_text(args[0].as_str()) })
        }
    } else if str_equal(command, "save-some-buffers") {
        if context.current_file.is_some() {
            CommandResult::FileOperation(FileOperationType::Save)
        } else {
            CommandResult::Success(owned("No buffers need saving"))
        }
    } else if str_equal(command, "switch-to-buffer") {
        if args.len() == 0 {
            CommandResult::BufferOperation(BufferOperationType::List)
        } else {
            CommandResult::BufferOperation(BufferOperationType::Switch { buffer_id: 0 })
        }
    } else if str_equal(command, "list-buffers") {
        CommandResult::BufferOperation(BufferOperationType::List)
    } else if str_equal(command, "kill-buffer") {
        match context.current_buffer_id {
            Some(buffer_id) => CommandResult::BufferOperation(BufferOperationType::Delete { buffer_id }),
            None => CommandResult::Error(owned("No buffer to kill")),
        }
    } else if str_equal(command, "quit") || str_equal(command, "save-buffers-kill-terminal") {
        CommandResult::SystemOperation(SystemOperationType::Quit)
    } else if str_equal(command, "forward-char") || str_equal(command, "backward-char") || str_equal(
        command,
        "next-line",
    ) || str_equal(command, "previous-line") {
        CommandResult::Success(concat_str("Executed: ", command))
    } else {
        CommandResult::Error(concat_str("Command not implemented: ", command))
    }
}

} // verus!
