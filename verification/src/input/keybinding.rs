//! Keys, key sequences and the Emacs-style key map with its `C-x` prefix.
use crate::input::commands::Command;
use crate::text::{char_is_whitespace, chars_of, spec_is_whitespace, string_from_range};
use vstd::prelude::*;

verus! {

/// A key press: modifiers and key.
#[derive(Debug, Clone, Copy, PartialEq, Eq, Structural, Hash)]
pub struct Key {
    pub modifiers: KeyModifiers,
    pub code: KeyCode,
}

/// Modifier keys held.
#[derive(Debug, Clone, Copy, PartialEq, Eq, Structural, Hash)]
pub struct KeyModifiers {
    pub ctrl: bool,
    pub alt: bool,
    pub shift: bool,
}

/// A key.
#[derive(Debug, Clone, Copy, PartialEq, Eq, Structural, Hash)]
pub enum KeyCode {
    Char(char),
    Enter,
    Backspace,
    Delete,
    Tab,
    Up,
    Down,
    Left,
    Right,
    F(u8),
    Esc,
    Unknown,
}

/// `ch` with Control held.
pub open spec fn ctrl_key(ch: char) -> Key {
    Key { modifiers: KeyModifiers { ctrl: true, alt: false, shift: false }, code: KeyCode::Char(ch) }
}

/// `code` with no modifier.
pub open spec fn plain_key(code: KeyCode) -> Key {
    Key { modifiers: KeyModifiers { ctrl: false, alt: false, shift: false }, code }
}

impl Key {
    /// `C-x`.
    pub fn ctrl_x() -> (r: Self)
        ensures
            r == ctrl_key('x'),
    {
        Self { modifiers: KeyModifiers { ctrl: true, alt: false, shift: false }, code: KeyCode::Char('x') }
    }

    /// `C-c`.
    pub fn ctrl_c() -> (r: Self)
        ensures
            r == ctrl_key('c'),
    {
        Self { modifiers: KeyModifiers { ctrl: true, alt: false, shift: false }, code: KeyCode::Char('c') }
    }

    /// `C-n`.
    pub fn ctrl_n() -> (r: Self)
        ensures
            r == ctrl_key('n'),
    {
        Self { modifiers: KeyModifiers { ctrl: true, alt: false, shift: false }, code: KeyCode::Char('n') }
    }

    /// `C-p`.
    pub fn ctrl_p() -> (r: Self)
        ensures
            r == ctrl_key('p'),
    {
        Self { modifiers: KeyModifiers { ctrl: true, alt: false, shift: false }, code: KeyCode::Char('p') }
    }

    /// `C-f`.
    pub fn ctrl_f() -> (r: Self)
        ensures
            r == ctrl_key('f'),
    {
        Self { modifiers: KeyModifiers { ctrl: true, alt: false, shift: false }, code: KeyCode::Char('f') }
    }

    /// `C-b`.
    pub fn ctrl_b() -> (r: Self)
        ensures
            r == ctrl_key('b'),
    {
        Self { modifiers: KeyModifiers { ctrl: true, alt: false, shift: false }, code: KeyCode::Char('b') }
    }

    /// `C-s`.
    pub fn ctrl_s() -> (r: Self)
        ensures
            r == ctrl_key('s'),
    {
        Self { modifiers: KeyModifiers { ctrl: true, alt: false, shift: false }, code: KeyCode::Char('s') }
    }

    /// `M-x`.
    pub fn alt_x() -> (r: Self)
        ensures
            r == (Key { modifiers: KeyModifiers { ctrl: false, alt: true, shift: false }, code: KeyCode::Char('x') }),
    {
        Self { modifiers: KeyModifiers { ctrl: false, alt: true, shift: false }, code: KeyCode::Char('x') }
    }

    /// Whether this is exactly `C-x`.
    pub fn is_ctrl_x(&self) -> (r: bool)
        ensures
            r == (*self == ctrl_key('x')),
    {
        self.modifiers.ctrl && !self.modifiers.alt && !self.modifiers.shift && match self.code {
            KeyCode::Char(c) => c == 'x',
            _ => false,
        }
    }

    /// Whether the key types a character: a character key without Control
    /// or Meta.
    pub fn is_insertable_char(&self) -> (r: bool)
        ensures
            r == (self.code is Char && !self.modifiers.ctrl && !self.modifiers.alt),
    {
        match self.code {
            KeyCode::Char(_) => !self.modifiers.ctrl && !self.modifiers.alt,
            _ => false,
        }
    }

    /// The character of a character key, NUL for other keys.
    pub fn to_char(&self) -> (r: char)
        ensures
            r == (match self.code {
                KeyCode::Char(c) => c,
                _ => '\0',
            }),
    {
        match self.code {
            KeyCode::Char(c) => c,
            _ => '\0',
        }
    }
}

/// What a key does.
#[derive(Debug, Clone, Copy, PartialEq, Eq, Structural)]
pub enum Action {
    MoveCursor(Direction),
    InsertChar(char),
    DeleteChar(DeleteDirection),
    InsertNewline,
    FileOpen,
    FileSave,
    Quit,
    ExecuteCommand,
}

/// The command an action runs.
pub open spec fn action_command(a: Action) -> Command {
    match a {
        Action::MoveCursor(Direction::Up) => Command::PreviousLine,
        Action::MoveCursor(Direction::Down) => Command::NextLine,
        Action::MoveCursor(Direction::Left) => Command::BackwardChar,
        Action::MoveCursor(Direction::Right) => Command::ForwardChar,
        Action::InsertChar(c) => Command::InsertChar(c),
        Action::DeleteChar(DeleteDirection::Backward) => Command::DeleteBackwardChar,
        Action::DeleteChar(DeleteDirection::Forward) => Command::DeleteChar,
        Action::InsertNewline => Command::InsertNewline,
        Action::FileOpen => Command::FindFile,
        Action::FileSave => Command::SaveBuffer,
        Action::Quit => Command::SaveBuffersKillTerminal,
        Action::ExecuteCommand => Command::ExecuteCommand,
    }
}

impl Action {
    /// The command this action runs; every action has one.
    pub fn to_command(&self) -> (r: Option<Command>)
        ensures
            r == Some(action_command(*self)),
    {
        let c = match self {
            Action::MoveCursor(Direction::Up) => Command::PreviousLine,
            Action::MoveCursor(Direction::Down) => Command::NextLine,
            Action::MoveCursor(Direction::Left) => Command::BackwardChar,
            Action::MoveCursor(Direction::Right) => Command::ForwardChar,
            Action::InsertChar(c) => Command::InsertChar(*c),
            Action::DeleteChar(DeleteDirection::Backward) => Command::DeleteBackwardChar,
            Action::DeleteChar(DeleteDirection::Forward) => Command::DeleteChar,
            Action::InsertNewline => Command::InsertNewline,
            Action::FileOpen => Command::FindFile,
            Action::FileSave => Command::SaveBuffer,
            Action::Quit => Command::SaveBuffersKillTerminal,
            Action::ExecuteCommand => Command::ExecuteCommand,
        };
        Some(c)
    }
}

/// A direction of cursor movement.
#[derive(Debug, Clone, Copy, PartialEq, Eq, Structural)]
pub enum Direction {
    Up,
    Down,
    Left,
    Right,
}

/// Which character a deletion removes.
#[derive(Debug, Clone, Copy, PartialEq, Eq, Structural)]
pub enum DeleteDirection {
    Backward,
    Forward,
}

/// A sequence of keys.
#[derive(Debug, Clone, PartialEq, Eq, Hash)]
pub struct KeySequence {
    pub keys: Vec<Key>,
}

/// Errors of parsing a key description.
#[derive(Debug, Clone, PartialEq, Eq)]
pub enum KeyParseError {
    InvalidFormat(String),
    UnknownModifier(String),
    UnknownKey(String),
    EmptySequence,
}

/// Errors of key maps.
#[derive(Debug, Clone)]
pub enum KeyMapError {
    Conflict(KeySequence),
    InvalidSequence(KeyParseError),
}

/// The words of `s` separated by whitespace, from position `i` on, the
/// current word having started at `start` (or `-1` between words).
pub open spec fn words_from(s: Seq<char>, i: int, start: int) -> Seq<Seq<char>>
    decreases s.len() - i,
{
    if i >= s.len() || i < 0 {
        if start >= 0 {
            seq![s.subrange(start, s.len() as int)]
        } else {
            Seq::empty()
        }
    } else if spec_is_whitespace(s[i]) {
        if start >= 0 {
            seq![s.subrange(start, i)] + words_from(s, i + 1, -1)
        } else {
            words_from(s, i + 1, -1)
        }
    } else {
        words_from(s, i + 1, if start >= 0 { start } else { i })
    }
}

/// The whitespace-separated words of `s`.
pub open spec fn words(s: Seq<char>) -> Seq<Seq<char>> {
    words_from(s, 0, -1)
}

/// The modifiers at the front of a key description and what follows them.
pub open spec fn strip_modifiers(s: Seq<char>, m: KeyModifiers) -> (KeyModifiers, Seq<char>)
    decreases s.len(),
{
    if s.len() >= 2 && s[1] == '-' && (s[0] == 'C' || s[0] == 'M' || s[0] == 'S') {
        let m2 = if s[0] == 'C' {
            KeyModifiers { ctrl: true, ..m }
        } else if s[0] == 'M' {
            KeyModifiers { alt: true, ..m }
        } else {
            KeyModifiers { shift: true, ..m }
        };
        strip_modifiers(s.skip(2), m2)
    } else {
        (m, s)
    }
}

/// The key a name stands for: a named key, or a single one-byte character.
pub open spec fn named_key(s: Seq<char>) -> Option<KeyCode> {
    if s == "Enter"@ {
        Some(KeyCode::Enter)
    } else if s == "Backspace"@ {
        Some(KeyCode::Backspace)
    } else if s == "Delete"@ {
        Some(KeyCode::Delete)
    } else if s == "Tab"@ {
        Some(KeyCode::Tab)
    } else if s == "Up"@ {
        Some(KeyCode::Up)
    } else if s == "Down"@ {
        Some(KeyCode::Down)
    } else if s == "Left"@ {
        Some(KeyCode::Left)
    } else if s == "Right"@ {
        Some(KeyCode::Right)
    } else if s == "Esc"@ {
        Some(KeyCode::Esc)
    } else if s.len() == 1 && (s[0] as u32) < 0x80 {
        Some(KeyCode::Char(s[0]))
    } else {
        None
    }
}

/// The key a word describes, or what is left of it when no key matches.
pub open spec fn parsed_key(w: Seq<char>) -> Result<Key, Seq<char>> {
    let (m, rest) = strip_modifiers(w, KeyModifiers { ctrl: false, alt: false, shift: false });
    match named_key(rest) {
        Some(code) => Ok(Key { modifiers: m, code }),
        None => Err(rest),
    }
}

/// Index of the first word that is no key, if any.
pub open spec fn first_bad_word(ws: Seq<Seq<char>>, k: int) -> int
    decreases ws.len() - k,
{
    if k < 0 || k >= ws.len() {
        -1
    } else if parsed_key(ws[k]) is Err {
        k
    } else {
        first_bad_word(ws, k + 1)
    }
}

impl KeySequence {
    /// The sequence of one key.
    pub fn single(key: Key) -> (r: Self)
        ensures
            r.keys@ == seq![key],
    {
        let mut keys: Vec<Key> = Vec::new();
        keys.push(key);
        Self { keys }
    }

    /// The sequence of the given keys.
    pub fn multi(keys: Vec<Key>) -> (r: Self)
        ensures
            r.keys@ == keys@,
    {
        Self { keys }
    }

    /// Parses whitespace-separated key descriptions such as `C-x C-f`:
    /// modifiers `C-`, `M-`, `S-`, then a key name or a one-byte character.
    pub fn parse(s: &str) -> (r: core::result::Result<Self, KeyParseError>)
        ensures
            s@.len() == 0 ==> r == Err::<Self, KeyParseError>(KeyParseError::EmptySequence),
            s@.len() > 0 && first_bad_word(words(s@), 0) >= 0 ==> (r matches Err(KeyParseError::UnknownKey(
                rest,
            )) && Err::<Key, Seq<char>>(rest@) == parsed_key(words(s@)[first_bad_word(words(s@), 0)])),
            s@.len() > 0 && first_bad_word(words(s@), 0) < 0 ==> (r matches Ok(seq) && seq.keys@.len()
                == words(s@).len() && forall|k: int|
                0 <= k < seq.keys@.len() ==> Ok::<Key, Seq<char>>(#[trigger] seq.keys@[k]) == parsed_key(
                    words(s@)[k],
                )),
    {
        let chars = chars_of(s);
        if chars.len() == 0 {
            return Err(KeyParseError::EmptySequence);
        }
        let parts = split_words(&chars);
        let mut keys: Vec<Key> = Vec::new();
        let mut k: usize = 0;
        while k < parts.len()
            invariant
                chars@ == s@,
                parts@.len() == words(s@).len(),
                forall|m: int| 0 <= m < parts@.len() ==> (#[trigger] parts@[m])@ == words(s@)[m],
                k <= parts@.len(),
                keys@.len() == k,
                first_bad_word(words(s@), 0) == first_bad_word(words(s@), k as int),
                forall|m: int| 0 <= m < k ==> Ok::<Key, Seq<char>>(#[trigger] keys@[m]) == parsed_key(words(s@)[m]),
            decreases parts@.len() - k,
        {
            match Self::parse_single_key(&parts[k]) {
                Ok(key) => {
                    keys.push(key);
                },
                Err(e) => {
                    return Err(e);
                },
            }
            k += 1;
        }
        Ok(Self { keys })
    }

    fn parse_single_key(s: &Vec<char>) -> (r: core::result::Result<Key, KeyParseError>)
        ensures
            match parsed_key(s@) {
                Ok(key) => r == Ok::<Key, KeyParseError>(key),
                Err(rest) => r matches Err(KeyParseError::UnknownKey(x)) && x@ == rest,
            },
    {
        let mut modifiers = KeyModifiers { ctrl: false, alt: false, shift: false };
        let mut i: usize = 0;
        assert(s@.skip(0) =~= s@);
        while i < s.len() && s.len() - i >= 2 && s[i + 1] == '-' && (s[i] == 'C' || s[i] == 'M' || s[i] == 'S')
            invariant
                i <= s@.len(),
                strip_modifiers(s@, KeyModifiers { ctrl: false, alt: false, shift: false }) == strip_modifiers(
                    s@.skip(i as int),
                    modifiers,
                ),
            decreases s@.len() - i,
        {
            assert(s@.skip(i as int).skip(2) =~= s@.skip(i + 2));
            if s[i] == 'C' {
                modifiers.ctrl = true;
            } else if s[i] == 'M' {
                modifiers.alt = true;
            } else {
                modifiers.shift = true;
            }
            i += 2;
        }
        let ghost rest = s@.skip(i as int);
        assert(strip_modifiers(s@.skip(i as int), modifiers) == (modifiers, rest));
        let n = s.len() - i;
        let code = if seq_is(s, i, "Enter") {
            KeyCode::Enter
        } else if seq_is(s, i, "Backspace") {
            KeyCode::Backspace
        } else if seq_is(s, i, "Delete") {
            KeyCode::Delete
        } else if seq_is(s, i, "Tab") {
            KeyCode::Tab
        } else if seq_is(s, i, "Up") {
            KeyCode::Up
        } else if seq_is(s, i, "Down") {
            KeyCode::Down
        } else if seq_is(s, i, "Left") {
            KeyCode::Left
        } else if seq_is(s, i, "Right") {
            KeyCode::Right
        } else if seq_is(s, i, "Esc") {
            KeyCode::Esc
        } else if n == 1 && (s[i] as u32) < 0x80 {
            KeyCode::Char(s[i])
        } else {
            return Err(KeyParseError::UnknownKey(string_from_range(s, i, s.len())));
        };
        Ok(Key { modifiers, code })
    }
}

/// Whether `s[i..]` is the text `t`.
fn seq_is(s: &Vec<char>, i: usize, t: &str) -> (r: bool)
    requires
        i <= s@.len(),
    ensures
        r == (s@.skip(i as int) == t@),
{
    let tc = chars_of(t);
    if s.len() - i != tc.len() {
        assert(s@.skip(i as int).len() != t@.len());
        return false;
    }
    let n = s.len();
    let mut k: usize = 0;
    while k < tc.len()
        invariant
            n == s@.len(),
            i <= s@.len(),
            s@.len() - i == tc@.len(),
            tc@ == t@,
            k <= tc@.len(),
            forall|m: int| 0 <= m < k ==> s@[i + m] == tc@[m],
        decreases tc@.len() - k,
    {
        if s[i + k] != tc[k] {
            assert(s@.skip(i as int)[k as int] != t@[k as int]);
            return false;
        }
        k += 1;
    }
    assert(s@.skip(i as int) =~= t@);
    true
}

/// Splits `chars` into its whitespace-separated words.
pub(crate) fn split_words(chars: &Vec<char>) -> (r: Vec<Vec<char>>)
    ensures
        r@.len() == words(chars@).len(),
        forall|m: int| 0 <= m < r@.len() ==> (#[trigger] r@[m])@ == words(chars@)[m],
{
    let ghost s = chars@;
    let mut out: Vec<Vec<char>> = Vec::new();
    let mut start: Option<usize> = None;
    let mut i: usize = 0;
    while i < chars.len()
        invariant
            s == chars@,
            i <= s.len(),
            start matches Some(st) ==> st < i,
            ({
                let st: int = match start {
                    Some(x) => x as int,
                    None => -1,
                };
                words(s) =~= out@.map_values(|v: Vec<char>| v@) + words_from(s, i as int, st)
            }),
        decreases s.len() - i,
    {
        let c = chars[i];
        if char_is_whitespace(c) {
            match start {
                Some(st) => {
                    let w = slice_chars(chars, st, i);
                    let ghost before = out@.map_values(|v: Vec<char>| v@);
                    out.push(w);
                    assert(out@.map_values(|v: Vec<char>| v@) =~= before.push(s.subrange(st as int, i as int)));
                    start = None;
                },
                None => {},
            }
        } else {
            match start {
                Some(_) => {},
                None => {
                    start = Some(i);
                },
            }
        }
        i += 1;
    }
    match start {
        Some(st) => {
            let w = slice_chars(chars, st, chars.len());
            let ghost before = out@.map_values(|v: Vec<char>| v@);
            out.push(w);
            assert(out@.map_values(|v: Vec<char>| v@) =~= before.push(s.subrange(st as int, s.len() as int)));
        },
        None => {},
    }
    assert forall|m: int| 0 <= m < out@.len() implies (#[trigger] out@[m])@ == words(chars@)[m] by {
        assert(out@.map_values(|v: Vec<char>| v@)[m] == out@[m]@);
    }
    out
}

/// Characters `start..end` of `chars`.
fn slice_chars(chars: &Vec<char>, start: usize, end: usize) -> (r: Vec<char>)
    requires
        start <= end <= chars@.len(),
    ensures
        r@ == chars@.subrange(start as int, end as int),
{
    let mut r: Vec<char> = Vec::new();
    let mut k = start;
    while k < end
        invariant
            start <= k <= end <= chars@.len(),
            r@ == chars@.subrange(start as int, k as int),
        decreases end - k,
    {
        r.push(chars[k]);
        k += 1;
    }
    r
}

/// The outcome of a key for the key map.
#[derive(Debug, Clone, Copy, PartialEq, Eq, Structural)]
pub enum KeyProcessResult {
    Action(Action),
    PartialMatch,
    NoMatch,
}

/// How a key reserved by the terminal is handled.
#[derive(Debug, Clone, Copy, PartialEq, Eq, Structural)]
pub enum SystemKeyResult {
    Cancel,
    Ignore,
    NotSystemKey,
}

/// A key binding of the command-name key map.
#[derive(Debug, Clone)]
pub enum KeyBinding {
    Command(String),
    Prefix,
}

/// Whether a `C-x` prefix is pending.
#[derive(Debug, Clone, Copy, PartialEq, Eq, Structural)]
pub enum PartialMatchState {
    NoPrefix,
    CxPrefix,
}

/// The binding of `k` in `bs`: the first pair with that key.
pub open spec fn lookup(bs: Seq<(Key, Action)>, k: Key) -> Option<Action>
    decreases bs.len(),
{
    if bs.len() == 0 {
        None
    } else if bs[0].0 == k {
        Some(bs[0].1)
    } else {
        lookup(bs.drop_first(), k)
    }
}

/// No key is bound twice.
pub open spec fn keys_distinct(bs: Seq<(Key, Action)>) -> bool {
    forall|i: int, j: int| 0 <= i < j < bs.len() ==> (#[trigger] bs[i]).0 != (#[trigger] bs[j]).0
}

/// The single-key bindings.
pub open spec fn default_single_bindings() -> Seq<(Key, Action)> {
    seq![
        (ctrl_key('n'), Action::MoveCursor(Direction::Down)),
        (ctrl_key('p'), Action::MoveCursor(Direction::Up)),
        (ctrl_key('f'), Action::MoveCursor(Direction::Right)),
        (ctrl_key('b'), Action::MoveCursor(Direction::Left)),
        (plain_key(KeyCode::Up), Action::MoveCursor(Direction::Up)),
        (plain_key(KeyCode::Down), Action::MoveCursor(Direction::Down)),
        (plain_key(KeyCode::Left), Action::MoveCursor(Direction::Left)),
        (plain_key(KeyCode::Right), Action::MoveCursor(Direction::Right)),
        (plain_key(KeyCode::Backspace), Action::DeleteChar(DeleteDirection::Backward)),
        (plain_key(KeyCode::Delete), Action::DeleteChar(DeleteDirection::Forward)),
        (plain_key(KeyCode::Enter), Action::InsertNewline),
        (Key { modifiers: KeyModifiers { ctrl: false, alt: true, shift: false }, code: KeyCode::Char('x') }, Action::ExecuteCommand),
    ]
}

/// The bindings after `C-x`.
pub open spec fn default_cx_bindings() -> Seq<(Key, Action)> {
    seq![
        (ctrl_key('f'), Action::FileOpen),
        (ctrl_key('s'), Action::FileSave),
        (ctrl_key('c'), Action::Quit),
    ]
}

/// Keys the terminal reserves: `C-c` cancels, `C-z` is ignored.
pub open spec fn system_key(k: Key) -> SystemKeyResult {
    if k.modifiers.ctrl && k.code == KeyCode::Char('c') {
        SystemKeyResult::Cancel
    } else if k.modifiers.ctrl && k.code == KeyCode::Char('z') {
        SystemKeyResult::Ignore
    } else {
        SystemKeyResult::NotSystemKey
    }
}

/// What the key map answers to key `k` in state `s`, and its next state:
/// after `C-x` the key is looked up among the prefix bindings (so `C-x C-c`
/// quits); otherwise `C-c` and `C-z` are passed over, `C-x` starts the
/// prefix, a bound key gives its action and a plain character inserts
/// itself.
pub open spec fn key_step(
    single: Seq<(Key, Action)>,
    cx: Seq<(Key, Action)>,
    s: PartialMatchState,
    k: Key,
) -> (KeyProcessResult, PartialMatchState) {
    match s {
        PartialMatchState::CxPrefix => match lookup(cx, k) {
            Some(a) => (KeyProcessResult::Action(a), PartialMatchState::NoPrefix),
            None => (KeyProcessResult::NoMatch, PartialMatchState::NoPrefix),
        },
        PartialMatchState::NoPrefix => if system_key(k) != SystemKeyResult::NotSystemKey {
            (KeyProcessResult::NoMatch, s)
        } else if k == ctrl_key('x') {
            (KeyProcessResult::PartialMatch, PartialMatchState::CxPrefix)
        } else {
            match lookup(single, k) {
                Some(a) => (KeyProcessResult::Action(a), s),
                None => if k.code is Char && !k.modifiers.ctrl && !k.modifiers.alt {
                    (KeyProcessResult::Action(Action::InsertChar(k.code->Char_0)), s)
                } else {
                    (KeyProcessResult::NoMatch, s)
                },
            }
        },
    }
}

/// The key map: single keys and keys after `C-x`.
#[derive(Debug, Clone)]
pub struct ModernKeyMap {
    single_key_bindings: Vec<(Key, Action)>,
    cx_prefix_bindings: Vec<(Key, Action)>,
    partial_match_state: PartialMatchState,
}

impl ModernKeyMap {
    /// The single-key bindings.
    pub closed spec fn single(&self) -> Seq<(Key, Action)> {
        self.single_key_bindings@
    }

    /// The bindings after `C-x`.
    pub closed spec fn cx(&self) -> Seq<(Key, Action)> {
        self.cx_prefix_bindings@
    }

    /// The prefix state.
    pub closed spec fn state(&self) -> PartialMatchState {
        self.partial_match_state
    }

    /// The default bindings, no prefix pending.
    pub fn new() -> (r: Self)
        ensures
            r.single() == default_single_bindings(),
            r.cx() == default_cx_bindings(),
            r.state() == PartialMatchState::NoPrefix,
            keys_distinct(r.single()),
            keys_distinct(r.cx()),
    {
        let mut single: Vec<(Key, Action)> = Vec::new();
        let mut cx: Vec<(Key, Action)> = Vec::new();
        Self::register_mvp_bindings(&mut single, &mut cx);
        Self { single_key_bindings: single, cx_prefix_bindings: cx, partial_match_state: PartialMatchState::NoPrefix }
    }

    fn register_mvp_bindings(single: &mut Vec<(Key, Action)>, cx: &mut Vec<(Key, Action)>)
        requires
            old(single)@.len() == 0,
            old(cx)@.len() == 0,
        ensures
            final(single)@ == default_single_bindings(),
            final(cx)@ == default_cx_bindings(),
    {
        let none = KeyModifiers { ctrl: false, alt: false, shift: false };
        single.push((Key::ctrl_n(), Action::MoveCursor(Direction::Down)));
        single.push((Key::ctrl_p(), Action::MoveCursor(Direction::Up)));
        single.push((Key::ctrl_f(), Action::MoveCursor(Direction::Right)));
        single.push((Key::ctrl_b(), Action::MoveCursor(Direction::Left)));
        single.push((Key { modifiers: none, code: KeyCode::Up }, Action::MoveCursor(Direction::Up)));
        single.push((Key { modifiers: none, code: KeyCode::Down }, Action::MoveCursor(Direction::Down)));
        single.push((Key { modifiers: none, code: KeyCode::Left }, Action::MoveCursor(Direction::Left)));
        single.push((Key { modifiers: none, code: KeyCode::Right }, Action::MoveCursor(Direction::Right)));
        single.push((Key { modifiers: none, code: KeyCode::Backspace }, Action::DeleteChar(DeleteDirection::Backward)));
        single.push((Key { modifiers: none, code: KeyCode::Delete }, Action::DeleteChar(DeleteDirection::Forward)));
        single.push((Key { modifiers: none, code: KeyCode::Enter }, Action::InsertNewline));
        single.push((Key::alt_x(), Action::ExecuteCommand));
        cx.push((Key::ctrl_f(), Action::FileOpen));
        cx.push((Key::ctrl_s(), Action::FileSave));
        cx.push((Key::ctrl_c(), Action::Quit));
        assert(single@ =~= default_single_bindings());
        assert(cx@ =~= default_cx_bindings());
    }

    /// Processes one key: a pending `C-x` selects among the prefix
    /// bindings; otherwise `C-x` starts the prefix, a bound key gives its
    /// action and a plain character inserts itself. `C-c` and `C-z` are
    /// passed over.
    pub fn process_key(&mut self, key: Key) -> (r: KeyProcessResult)
        ensures
            final(self).single() == old(self).single(),
            final(self).cx() == old(self).cx(),
            (r, final(self).state()) == key_step(old(self).single(), old(self).cx(), old(self).state(), key),
    {
        match self.partial_match_state {
            PartialMatchState::CxPrefix => self.process_cx_prefix_key(key),
            PartialMatchState::NoPrefix => {
                match Self::handle_system_key(&key) {
                    SystemKeyResult::Cancel => {
                        return KeyProcessResult::NoMatch;
                    },
                    SystemKeyResult::Ignore => {
                        return KeyProcessResult::NoMatch;
                    },
                    SystemKeyResult::NotSystemKey => {},
                }
                self.process_initial_key(key)
            },
        }
    }

    fn process_initial_key(&mut self, key: Key) -> (r: KeyProcessResult)
        requires
            old(self).state() == PartialMatchState::NoPrefix,
            system_key(key) == SystemKeyResult::NotSystemKey,
        ensures
            final(self).single() == old(self).single(),
            final(self).cx() == old(self).cx(),
            (r, final(self).state()) == key_step(old(self).single(), old(self).cx(), old(self).state(), key),
    {
        if key.is_ctrl_x() {
            self.partial_match_state = PartialMatchState::CxPrefix;
            return KeyProcessResult::PartialMatch;
        }
        match find_binding(&self.single_key_bindings, &key) {
            Some(action) => {
                return KeyProcessResult::Action(action);
            },
            None => {},
        }
        if key.is_insertable_char() {
            return KeyProcessResult::Action(Action::InsertChar(key.to_char()));
        }
        KeyProcessResult::NoMatch
    }

    fn process_cx_prefix_key(&mut self, key: Key) -> (r: KeyProcessResult)
        requires
            old(self).state() == PartialMatchState::CxPrefix,
        ensures
            final(self).single() == old(self).single(),
            final(self).cx() == old(self).cx(),
            (r, final(self).state()) == key_step(old(self).single(), old(self).cx(), old(self).state(), key),
    {
        self.partial_match_state = PartialMatchState::NoPrefix;
        match find_binding(&self.cx_prefix_bindings, &key) {
            Some(action) => KeyProcessResult::Action(action),
            None => KeyProcessResult::NoMatch,
        }
    }

    fn handle_system_key(key: &Key) -> (r: SystemKeyResult)
        ensures
            r == system_key(*key),
    {
        if key.modifiers.ctrl && key.code == KeyCode::Char('c') {
            SystemKeyResult::Cancel
        } else if key.modifiers.ctrl && key.code == KeyCode::Char('z') {
            SystemKeyResult::Ignore
        } else {
            SystemKeyResult::NotSystemKey
        }
    }

    /// Drops a pending prefix.
    pub fn reset_partial_match(&mut self)
        ensures
            final(self).single() == old(self).single(),
            final(self).cx() == old(self).cx(),
            final(self).state() == PartialMatchState::NoPrefix,
    {
        self.partial_match_state = PartialMatchState::NoPrefix;
    }

    /// Whether a prefix is pending.
    pub fn is_partial_match(&self) -> (r: bool)
        ensures
            r == (self.state() != PartialMatchState::NoPrefix),
    {
        match self.partial_match_state {
            PartialMatchState::NoPrefix => false,
            PartialMatchState::CxPrefix => true,
        }
    }
}

/// The action bound to `key` in `bs`.
fn find_binding(bs: &Vec<(Key, Action)>, key: &Key) -> (r: Option<Action>)
    ensures
        r == lookup(bs@, *key),
{
    let mut k: usize = 0;
    assert(bs@.skip(0) =~= bs@);
    while k < bs.len()
        invariant
            k <= bs@.len(),
            lookup(bs@, *key) == lookup(bs@.skip(k as int), *key),
        decreases bs@.len() - k,
    {
        assert(bs@.skip(k as int).drop_first() =~= bs@.skip(k + 1));
        if bs[k].0 == *key {
            return Some(bs[k].1);
        }
        k += 1;
    }
    None
}

impl Default for ModernKeyMap {
    fn default() -> (r: Self)
        ensures
            r.single() == default_single_bindings(),
            r.cx() == default_cx_bindings(),
            r.state() == PartialMatchState::NoPrefix,
    {
        Self::new()
    }
}

/// `C-x` followed by `C-f`, `C-s` or `C-c` opens, saves or quits, whatever
/// was pending before the `C-x`.
pub proof fn law_cx_sequences(s: PartialMatchState)
    ensures
        key_step(default_single_bindings(), default_cx_bindings(), s, ctrl_key('x')).0 == (if s
            == PartialMatchState::NoPrefix {
            KeyProcessResult::PartialMatch
        } else {
            KeyProcessResult::NoMatch
        }),
        key_step(default_single_bindings(), default_cx_bindings(), PartialMatchState::CxPrefix, ctrl_key('f'))
            == (KeyProcessResult::Action(Action::FileOpen), PartialMatchState::NoPrefix),
        key_step(default_single_bindings(), default_cx_bindings(), PartialMatchState::CxPrefix, ctrl_key('s'))
            == (KeyProcessResult::Action(Action::FileSave), PartialMatchState::NoPrefix),
{
    reveal_with_fuel(lookup, 4);
}

/// On a fresh key map with no prefix pending, each direction is reached by
/// its Emacs control key (`C-f` forward, `C-b` backward, `C-n` next line,
/// `C-p` previous line) and by its arrow key alike, and neither leaves a
/// prefix pending.
pub proof fn law_motion_keys(d: Direction)
    ensures
        ({
            let letter = match d {
                Direction::Right => 'f',
                Direction::Left => 'b',
                Direction::Down => 'n',
                Direction::Up => 'p',
            };
            let arrow = match d {
                Direction::Right => KeyCode::Right,
                Direction::Left => KeyCode::Left,
                Direction::Down => KeyCode::Down,
                Direction::Up => KeyCode::Up,
            };
            &&& key_step(default_single_bindings(), default_cx_bindings(), PartialMatchState::NoPrefix, ctrl_key(letter))
                == (KeyProcessResult::Action(Action::MoveCursor(d)), PartialMatchState::NoPrefix)
            &&& key_step(default_single_bindings(), default_cx_bindings(), PartialMatchState::NoPrefix, plain_key(arrow))
                == (KeyProcessResult::Action(Action::MoveCursor(d)), PartialMatchState::NoPrefix)
        }),
{
    reveal_with_fuel(lookup, 9);
}

/// On a fresh key map with no prefix pending: a character typed without
/// Control or Alt inserts itself (Shift or not), Backspace and Delete
/// delete backward and forward, Enter inserts a newline and `M-x` asks for
/// a command; `C-c` and `C-z` are passed over; and `C-x C-c` quits.
pub proof fn law_typing_keys(c: char, shift: bool)
    ensures
        ({
            let single = default_single_bindings();
            let cx = default_cx_bindings();
            let none = PartialMatchState::NoPrefix;
            let typed = Key { modifiers: KeyModifiers { ctrl: false, alt: false, shift }, code: KeyCode::Char(c) };
            &&& key_step(single, cx, none, typed) == (KeyProcessResult::Action(Action::InsertChar(c)), none)
            &&& key_step(single, cx, none, plain_key(KeyCode::Backspace)).0 == KeyProcessResult::Action(
                Action::DeleteChar(DeleteDirection::Backward),
            )
            &&& key_step(single, cx, none, plain_key(KeyCode::Delete)).0 == KeyProcessResult::Action(
                Action::DeleteChar(DeleteDirection::Forward),
            )
            &&& key_step(single, cx, none, plain_key(KeyCode::Enter)).0 == KeyProcessResult::Action(Action::InsertNewline)
            &&& key_step(
                single,
                cx,
                none,
                Key { modifiers: KeyModifiers { ctrl: false, alt: true, shift: false }, code: KeyCode::Char('x') },
            ).0 == KeyProcessResult::Action(Action::ExecuteCommand)
            &&& key_step(single, cx, none, ctrl_key('c')) == (KeyProcessResult::NoMatch, none)
            &&& key_step(single, cx, none, ctrl_key('z')) == (KeyProcessResult::NoMatch, none)
            &&& key_step(single, cx, PartialMatchState::CxPrefix, ctrl_key('c')) == (
                KeyProcessResult::Action(Action::Quit),
                none,
            )
        }),
{
    reveal_with_fuel(lookup, 13);
}

/// A key description names its modifiers by prefix: a one-byte character
/// alone is that key, `C-` adds Control, `M-` adds Alt, and they combine.
pub proof fn law_key_descriptions(c: char)
    requires
        (c as u32) < 0x80,
    ensures
        parsed_key(seq![c]) == Ok::<Key, Seq<char>>(plain_key(KeyCode::Char(c))),
        parsed_key(seq!['C', '-', c]) == Ok::<Key, Seq<char>>(ctrl_key(c)),
        parsed_key(seq!['M', '-', c]) == Ok::<Key, Seq<char>>(
            Key { modifiers: KeyModifiers { ctrl: false, alt: true, shift: false }, code: KeyCode::Char(c) },
        ),
        parsed_key(seq!['C', '-', 'M', '-', c]) == Ok::<Key, Seq<char>>(
            Key { modifiers: KeyModifiers { ctrl: true, alt: true, shift: false }, code: KeyCode::Char(c) },
        ),
{
    reveal_strlit("Enter");
    reveal_strlit("Backspace");
    reveal_strlit("Delete");
    reveal_strlit("Tab");
    reveal_strlit("Up");
    reveal_strlit("Down");
    reveal_strlit("Left");
    reveal_strlit("Right");
    reveal_strlit("Esc");
    let none = KeyModifiers { ctrl: false, alt: false, shift: false };
    assert(seq!['C', '-', c].skip(2) =~= seq![c]);
    assert(seq!['M', '-', c].skip(2) =~= seq![c]);
    assert(seq!['C', '-', 'M', '-', c].skip(2) =~= seq!['M', '-', c]);
    assert(strip_modifiers(seq![c], none) == (none, seq![c]));
    reveal_with_fuel(strip_modifiers, 3);
}

} // verus!
