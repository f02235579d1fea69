//! The editing interface over a gap buffer: insertion, deletion, word and
//! line kills, cursor placement and change notification.
use crate::buffer::cursor::CursorPosition;
use crate::buffer::gap_buffer::{GapBuffer, MAX_BUFFER_CHARS, MAX_GAP_CAPACITY, MIN_GAP_RESERVE};
use crate::buffer::navigation::{NavigationAction, NavigationError, NavigationSystem};
use crate::error::{edit_error_text, AltreError, EditError, Result};
use crate::text::{
    char_is_alphanumeric, char_is_control, char_is_whitespace, chars_of, lines_of, owned,
    push_char, spec_is_alphanumeric, spec_is_control, spec_is_whitespace, string_from_chars,
    string_of_char, text_lines, MAX_TEXT_CHARS,
};
use crate::time::{elapsed_nanos, instant_now, NANOS_PER_MILLI};
use std::time::Instant;
use vstd::prelude::*;

verus! {

/// A change made to the text or the cursor.
#[derive(Debug, Clone)]
pub enum ChangeEvent {
    Insert { position: usize, content: String },
    Delete { position: usize, content: String },
    CursorMove { old_position: CursorPosition, new_position: CursorPosition },
}

/// A receiver of change events, implemented by users of the editor.
pub trait ChangeListener {
    fn on_change(&mut self, event: &ChangeEvent);
}

/// Boxed change listeners supplied by users. A field that holds trait
/// objects cannot be followed through a mutable borrow, so the vector sits
/// in this opaque struct and is reached through the functions below.
#[verifier::external_body]
pub struct ListenerList {
    items: Vec<Box<dyn ChangeListener>>,
}

/// The number of listeners in a list.
pub uninterp spec fn list_len(l: ListenerList) -> nat;

/// `Vec::new`: an empty list.
#[verifier::external_body]
pub(crate) fn list_new() -> (r: ListenerList)
    ensures
        list_len(r) == 0,
{
    ListenerList { items: Vec::new() }
}

/// `Vec::push`: appends a listener.
#[verifier::external_body]
pub(crate) fn list_push(l: &mut ListenerList, listener: Box<dyn ChangeListener>)
    ensures
        list_len(*final(l)) == list_len(*old(l)) + 1,
{
    l.items.push(listener);
}

/// `Vec::len`: the number of listeners.
#[verifier::external_body]
pub(crate) fn list_count(l: &ListenerList) -> (r: usize)
    ensures
        r == list_len(*l),
{
    l.items.len()
}

/// Calls `on_change` of listener `i` (the user's code) with `event`.
#[verifier::external_body]
pub(crate) fn list_deliver(l: &mut ListenerList, i: usize, event: &ChangeEvent)
    requires
        i < list_len(*old(l)),
    ensures
        list_len(*final(l)) == list_len(*old(l)),
{
    l.items[i].on_change(event);
}

/// Delivers change events to the registered listeners, in order.
pub struct ChangeNotifier {
    listeners: ListenerList,
    handed: Ghost<Seq<(nat, ChangeEvent)>>,
}

impl ChangeNotifier {
    /// Number of registered listeners.
    pub closed spec fn listener_count(&self) -> nat {
        list_len(self.listeners)
    }

    /// The events handed to listeners so far, each with the listener's
    /// place in the list.
    pub closed spec fn deliveries(&self) -> Seq<(nat, ChangeEvent)> {
        self.handed@
    }

    /// A notifier without listeners.
    pub fn new() -> (r: Self)
        ensures
            r.listener_count() == 0,
            r.deliveries() == Seq::<(nat, ChangeEvent)>::empty(),
    {
        Self { listeners: list_new(), handed: Ghost(Seq::empty()) }
    }

    /// Registers a listener.
    pub fn add_listener(&mut self, listener: Box<dyn ChangeListener>)
        ensures
            final(self).listener_count() == old(self).listener_count() + 1,
            final(self).deliveries() == old(self).deliveries(),
    {
        list_push(&mut self.listeners, listener);
    }

    /// Delivers `event` to every listener, in registration order.
    pub fn notify(&mut self, event: ChangeEvent)
        ensures
            final(self).listener_count() == old(self).listener_count(),
            final(self).deliveries() == old(self).deliveries() + Seq::new(
                old(self).listener_count(),
                |i: int| (i as nat, event),
            ),
    {
        let n = list_count(&self.listeners);
        let mut i: usize = 0;
        while i < n
            invariant
                n == list_len(self.listeners),
                list_len(self.listeners) == list_len(old(self).listeners),
                i <= n,
                self.handed@ == old(self).handed@ + Seq::new(i as nat, |k: int| (k as nat, event)),
            decreases n - i,
        {
            list_deliver(&mut self.listeners, i, &event);
            proof {
                self.handed@ = self.handed@.push((i as nat, event));
                assert(old(self).handed@ + Seq::new((i + 1) as nat, |k: int| (k as nat, event)) =~= old(self).handed@
                    + Seq::new(i as nat, |k: int| (k as nat, event)).push((i as nat, event)));
            }
            i += 1;
        }
    }
}

/// Line and column reached from (`line`, `col`) by walking over `s`.
pub open spec fn walk(line: int, col: int, s: Seq<char>) -> (int, int)
    decreases s.len(),
{
    if s.len() == 0 {
        (line, col)
    } else {
        let p = walk(line, col, s.drop_last());
        if s.last() == '\n' {
            (p.0 + 1, 0)
        } else {
            (p.0, p.1 + 1)
        }
    }
}

pub proof fn lemma_walk_bounds(line: int, col: int, s: Seq<char>)
    requires
        line >= 0,
        col >= 0,
    ensures
        line <= walk(line, col, s).0 <= line + s.len(),
        0 <= walk(line, col, s).1 <= col + s.len(),
    decreases s.len(),
{
    if s.len() > 0 {
        lemma_walk_bounds(line, col, s.drop_last());
    }
}

/// The cursor at `min(c.char_pos, |t|)` with line and column recomputed
/// from the text.
pub open spec fn synced(c: CursorPosition, t: Seq<char>) -> CursorPosition {
    let p = if c.char_pos <= t.len() {
        c.char_pos as int
    } else {
        t.len() as int
    };
    let lc = walk(0, 0, t.take(p));
    CursorPosition { char_pos: p as usize, line: lc.0 as usize, column: lc.1 as usize }
}

/// The cursor with its position clamped to the text and its line and
/// column clamped to the existing lines.
pub open spec fn clamped(c: CursorPosition, t: Seq<char>) -> CursorPosition {
    let ls = text_lines(t);
    let p = if c.char_pos <= t.len() {
        c.char_pos
    } else {
        t.len() as usize
    };
    if ls.len() == 0 {
        CursorPosition { char_pos: p, line: 0, column: 0 }
    } else {
        let l = if c.line >= ls.len() {
            (ls.len() - 1) as usize
        } else {
            c.line
        };
        let col = if c.column > ls[l as int].len() {
            ls[l as int].len() as usize
        } else {
            c.column
        };
        CursorPosition { char_pos: p, line: l, column: col }
    }
}

/// Characters accepted by `insert_char`: printable characters, space and
/// tab; no other control character (newlines go through
/// `insert_newline`).
pub open spec fn valid_input_char(c: char) -> bool {
    c == '\t' || ((c as u32) > 0x1f && (c as u32) != 0x7f && !spec_is_control(c))
}

/// Word characters: alphanumeric or underscore.
pub open spec fn word_char(c: char) -> bool {
    spec_is_alphanumeric(c) || c == '_'
}

/// Newline normalisation: every `"\r\n"` becomes `"\n"`, then every
/// remaining `'\r'` becomes `'\n'`.
pub open spec fn normalize_newlines(s: Seq<char>) -> Seq<char>
    decreases s.len(),
{
    if s.len() == 0 {
        Seq::empty()
    } else if s[0] == '\r' && s.len() > 1 && s[1] == '\n' {
        normalize_newlines(s.drop_first())
    } else {
        seq![if s[0] == '\r' { '\n' } else { s[0] }] + normalize_newlines(s.drop_first())
    }
}

/// Newline normalisation leaves no carriage return, and a second pass
/// changes nothing.
pub proof fn law_normalize_newlines(s: Seq<char>)
    ensures
        !normalize_newlines(s).contains('\r'),
        normalize_newlines(normalize_newlines(s)) == normalize_newlines(s),
    decreases s.len(),
{
    if s.len() > 0 {
        law_normalize_newlines(s.drop_first());
        let m = normalize_newlines(s.drop_first());
        if !(s[0] == '\r' && s.len() > 1 && s[1] == '\n') {
            let c = if s[0] == '\r' { '\n' } else { s[0] };
            let n = seq![c] + m;
            assert(n.drop_first() =~= m);
            assert(n[0] == c);
            assert forall|i: int| 0 <= i < n.len() implies n[i] != '\r' by {
                if i > 0 {
                    assert(n[i] == m[i - 1]);
                }
            }
        }
    }
}

pub proof fn lemma_normalize_len(s: Seq<char>)
    ensures
        normalize_newlines(s).len() <= s.len(),
    decreases s.len(),
{
    if s.len() > 0 {
        lemma_normalize_len(s.drop_first());
    }
}

/// End of the word deletion starting at `start`: leading whitespace, then
/// the word after it; a lone non-word character goes by itself.
pub open spec fn word_end_forward(t: Seq<char>, start: int) -> int {
    let len = t.len() as int;
    if start >= len {
        len
    } else {
        let after_ws = skip_while_ws(t, start);
        if after_ws == start {
            let after_word = skip_while_word(t, start);
            if after_word == start {
                start + 1
            } else {
                after_word
            }
        } else {
            skip_while_word(t, after_ws)
        }
    }
}

/// First position at or after `i` that is not whitespace.
pub open spec fn skip_while_ws(t: Seq<char>, i: int) -> int
    decreases t.len() - i,
{
    if i >= t.len() || i < 0 {
        i
    } else if spec_is_whitespace(t[i]) {
        skip_while_ws(t, i + 1)
    } else {
        i
    }
}

/// First position at or after `i` that is not a word character.
pub open spec fn skip_while_word(t: Seq<char>, i: int) -> int
    decreases t.len() - i,
{
    if i >= t.len() || i < 0 {
        i
    } else if word_char(t[i]) {
        skip_while_word(t, i + 1)
    } else {
        i
    }
}

/// Last position at or before `i` whose preceding character is not
/// whitespace.
pub open spec fn back_while_ws(t: Seq<char>, i: int) -> int
    decreases i,
{
    if i <= 0 || i > t.len() {
        if i > t.len() { i } else { 0 }
    } else if spec_is_whitespace(t[i - 1]) {
        back_while_ws(t, i - 1)
    } else {
        i
    }
}

/// Last position at or before `i` whose preceding character is not a word
/// character.
pub open spec fn back_while_word(t: Seq<char>, i: int) -> int
    decreases i,
{
    if i <= 0 || i > t.len() {
        if i > t.len() { i } else { 0 }
    } else if word_char(t[i - 1]) {
        back_while_word(t, i - 1)
    } else {
        i
    }
}

/// Start of the word deletion ending at `end`: trailing whitespace, then
/// the word before it; a lone non-word character goes by itself.
pub open spec fn word_start_backward(t: Seq<char>, end: int) -> int {
    if end == 0 {
        0
    } else {
        let i = back_while_ws(t, end);
        if i == 0 {
            0
        } else if !word_char(t[i - 1]) {
            i - 1
        } else {
            back_while_word(t, i)
        }
    }
}

pub proof fn lemma_back_bounds(t: Seq<char>, i: int)
    requires
        0 <= i <= t.len(),
    ensures
        0 <= back_while_ws(t, i) <= i,
        0 <= back_while_word(t, i) <= i,
    decreases i,
{
    if i > 0 {
        lemma_back_bounds(t, i - 1);
    }
}

/// A backward word deletion ends where it started or before.
pub proof fn lemma_word_start_bounds(t: Seq<char>, end: int)
    requires
        0 <= end <= t.len(),
    ensures
        0 <= word_start_backward(t, end) <= end,
{
    lemma_back_bounds(t, end);
    let i = back_while_ws(t, end);
    if end > 0 && i > 0 {
        lemma_back_bounds(t, i);
    }
}

/// Whitespace runs backward from `i` to just after the last
/// non-whitespace character (or to the start).
proof fn lemma_back_while_ws_run(t: Seq<char>, i: int)
    requires
        0 <= i <= t.len(),
    ensures
        forall|k: int| back_while_ws(t, i) <= k < i ==> spec_is_whitespace(#[trigger] t[k]),
        back_while_ws(t, i) == 0 || !spec_is_whitespace(t[back_while_ws(t, i) - 1]),
    decreases i,
{
    if i > 0 && spec_is_whitespace(t[i - 1]) {
        lemma_back_while_ws_run(t, i - 1);
    }
}

/// Word characters run backward from `i` to just after the last non-word
/// character (or to the start).
proof fn lemma_back_while_word_run(t: Seq<char>, i: int)
    requires
        0 <= i <= t.len(),
    ensures
        forall|k: int| back_while_word(t, i) <= k < i ==> word_char(#[trigger] t[k]),
        back_while_word(t, i) == 0 || !word_char(t[back_while_word(t, i) - 1]),
    decreases i,
{
    if i > 0 && word_char(t[i - 1]) {
        lemma_back_while_word_run(t, i - 1);
    }
}

/// A backward word deletion from `end > 0` always deletes something. It
/// takes the whitespace just before `end`, back to `w`; then a character
/// that is neither whitespace nor a word character goes by itself (so from
/// just after one, exactly that character goes), and a word goes whole,
/// back to the previous non-word character or the start; with only
/// whitespace before, everything back to the start goes.
pub proof fn law_word_deletion_backward(t: Seq<char>, end: int)
    requires
        0 < end <= t.len(),
    ensures
        0 <= word_start_backward(t, end) < end,
        !spec_is_whitespace(t[end - 1]) && !word_char(t[end - 1]) ==> word_start_backward(t, end) == end - 1,
        !spec_is_whitespace(t[end - 1]) && word_char(t[end - 1]) ==> (forall|k: int|
            word_start_backward(t, end) <= k < end ==> word_char(#[trigger] t[k]))
            && (word_start_backward(t, end) == 0 || !word_char(t[word_start_backward(t, end) - 1])),
        exists|w: int|
            #![trigger back_while_ws(t, w)]
            word_start_backward(t, end) <= w <= end && back_while_ws(t, w) == w && (forall|k: int|
                w <= k < end ==> spec_is_whitespace(#[trigger] t[k])) && (w == 0 || (!spec_is_whitespace(t[w - 1]) && (
            if word_char(t[w - 1]) {
                (forall|k: int| word_start_backward(t, end) <= k < w ==> word_char(#[trigger] t[k])) && (
                word_start_backward(t, end) == 0 || !word_char(t[word_start_backward(t, end) - 1]))
            } else {
                word_start_backward(t, end) == w - 1
            }))),
{
    let s = word_start_backward(t, end);
    lemma_back_bounds(t, end);
    lemma_back_while_ws_run(t, end);
    let w = back_while_ws(t, end);
    if w > 0 {
        lemma_back_bounds(t, w);
        lemma_back_while_word_run(t, w);
        if word_char(t[w - 1]) {
            assert(back_while_word(t, w) == back_while_word(t, w - 1));
            lemma_back_bounds(t, w - 1);
        }
    }
    assert(back_while_ws(t, w) == w);
    if !spec_is_whitespace(t[end - 1]) {
        assert(w == end);
    }
    assert(s <= w <= end);
}

/// Whitespace runs forward from `i` up to the next non-whitespace
/// character (or the end).
proof fn lemma_skip_while_ws_run(t: Seq<char>, i: int)
    requires
        0 <= i <= t.len(),
    ensures
        i <= skip_while_ws(t, i) <= t.len(),
        forall|k: int| i <= k < skip_while_ws(t, i) ==> spec_is_whitespace(#[trigger] t[k]),
        skip_while_ws(t, i) == t.len() || !spec_is_whitespace(t[skip_while_ws(t, i)]),
    decreases t.len() - i,
{
    if i < t.len() && spec_is_whitespace(t[i]) {
        lemma_skip_while_ws_run(t, i + 1);
    }
}

/// Word characters run forward from `i` up to the next non-word character
/// (or the end).
proof fn lemma_skip_while_word_run(t: Seq<char>, i: int)
    requires
        0 <= i <= t.len(),
    ensures
        i <= skip_while_word(t, i) <= t.len(),
        forall|k: int| i <= k < skip_while_word(t, i) ==> word_char(#[trigger] t[k]),
        skip_while_word(t, i) == t.len() || !word_char(t[skip_while_word(t, i)]),
    decreases t.len() - i,
{
    if i < t.len() && word_char(t[i]) {
        lemma_skip_while_word_run(t, i + 1);
    }
}

/// A forward word deletion from a position inside the text always deletes
/// something. A character that is neither whitespace nor a word character
/// goes by itself; from a word character the rest of the word goes, up to
/// the next non-word character or the end; from whitespace the whole
/// whitespace run goes, up to `w`, with the word that follows it.
pub proof fn law_word_deletion_forward(t: Seq<char>, start: int)
    requires
        0 <= start < t.len(),
    ensures
        start < word_end_forward(t, start) <= t.len(),
        !spec_is_whitespace(t[start]) && !word_char(t[start]) ==> word_end_forward(t, start) == start + 1,
        !spec_is_whitespace(t[start]) && word_char(t[start]) ==> (forall|k: int|
            start <= k < word_end_forward(t, start) ==> word_char(#[trigger] t[k])) && (word_end_forward(t, start)
            == t.len() || !word_char(t[word_end_forward(t, start)])),
        spec_is_whitespace(t[start]) ==> exists|w: int|
            #![trigger skip_while_ws(t, w)]
            start < w <= word_end_forward(t, start) && skip_while_ws(t, w) == w && (forall|k: int|
                start <= k < w ==> spec_is_whitespace(#[trigger] t[k])) && (w == t.len() || !spec_is_whitespace(t[w]))
                && (forall|k: int| w <= k < word_end_forward(t, start) ==> word_char(#[trigger] t[k])) && (
            word_end_forward(t, start) == t.len() || !word_char(t[word_end_forward(t, start)])),
{
    lemma_skip_while_ws_run(t, start);
    let w = skip_while_ws(t, start);
    lemma_skip_while_word_run(t, start);
    lemma_skip_while_word_run(t, w);
    if spec_is_whitespace(t[start]) {
        assert(w > start);
        lemma_skip_while_ws_run(t, w);
        assert(skip_while_ws(t, w) == w);
    } else {
        assert(w == start);
    }
}

/// Killing a line from a position inside the text takes the rest of the
/// line together with its newline when there is one: nothing it takes but
/// its last character is a newline, and it ends just after a newline or at
/// the end of the text.
pub proof fn law_kill_line_extent(t: Seq<char>, start: int)
    requires
        0 <= start < t.len(),
    ensures
        start < kill_line_end(t, start) <= t.len(),
        forall|k: int| start <= k < kill_line_end(t, start) - 1 ==> #[trigger] t[k] != '\n',
        t[kill_line_end(t, start) - 1] == '\n' || (kill_line_end(t, start) == t.len() && forall|k: int|
            start <= k < t.len() ==> #[trigger] t[k] != '\n'),
{
    lemma_newline_run(t, start);
}

proof fn lemma_newline_run(t: Seq<char>, i: int)
    requires
        0 <= i <= t.len(),
    ensures
        i <= skip_until_newline(t, i) <= t.len(),
        forall|k: int| i <= k < skip_until_newline(t, i) ==> #[trigger] t[k] != '\n',
        skip_until_newline(t, i) == t.len() || t[skip_until_newline(t, i)] == '\n',
    decreases t.len() - i,
{
    if i < t.len() && t[i] != '\n' {
        lemma_newline_run(t, i + 1);
    }
}

pub proof fn lemma_skip_bounds(t: Seq<char>, i: int)
    requires
        0 <= i <= t.len(),
    ensures
        i <= skip_while_ws(t, i) <= t.len(),
        i <= skip_while_word(t, i) <= t.len(),
        i <= skip_until_newline(t, i) <= t.len(),
    decreases t.len() - i,
{
    if i < t.len() {
        lemma_skip_bounds(t, i + 1);
    }
}

pub proof fn lemma_word_end_bounds(t: Seq<char>, start: int)
    requires
        0 <= start < t.len(),
    ensures
        start < word_end_forward(t, start) <= t.len(),
{
    lemma_skip_bounds(t, start);
    let a = skip_while_ws(t, start);
    lemma_skip_bounds(t, a);
}

/// End of the line kill from `start`: up to and including the next `'\n'`.
pub open spec fn kill_line_end(t: Seq<char>, start: int) -> int {
    let e = skip_until_newline(t, start);
    if e < t.len() {
        e + 1
    } else {
        e
    }
}

/// First position at or after `i` holding `'\n'`, or the end.
pub open spec fn skip_until_newline(t: Seq<char>, i: int) -> int
    decreases t.len() - i,
{
    if i >= t.len() || i < 0 {
        i
    } else if t[i] == '\n' {
        i
    } else {
        skip_until_newline(t, i + 1)
    }
}

/// The editing operations of an editor.
pub trait EditOperations {
    /// Whether the editor is ready for an edit.
    spec fn can_edit(&self) -> bool;

    /// Whether the cursor coordinates can advance by `n` more characters.
    spec fn can_grow(&self, n: nat) -> bool;

    /// Inserts a character at the cursor.
    fn insert_char(&mut self, ch: char) -> (r: Result<()>)
        requires
            old(self).can_grow(1),
    ;

    /// Inserts a string at the cursor.
    fn insert_str(&mut self, s: &str) -> (r: Result<()>)
        requires
            old(self).can_grow(s@.len()),
    ;

    /// Inserts a character at the cursor.
    fn insert_char_at_cursor(&mut self, ch: char) -> (r: Result<()>)
        requires
            old(self).can_grow(1),
    ;

    /// Deletes the character before the cursor.
    fn delete_backward(&mut self) -> (r: Result<char>)
        requires
            old(self).can_edit(),
    ;

    /// Deletes the character at the cursor.
    fn delete_forward(&mut self) -> (r: Result<char>)
        requires
            old(self).can_edit(),
    ;

    /// Inserts a newline at the cursor.
    fn insert_newline(&mut self) -> (r: Result<()>)
        requires
            old(self).can_grow(1),
    ;

    /// Deletes the characters in `start..end`.
    fn delete_range(&mut self, start: usize, end: usize) -> (r: Result<String>)
        requires
            old(self).can_edit(),
    ;
}

/// The editor: text, cursor, navigation and listeners.
pub struct TextEditor {
    pub buffer: GapBuffer,
    pub cursor: CursorPosition,
    pub navigation: NavigationSystem,
    pub change_notifier: ChangeNotifier,
    pub last_operation_time: Instant,
}

/// The editor can grow by `n` characters without reaching the storage limit.
pub open spec fn room_for(t: Seq<char>, n: int) -> bool {
    t.len() + n + MAX_GAP_CAPACITY + MIN_GAP_RESERVE <= MAX_BUFFER_CHARS
}

/// The message an edit error becomes.
pub open spec fn edit_failure(e: EditError) -> Seq<char> {
    edit_error_text(e, Seq::empty())
}

/// The cursor after a character was typed.
pub open spec fn after_typing(c: CursorPosition, ch: char) -> CursorPosition {
    if ch == '\n' {
        CursorPosition {
            char_pos: (c.char_pos + 1) as usize,
            line: (c.line + 1) as usize,
            column: 0,
        }
    } else {
        CursorPosition {
            char_pos: (c.char_pos + 1) as usize,
            line: c.line,
            column: (c.column + 1) as usize,
        }
    }
}

impl TextEditor {
    /// The buffer and the navigation state are well formed.
    pub open spec fn wf(&self) -> bool {
        &&& self.buffer.wf()
        &&& self.navigation.wf()
    }

    /// The text.
    pub open spec fn text(&self) -> Seq<char> {
        self.buffer@
    }

    /// An empty editor.
    pub fn new() -> (r: Self)
        ensures
            r.wf(),
            r.text() == Seq::<char>::empty(),
            r.cursor == (CursorPosition { char_pos: 0, line: 0, column: 0 }),
    {
        Self {
            buffer: GapBuffer::new(),
            cursor: CursorPosition::new(),
            navigation: NavigationSystem::new(),
            change_notifier: ChangeNotifier::new(),
            last_operation_time: instant_now(),
        }
    }

    /// An editor holding `s`, with the cursor at the origin.
    pub fn from_str(s: &str) -> (r: Self)
        requires
            s@.len() + 0x10000 <= MAX_BUFFER_CHARS,
        ensures
            r.wf(),
            r.text() == s@,
            r.cursor == (CursorPosition { char_pos: 0, line: 0, column: 0 }),
    {
        Self {
            buffer: GapBuffer::from_str(s),
            cursor: CursorPosition::new(),
            navigation: NavigationSystem::new(),
            change_notifier: ChangeNotifier::new(),
            last_operation_time: instant_now(),
        }
    }

    /// The text as a string.
    pub fn to_string(&self) -> (r: String)
        requires
            self.wf(),
        ensures
            r@ == self.text(),
    {
        self.buffer.to_string()
    }

    /// The cursor.
    pub fn cursor(&self) -> (r: &CursorPosition)
        ensures
            *r == self.cursor,
    {
        &self.cursor
    }

    /// The navigation state.
    pub fn navigation(&self) -> (r: &NavigationSystem)
        ensures
            *r == self.navigation,
    {
        &self.navigation
    }

    /// Places the cursor; it is clamped into the text.
    pub fn set_cursor(&mut self, position: CursorPosition)
        requires
            old(self).wf(),
        ensures
            final(self).wf(),
            final(self).text() == old(self).text(),
            final(self).cursor == clamped(position, old(self).text()),
    {
        let old_position = self.cursor;
        self.cursor = position;
        self.clamp_cursor_position();
        let _ = self.sync_navigation_cursor();
        self.change_notifier.notify(
            ChangeEvent::CursorMove { old_position, new_position: self.cursor },
        );
    }

    /// Moves the cursor to character `char_pos` (clamped to the text), with
    /// line and column recomputed.
    pub fn move_cursor_to_char(&mut self, char_pos: usize) -> (r: Result<()>)
        requires
            old(self).wf(),
        ensures
            final(self).wf(),
            r is Ok,
            final(self).text() == old(self).text(),
            final(self).cursor == synced(
                CursorPosition { char_pos, ..old(self).cursor },
                old(self).text(),
            ),
    {
        self.start_performance_measurement();
        let len = self.buffer.len_chars();
        let target = if char_pos < len { char_pos } else { len };
        let old_position = self.cursor;
        self.cursor.char_pos = target;
        self.sync_cursor_with_buffer();
        self.change_notifier.notify(
            ChangeEvent::CursorMove { old_position, new_position: self.cursor },
        );
        self.end_performance_measurement();
        Ok(())
    }

    /// Replaces the characters `start..end` with `replacement` and returns
    /// what they were; the cursor goes to the end of the replacement.
    pub fn replace_range_span(&mut self, start: usize, end: usize, replacement: &str) -> (r: Result<String>)
        requires
            old(self).wf(),
        ensures
            final(self).wf(),
            start > end || end > old(self).text().len() ==> (r matches Err(AltreError::Edit(_)))
                && final(self).text() == old(self).text() && final(self).cursor == old(self).cursor,
            start <= end <= old(self).text().len() && room_for(old(self).text(), replacement@.len() as int) ==> r is Ok,
            r is Err ==> final(self).text() == old(self).text(),
            r is Ok ==> room_for(old(self).text(), replacement@.len() as int),
            r matches Ok(o) ==> o@ == old(self).text().subrange(start as int, end as int) && final(self).text()
                == old(self).text().take(start as int) + replacement@ + old(self).text().skip(end as int)
                && final(self).cursor == synced(
                CursorPosition { char_pos: (start + replacement@.len()) as usize, ..old(self).cursor },
                final(self).text(),
            ),
    {
        let len = self.buffer.len_chars();
        if start > end || end > len {
            return Err(AltreError::from_edit(EditError::OutOfBounds(if start > end { start } else { end })));
        }
        let original = if start == end {
            String::new()
        } else {
            match self.buffer.substring(start, end) {
                Ok(s) => s,
                Err(_) => {
                    return Err(AltreError::from_edit(EditError::OutOfBounds(end)));
                },
            }
        };
        assert(original@ == self.text().subrange(start as int, end as int));
        let ghost t0 = self.text();
        let count = chars_of(replacement).len();
        proof {
            self.buffer.lemma_len_bound();
        }
        if count > MAX_BUFFER_CHARS || len + count + MAX_GAP_CAPACITY + MIN_GAP_RESERVE > MAX_BUFFER_CHARS {
            return Err(AltreError::from_edit(EditError::BufferError(owned("文字列挿入失敗"))));
        }
        if start == end {
            match self.buffer.insert_str(start, replacement) {
                Ok(()) => {},
                Err(_) => {
                    return Err(AltreError::from_edit(EditError::BufferError(owned("文字列挿入失敗"))));
                },
            }
            assert(t0.skip(end as int) =~= t0.skip(start as int));
        } else {
            match self.buffer.replace_range(start, end, replacement) {
                Ok(()) => {},
                Err(_) => {
                    return Err(AltreError::from_edit(EditError::BufferError(owned("文字列挿入失敗"))));
                },
            }
        }
        proof {
            self.buffer.lemma_len_bound();
        }
        self.cursor.char_pos = start + count;
        self.sync_cursor_with_buffer();
        Ok(original)
    }

    /// Deletes the word after the cursor (with the whitespace before it) and
    /// returns it.
    pub fn delete_word_forward(&mut self) -> (r: Result<String>)
        requires
            old(self).wf(),
        ensures
            final(self).wf(),
            ({
                let t = old(self).text();
                let start = old(self).cursor.char_pos as int;
                let end = word_end_forward(t, start);
                if end == start {
                    r matches Ok(s) && s@ == Seq::<char>::empty() && final(self).text() == t
                        && final(self).cursor == old(self).cursor
                } else if start < t.len() {
                    r matches Ok(s) && s@ == t.subrange(start, end) && final(self).text()
                        == t.take(start) + t.skip(end) && final(self).cursor == synced(
                        old(self).cursor,
                        final(self).text(),
                    )
                } else {
                    r is Err && final(self).text() == t && final(self).cursor == clamped(
                        old(self).cursor,
                        t,
                    )
                }
            }),
    {
        self.start_performance_measurement();
        let saved = self.cursor;
        let result = self.delete_word_forward_inner();
        let r = self.safe_finish(saved, result);
        self.end_performance_measurement();
        r
    }

    fn delete_word_forward_inner(&mut self) -> (r: Result<String>)
        requires
            old(self).wf(),
        ensures
            final(self).wf(),
            r is Err ==> (r matches Err(AltreError::Edit(_))),
            ({
                let t = old(self).text();
                let start = old(self).cursor.char_pos as int;
                let end = word_end_forward(t, start);
                if end == start {
                    r matches Ok(s) && s@ == Seq::<char>::empty() && final(self).text() == t
                        && final(self).cursor == old(self).cursor
                } else if start < t.len() {
                    r matches Ok(s) && s@ == t.subrange(start, end) && final(self).text()
                        == t.take(start) + t.skip(end) && final(self).cursor == synced(
                        old(self).cursor,
                        final(self).text(),
                    )
                } else {
                    r is Err && final(self).text() == t
                }
            }),
    {
        let start = self.cursor.char_pos;
        let chars = self.buffer_chars();
        let end = word_boundary_forward(&chars, start);
        if end == start {
            return Ok(String::new());
        }
        if start >= chars.len() {
            return Err(AltreError::from_edit(EditError::BufferError(owned("単語削除失敗"))));
        }
        proof {
            lemma_word_end_bounds(chars@, start as int);
        }
        let deleted = match self.buffer.delete_range(start, end) {
            Ok(d) => d,
            Err(_) => {
                return Err(AltreError::from_edit(EditError::BufferError(owned("単語削除失敗"))));
            },
        };
        self.sync_cursor_with_buffer();
        self.change_notifier.notify(ChangeEvent::Delete { position: start, content: deleted.clone() });
        let _ = self.sync_navigation_cursor();
        Ok(deleted)
    }

    /// Deletes the word before the cursor (with the whitespace after it) and
    /// returns it.
    pub fn delete_word_backward(&mut self) -> (r: Result<String>)
        requires
            old(self).wf(),
            old(self).cursor.char_pos <= old(self).text().len(),
        ensures
            final(self).wf(),
            ({
                let t = old(self).text();
                let end = old(self).cursor.char_pos as int;
                let start = word_start_backward(t, end);
                if start == end {
                    r matches Ok(s) && s@ == Seq::<char>::empty() && final(self).text() == t
                        && final(self).cursor == old(self).cursor
                } else {
                    r matches Ok(s) && s@ == t.subrange(start, end) && final(self).text()
                        == t.take(start) + t.skip(end) && final(self).cursor == synced(
                        CursorPosition { char_pos: start as usize, ..old(self).cursor },
                        final(self).text(),
                    )
                }
            }),
    {
        self.start_performance_measurement();
        let saved = self.cursor;
        let result = self.delete_word_backward_inner();
        let r = self.safe_finish(saved, result);
        self.end_performance_measurement();
        r
    }

    fn delete_word_backward_inner(&mut self) -> (r: Result<String>)
        requires
            old(self).wf(),
            old(self).cursor.char_pos <= old(self).text().len(),
        ensures
            final(self).wf(),
            r is Err ==> (r matches Err(AltreError::Edit(_))),
            ({
                let t = old(self).text();
                let end = old(self).cursor.char_pos as int;
                let start = word_start_backward(t, end);
                if start == end {
                    r matches Ok(s) && s@ == Seq::<char>::empty() && final(self).text() == t
                        && final(self).cursor == old(self).cursor
                } else {
                    r matches Ok(s) && s@ == t.subrange(start, end) && final(self).text()
                        == t.take(start) + t.skip(end) && final(self).cursor == synced(
                        CursorPosition { char_pos: start as usize, ..old(self).cursor },
                        final(self).text(),
                    )
                }
            }),
    {
        let end = self.cursor.char_pos;
        let chars = self.buffer_chars();
        let start = word_boundary_backward(&chars, end);
        if start == end {
            return Ok(String::new());
        }
        let deleted = match self.buffer.delete_range(start, end) {
            Ok(d) => d,
            Err(_) => {
                return Err(AltreError::from_edit(EditError::BufferError(owned("単語削除失敗"))));
            },
        };
        self.cursor.char_pos = start;
        self.sync_cursor_with_buffer();
        self.change_notifier.notify(ChangeEvent::Delete { position: start, content: deleted.clone() });
        let _ = self.sync_navigation_cursor();
        Ok(deleted)
    }

    /// Deletes from the cursor to the end of the line, the newline included,
    /// and returns what was deleted.
    pub fn kill_line_forward(&mut self) -> (r: Result<String>)
        requires
            old(self).wf(),
        ensures
            final(self).wf(),
            ({
                let t = old(self).text();
                let start = old(self).cursor.char_pos as int;
                if start >= t.len() {
                    r matches Ok(s) && s@ == Seq::<char>::empty() && final(self).text() == t
                        && final(self).cursor == old(self).cursor
                } else {
                    let end = kill_line_end(t, start);
                    r matches Ok(s) && s@ == t.subrange(start, end) && final(self).text()
                        == t.take(start) + t.skip(end) && final(self).cursor == synced(
                        old(self).cursor,
                        final(self).text(),
                    )
                }
            }),
    {
        self.start_performance_measurement();
        let start = self.cursor.char_pos;
        let chars = self.buffer_chars();
        if start >= chars.len() {
            self.end_performance_measurement();
            return Ok(String::new());
        }
        let mut end = start;
        while end < chars.len() && chars[end] != '\n'
            invariant
                start <= end <= chars@.len(),
                skip_until_newline(chars@, start as int) == skip_until_newline(chars@, end as int),
            decreases chars.len() - end,
        {
            end += 1;
        }
        if end < chars.len() {
            end += 1;
        }
        let deleted = match self.buffer.delete_range(start, end) {
            Ok(d) => d,
            Err(_) => {
                self.end_performance_measurement();
                return Err(AltreError::from_edit(EditError::BufferError(owned("行削除に失敗しました"))));
            },
        };
        self.cursor.char_pos = start;
        self.sync_cursor_with_buffer();
        self.change_notifier.notify(ChangeEvent::Delete { position: start, content: deleted.clone() });
        let _ = self.sync_navigation_cursor();
        self.end_performance_measurement();
        Ok(deleted)
    }

    /// Registers a change listener.
    pub fn add_change_listener(&mut self, listener: Box<dyn ChangeListener>)
        ensures
            final(self).buffer == old(self).buffer,
            final(self).cursor == old(self).cursor,
            final(self).navigation == old(self).navigation,
            final(self).change_notifier.listener_count() == old(self).change_notifier.listener_count() + 1,
    {
        self.change_notifier.add_listener(listener);
    }

    /// Whether `ch` may be typed.
    fn is_valid_input_char(&self, ch: char) -> (r: bool)
        ensures
            r == valid_input_char(ch),
    {
        let u = ch as u32;
        if ch == '\t' {
            true
        } else if u <= 0x1f {
            false
        } else if u == 0x7f {
            false
        } else {
            !char_is_control(ch)
        }
    }

    /// The text as a vector of characters.
    fn buffer_chars(&self) -> (r: Vec<char>)
        requires
            self.wf(),
        ensures
            r@ == self.text(),
    {
        let s = self.buffer.to_string();
        chars_of(s.as_str())
    }

    /// Clamps the cursor position to the text and recomputes line and column.
    fn sync_cursor_with_buffer(&mut self)
        requires
            old(self).wf(),
        ensures
            final(self).wf(),
            final(self).buffer == old(self).buffer,
            final(self).cursor == synced(old(self).cursor, old(self).text()),
    {
        let chars = self.buffer_chars();
        if self.cursor.char_pos > self.buffer.len_chars() {
            self.cursor.char_pos = self.buffer.len_chars();
        }
        self.recalculate_cursor_line_column(&chars);
        let _ = self.sync_navigation_cursor();
    }

    /// Line and column of the cursor position, counted over the text.
    fn recalculate_cursor_line_column(&mut self, text: &Vec<char>)
        requires
            old(self).cursor.char_pos <= text@.len(),
        ensures
            final(self).buffer == old(self).buffer,
            final(self).navigation == old(self).navigation,
            final(self).cursor.char_pos == old(self).cursor.char_pos,
            (final(self).cursor.line as int, final(self).cursor.column as int) == walk(
                0,
                0,
                text@.take(old(self).cursor.char_pos as int),
            ),
    {
        let mut line: usize = 0;
        let mut column: usize = 0;
        let mut i: usize = 0;
        let pos = self.cursor.char_pos;
        proof {
            assert(text@.take(0) =~= Seq::<char>::empty());
        }
        while i < pos
            invariant
                pos <= text@.len(),
                i <= pos,
                (line as int, column as int) == walk(0, 0, text@.take(i as int)),
            decreases pos - i,
        {
            proof {
                assert(text@.take(i + 1).drop_last() =~= text@.take(i as int));
                lemma_walk_bounds(0, 0, text@.take(i as int));
            }
            if text[i] == '\n' {
                line += 1;
                column = 0;
            } else {
                column += 1;
            }
            i += 1;
        }
        self.cursor.line = line;
        self.cursor.column = column;
    }

    /// Clamps the cursor into the text.
    pub fn clamp_cursor_position(&mut self)
        requires
            old(self).wf(),
        ensures
            final(self).wf(),
            final(self).buffer == old(self).buffer,
            final(self).navigation == old(self).navigation,
            final(self).cursor == clamped(old(self).cursor, old(self).text()),
    {
        let max_pos = self.buffer.len_chars();
        if self.cursor.char_pos > max_pos {
            self.cursor.char_pos = max_pos;
        }
        let chars = self.buffer_chars();
        self.clamp_cursor_line_column(&chars);
    }

    fn clamp_cursor_line_column(&mut self, text: &Vec<char>)
        ensures
            final(self).buffer == old(self).buffer,
            final(self).navigation == old(self).navigation,
            final(self).cursor == clamped(old(self).cursor, text@).with_pos(old(self).cursor.char_pos),
    {
        let lines = lines_of(text);
        if lines.len() == 0 {
            self.cursor.line = 0;
            self.cursor.column = 0;
            return;
        }
        if self.cursor.line >= lines.len() {
            self.cursor.line = lines.len() - 1;
        }
        if self.cursor.line < lines.len() {
            let line_length = lines[self.cursor.line].len();
            if self.cursor.column > line_length {
                self.cursor.column = line_length;
            }
        }
    }

    /// Repairs the cursor after a failed operation: an edit error clamps it,
    /// a buffer error recomputes it, a system error is passed on.
    fn recover_from_error(&mut self, error: &AltreError) -> (r: Result<()>)
        requires
            old(self).wf(),
        ensures
            final(self).wf(),
            final(self).buffer == old(self).buffer,
            error is Edit ==> r is Ok && final(self).cursor == clamped(old(self).cursor, old(self).text()),
            error is Buffer ==> r is Ok && final(self).cursor == synced(old(self).cursor, old(self).text()),
            error is System ==> r is Err && final(self).cursor == old(self).cursor,
            !(error is Edit || error is Buffer || error is System) ==> r is Ok && final(self).cursor == old(self).cursor,
    {
        match error {
            AltreError::Edit(_) => {
                self.clamp_cursor_position();
                Ok(())
            },
            AltreError::Buffer(_) => {
                self.sync_cursor_with_buffer();
                Ok(())
            },
            AltreError::System(_) => Err(error.clone()),
            _ => Ok(()),
        }
    }

    /// Restores the cursor saved before a failed operation and repairs it.
    fn safe_finish<T>(&mut self, saved: CursorPosition, result: Result<T>) -> (r: Result<T>)
        requires
            old(self).wf(),
            result is Err ==> (result matches Err(AltreError::Edit(_))),
        ensures
            final(self).wf(),
            final(self).buffer == old(self).buffer,
            r == result,
            result is Ok ==> final(self).cursor == old(self).cursor,
            result is Err ==> final(self).cursor == clamped(saved, old(self).text()),
    {
        match result {
            Ok(v) => Ok(v),
            Err(error) => {
                self.cursor = saved;
                let _ = self.recover_from_error(&error);
                Err(error)
            },
        }
    }

    /// Newline normalisation of typed text.
    fn normalize_line_ending(&self, input: &str) -> (r: String)
        ensures
            r@ == normalize_newlines(input@),
    {
        let chars = chars_of(input);
        let mut out = String::new();
        let mut i: usize = 0;
        assert(chars@.skip(0) =~= chars@);
        assert(out@ + normalize_newlines(chars@) =~= normalize_newlines(chars@));
        while i < chars.len()
            invariant
                i <= chars@.len(),
                out@ + normalize_newlines(chars@.skip(i as int)) == normalize_newlines(chars@),
            decreases chars.len() - i,
        {
            let ghost rest = chars@.skip(i as int);
            proof {
                assert(rest.drop_first() =~= chars@.skip(i + 1));
            }
            let c = chars[i];
            if c == '\r' && i + 1 < chars.len() && chars[i + 1] == '\n' {
            } else if c == '\r' {
                push_char(&mut out, '\n');
            } else {
                push_char(&mut out, c);
            }
            i += 1;
        }
        proof {
            assert(chars@.skip(chars@.len() as int) =~= Seq::<char>::empty());
            assert(out@ + Seq::<char>::empty() =~= out@);
        }
        out
    }

    /// Gives the navigation system the cursor.
    fn sync_navigation_cursor(&mut self) -> (r: Result<()>)
        ensures
            r is Ok,
            final(self).buffer == old(self).buffer,
            final(self).cursor == old(self).cursor,
            final(self).navigation == (NavigationSystem { cursor: old(self).cursor, ..old(self).navigation }),
    {
        self.navigation.set_cursor(self.cursor);
        Ok(())
    }

    /// Runs a navigation command from the cursor; the cursor follows the
    /// navigation cursor when it moved.
    pub fn navigate(&mut self, action: NavigationAction) -> (r: core::result::Result<bool, NavigationError>)
        requires
            old(self).wf(),
            NavigationSystem::dispatch_allowed(
                NavigationSystem { cursor: old(self).cursor, ..old(self).navigation },
                old(self).text(),
                action,
            ),
        ensures
            final(self).wf(),
            final(self).text() == old(self).text(),
            ({
                let nav0 = NavigationSystem { cursor: old(self).cursor, ..old(self).navigation };
                &&& r matches Ok(b) ==> NavigationSystem::dispatch_outcome(nav0, old(self).text(), action) == Some(b)
                &&& NavigationSystem::dispatch_outcome(nav0, old(self).text(), action) is None ==> r is Err
                &&& r is Err && NavigationSystem::dispatch_outcome(nav0, old(self).text(), action) is Some ==> (r matches Err(
                    NavigationError::PerformanceConstraintViolated { .. },
                ))
                &&& r == Ok::<bool, NavigationError>(true) ==> final(self).cursor == NavigationSystem::dispatch_state(nav0, old(self).text(), action).0
                &&& r != Ok::<bool, NavigationError>(true) ==> final(self).cursor == old(self).cursor
                &&& r == Ok::<bool, NavigationError>(true) ==> final(self).navigation.extended_cursor
                    == NavigationSystem::dispatch_state(nav0, old(self).text(), action).1
                &&& final(self).navigation.starts(old(self).text()) == old(self).navigation.starts(old(self).text())
            }),
    {
        let text = self.buffer.to_string();
        self.navigation.set_cursor(self.cursor);
        let moved = self.navigation.navigate(text.as_str(), action)?;
        if moved {
            let new_cursor = *self.navigation.cursor();
            let old_position = self.cursor;
            self.cursor = new_cursor;
            let _ = self.sync_navigation_cursor();
            self.change_notifier.notify(ChangeEvent::CursorMove { old_position, new_position: self.cursor });
        }
        Ok(moved)
    }

    /// Advances line and column over inserted text.
    fn update_cursor_after_insert(&mut self, inserted: &str)
        requires
            old(self).cursor.line + inserted@.len() <= usize::MAX,
            old(self).cursor.column + inserted@.len() <= usize::MAX,
        ensures
            final(self).buffer == old(self).buffer,
            final(self).navigation == old(self).navigation,
            final(self).cursor.char_pos == old(self).cursor.char_pos,
            (final(self).cursor.line as int, final(self).cursor.column as int) == walk(
                old(self).cursor.line as int,
                old(self).cursor.column as int,
                inserted@,
            ),
    {
        let chars = chars_of(inserted);
        let mut i: usize = 0;
        proof {
            assert(chars@.take(0) =~= Seq::<char>::empty());
        }
        while i < chars.len()
            invariant
                chars@ == inserted@,
                i <= chars@.len(),
                old(self).cursor.line + chars@.len() <= usize::MAX,
                old(self).cursor.column + chars@.len() <= usize::MAX,
                self.buffer == old(self).buffer,
                self.navigation == old(self).navigation,
                self.cursor.char_pos == old(self).cursor.char_pos,
                (self.cursor.line as int, self.cursor.column as int) == walk(
                    old(self).cursor.line as int,
                    old(self).cursor.column as int,
                    chars@.take(i as int),
                ),
            decreases chars.len() - i,
        {
            proof {
                assert(chars@.take(i + 1).drop_last() =~= chars@.take(i as int));
                lemma_walk_bounds(old(self).cursor.line as int, old(self).cursor.column as int, chars@.take(i as int));
            }
            if chars[i] == '\n' {
                self.cursor.line += 1;
                self.cursor.column = 0;
            } else {
                self.cursor.column += 1;
            }
            i += 1;
        }
        proof {
            assert(chars@.take(chars@.len() as int) =~= chars@);
        }
    }

    fn start_performance_measurement(&mut self)
        ensures
            final(self).buffer == old(self).buffer,
            final(self).cursor == old(self).cursor,
            final(self).navigation == old(self).navigation,
    {
        self.last_operation_time = instant_now();
    }

    /// Whether the operation begun at the last measurement start took more
    /// than a millisecond.
    fn end_performance_measurement(&self) -> (slow: bool) {
        elapsed_nanos(&self.last_operation_time) / NANOS_PER_MILLI > 1
    }
}

impl CursorPosition {
    /// This cursor with another character position.
    pub open spec fn with_pos(self, p: usize) -> CursorPosition {
        CursorPosition { char_pos: p, ..self }
    }
}


impl EditOperations for TextEditor {
    open spec fn can_edit(&self) -> bool {
        self.wf()
    }

    open spec fn can_grow(&self, n: nat) -> bool {
        &&& self.wf()
        &&& self.cursor.line + n <= usize::MAX
        &&& self.cursor.column + n <= usize::MAX
    }

    /// Types `ch` at the cursor. Control characters are refused; the
    /// cursor moves past the character.
    fn insert_char(&mut self, ch: char) -> (r: Result<()>)
        ensures
            final(self).wf(),
            !valid_input_char(ch) ==> (r matches Err(AltreError::Edit(_))) && final(self).text()
                == old(self).text() && final(self).cursor == clamped(old(self).cursor, old(self).text()),
            valid_input_char(ch) && old(self).cursor.char_pos > old(self).text().len() ==> (r matches Err(AltreError::Edit(m)) && m@ == "Buffer operation failed: "@ + "挿入失敗"@),
            valid_input_char(ch) && old(self).cursor.char_pos <= old(self).text().len() && room_for(old(self).text(), 1) ==> r is Ok,
            r is Err ==> final(self).text() == old(self).text() && final(self).cursor == clamped(old(self).cursor, old(self).text()),
            r is Ok ==> final(self).text() == old(self).text().insert(old(self).cursor.char_pos as int, ch)
                && final(self).cursor == after_typing(old(self).cursor, ch),
    {
        self.start_performance_measurement();
        let saved = self.cursor;
        let result = self.insert_char_inner(ch);
        let r = self.safe_finish(saved, result);
        self.end_performance_measurement();
        r
    }

    fn insert_str(&mut self, s: &str) -> (r: Result<()>)
        ensures
            final(self).wf(),
            s@.len() == 0 ==> r is Ok && final(self).text() == old(self).text() && final(self).cursor == old(self).cursor,
            s@.len() > 0 && old(self).cursor.char_pos <= old(self).text().len() && room_for(old(self).text(), s@.len() as int) ==> r is Ok,
            r is Err ==> final(self).text() == old(self).text() && final(self).cursor == clamped(old(self).cursor, old(self).text()),
            s@.len() > 0 && r is Ok ==> ({
                let n = normalize_newlines(s@);
                let w = walk(old(self).cursor.line as int, old(self).cursor.column as int, n);
                &&& final(self).text() == old(self).text().take(old(self).cursor.char_pos as int) + n + old(self).text().skip(old(self).cursor.char_pos as int)
                &&& final(self).cursor == (CursorPosition {
                    char_pos: (old(self).cursor.char_pos + n.len()) as usize,
                    line: w.0 as usize,
                    column: w.1 as usize,
                })
            }),
    {
        self.start_performance_measurement();
        let saved = self.cursor;
        let result = self.insert_str_inner(s);
        let r = self.safe_finish(saved, result);
        self.end_performance_measurement();
        r
    }

    fn insert_char_at_cursor(&mut self, ch: char) -> (r: Result<()>)
        ensures
            final(self).wf(),
            valid_input_char(ch) && old(self).cursor.char_pos <= old(self).text().len() && room_for(old(self).text(), 1) ==> r is Ok,
            r is Err ==> final(self).text() == old(self).text() && final(self).cursor == clamped(old(self).cursor, old(self).text()),
            r is Ok ==> valid_input_char(ch) && final(self).text() == old(self).text().insert(old(self).cursor.char_pos as int, ch)
                && final(self).cursor == after_typing(old(self).cursor, ch),
    {
        self.insert_char(ch)
    }

    /// Backspace: deletes the character before the cursor.
    fn delete_backward(&mut self) -> (r: Result<char>)
        ensures
            final(self).wf(),
            old(self).cursor.char_pos == 0 ==> (r matches Err(AltreError::Edit(m)) && m@ == edit_failure(EditError::AtBufferStart)),
            0 < old(self).cursor.char_pos <= old(self).text().len() ==> r == Ok::<char, AltreError>(old(self).text()[old(self).cursor.char_pos - 1]),
            r is Err ==> final(self).text() == old(self).text() && final(self).cursor == clamped(old(self).cursor, old(self).text()),
            r matches Ok(c) ==> ({
                let p = (old(self).cursor.char_pos - 1) as int;
                let t2 = old(self).text().remove(p);
                &&& final(self).text() == t2
                &&& final(self).cursor.char_pos == p
                &&& c == '\n' && old(self).cursor.line > 0 ==> final(self).cursor.line == old(self).cursor.line - 1
                    && final(self).cursor.column == (if old(self).cursor.line - 1 < text_lines(t2).len() {
                        text_lines(t2)[old(self).cursor.line - 1].len() as usize
                    } else {
                        old(self).cursor.column
                    })
                &&& !(c == '\n' && old(self).cursor.line > 0) ==> final(self).cursor.line == old(self).cursor.line
                    && final(self).cursor.column == (if old(self).cursor.column > 0 { (old(self).cursor.column - 1) as usize } else { 0 })
            }),
    {
        self.start_performance_measurement();
        let saved = self.cursor;
        let result = self.delete_backward_inner();
        let r = self.safe_finish(saved, result);
        self.end_performance_measurement();
        r
    }

    /// Delete: deletes the character at the cursor; the cursor stays.
    fn delete_forward(&mut self) -> (r: Result<char>)
        ensures
            final(self).wf(),
            old(self).cursor.char_pos >= old(self).text().len() ==> (r matches Err(AltreError::Edit(m)) && m@ == edit_failure(EditError::AtBufferEnd)),
            old(self).cursor.char_pos < old(self).text().len() ==> r == Ok::<char, AltreError>(old(self).text()[old(self).cursor.char_pos as int])
                && final(self).text() == old(self).text().remove(old(self).cursor.char_pos as int)
                && final(self).cursor == old(self).cursor,
            r is Err ==> final(self).text() == old(self).text() && final(self).cursor == clamped(old(self).cursor, old(self).text()),
    {
        self.start_performance_measurement();
        let saved = self.cursor;
        let result = self.delete_forward_inner();
        let r = self.safe_finish(saved, result);
        self.end_performance_measurement();
        r
    }

    /// Inserts `'\n'` at the cursor; the cursor goes to the start of the
    /// next line.
    fn insert_newline(&mut self) -> (r: Result<()>)
        ensures
            final(self).wf(),
            old(self).cursor.char_pos <= old(self).text().len() && room_for(old(self).text(), 1) ==> r is Ok,
            r is Err ==> final(self).text() == old(self).text() && final(self).cursor == clamped(old(self).cursor, old(self).text()),
            r is Ok ==> final(self).text() == old(self).text().insert(old(self).cursor.char_pos as int, '\n')
                && final(self).cursor == after_typing(old(self).cursor, '\n'),
    {
        self.start_performance_measurement();
        let saved = self.cursor;
        let result = self.insert_newline_inner();
        let r = self.safe_finish(saved, result);
        self.end_performance_measurement();
        r
    }

    /// Deletes `start..end`; a cursor inside the range goes to its start, a
    /// cursor after it moves back by its length.
    fn delete_range(&mut self, start: usize, end: usize) -> (r: Result<String>)
        ensures
            final(self).wf(),
            start > end ==> (r matches Err(AltreError::Edit(m)) && m@ == edit_failure(EditError::OutOfBounds(start))),
            start <= end && end > old(self).text().len() ==> r is Err,
            r is Err ==> final(self).text() == old(self).text() && final(self).cursor == clamped(old(self).cursor, old(self).text()),
            start <= end <= old(self).text().len() ==> (r matches Ok(s) && s@ == old(self).text().subrange(start as int, end as int)
                && final(self).text() == old(self).text().take(start as int) + old(self).text().skip(end as int)
                && final(self).cursor == synced(
                    old(self).cursor.with_pos(range_adjusted(old(self).cursor.char_pos, start, end)),
                    final(self).text(),
                )),
    {
        self.start_performance_measurement();
        let saved = self.cursor;
        let result = self.delete_range_inner(start, end);
        let r = self.safe_finish(saved, result);
        self.end_performance_measurement();
        r
    }
}

/// A cursor position after `start..end` was deleted.
pub open spec fn range_adjusted(pos: usize, start: usize, end: usize) -> usize {
    if pos > start {
        if pos <= end {
            start
        } else {
            (pos - (end - start)) as usize
        }
    } else {
        pos
    }
}

impl TextEditor {
    fn insert_char_inner(&mut self, ch: char) -> (r: Result<()>)
        requires
            old(self).can_grow(1),
        ensures
            final(self).wf(),
            r is Err ==> (r matches Err(AltreError::Edit(_))) && final(self).text() == old(self).text(),
            !valid_input_char(ch) ==> r is Err,
            valid_input_char(ch) && old(self).cursor.char_pos > old(self).text().len() ==> (r matches Err(AltreError::Edit(m)) && m@ == "Buffer operation failed: "@ + "挿入失敗"@),
            valid_input_char(ch) && old(self).cursor.char_pos <= old(self).text().len() && room_for(old(self).text(), 1) ==> r is Ok,
            r is Ok ==> valid_input_char(ch) && final(self).text() == old(self).text().insert(old(self).cursor.char_pos as int, ch)
                && final(self).cursor == after_typing(old(self).cursor, ch),
    {
        if !self.is_valid_input_char(ch) {
            return Err(AltreError::from_edit(EditError::InvalidChar(ch)));
        }
        let cursor_pos = self.cursor.char_pos;
        match self.buffer.insert(cursor_pos, ch) {
            Ok(()) => {},
            Err(_) => {
                return Err(AltreError::from_edit(EditError::BufferError(owned("挿入失敗"))));
            },
        }
        proof {
            self.buffer.lemma_len_bound();
        }
        self.cursor.char_pos += 1;
        if ch == '\n' {
            self.cursor.line += 1;
            self.cursor.column = 0;
        } else {
            self.cursor.column += 1;
        }
        self.change_notifier.notify(
            ChangeEvent::Insert { position: cursor_pos, content: string_of_char(ch) },
        );
        let _ = self.sync_navigation_cursor();
        Ok(())
    }

    fn insert_str_inner(&mut self, s: &str) -> (r: Result<()>)
        requires
            old(self).can_grow(s@.len()),
        ensures
            final(self).wf(),
            r is Err ==> (r matches Err(AltreError::Edit(_))) && final(self).text() == old(self).text(),
            s@.len() == 0 ==> r is Ok && final(self).text() == old(self).text() && final(self).cursor == old(self).cursor,
            s@.len() > 0 && old(self).cursor.char_pos <= old(self).text().len() && room_for(old(self).text(), s@.len() as int) ==> r is Ok,
            s@.len() > 0 && r is Ok ==> ({
                let n = normalize_newlines(s@);
                let w = walk(old(self).cursor.line as int, old(self).cursor.column as int, n);
                &&& final(self).text() == old(self).text().take(old(self).cursor.char_pos as int) + n + old(self).text().skip(old(self).cursor.char_pos as int)
                &&& final(self).cursor == (CursorPosition {
                    char_pos: (old(self).cursor.char_pos + n.len()) as usize,
                    line: w.0 as usize,
                    column: w.1 as usize,
                })
            }),
    {
        if s.is_empty() {
            return Ok(());
        }
        let normalized = self.normalize_line_ending(s);
        proof {
            lemma_normalize_len(s@);
        }
        let cursor_pos = self.cursor.char_pos;
        match self.buffer.insert_str(cursor_pos, normalized.as_str()) {
            Ok(()) => {},
            Err(_) => {
                return Err(AltreError::from_edit(EditError::BufferError(owned("文字列挿入失敗"))));
            },
        }
        let char_count = chars_of(normalized.as_str()).len();
        proof {
            self.buffer.lemma_len_bound();
        }
        self.cursor.char_pos += char_count;
        self.update_cursor_after_insert(normalized.as_str());
        self.change_notifier.notify(ChangeEvent::Insert { position: cursor_pos, content: normalized });
        let _ = self.sync_navigation_cursor();
        Ok(())
    }

    fn delete_backward_inner(&mut self) -> (r: Result<char>)
        requires
            old(self).wf(),
        ensures
            final(self).wf(),
            r is Err ==> (r matches Err(AltreError::Edit(_))) && final(self).text() == old(self).text(),
            old(self).cursor.char_pos == 0 ==> (r matches Err(AltreError::Edit(m)) && m@ == edit_failure(EditError::AtBufferStart)),
            0 < old(self).cursor.char_pos <= old(self).text().len() ==> r == Ok::<char, AltreError>(old(self).text()[old(self).cursor.char_pos - 1]),
            r matches Ok(c) ==> ({
                let p = (old(self).cursor.char_pos - 1) as int;
                let t2 = old(self).text().remove(p);
                &&& final(self).text() == t2
                &&& final(self).cursor.char_pos == p
                &&& c == '\n' && old(self).cursor.line > 0 ==> final(self).cursor.line == old(self).cursor.line - 1
                    && final(self).cursor.column == (if old(self).cursor.line - 1 < text_lines(t2).len() {
                        text_lines(t2)[old(self).cursor.line - 1].len() as usize
                    } else {
                        old(self).cursor.column
                    })
                &&& !(c == '\n' && old(self).cursor.line > 0) ==> final(self).cursor.line == old(self).cursor.line
                    && final(self).cursor.column == (if old(self).cursor.column > 0 { (old(self).cursor.column - 1) as usize } else { 0 })
            }),
    {
        if self.cursor.char_pos == 0 {
            return Err(AltreError::from_edit(EditError::AtBufferStart));
        }
        let pos = self.cursor.char_pos - 1;
        let deleted_char = match self.buffer.delete(pos) {
            Ok(c) => c,
            Err(_) => {
                return Err(AltreError::from_edit(EditError::BufferError(owned("削除失敗"))));
            },
        };
        self.cursor.char_pos = pos;
        if deleted_char == '\n' && self.cursor.line > 0 {
            self.cursor.line -= 1;
            let chars = self.buffer_chars();
            let lines = lines_of(&chars);
            if self.cursor.line < lines.len() {
                self.cursor.column = lines[self.cursor.line].len();
            }
        } else if self.cursor.column > 0 {
            self.cursor.column -= 1;
        }
        self.change_notifier.notify(ChangeEvent::Delete { position: pos, content: string_of_char(deleted_char) });
        let _ = self.sync_navigation_cursor();
        Ok(deleted_char)
    }

    fn delete_forward_inner(&mut self) -> (r: Result<char>)
        requires
            old(self).wf(),
        ensures
            final(self).wf(),
            r is Err ==> (r matches Err(AltreError::Edit(_))) && final(self).text() == old(self).text(),
            old(self).cursor.char_pos >= old(self).text().len() ==> (r matches Err(AltreError::Edit(m)) && m@ == edit_failure(EditError::AtBufferEnd)),
            old(self).cursor.char_pos < old(self).text().len() ==> r == Ok::<char, AltreError>(old(self).text()[old(self).cursor.char_pos as int])
                && final(self).text() == old(self).text().remove(old(self).cursor.char_pos as int)
                && final(self).cursor == old(self).cursor,
    {
        if self.cursor.char_pos >= self.buffer.len_chars() {
            return Err(AltreError::from_edit(EditError::AtBufferEnd));
        }
        let pos = self.cursor.char_pos;
        let deleted_char = match self.buffer.delete(pos) {
            Ok(c) => c,
            Err(_) => {
                return Err(AltreError::from_edit(EditError::BufferError(owned("削除失敗"))));
            },
        };
        self.change_notifier.notify(ChangeEvent::Delete { position: pos, content: string_of_char(deleted_char) });
        let _ = self.sync_navigation_cursor();
        Ok(deleted_char)
    }

    fn insert_newline_inner(&mut self) -> (r: Result<()>)
        requires
            old(self).can_grow(1),
        ensures
            final(self).wf(),
            r is Err ==> (r matches Err(AltreError::Edit(_))) && final(self).text() == old(self).text(),
            old(self).cursor.char_pos <= old(self).text().len() && room_for(old(self).text(), 1) ==> r is Ok,
            r is Ok ==> final(self).text() == old(self).text().insert(old(self).cursor.char_pos as int, '\n')
                && final(self).cursor == after_typing(old(self).cursor, '\n'),
    {
        let cursor_pos = self.cursor.char_pos;
        match self.buffer.insert(cursor_pos, '\n') {
            Ok(()) => {},
            Err(_) => {
                return Err(AltreError::from_edit(EditError::BufferError(owned("改行挿入失敗"))));
            },
        }
        proof {
            self.buffer.lemma_len_bound();
        }
        self.cursor.char_pos += 1;
        self.cursor.line += 1;
        self.cursor.column = 0;
        self.change_notifier.notify(ChangeEvent::Insert { position: cursor_pos, content: string_of_char('\n') });
        let _ = self.sync_navigation_cursor();
        Ok(())
    }

    fn delete_range_inner(&mut self, start: usize, end: usize) -> (r: Result<String>)
        requires
            old(self).wf(),
        ensures
            final(self).wf(),
            r is Err ==> (r matches Err(AltreError::Edit(_))) && final(self).text() == old(self).text(),
            start > end ==> (r matches Err(AltreError::Edit(m)) && m@ == edit_failure(EditError::OutOfBounds(start))),
            start <= end && end > old(self).text().len() ==> r is Err,
            start <= end <= old(self).text().len() ==> (r matches Ok(s) && s@ == old(self).text().subrange(start as int, end as int)
                && final(self).text() == old(self).text().take(start as int) + old(self).text().skip(end as int)
                && final(self).cursor == synced(
                    old(self).cursor.with_pos(range_adjusted(old(self).cursor.char_pos, start, end)),
                    final(self).text(),
                )),
    {
        if start > end {
            return Err(AltreError::from_edit(EditError::OutOfBounds(start)));
        }
        let deleted_text = match self.buffer.delete_range(start, end) {
            Ok(d) => d,
            Err(_) => {
                return Err(AltreError::from_edit(EditError::BufferError(owned("範囲削除失敗"))));
            },
        };
        if self.cursor.char_pos > start {
            if self.cursor.char_pos <= end {
                self.cursor.char_pos = start;
            } else {
                self.cursor.char_pos -= end - start;
            }
        }
        self.sync_cursor_with_buffer();
        self.change_notifier.notify(ChangeEvent::Delete { position: start, content: deleted_text.clone() });
        let _ = self.sync_navigation_cursor();
        Ok(deleted_text)
    }
}

impl Default for TextEditor {
    fn default() -> (r: Self)
        ensures
            r.wf(),
            r.text() == Seq::<char>::empty(),
    {
        Self::new()
    }
}

/// Whether `ch` is a word character.
fn is_word_char(ch: char) -> (r: bool)
    ensures
        r == word_char(ch),
{
    char_is_alphanumeric(ch) || ch == '_'
}

/// End of the word deletion starting at `start`.
pub fn word_boundary_forward(chars: &[char], start: usize) -> (r: usize)
    ensures
        r == word_end_forward(chars@, start as int),
{
    let len = chars.len();
    if start >= len {
        return len;
    }
    let mut idx = start;
    while idx < len && char_is_whitespace(chars[idx])
        invariant
            start <= idx <= len == chars@.len(),
            skip_while_ws(chars@, start as int) == skip_while_ws(chars@, idx as int),
        decreases len - idx,
    {
        idx += 1;
    }
    if idx == start {
        while idx < len && is_word_char(chars[idx])
            invariant
                start <= idx <= len == chars@.len(),
                skip_while_word(chars@, start as int) == skip_while_word(chars@, idx as int),
            decreases len - idx,
        {
            idx += 1;
        }
        if idx == start {
            return start + 1;
        }
        return idx;
    }
    let ghost after_ws = idx as int;
    while idx < len && is_word_char(chars[idx])
        invariant
            after_ws <= idx <= len == chars@.len(),
            skip_while_word(chars@, after_ws) == skip_while_word(chars@, idx as int),
        decreases len - idx,
    {
        idx += 1;
    }
    idx
}

/// Start of the word deletion ending at `end`.
pub fn word_boundary_backward(chars: &[char], end: usize) -> (r: usize)
    requires
        end <= chars@.len(),
    ensures
        r == word_start_backward(chars@, end as int),
        r <= end,
{
    if end == 0 {
        return 0;
    }
    let mut idx = end;
    while idx > 0 && char_is_whitespace(chars[idx - 1])
        invariant
            idx <= end <= chars@.len(),
            back_while_ws(chars@, end as int) == back_while_ws(chars@, idx as int),
        decreases idx,
    {
        idx -= 1;
    }
    if idx == 0 {
        return 0;
    }
    if !is_word_char(chars[idx - 1]) {
        return idx - 1;
    }
    let ghost after_ws = idx as int;
    while idx > 0 && is_word_char(chars[idx - 1])
        invariant
            idx <= after_ws <= chars@.len(),
            back_while_word(chars@, after_ws) == back_while_word(chars@, idx as int),
        decreases idx,
    {
        idx -= 1;
    }
    idx
}

} // verus!
