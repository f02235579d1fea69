//! Navigation: cursor movement by characters, lines and buffer ends, with
//! a line-start table for position conversions and a timing monitor.
use crate::buffer::cursor::{cursor_after, CursorMovement, CursorPosition};
use crate::text::{
    chars_of, concat_str, decimal, lemma_newline_starts_shape, line_count, line_len, line_starts_of, lines_of,
    newline_starts, nth_line, string_from_chars, text_lines, usize_ints, usize_to_string, views, MAX_TEXT_CHARS,
};
use crate::time::{duration_from_millis, duration_from_nanos, duration_nanos, elapsed, instant_now, nanos_of};
use std::time::Duration;
use vstd::prelude::*;

verus! {

/// Errors of navigation.
#[derive(Debug)]
pub enum NavigationError {
    InvalidPosition(usize),
    InvalidLine(usize),
    InvalidColumn(usize),
    TextProcessingError(String),
    PerformanceConstraintViolated { duration: Duration, limit: Duration },
    UnicodeError(String),
}

/// The `Debug` text of a duration.
pub uninterp spec fn duration_debug_text(d: Duration) -> Seq<char>;

/// `Duration`'s `Debug` rendering (such as `12.5ms`).
#[verifier::external_body]
fn duration_debug(d: &Duration) -> (r: String)
    ensures
        r@ == duration_debug_text(*d),
{
    format!("{:?}", d)
}

/// The `Display` text of a navigation error.
pub open spec fn navigation_error_text(e: NavigationError) -> Seq<char> {
    match e {
        NavigationError::InvalidPosition(p) => "Invalid position: "@ + decimal(p as nat),
        NavigationError::InvalidLine(l) => "Invalid line: "@ + decimal(l as nat),
        NavigationError::InvalidColumn(c) => "Invalid column: "@ + decimal(c as nat),
        NavigationError::TextProcessingError(m) => "Text processing error: "@ + m@,
        NavigationError::PerformanceConstraintViolated { duration, limit } => "Performance constraint violated: operation took "@
            + duration_debug_text(duration) + ", limit: "@ + duration_debug_text(limit),
        NavigationError::UnicodeError(m) => "Unicode processing error: "@ + m@,
    }
}

impl NavigationError {
    /// The text of this error (its `Display` text).
    pub fn message(&self) -> (r: String)
        ensures
            r@ == navigation_error_text(*self),
    {
        match self {
            NavigationError::InvalidPosition(p) => concat_str("Invalid position: ", usize_to_string(*p).as_str()),
            NavigationError::InvalidLine(l) => concat_str("Invalid line: ", usize_to_string(*l).as_str()),
            NavigationError::InvalidColumn(c) => concat_str("Invalid column: ", usize_to_string(*c).as_str()),
            NavigationError::TextProcessingError(m) => concat_str("Text processing error: ", m.as_str()),
            NavigationError::PerformanceConstraintViolated { duration, limit } => {
                let a = concat_str("Performance constraint violated: operation took ", duration_debug(duration).as_str());
                let b = concat_str(a.as_str(), ", limit: ");
                concat_str(b.as_str(), duration_debug(limit).as_str())
            },
            NavigationError::UnicodeError(m) => concat_str("Unicode processing error: ", m.as_str()),
        }
    }
}

/// Navigation commands.
#[derive(Debug, Clone, Copy, PartialEq, Eq, Hash, Structural)]
pub enum NavigationAction {
    MoveCharForward,
    MoveCharBackward,
    MoveLineUp,
    MoveLineDown,
    MoveLineStart,
    MoveLineEnd,
    MoveBufferStart,
    MoveBufferEnd,
    MoveWordForward,
    MoveWordBackward,
    MoveParagraphUp,
    MoveParagraphDown,
}

/// A position with its line, display column and character column.
#[derive(Debug, Clone, PartialEq, Eq, Structural)]
pub struct Position {
    pub char_pos: usize,
    pub line: usize,
    pub visual_column: usize,
    pub logical_column: usize,
}

/// Display width of a character: 2 for the wide East Asian ranges and the
/// common emoji blocks, 1 otherwise.
pub open spec fn display_width(c: char) -> nat {
    let u = c as u32;
    if u <= 0x7f {
        1
    } else if (0x1100 <= u <= 0x115f) || (0x2e80 <= u <= 0x2fdf) || (0x3000 <= u <= 0x4dbf) || (
    0x4e00 <= u <= 0xa4cf) || (0xac00 <= u <= 0xd7af) || (0xf900 <= u <= 0xfaff) || (0xfe10 <= u
        <= 0xfe1f) || (0xfe30 <= u <= 0xfe6f) || (0xff00 <= u <= 0xffef) {
        2
    } else if (0x1f300 <= u <= 0x1f64f) || (0x1f680 <= u <= 0x1faff) {
        2
    } else {
        1
    }
}

/// Display column after the first `n` characters of `line`; a tab moves to
/// the next multiple of `tab`.
pub open spec fn visual_width(line: Seq<char>, n: int, tab: int) -> int
    decreases n,
{
    if n <= 0 {
        0
    } else {
        let v = visual_width(line, n - 1, tab);
        if line[n - 1] == '\t' {
            v + tab - v % tab
        } else {
            v + display_width(line[n - 1])
        }
    }
}

/// Display column, counted from 1, just past character `logical_col` of
/// `line` (past the line's end when the line is shorter).
pub open spec fn visual_column_of(line: Seq<char>, logical_col: int, tab: int) -> int {
    1 + visual_width(line, min_int(logical_col + 1, line.len() as int), tab)
}

/// The smaller of two integers.
pub open spec fn min_int(a: int, b: int) -> int {
    if a < b {
        a
    } else {
        b
    }
}

impl Position {
    /// Display column, counted from 1, just past character `logical_col` of
    /// `line_text`; a tab reaches the next multiple of `tab_width`. A column
    /// beyond `usize::MAX` is given as `usize::MAX`.
    pub fn logical_to_visual_column(logical_col: usize, line_text: &str, tab_width: usize) -> (r:
        usize)
        requires
            tab_width > 0 || !line_text@.take(min_int(logical_col + 1, line_text@.len() as int)).contains('\t'),
        ensures
            r == min_int(visual_column_of(line_text@, logical_col as int, tab_width as int), usize::MAX as int),
    {
        let chars = chars_of(line_text);
        let count: usize = if logical_col < chars.len() { logical_col + 1 } else { chars.len() };
        let ghost n = min_int(logical_col + 1, chars@.len() as int);
        let mut visual_col: usize = 0;
        let mut i: usize = 0;
        while i < count
            invariant
                chars@ == line_text@,
                i <= n,
                n == count,
                n == min_int(logical_col + 1, chars@.len() as int),
                tab_width > 0 || !chars@.take(n).contains('\t'),
                visual_col == min_int(visual_width(chars@, i as int, tab_width as int), usize::MAX as int),
                visual_width(chars@, i as int, tab_width as int) >= 0,
            decreases count - i,
        {
            let ch = chars[i];
            proof {
                if tab_width == 0 {
                    assert(chars@.take(n)[i as int] == ch);
                }
            }
            let step: usize = if ch == '\t' {
                tab_width - (visual_col % tab_width)
            } else {
                Self::char_display_width(ch)
            };
            proof {
                let v = visual_width(chars@, i as int, tab_width as int);
                if ch == '\t' {
                    assert(v % (tab_width as int) < tab_width) by (nonlinear_arith)
                        requires
                            tab_width > 0,
                            v >= 0,
                    ;
                    if visual_col < usize::MAX {
                        assert(visual_col == v);
                    }
                }
            }
            visual_col = visual_col.saturating_add(step);
            i += 1;
        }
        visual_col.saturating_add(1)
    }

    /// Display width of one character.
    pub fn char_display_width(ch: char) -> (r: usize)
        ensures
            r == display_width(ch),
            1 <= r <= 2,
    {
        let u = ch as u32;
        if u <= 0x7f {
            1
        } else if (0x1100 <= u && u <= 0x115f) || (0x2e80 <= u && u <= 0x2fdf) || (0x3000 <= u
            && u <= 0x4dbf) || (0x4e00 <= u && u <= 0xa4cf) || (0xac00 <= u && u <= 0xd7af) || (
        0xf900 <= u && u <= 0xfaff) || (0xfe10 <= u && u <= 0xfe1f) || (0xfe30 <= u && u
            <= 0xfe6f) || (0xff00 <= u && u <= 0xffef) {
            2
        } else if (0x1f300 <= u && u <= 0x1f64f) || (0x1f680 <= u && u <= 0x1faff) {
            2
        } else {
            1
        }
    }
}

/// A line-start table: non-empty, starting at 0, strictly increasing, and
/// within the text size limit.
pub open spec fn starts_wf(s: Seq<int>) -> bool {
    &&& s.len() >= 1
    &&& s[0] == 0
    &&& forall|i: int, j: int| 0 <= i < j < s.len() ==> #[trigger] s[i] < #[trigger] s[j]
    &&& forall|i: int| 0 <= i < s.len() ==> 0 <= #[trigger] s[i] <= MAX_TEXT_CHARS
}

/// Index of the last line start at or before `pos` (0 when there is none).
pub open spec fn line_index(s: Seq<int>, pos: int) -> int
    decreases s.len(),
{
    if s.len() <= 1 {
        0
    } else if s.last() <= pos {
        s.len() - 1
    } else {
        line_index(s.drop_last(), pos)
    }
}

pub proof fn lemma_line_index_bounds(s: Seq<int>, pos: int)
    requires
        s.len() >= 1,
    ensures
        0 <= line_index(s, pos) < s.len(),
    decreases s.len(),
{
    if s.len() > 1 && s.last() > pos {
        lemma_line_index_bounds(s.drop_last(), pos);
    }
}

/// In a strictly increasing table starting at 0, the line of `pos` starts
/// at or before it and the next line starts after it.
pub proof fn lemma_line_index_brackets(s: Seq<int>, pos: int)
    requires
        s.len() >= 1,
        s[0] == 0,
        0 <= pos,
        forall|i: int, j: int| 0 <= i < j < s.len() ==> #[trigger] s[i] < #[trigger] s[j],
    ensures
        s[line_index(s, pos)] <= pos,
        line_index(s, pos) + 1 < s.len() ==> pos < s[line_index(s, pos) + 1],
    decreases s.len(),
{
    lemma_line_index_bounds(s, pos);
    if s.len() > 1 && s.last() > pos {
        let s0 = s.drop_last();
        lemma_line_index_brackets(s0, pos);
        lemma_line_index_bounds(s0, pos);
    }
}

/// Going from a position to its line and column (`pos_info` takes line
/// `line_index` and column `pos` less the line's start) and back gives the
/// position again, on a text without carriage returns and with the line
/// table of that text.
pub proof fn law_line_col_round_trip(t: Seq<char>, c: int)
    requires
        0 <= c <= t.len(),
        !t.contains('\r'),
    ensures
        ({
            let s = newline_starts(t);
            let k = line_index(s, c);
            &&& 0 <= k < s.len()
            &&& s[k] <= c
            &&& s[k] + min_int(c - s[k], line_len(t, k) as int) == c
        }),
{
    let s = newline_starts(t);
    let pieces = crate::text::newline_pieces(t);
    assert(s.len() >= 1) by {
        crate::text::lemma_newline_starts_shape(t);
    }
    lemma_line_index_bounds(s, c);
    let k = line_index(s, c);
    assert(s[k] <= c && c - s[k] <= pieces[k].len() && k < pieces.len()) by {
        crate::text::lemma_newline_starts_shape(t);
        crate::text::lemma_pieces_and_starts(t);
        lemma_line_index_brackets(s, c);
    }
    crate::text::lemma_line_len_is_piece_len(t, k);
}

/// The position information of character position `pos`, with line-start
/// table `s` over text `t`.
pub open spec fn pos_info(s: Seq<int>, t: Seq<char>, tab: int, pos: int) -> Position {
    let line = line_index(s, pos);
    let logical = pos - s[line];
    let lt = nth_line(t, line);
    Position {
        char_pos: pos as usize,
        line: line as usize,
        visual_column: min_int(visual_column_of(lt, logical, tab), usize::MAX as int) as usize,
        logical_column: logical as usize,
    }
}

/// The line of a position is the one whose start is at or before it and
/// whose successor starts after it.
pub proof fn lemma_line_index_is(s: Seq<int>, pos: int, k: int)
    requires
        0 <= k < s.len(),
        forall|i: int, j: int| 0 <= i < j < s.len() ==> #[trigger] s[i] < #[trigger] s[j],
        s[k] <= pos,
        k + 1 == s.len() || pos < s[k + 1],
    ensures
        line_index(s, pos) == k,
    decreases s.len(),
{
    if s.len() > 1 {
        if s.last() <= pos {
            if k + 1 < s.len() {
                assert(s[k + 1] <= s.last());
            }
        } else {
            assert(k + 1 < s.len());
            lemma_line_index_is(s.drop_last(), pos, k);
        }
    }
}

/// Moving a line up or down (with the line table of the text in use, on a
/// text without carriage returns) lands on the neighbouring line at the
/// preferred column (the column the run of line moves started from), or at
/// that line's end when it is shorter; the position is the line's start
/// plus that column, and a run of line moves remembers its column.
pub proof fn law_line_move_keeps_column(nav: NavigationSystem, t: Seq<char>, down: bool)
    requires
        nav.wf(),
        nav.starts(t) == newline_starts(t),
        !t.contains('\r'),
        t.len() <= MAX_TEXT_CHARS,
        nav.cursor.char_pos <= t.len(),
    ensures
        ({
            let action = if down {
                NavigationAction::MoveLineDown
            } else {
                NavigationAction::MoveLineUp
            };
            let cur = nav.info(t, nav.cursor.char_pos as int);
            let pref: int = match nav.extended_cursor.preferred_column {
                Some(p) => p as int,
                None => cur.logical_column as int,
            };
            let l: int = if down {
                cur.line + 1
            } else {
                cur.line - 1
            };
            let d = NavigationSystem::dispatch_state(nav, t, action);
            NavigationSystem::dispatch_outcome(nav, t, action) == Some(true) ==> {
                &&& d.0.line == l
                &&& d.0.column == min_int(pref, line_len(t, l) as int)
                &&& d.0.char_pos == newline_starts(t)[l] + d.0.column
                &&& d.1.preferred_column == (match nav.extended_cursor.preferred_column {
                    Some(p) => Some(p),
                    None => Some(d.0.column),
                })
            }
        }),
{
    let s = newline_starts(t);
    crate::text::lemma_newline_starts_shape(t);
    let cur = nav.info(t, nav.cursor.char_pos as int);
    lemma_line_index_bounds(s, nav.cursor.char_pos as int);
    let pref: int = match nav.extended_cursor.preferred_column {
        Some(p) => p as int,
        None => cur.logical_column as int,
    };
    assert(nav.position_engine.tab() == 4);
    if down {
        if NavigationSystem::dispatch_outcome(nav, t, NavigationAction::MoveLineDown) == Some(true) {
            let l = cur.line + 1;
            lemma_target_info(t, l, pref);
            lemma_start_at_least_index(s, l);
            let pos = line_target(s, t, l, pref);
            let info = nav.info(t, pos);
            assert(info.line == l);
            assert(info.logical_column == min_int(pref, line_len(t, l) as int));
            assert(info.char_pos == pos);
            assert(NavigationSystem::dispatch_state(nav, t, NavigationAction::MoveLineDown).0 == placed(info));
        }
    } else {
        if NavigationSystem::dispatch_outcome(nav, t, NavigationAction::MoveLineUp) == Some(true) {
            let l = cur.line - 1;
            lemma_target_info(t, l, pref);
            lemma_start_at_least_index(s, l);
            let pos = line_target(s, t, l, pref);
            let info = nav.info(t, pos);
            assert(info.line == l);
            assert(info.logical_column == min_int(pref, line_len(t, l) as int));
            assert(info.char_pos == pos);
            assert(NavigationSystem::dispatch_state(nav, t, NavigationAction::MoveLineUp).0 == placed(info));
        }
    }
}

/// The position at column `col` of line `l` (clamped to the line's end)
/// has line `l` and that clamped column.
proof fn lemma_target_info(t: Seq<char>, l: int, col: int)
    requires
        0 <= l < newline_starts(t).len(),
        col >= 0,
        !t.contains('\r'),
        t.len() <= MAX_TEXT_CHARS,
    ensures
        0 <= line_target(newline_starts(t), t, l, col) <= t.len(),
        line_index(newline_starts(t), line_target(newline_starts(t), t, l, col)) == l,
{
    let s = newline_starts(t);
    crate::text::lemma_newline_starts_shape(t);
    crate::text::lemma_pieces_and_starts(t);
    crate::text::lemma_line_len_is_piece_len(t, l);
    let pos = line_target(s, t, l, col);
    assert(pos <= s[l] + line_len(t, l));
    if l + 1 < s.len() {
        assert(s[l] + crate::text::newline_pieces(t)[l].len() == s[l + 1] - 1);
    } else {
        assert(s[l] + crate::text::newline_pieces(t)[l].len() == t.len());
    }
    lemma_line_index_is(s, pos, l);
}

/// Through the position engine: with the line table of the text in use
/// (the cache was built from this text, or is not valid), the line and
/// logical column that `char_pos_to_line_col` gives for a position lead
/// `line_col_to_char_pos` back to that position, on a text without
/// carriage returns.
pub proof fn law_engine_round_trip(e: PositionCalculator, t: Seq<char>, c: int)
    requires
        e.wf(),
        e.starts_for(t) == newline_starts(t),
        t.len() <= MAX_TEXT_CHARS,
        0 <= c <= t.len(),
        !t.contains('\r'),
    ensures
        ({
            let s = e.starts_for(t);
            let p = pos_info(s, t, e.tab(), c);
            &&& p.char_pos == c
            &&& (p.line as int) < s.len()
            &&& s[p.line as int] + min_int(p.logical_column as int, line_len(t, p.line as int) as int) == c
        }),
{
    law_line_col_round_trip(t, c);
    let s = newline_starts(t);
    crate::text::lemma_newline_starts_shape(t);
    let k = line_index(s, c);
    lemma_start_at_least_index(s, k);
}

/// In a strictly increasing table that starts at 0, entry `i` is at least `i`.
proof fn lemma_start_at_least_index(s: Seq<int>, i: int)
    requires
        0 <= i < s.len(),
        s[0] == 0,
        forall|a: int, b: int| 0 <= a < b < s.len() ==> #[trigger] s[a] < #[trigger] s[b],
    ensures
        s[i] >= i,
    decreases i,
{
    if i > 0 {
        lemma_start_at_least_index(s, i - 1);
        assert(s[i - 1] < s[i]);
    }
}

/// Line-start table and position conversions.
pub struct PositionCalculator {
    line_index_cache: Vec<usize>,
    cache_valid: bool,
    tab_width: usize,
    long_line_optimization: bool,
}

impl PositionCalculator {
    /// A valid table is well formed; the tab width is 4.
    pub closed spec fn wf(&self) -> bool {
        &&& self.tab_width == 4
        &&& self.cache_valid ==> starts_wf(usize_ints(self.line_index_cache@))
    }

    /// Whether the table is in use.
    pub closed spec fn valid(&self) -> bool {
        self.cache_valid
    }

    /// The table in use for text `t`: the cached one when valid, otherwise
    /// the one of `t`.
    pub closed spec fn starts_for(&self, t: Seq<char>) -> Seq<int> {
        if self.cache_valid {
            usize_ints(self.line_index_cache@)
        } else {
            newline_starts(t)
        }
    }

    /// Tab width used for display columns.
    pub closed spec fn tab(&self) -> int {
        self.tab_width as int
    }

    /// Whether the long-line optimisation is on.
    pub closed spec fn long_lines(&self) -> bool {
        self.long_line_optimization
    }

    /// A calculator without a table, tab width 4.
    pub fn new() -> (r: Self)
        ensures
            r.wf(),
            !r.valid(),
            r.tab() == 4,
            !r.long_lines(),
    {
        Self {
            line_index_cache: Vec::new(),
            cache_valid: false,
            tab_width: 4,
            long_line_optimization: false,
        }
    }

    proof fn lemma_starts_for(&self, t: Seq<char>)
        requires
            self.wf(),
            t.len() <= MAX_TEXT_CHARS,
        ensures
            starts_wf(self.starts_for(t)),
    {
        if !self.cache_valid {
            lemma_newline_starts_shape(t);
        }
    }

    /// Makes the table the one in use for `t`.
    fn ensure_cache(&mut self, text: &str)
        requires
            old(self).wf(),
            text@.len() <= MAX_TEXT_CHARS,
        ensures
            final(self).wf(),
            final(self).valid(),
            final(self).starts_for(text@) == old(self).starts_for(text@),
            usize_ints(final(self).line_index_cache@) == old(self).starts_for(text@),
            final(self).tab() == old(self).tab(),
            final(self).long_lines() == old(self).long_lines(),
    {
        proof {
            self.lemma_starts_for(text@);
        }
        if !self.cache_valid {
            self.rebuild_line_cache(text);
        }
    }

    /// Position information of `char_pos`.
    pub fn char_pos_to_line_col(&mut self, text: &str, char_pos: usize) -> (r:
        core::result::Result<Position, NavigationError>)
        requires
            old(self).wf(),
            text@.len() <= MAX_TEXT_CHARS,
        ensures
            final(self).wf(),
            final(self).valid(),
            final(self).starts_for(text@) == old(self).starts_for(text@),
            final(self).tab() == old(self).tab(),
            final(self).long_lines() == old(self).long_lines(),
            r matches Ok(p) && p == pos_info(
                old(self).starts_for(text@),
                text@,
                old(self).tab(),
                char_pos as int,
            ),
    {
        self.ensure_cache(text);
        let ghost s = usize_ints(self.line_index_cache@);
        proof {
            lemma_line_index_bounds(s, char_pos as int);
        }
        let mut line = self.line_index_cache.len() - 1;
        assert(s.take(line + 1) =~= s);
        while line > 0 && self.line_index_cache[line] > char_pos
            invariant
                s == usize_ints(self.line_index_cache@),
                starts_wf(s),
                line < s.len(),
                line_index(s, char_pos as int) == line_index(s.take(line + 1), char_pos as int),
            decreases line,
        {
            proof {
                assert(s.take(line + 1).drop_last() =~= s.take(line as int));
            }
            line -= 1;
        }
        proof {
            if line == 0 {
                assert(s.take(1).len() == 1);
            }
        }
        let line_start = self.line_index_cache[line];
        let logical_column = char_pos - line_start;
        let line_text = self.get_line_text(text, line);
        proof {
            lemma_nth_line_len(text@, line as int);
        }
        let visual_column = Position::logical_to_visual_column(
            logical_column,
            line_text.as_str(),
            self.tab_width,
        );
        Ok(Position { char_pos, line, visual_column, logical_column })
    }

    /// Character position of (line, column); the column is clamped to the
    /// line.
    pub fn line_col_to_char_pos(&mut self, text: &str, line: usize, logical_column: usize) -> (r:
        core::result::Result<usize, NavigationError>)
        requires
            old(self).wf(),
            text@.len() <= MAX_TEXT_CHARS,
        ensures
            final(self).wf(),
            final(self).valid(),
            final(self).starts_for(text@) == old(self).starts_for(text@),
            final(self).tab() == old(self).tab(),
            final(self).long_lines() == old(self).long_lines(),
            line >= old(self).starts_for(text@).len() ==> (r matches Err(
                NavigationError::InvalidLine(l),
            ) && l == line),
            line < old(self).starts_for(text@).len() ==> r == Ok::<usize, NavigationError>(
                (old(self).starts_for(text@)[line as int] + min_int(
                    logical_column as int,
                    line_len(text@, line as int) as int,
                )) as usize,
            ),
    {
        self.ensure_cache(text);
        if line >= self.line_index_cache.len() {
            return Err(NavigationError::InvalidLine(line));
        }
        let line_start = self.line_index_cache[line];
        let line_text = self.get_line_text(text, line);
        let line_chars = chars_of(line_text.as_str());
        let line_length = line_chars.len();
        proof {
            lemma_nth_line_len(text@, line as int);
        }
        let clamped = if logical_column < line_length { logical_column } else { line_length };
        assert(usize_ints(self.line_index_cache@)[line as int] == line_start);
        assert(line_start <= MAX_TEXT_CHARS);
        assert(clamped <= MAX_TEXT_CHARS);
        Ok(line_start + clamped)
    }

    fn rebuild_line_cache(&mut self, text: &str)
        requires
            old(self).wf(),
            text@.len() <= MAX_TEXT_CHARS,
        ensures
            final(self).wf(),
            final(self).valid(),
            usize_ints(final(self).line_index_cache@) == newline_starts(text@),
            final(self).tab() == old(self).tab(),
            final(self).long_lines() == old(self).long_lines(),
    {
        let chars = chars_of(text);
        self.line_index_cache = line_starts_of(&chars);
        self.cache_valid = true;
        proof {
            lemma_newline_starts_shape(text@);
        }
    }

    /// Line `line` of the text, or the empty string.
    fn get_line_text(&self, text: &str, line: usize) -> (r: String)
        ensures
            r@ == nth_line(text@, line as int),
    {
        let chars = chars_of(text);
        let lines = lines_of(&chars);
        if line < lines.len() {
            string_from_chars(lines[line].as_slice())
        } else {
            String::new()
        }
    }

    /// Marks the table as out of date.
    pub fn invalidate_cache(&mut self)
        requires
            old(self).wf(),
        ensures
            final(self).wf(),
            !final(self).valid(),
            final(self).tab() == old(self).tab(),
            final(self).long_lines() == old(self).long_lines(),
    {
        self.cache_valid = false;
    }

    /// Turns the long-line optimisation on.
    pub fn enable_long_line_optimization(&mut self)
        requires
            old(self).wf(),
        ensures
            final(self).wf(),
            final(self).long_lines(),
            final(self).valid() == old(self).valid(),
            forall|t: Seq<char>| final(self).starts_for(t) == old(self).starts_for(t),
            final(self).tab() == old(self).tab(),
    {
        self.long_line_optimization = true;
    }

    /// Length of the longest line of the text (0 for no lines).
    fn estimated_max_line_length(&self, text: &str) -> (r: usize)
        ensures
            forall|i: int| 0 <= i < text_lines(text@).len() ==> text_lines(text@)[i].len() <= r,
            text_lines(text@).len() == 0 ==> r == 0,
            text_lines(text@).len() > 0 ==> exists|i: int|
                0 <= i < text_lines(text@).len() && text_lines(text@)[i].len() == r,
    {
        let chars = chars_of(text);
        let lines = lines_of(&chars);
        let ghost ls = views(lines@);
        let mut best: usize = 0;
        let mut i: usize = 0;
        while i < lines.len()
            invariant
                ls == views(lines@),
                ls == text_lines(text@),
                i <= lines@.len(),
                forall|k: int| 0 <= k < i ==> ls[k].len() <= best,
                i == 0 ==> best == 0,
                i > 0 ==> exists|k: int| 0 <= k < i && ls[k].len() == best,
            decreases lines.len() - i,
        {
            let len = lines[i].len();
            if len > best || i == 0 {
                best = len;
            }
            proof {
                assert(ls[i as int].len() == len);
            }
            i += 1;
        }
        best
    }
}

/// Line `n` is no longer than the text.
pub proof fn lemma_nth_line_len(t: Seq<char>, n: int)
    ensures
        nth_line(t, n).len() <= t.len(),
        nth_line(t, n).len() == line_len(t, n),
{
    if 0 <= n < text_lines(t).len() {
        crate::text::lemma_lines_span(t);
        crate::text::lemma_span_take(text_lines(t), n);
    }
}

impl Default for PositionCalculator {
    fn default() -> (r: Self)
        ensures
            r.wf(),
            !r.valid(),
    {
        Self::new()
    }
}

/// Cursor with the column kept across vertical moves.
#[derive(Debug, Clone)]
pub struct ExtendedCursor {
    pub position: CursorPosition,
    pub preferred_column: Option<usize>,
    pub last_movement: Option<NavigationAction>,
}

/// The extended cursor after a move to `p` by `action`.
pub open spec fn ext_after(e: ExtendedCursor, p: Position, action: NavigationAction) -> ExtendedCursor {
    ExtendedCursor {
        position: CursorPosition {
            char_pos: p.char_pos,
            line: p.line,
            column: p.logical_column,
        },
        preferred_column: if action == NavigationAction::MoveLineUp || action
            == NavigationAction::MoveLineDown {
            if e.preferred_column is None {
                Some(p.logical_column)
            } else {
                e.preferred_column
            }
        } else {
            None
        },
        last_movement: Some(action),
    }
}

impl ExtendedCursor {
    /// An extended cursor at the origin with no preferred column.
    pub fn new() -> (r: Self)
        ensures
            r.position == CursorPosition::at_spec(0, 0, 0),
            r.preferred_column is None,
            r.last_movement is None,
    {
        Self { position: CursorPosition::new(), preferred_column: None, last_movement: None }
    }

    /// Records a move to `new_position`; vertical moves keep (or set) the
    /// preferred column, other moves clear it.
    pub fn update_with_line_movement(&mut self, new_position: Position, action: NavigationAction)
        ensures
            *final(self) == ext_after(*old(self), new_position, action),
    {
        if action == NavigationAction::MoveLineUp || action == NavigationAction::MoveLineDown {
            if self.preferred_column.is_none() {
                self.preferred_column = Some(new_position.logical_column);
            }
        } else {
            self.preferred_column = None;
        }
        self.position.char_pos = new_position.char_pos;
        self.position.line = new_position.line;
        self.position.column = new_position.logical_column;
        self.last_movement = Some(action);
    }
}

impl Default for ExtendedCursor {
    fn default() -> (r: Self)
        ensures
            r.preferred_column is None,
            r.last_movement is None,
    {
        Self::new()
    }
}

impl CursorPosition {
    /// The cursor at the given place.
    pub open spec fn at_spec(char_pos: usize, line: usize, column: usize) -> CursorPosition {
        CursorPosition { char_pos, line, column }
    }
}

/// Behaviour at line boundaries.
#[derive(Debug, Clone, PartialEq, Eq, Structural)]
pub enum LineWrapBehavior {
    NoWrap,
    WrapToNextLine,
    WrapToPrevLine,
}

/// Outcome of a move at a buffer boundary.
#[derive(Debug, Clone, PartialEq, Eq, Structural)]
pub enum BoundaryResult {
    Continue,
    Stopped,
    AlreadyAtBoundary,
}


/// Time limits of navigation operations.
#[derive(Debug, Clone, Copy)]
pub struct PerformanceConstraints {
    pub basic_movement_limit: Duration,
    pub long_line_limit: Duration,
    pub long_line_threshold: usize,
}

impl Default for PerformanceConstraints {
    fn default() -> (r: Self)
        ensures
            r.long_line_threshold == 1000,
    {
        Self {
            basic_movement_limit: duration_from_millis(1),
            long_line_limit: duration_from_millis(10),
            long_line_threshold: 1000,
        }
    }
}

/// Timing statistics of one navigation command.
#[derive(Debug, Clone, Copy)]
pub struct NavigationStatistics {
    pub action: NavigationAction,
    pub sample_count: usize,
    pub average_duration: Duration,
    pub median_duration: Duration,
    pub worst_duration: Duration,
}

/// Records how long navigation commands take and checks their limits. The
/// samples are kept in the order they were taken.
pub struct PerformanceMonitor {
    operation_times: Vec<(NavigationAction, Duration)>,
    constraints: PerformanceConstraints,
}

/// Whether an action counts as a basic movement (the 1 ms limit).
pub open spec fn is_basic_movement(action: NavigationAction) -> bool {
    action == NavigationAction::MoveCharForward || action == NavigationAction::MoveCharBackward
        || action == NavigationAction::MoveLineUp || action == NavigationAction::MoveLineDown
}

/// Number of samples of `action` in a sample list.
pub open spec fn samples_in(t: Seq<(NavigationAction, Duration)>, action: NavigationAction) -> nat
    decreases t.len(),
{
    if t.len() == 0 {
        0
    } else {
        samples_in(t.drop_last(), action) + if t.last().0 == action {
            1nat
        } else {
            0nat
        }
    }
}

proof fn lemma_samples_take(t: Seq<(NavigationAction, Duration)>, i: int, action: NavigationAction)
    requires
        0 <= i < t.len(),
    ensures
        samples_in(t.take(i + 1), action) == samples_in(t.take(i), action) + if t[i].0 == action {
            1nat
        } else {
            0nat
        },
{
    assert(t.take(i + 1).drop_last() =~= t.take(i));
}

impl PerformanceMonitor {
    /// The time limit of `action`: the basic one for single steps, the
    /// long-line one for the rest.
    pub closed spec fn limit_for(&self, action: NavigationAction) -> Duration {
        if action == NavigationAction::MoveCharForward || action == NavigationAction::MoveCharBackward
            || action == NavigationAction::MoveLineUp || action == NavigationAction::MoveLineDown {
            self.constraints.basic_movement_limit
        } else {
            self.constraints.long_line_limit
        }
    }

    /// Number of samples recorded for `action`.
    pub closed spec fn samples(&self, action: NavigationAction) -> nat {
        samples_in(self.operation_times@, action)
    }

    /// A monitor with no samples and the default limits.
    pub fn new() -> (r: Self)
        ensures
            forall|a: NavigationAction| r.samples(a) == 0,
    {
        Self { operation_times: Vec::new(), constraints: PerformanceConstraints::default() }
    }

    fn record(&mut self, action: NavigationAction, duration: Duration)
        ensures
            final(self).samples(action) == old(self).samples(action) + 1,
            forall|a: NavigationAction| a != action ==> final(self).samples(a) == old(self).samples(a),
    {
        let ghost before = self.operation_times@;
        self.operation_times.push((action, duration));
        assert(self.operation_times@.drop_last() =~= before);
    }

    /// Fails with `PerformanceConstraintViolated` when `duration` exceeds
    /// the limit of `action`.
    fn check_performance_constraint(&self, action: NavigationAction, duration: Duration) -> (r:
        core::result::Result<(), NavigationError>)
        ensures
            r is Err <==> nanos_of(duration) > nanos_of(self.limit_for(action)),
            r matches Err(e) ==> e == (NavigationError::PerformanceConstraintViolated {
                duration,
                limit: self.limit_for(action),
            }),
    {
        let limit = if action == NavigationAction::MoveCharForward || action
            == NavigationAction::MoveCharBackward || action == NavigationAction::MoveLineUp
            || action == NavigationAction::MoveLineDown {
            self.constraints.basic_movement_limit
        } else {
            self.constraints.long_line_limit
        };
        if duration_nanos(&duration) > duration_nanos(&limit) {
            Err(NavigationError::PerformanceConstraintViolated { duration, limit })
        } else {
            Ok(())
        }
    }

    /// Statistics of `action`, when samples were recorded for it.
    pub fn get_statistics(&self, action: NavigationAction) -> (r: Option<NavigationStatistics>)
        ensures
            self.samples(action) == 0 ==> r is None,
            self.samples(action) > 0 ==> (r matches Some(st) && st.action == action
                && st.sample_count == self.samples(action)),
    {
        let ghost t = self.operation_times@;
        let mut keyed: Vec<(u128, Duration)> = Vec::new();
        let mut i: usize = 0;
        proof {
            assert(t.take(0) =~= Seq::<(NavigationAction, Duration)>::empty());
        }
        while i < self.operation_times.len()
            invariant
                t == self.operation_times@,
                i <= t.len(),
                keyed@.len() == samples_in(t.take(i as int), action),
            decreases self.operation_times.len() - i,
        {
            proof {
                lemma_samples_take(t, i as int, action);
            }
            if self.operation_times[i].0 == action {
                let d = self.operation_times[i].1;
                keyed.push((duration_nanos(&d), d));
            }
            i += 1;
        }
        proof {
            assert(t.take(t.len() as int) =~= t);
        }
        if keyed.len() == 0 {
            return None;
        }
        let n = keyed.len();
        sort_by_nanos(&mut keyed);
        let mut sum: u128 = 0;
        let mut k: usize = 0;
        while k < keyed.len()
            invariant
                k <= keyed@.len(),
            decreases keyed.len() - k,
        {
            let add = keyed[k].0;
            sum = if sum <= u128::MAX - add { sum + add } else { u128::MAX };
            k += 1;
        }
        let count: u128 = n as u128;
        let avg: u128 = sum / count;
        let avg64: u64 = if avg <= 0xffff_ffff_ffff_ffff { avg as u64 } else { 0xffff_ffff_ffff_ffff };
        Some(
            NavigationStatistics {
                action,
                sample_count: n,
                average_duration: duration_from_nanos(avg64),
                median_duration: keyed[n / 2].1,
                worst_duration: keyed[n - 1].1,
            },
        )
    }
}

/// Sorts samples by their nanosecond keys (insertion sort); the number of
/// samples stays the same.
fn sort_by_nanos(v: &mut Vec<(u128, Duration)>)
    ensures
        final(v)@.len() == old(v)@.len(),
        forall|i: int, j: int|
            0 <= i < j < final(v)@.len() ==> #[trigger] final(v)@[i].0 <= #[trigger] final(v)@[j].0,
{
    let n = v.len();
    if n == 0 {
        return;
    }
    let mut i: usize = 1;
    while i < n
        invariant
            1 <= i <= n,
            v@.len() == n,
            forall|a: int, b: int| 0 <= a < b < i ==> #[trigger] v@[a].0 <= #[trigger] v@[b].0,
        decreases n - i,
    {
        let mut j: usize = i;
        while j > 0 && v[j - 1].0 > v[j].0
            invariant
                0 <= j <= i < n,
                v@.len() == n,
                forall|a: int, b: int|
                    0 <= a < b <= i && a != j && b != j ==> #[trigger] v@[a].0 <= #[trigger] v@[b].0,
                forall|b: int| j < b <= i ==> v@[j as int].0 <= #[trigger] v@[b].0,
            decreases j,
        {
            let x = v[j - 1];
            let y = v[j];
            v.set(j - 1, y);
            v.set(j, x);
            j -= 1;
        }
        i += 1;
    }
}


/// Target of a vertical move to `line` keeping column `col` where possible.
pub open spec fn line_target(s: Seq<int>, t: Seq<char>, line: int, col: int) -> int {
    s[line] + min_int(col, line_len(t, line) as int)
}

pub proof fn lemma_line_target_bound(s: Seq<int>, t: Seq<char>, line: int, col: int)
    requires
        starts_wf(s),
        0 <= line < s.len(),
        t.len() <= MAX_TEXT_CHARS,
        col >= 0,
    ensures
        0 <= line_target(s, t, line, col) <= 2 * MAX_TEXT_CHARS,
{
    lemma_nth_line_len(t, line);
}

/// The cursor placed at `pos` with its line and column from `info`.
pub open spec fn placed(info: Position) -> CursorPosition {
    CursorPosition { char_pos: info.char_pos, line: info.line, column: info.logical_column }
}

/// The cursor after a backward character move over `t`.
pub open spec fn nav_backward(c: CursorPosition, t: Seq<char>) -> CursorPosition {
    let p = (c.char_pos - 1) as usize;
    if t[p as int] == '\n' {
        if c.line > 0 {
            CursorPosition {
                char_pos: p,
                line: (c.line - 1) as usize,
                column: line_len(t, c.line - 1) as usize,
            }
        } else {
            CursorPosition { char_pos: p, ..c }
        }
    } else {
        CursorPosition {
            char_pos: p,
            column: if c.column > 0 {
                (c.column - 1) as usize
            } else {
                0
            },
            ..c
        }
    }
}

/// Navigation state: cursor, preferred column, position table and timing.
pub struct NavigationSystem {
    pub cursor: CursorPosition,
    pub extended_cursor: ExtendedCursor,
    pub position_engine: PositionCalculator,
    pub line_wrap_behavior: LineWrapBehavior,
    pub performance_monitor: PerformanceMonitor,
}

impl NavigationSystem {
    /// The position table is well formed.
    pub open spec fn wf(&self) -> bool {
        self.position_engine.wf()
    }

    /// Line starts in use for text `t`.
    pub open spec fn starts(&self, t: Seq<char>) -> Seq<int> {
        self.position_engine.starts_for(t)
    }

    /// Position information of `pos` over `t` with the table in use.
    pub open spec fn info(&self, t: Seq<char>, pos: int) -> Position {
        pos_info(self.starts(t), t, self.position_engine.tab(), pos)
    }

    /// A navigation system at the origin.
    pub fn new() -> (r: Self)
        ensures
            r.wf(),
            r.cursor == CursorPosition::at_spec(0, 0, 0),
            r.extended_cursor.preferred_column is None,
            r.line_wrap_behavior == LineWrapBehavior::NoWrap,
    {
        Self {
            cursor: CursorPosition::new(),
            extended_cursor: ExtendedCursor::new(),
            position_engine: PositionCalculator::new(),
            line_wrap_behavior: LineWrapBehavior::NoWrap,
            performance_monitor: PerformanceMonitor::new(),
        }
    }

    /// The cursor.
    pub fn cursor(&self) -> (r: &CursorPosition)
        ensures
            *r == self.cursor,
    {
        &self.cursor
    }

    /// The position engine, for changes; the rest of the system stays.
    pub fn position_engine(&mut self) -> (r: &mut PositionCalculator)
        ensures
            *r == old(self).position_engine,
            *final(self) == (NavigationSystem { position_engine: *final(r), ..*old(self) }),
    {
        &mut self.position_engine
    }

    /// Places the cursor.
    pub fn set_cursor(&mut self, cursor: CursorPosition)
        ensures
            *final(self) == (NavigationSystem { cursor, ..*old(self) }),
    {
        self.cursor = cursor;
    }

    /// The extended cursor.
    pub fn extended_cursor(&self) -> (r: &ExtendedCursor)
        ensures
            *r == self.extended_cursor,
    {
        &self.extended_cursor
    }

    /// Runs one navigation command, timing it. The command's effect is
    /// that of the corresponding `move_*` method; a command that succeeded
    /// but exceeded its time limit reports `PerformanceConstraintViolated`.
    pub fn navigate(&mut self, text: &str, action: NavigationAction) -> (r: core::result::Result<
        bool,
        NavigationError,
    >)
        requires
            old(self).wf(),
            Self::dispatch_allowed(*old(self), text@, action),
        ensures
            final(self).starts(text@) == old(self).starts(text@),
            final(self).wf(),
            final(self).cursor == Self::dispatch_state(*old(self), text@, action).0,
            final(self).extended_cursor == Self::dispatch_state(*old(self), text@, action).1,
            Self::dispatch_outcome(*old(self), text@, action) is None ==> r is Err,
            r matches Ok(b) ==> Self::dispatch_outcome(*old(self), text@, action) == Some(b),
            r is Err && Self::dispatch_outcome(*old(self), text@, action) is Some ==> (r matches Err(
                NavigationError::PerformanceConstraintViolated { .. },
            )),
    {
        let start = instant_now();
        let result = self.dispatch(text, action);
        let duration = elapsed(&start);
        match result {
            Ok(moved) => {
                self.performance_monitor.check_performance_constraint(action, duration)?;
                self.performance_monitor.record(action, duration);
                Ok(moved)
            },
            Err(e) => Err(e),
        }
    }

    /// What a command needs to run without an arithmetic fault.
    pub open spec fn dispatch_allowed(old_self: NavigationSystem, t: Seq<char>, action: NavigationAction) -> bool {
        &&& t.len() <= MAX_TEXT_CHARS
        &&& action == NavigationAction::MoveCharForward ==> (old_self.cursor.char_pos < t.len()
            ==> old_self.cursor.line < usize::MAX && old_self.cursor.column < usize::MAX)
        &&& action == NavigationAction::MoveCharBackward ==> old_self.cursor.char_pos <= t.len()
    }

    /// Whether command `action` succeeds, and whether it moves.
    pub open spec fn dispatch_outcome(old_self: NavigationSystem, t: Seq<char>, action: NavigationAction) -> Option<bool> {
        let cur = old_self.info(t, old_self.cursor.char_pos as int);
        match action {
            NavigationAction::MoveCharForward => Some(old_self.cursor.char_pos < t.len()),
            NavigationAction::MoveCharBackward => Some(old_self.cursor.char_pos > 0),
            NavigationAction::MoveLineUp => Some(cur.line > 0),
            NavigationAction::MoveLineDown => if cur.line + 1 >= line_count(t) {
                Some(false)
            } else if cur.line + 1 >= old_self.starts(t).len() {
                None
            } else {
                Some(true)
            },
            NavigationAction::MoveLineStart => Some(true),
            NavigationAction::MoveLineEnd => Some(true),
            NavigationAction::MoveBufferStart => Some(true),
            NavigationAction::MoveBufferEnd => Some(true),
            _ => None,
        }
    }

    /// Cursor and extended cursor after command `action`.
    pub open spec fn dispatch_state(old_self: NavigationSystem, t: Seq<char>, action: NavigationAction) -> (CursorPosition, ExtendedCursor) {
        let s = old_self.starts(t);
        let c = old_self.cursor;
        let e = old_self.extended_cursor;
        let cur = old_self.info(t, c.char_pos as int);
        let unchanged = (c, e);
        match action {
            NavigationAction::MoveCharForward => if c.char_pos < t.len() {
                (
                    cursor_after(c, t, CursorMovement::Forward).0,
                    ext_after(e, old_self.info(t, c.char_pos + 1), action),
                )
            } else {
                unchanged
            },
            NavigationAction::MoveCharBackward => if c.char_pos > 0 {
                (nav_backward(c, t), ext_after(e, old_self.info(t, c.char_pos - 1), action))
            } else {
                unchanged
            },
            NavigationAction::MoveLineUp => if cur.line > 0 {
                let pref = match e.preferred_column {
                    Some(p) => p as int,
                    None => cur.logical_column as int,
                };
                let info = old_self.info(t, line_target(s, t, cur.line - 1, pref));
                (placed(info), ext_after(e, info, action))
            } else {
                unchanged
            },
            NavigationAction::MoveLineDown => if cur.line + 1 < line_count(t) && cur.line + 1
                < s.len() {
                let pref = match e.preferred_column {
                    Some(p) => p as int,
                    None => cur.logical_column as int,
                };
                let info = old_self.info(t, line_target(s, t, cur.line + 1, pref));
                (placed(info), ext_after(e, info, action))
            } else {
                unchanged
            },
            NavigationAction::MoveLineStart => {
                let info = old_self.info(t, line_target(s, t, cur.line as int, 0));
                (placed(info), ext_after(e, info, action))
            },
            NavigationAction::MoveLineEnd => {
                let info = old_self.info(
                    t,
                    line_target(s, t, cur.line as int, line_len(t, cur.line as int) as int),
                );
                (placed(info), ext_after(e, info, action))
            },
            NavigationAction::MoveBufferStart => (
                CursorPosition { char_pos: 0, line: 0, column: 0 },
                ext_after(
                    e,
                    Position { char_pos: 0, line: 0, visual_column: 0, logical_column: 0 },
                    action,
                ),
            ),
            NavigationAction::MoveBufferEnd => (
                CursorPosition {
                    char_pos: t.len() as usize,
                    line: (line_count(t) - 1) as usize,
                    column: line_len(t, line_count(t) - 1) as usize,
                },
                ext_after(e, old_self.info(t, t.len() as int), action),
            ),
            _ => unchanged,
        }
    }

    fn dispatch(&mut self, text: &str, action: NavigationAction) -> (r: core::result::Result<
        bool,
        NavigationError,
    >)
        requires
            old(self).wf(),
            Self::dispatch_allowed(*old(self), text@, action),
        ensures
            final(self).starts(text@) == old(self).starts(text@),
            final(self).wf(),
            final(self).performance_monitor == old(self).performance_monitor,
            final(self).cursor == Self::dispatch_state(*old(self), text@, action).0,
            final(self).extended_cursor == Self::dispatch_state(*old(self), text@, action).1,
            Self::dispatch_outcome(*old(self), text@, action) is None ==> r is Err,
            Self::dispatch_outcome(*old(self), text@, action) is Some ==> r is Ok,
            r matches Ok(b) ==> Self::dispatch_outcome(*old(self), text@, action) == Some(b),
    {
        match action {
            NavigationAction::MoveCharForward => self.move_char_forward(text),
            NavigationAction::MoveCharBackward => self.move_char_backward(text),
            NavigationAction::MoveLineUp => self.move_line_up(text),
            NavigationAction::MoveLineDown => self.move_line_down(text),
            NavigationAction::MoveLineStart => self.move_line_start(text),
            NavigationAction::MoveLineEnd => self.move_line_end(text),
            NavigationAction::MoveBufferStart => self.move_buffer_start(),
            NavigationAction::MoveBufferEnd => self.move_buffer_end(text),
            _ => {
                let msg = crate::text::concat_str(
                    "Unimplemented navigation action: ",
                    action_name(action),
                );
                Err(NavigationError::TextProcessingError(msg))
            },
        }
    }

    /// Moves one character forward (C-f).
    pub fn move_char_forward(&mut self, text: &str) -> (r: core::result::Result<bool, NavigationError>)
        requires
            old(self).wf(),
            Self::dispatch_allowed(*old(self), text@, NavigationAction::MoveCharForward),
        ensures
            final(self).starts(text@) == old(self).starts(text@),
            final(self).wf(),
            final(self).performance_monitor == old(self).performance_monitor,
            r == Ok::<bool, NavigationError>(old(self).cursor.char_pos < text@.len()),
            (final(self).cursor, final(self).extended_cursor) == Self::dispatch_state(
                *old(self),
                text@,
                NavigationAction::MoveCharForward,
            ),
    {
        let chars = chars_of(text);
        if self.cursor.char_pos >= chars.len() {
            return Ok(false);
        }
        let current_char = chars[self.cursor.char_pos];
        let new_char_pos = self.cursor.char_pos + 1;
        if current_char == '\n' {
            self.cursor.line += 1;
            self.cursor.column = 0;
        } else {
            self.cursor.column += 1;
        }
        self.cursor.char_pos = new_char_pos;
        let new_position = self.position_engine.char_pos_to_line_col(text, new_char_pos)?;
        self.extended_cursor.update_with_line_movement(
            new_position,
            NavigationAction::MoveCharForward,
        );
        Ok(true)
    }

    /// Moves one character backward (C-b).
    pub fn move_char_backward(&mut self, text: &str) -> (r: core::result::Result<bool, NavigationError>)
        requires
            old(self).wf(),
            Self::dispatch_allowed(*old(self), text@, NavigationAction::MoveCharBackward),
        ensures
            final(self).starts(text@) == old(self).starts(text@),
            final(self).wf(),
            final(self).performance_monitor == old(self).performance_monitor,
            r == Ok::<bool, NavigationError>(old(self).cursor.char_pos > 0),
            (final(self).cursor, final(self).extended_cursor) == Self::dispatch_state(
                *old(self),
                text@,
                NavigationAction::MoveCharBackward,
            ),
    {
        if self.cursor.char_pos == 0 {
            return Ok(false);
        }
        let chars = chars_of(text);
        let new_char_pos = self.cursor.char_pos - 1;
        let previous_char = chars[new_char_pos];
        if previous_char == '\n' {
            if self.cursor.line > 0 {
                self.cursor.line -= 1;
                let prev_line_length = self.calculate_line_length(text, self.cursor.line);
                self.cursor.column = prev_line_length;
            }
        } else {
            if self.cursor.column > 0 {
                self.cursor.column -= 1;
            }
        }
        self.cursor.char_pos = new_char_pos;
        let new_position = self.position_engine.char_pos_to_line_col(text, new_char_pos)?;
        self.extended_cursor.update_with_line_movement(
            new_position,
            NavigationAction::MoveCharBackward,
        );
        Ok(true)
    }

    /// Moves one line up (C-p), keeping the preferred column.
    pub fn move_line_up(&mut self, text: &str) -> (r: core::result::Result<bool, NavigationError>)
        requires
            old(self).wf(),
            text@.len() <= MAX_TEXT_CHARS,
        ensures
            final(self).starts(text@) == old(self).starts(text@),
            final(self).wf(),
            final(self).performance_monitor == old(self).performance_monitor,
            r == Ok::<bool, NavigationError>(old(self).info(text@, old(self).cursor.char_pos as int).line > 0),
            (final(self).cursor, final(self).extended_cursor) == Self::dispatch_state(
                *old(self),
                text@,
                NavigationAction::MoveLineUp,
            ),
    {
        let current_pos = self.position_engine.char_pos_to_line_col(text, self.cursor.char_pos)?;
        if current_pos.line == 0 {
            return Ok(false);
        }
        let target_line = current_pos.line - 1;
        let preferred_column = match self.extended_cursor.preferred_column {
            Some(p) => p,
            None => current_pos.logical_column,
        };
        proof {
            lemma_line_index_bounds(self.position_engine.starts_for(text@), old(self).cursor.char_pos as int);
        }
        proof {
            self.position_engine.lemma_starts_for(text@);
            lemma_line_index_bounds(self.position_engine.starts_for(text@), old(self).cursor.char_pos as int);
            if target_line < self.position_engine.starts_for(text@).len() {
                lemma_line_target_bound(self.position_engine.starts_for(text@), text@, target_line as int, preferred_column as int);
            }
        }
        let target_char_pos = self.calculate_target_position_for_line_move(
            text,
            target_line,
            preferred_column,
        )?;
        self.update_cursor_position(target_char_pos, text)?;
        let new_position = self.position_engine.char_pos_to_line_col(text, target_char_pos)?;
        self.extended_cursor.update_with_line_movement(new_position, NavigationAction::MoveLineUp);
        Ok(true)
    }

    /// Moves one line down (C-n), keeping the preferred column.
    pub fn move_line_down(&mut self, text: &str) -> (r: core::result::Result<bool, NavigationError>)
        requires
            old(self).wf(),
            text@.len() <= MAX_TEXT_CHARS,
        ensures
            final(self).starts(text@) == old(self).starts(text@),
            final(self).wf(),
            final(self).performance_monitor == old(self).performance_monitor,
            Self::dispatch_outcome(*old(self), text@, NavigationAction::MoveLineDown) is None ==> (r matches Err(NavigationError::InvalidLine(l)) && l == old(self).info(text@, old(self).cursor.char_pos as int).line + 1),
            r matches Ok(b) ==> Self::dispatch_outcome(*old(self), text@, NavigationAction::MoveLineDown) == Some(b),
            Self::dispatch_outcome(*old(self), text@, NavigationAction::MoveLineDown) is Some ==> r is Ok,
            (final(self).cursor, final(self).extended_cursor) == Self::dispatch_state(
                *old(self),
                text@,
                NavigationAction::MoveLineDown,
            ),
    {
        let current_pos = self.position_engine.char_pos_to_line_col(text, self.cursor.char_pos)?;
        let total_lines = self.count_total_lines(text);
        if current_pos.line >= total_lines - 1 {
            return Ok(false);
        }
        let target_line = current_pos.line + 1;
        let preferred_column = match self.extended_cursor.preferred_column {
            Some(p) => p,
            None => current_pos.logical_column,
        };
        proof {
            self.position_engine.lemma_starts_for(text@);
            lemma_line_index_bounds(self.position_engine.starts_for(text@), old(self).cursor.char_pos as int);
            if target_line < self.position_engine.starts_for(text@).len() {
                lemma_line_target_bound(self.position_engine.starts_for(text@), text@, target_line as int, preferred_column as int);
            }
        }
        let target_char_pos = self.calculate_target_position_for_line_move(
            text,
            target_line,
            preferred_column,
        )?;
        self.update_cursor_position(target_char_pos, text)?;
        let new_position = self.position_engine.char_pos_to_line_col(text, target_char_pos)?;
        self.extended_cursor.update_with_line_movement(new_position, NavigationAction::MoveLineDown);
        Ok(true)
    }

    /// Moves to the start of the line (C-a).
    pub fn move_line_start(&mut self, text: &str) -> (r: core::result::Result<bool, NavigationError>)
        requires
            old(self).wf(),
            text@.len() <= MAX_TEXT_CHARS,
        ensures
            final(self).starts(text@) == old(self).starts(text@),
            final(self).wf(),
            final(self).performance_monitor == old(self).performance_monitor,
            r == Ok::<bool, NavigationError>(true),
            (final(self).cursor, final(self).extended_cursor) == Self::dispatch_state(
                *old(self),
                text@,
                NavigationAction::MoveLineStart,
            ),
    {
        let current_pos = self.position_engine.char_pos_to_line_col(text, self.cursor.char_pos)?;
        proof {
            lemma_line_index_bounds(self.position_engine.starts_for(text@), old(self).cursor.char_pos as int);
        }
        let target_char_pos = self.position_engine.line_col_to_char_pos(text, current_pos.line, 0)?;
        self.update_cursor_position(target_char_pos, text)?;
        let new_position = self.position_engine.char_pos_to_line_col(text, target_char_pos)?;
        self.extended_cursor.update_with_line_movement(new_position, NavigationAction::MoveLineStart);
        Ok(true)
    }

    /// Moves to the end of the line (C-e).
    pub fn move_line_end(&mut self, text: &str) -> (r: core::result::Result<bool, NavigationError>)
        requires
            old(self).wf(),
            text@.len() <= MAX_TEXT_CHARS,
        ensures
            final(self).starts(text@) == old(self).starts(text@),
            final(self).wf(),
            final(self).performance_monitor == old(self).performance_monitor,
            r == Ok::<bool, NavigationError>(true),
            (final(self).cursor, final(self).extended_cursor) == Self::dispatch_state(
                *old(self),
                text@,
                NavigationAction::MoveLineEnd,
            ),
    {
        let current_pos = self.position_engine.char_pos_to_line_col(text, self.cursor.char_pos)?;
        proof {
            lemma_line_index_bounds(self.position_engine.starts_for(text@), old(self).cursor.char_pos as int);
        }
        let line_length = self.calculate_line_length(text, current_pos.line);
        proof {
            self.position_engine.lemma_starts_for(text@);
            lemma_line_target_bound(self.position_engine.starts_for(text@), text@, current_pos.line as int, line_length as int);
        }
        let target_char_pos = self.position_engine.line_col_to_char_pos(
            text,
            current_pos.line,
            line_length,
        )?;
        self.update_cursor_position(target_char_pos, text)?;
        let new_position = self.position_engine.char_pos_to_line_col(text, target_char_pos)?;
        self.extended_cursor.update_with_line_movement(new_position, NavigationAction::MoveLineEnd);
        Ok(true)
    }

    /// Moves to the start of the buffer.
    pub fn move_buffer_start(&mut self) -> (r: core::result::Result<bool, NavigationError>)
        requires
            old(self).wf(),
        ensures
            final(self).wf(),
            final(self).position_engine == old(self).position_engine,
            final(self).performance_monitor == old(self).performance_monitor,
            r == Ok::<bool, NavigationError>(true),
            forall|t: Seq<char>| (final(self).cursor, final(self).extended_cursor) == #[trigger] Self::dispatch_state(
                *old(self),
                t,
                NavigationAction::MoveBufferStart,
            ),
    {
        self.cursor.char_pos = 0;
        self.cursor.line = 0;
        self.cursor.column = 0;
        let new_position = Position { char_pos: 0, line: 0, visual_column: 0, logical_column: 0 };
        self.extended_cursor.update_with_line_movement(
            new_position,
            NavigationAction::MoveBufferStart,
        );
        Ok(true)
    }

    /// Moves to the end of the buffer.
    pub fn move_buffer_end(&mut self, text: &str) -> (r: core::result::Result<bool, NavigationError>)
        requires
            old(self).wf(),
            text@.len() <= MAX_TEXT_CHARS,
        ensures
            final(self).starts(text@) == old(self).starts(text@),
            final(self).wf(),
            final(self).performance_monitor == old(self).performance_monitor,
            r == Ok::<bool, NavigationError>(true),
            (final(self).cursor, final(self).extended_cursor) == Self::dispatch_state(
                *old(self),
                text@,
                NavigationAction::MoveBufferEnd,
            ),
    {
        let chars = chars_of(text);
        let total_chars = chars.len();
        let total_lines = self.count_total_lines(text);
        self.cursor.char_pos = total_chars;
        self.cursor.line = total_lines - 1;
        if total_lines > 0 {
            self.cursor.column = self.calculate_line_length(text, self.cursor.line);
        } else {
            self.cursor.column = 0;
        }
        let new_position = self.position_engine.char_pos_to_line_col(text, total_chars)?;
        self.extended_cursor.update_with_line_movement(new_position, NavigationAction::MoveBufferEnd);
        Ok(true)
    }

    fn calculate_target_position_for_line_move(
        &mut self,
        text: &str,
        target_line: usize,
        preferred_column: usize,
    ) -> (r: core::result::Result<usize, NavigationError>)
        requires
            old(self).wf(),
            text@.len() <= MAX_TEXT_CHARS,
        ensures
            final(self).wf(),
            final(self).position_engine.valid(),
            final(self).starts(text@) == old(self).starts(text@),
            final(self).position_engine.tab() == old(self).position_engine.tab(),
            final(self).cursor == old(self).cursor,
            final(self).extended_cursor == old(self).extended_cursor,
            final(self).performance_monitor == old(self).performance_monitor,
            target_line >= old(self).starts(text@).len() ==> (r matches Err(NavigationError::InvalidLine(l)) && l == target_line),
            target_line < old(self).starts(text@).len() ==> r == Ok::<usize, NavigationError>(
                line_target(old(self).starts(text@), text@, target_line as int, preferred_column as int) as usize,
            ),
    {
        let target_line_length = self.calculate_line_length(text, target_line);
        let actual_column = if preferred_column < target_line_length {
            preferred_column
        } else {
            target_line_length
        };
        self.position_engine.line_col_to_char_pos(text, target_line, actual_column)
    }

    fn update_cursor_position(&mut self, new_char_pos: usize, text: &str) -> (r:
        core::result::Result<(), NavigationError>)
        requires
            old(self).wf(),
            text@.len() <= MAX_TEXT_CHARS,
        ensures
            final(self).starts(text@) == old(self).starts(text@),
            final(self).wf(),
            final(self).position_engine.valid(),
            final(self).starts(text@) == old(self).starts(text@),
            final(self).position_engine.tab() == old(self).position_engine.tab(),
            final(self).extended_cursor == old(self).extended_cursor,
            final(self).performance_monitor == old(self).performance_monitor,
            r is Ok,
            final(self).cursor == placed(old(self).info(text@, new_char_pos as int)),
    {
        let new_position = self.position_engine.char_pos_to_line_col(text, new_char_pos)?;
        self.cursor.char_pos = new_char_pos;
        self.cursor.line = new_position.line;
        self.cursor.column = new_position.logical_column;
        Ok(())
    }

    /// Length of line `line` of the text.
    fn calculate_line_length(&self, text: &str, line: usize) -> (r: usize)
        ensures
            r == line_len(text@, line as int),
    {
        crate::buffer::cursor::CursorMover::calculate_line_length(text, line)
    }

    /// Number of lines of the text (1 for an empty text).
    fn count_total_lines(&self, text: &str) -> (r: usize)
        ensures
            r == line_count(text@),
            r >= 1,
    {
        let chars = chars_of(text);
        if chars.len() == 0 {
            1
        } else {
            let lines = lines_of(&chars);
            proof {
                crate::buffer::cursor::lemma_text_lines_nonempty(chars@);
            }
            lines.len()
        }
    }

    /// How a move behaves at the start of the buffer.
    pub fn handle_buffer_start_boundary(&mut self, movement: NavigationAction) -> (r: BoundaryResult)
        ensures
            *final(self) == *old(self),
            r == (if movement == NavigationAction::MoveCharBackward || movement == NavigationAction::MoveLineUp {
                BoundaryResult::Stopped
            } else if movement == NavigationAction::MoveBufferStart {
                BoundaryResult::AlreadyAtBoundary
            } else {
                BoundaryResult::Continue
            }),
    {
        match movement {
            NavigationAction::MoveCharBackward | NavigationAction::MoveLineUp => BoundaryResult::Stopped,
            NavigationAction::MoveBufferStart => BoundaryResult::AlreadyAtBoundary,
            _ => BoundaryResult::Continue,
        }
    }

    /// How a move behaves at the end of the buffer.
    pub fn handle_buffer_end_boundary(&mut self, movement: NavigationAction, text: &str) -> (r:
        BoundaryResult)
        ensures
            *final(self) == *old(self),
            r == (if movement == NavigationAction::MoveCharForward || movement == NavigationAction::MoveLineDown {
                if old(self).cursor.char_pos >= text@.len() {
                    BoundaryResult::Stopped
                } else {
                    BoundaryResult::Continue
                }
            } else if movement == NavigationAction::MoveBufferEnd {
                if old(self).cursor.char_pos == text@.len() {
                    BoundaryResult::AlreadyAtBoundary
                } else {
                    BoundaryResult::Continue
                }
            } else {
                BoundaryResult::Continue
            }),
    {
        let total_chars = chars_of(text).len();
        match movement {
            NavigationAction::MoveCharForward | NavigationAction::MoveLineDown => {
                if self.cursor.char_pos >= total_chars {
                    BoundaryResult::Stopped
                } else {
                    BoundaryResult::Continue
                }
            },
            NavigationAction::MoveBufferEnd => {
                if self.cursor.char_pos == total_chars {
                    BoundaryResult::AlreadyAtBoundary
                } else {
                    BoundaryResult::Continue
                }
            },
            _ => BoundaryResult::Continue,
        }
    }

    /// Moves in an empty file: the buffer ends pin the cursor to the origin.
    pub fn handle_empty_file_navigation(&mut self, movement: NavigationAction) -> (r: BoundaryResult)
        ensures
            (movement == NavigationAction::MoveBufferStart || movement == NavigationAction::MoveBufferEnd) ==> (
                r == BoundaryResult::AlreadyAtBoundary && *final(self) == (NavigationSystem {
                    cursor: CursorPosition { char_pos: 0, line: 0, column: 0 },
                    ..*old(self)
                })),
            !(movement == NavigationAction::MoveBufferStart || movement == NavigationAction::MoveBufferEnd) ==> (
                r == BoundaryResult::Stopped && *final(self) == *old(self)),
    {
        match movement {
            NavigationAction::MoveBufferStart | NavigationAction::MoveBufferEnd => {
                self.cursor.char_pos = 0;
                self.cursor.line = 0;
                self.cursor.column = 0;
                BoundaryResult::AlreadyAtBoundary
            },
            _ => BoundaryResult::Stopped,
        }
    }

    /// Clamps the cursor into the text and recomputes its line and column;
    /// the position table is then marked out of date.
    pub fn recover_from_invalid_position(&mut self, text: &str) -> (r: core::result::Result<(), NavigationError>)
        requires
            old(self).wf(),
            text@.len() <= MAX_TEXT_CHARS,
        ensures
            final(self).wf(),
            r is Ok,
            !final(self).position_engine.valid(),
            final(self).extended_cursor == old(self).extended_cursor,
            final(self).cursor == placed(old(self).info(text@, min_int(old(self).cursor.char_pos as int, text@.len() as int))),
    {
        let total_chars = chars_of(text).len();
        if self.cursor.char_pos > total_chars {
            self.cursor.char_pos = total_chars;
        }
        let corrected_pos = self.position_engine.char_pos_to_line_col(text, self.cursor.char_pos)?;
        self.cursor.line = corrected_pos.line;
        self.cursor.column = corrected_pos.logical_column;
        self.position_engine.invalidate_cache();
        Ok(())
    }

    /// Timing statistics of a command.
    pub fn get_performance_statistics(&self, action: NavigationAction) -> (r: Option<NavigationStatistics>)
        ensures
            self.performance_monitor.samples(action) == 0 ==> r is None,
            self.performance_monitor.samples(action) > 0 ==> (r matches Some(st) && st.sample_count == self.performance_monitor.samples(action)),
    {
        self.performance_monitor.get_statistics(action)
    }
}

impl Default for NavigationSystem {
    fn default() -> (r: Self)
        ensures
            r.wf(),
            r.cursor == CursorPosition::at_spec(0, 0, 0),
    {
        Self::new()
    }
}

/// The name of a navigation command, as its `Debug` form shows it.
pub open spec fn action_text(action: NavigationAction) -> Seq<char> {
    match action {
        NavigationAction::MoveCharForward => "MoveCharForward"@,
        NavigationAction::MoveCharBackward => "MoveCharBackward"@,
        NavigationAction::MoveLineUp => "MoveLineUp"@,
        NavigationAction::MoveLineDown => "MoveLineDown"@,
        NavigationAction::MoveLineStart => "MoveLineStart"@,
        NavigationAction::MoveLineEnd => "MoveLineEnd"@,
        NavigationAction::MoveBufferStart => "MoveBufferStart"@,
        NavigationAction::MoveBufferEnd => "MoveBufferEnd"@,
        NavigationAction::MoveWordForward => "MoveWordForward"@,
        NavigationAction::MoveWordBackward => "MoveWordBackward"@,
        NavigationAction::MoveParagraphUp => "MoveParagraphUp"@,
        NavigationAction::MoveParagraphDown => "MoveParagraphDown"@,
    }
}

/// Name of a navigation command, as its `Debug` form shows it.
pub fn action_name(action: NavigationAction) -> (r: &'static str)
    ensures
        r@ == action_text(action),
{
    match action {
        NavigationAction::MoveCharForward => "MoveCharForward",
        NavigationAction::MoveCharBackward => "MoveCharBackward",
        NavigationAction::MoveLineUp => "MoveLineUp",
        NavigationAction::MoveLineDown => "MoveLineDown",
        NavigationAction::MoveLineStart => "MoveLineStart",
        NavigationAction::MoveLineEnd => "MoveLineEnd",
        NavigationAction::MoveBufferStart => "MoveBufferStart",
        NavigationAction::MoveBufferEnd => "MoveBufferEnd",
        NavigationAction::MoveWordForward => "MoveWordForward",
        NavigationAction::MoveWordBackward => "MoveWordBackward",
        NavigationAction::MoveParagraphUp => "MoveParagraphUp",
        NavigationAction::MoveParagraphDown => "MoveParagraphDown",
    }
}

/// The navigation state after `k` moves by `action` from `nav` over `t`,
/// each going where the navigation system moves the cursor.
pub open spec fn walked(nav: NavigationSystem, t: Seq<char>, action: NavigationAction, k: nat) -> NavigationSystem
    decreases k,
{
    if k == 0 {
        nav
    } else {
        let prev = walked(nav, t, action, (k - 1) as nat);
        let d = NavigationSystem::dispatch_state(prev, t, action);
        NavigationSystem { cursor: d.0, extended_cursor: d.1, ..prev }
    }
}

/// Each of the first `k` moves of that walk moves the cursor.
pub open spec fn walk_open(nav: NavigationSystem, t: Seq<char>, action: NavigationAction, k: nat) -> bool {
    forall|j: nat| j < k ==> NavigationSystem::dispatch_outcome(#[trigger] walked(nav, t, action, j), t, action) == Some(true)
}

/// Two sound navigation states with the same cursor, extended cursor and
/// line table for `t`.
pub open spec fn same_course(a: NavigationSystem, b: NavigationSystem, t: Seq<char>) -> bool {
    &&& a.cursor == b.cursor
    &&& a.extended_cursor == b.extended_cursor
    &&& a.starts(t) == b.starts(t)
    &&& a.wf()
    &&& b.wf()
}

/// Navigation states on the same course move alike.
pub proof fn lemma_same_course_moves_alike(a: NavigationSystem, b: NavigationSystem, t: Seq<char>, action: NavigationAction)
    requires
        same_course(a, b, t),
    ensures
        NavigationSystem::dispatch_state(a, t, action) == NavigationSystem::dispatch_state(b, t, action),
        NavigationSystem::dispatch_outcome(a, t, action) == NavigationSystem::dispatch_outcome(b, t, action),
        NavigationSystem::dispatch_allowed(a, t, action) == NavigationSystem::dispatch_allowed(b, t, action),
{
    assert(a.position_engine.tab() == b.position_engine.tab());
    assert(forall|p: int| #[trigger] a.info(t, p) == b.info(t, p));
}

/// A state on the course of a walk that takes a move which moves the
/// cursor, and lands as the navigation system says, is on the course of
/// the walk one move longer.
pub proof fn lemma_walk_step(
    nav: NavigationSystem,
    t: Seq<char>,
    action: NavigationAction,
    i: nat,
    cur: NavigationSystem,
    next: NavigationSystem,
)
    requires
        nav.wf(),
        walk_open(nav, t, action, i),
        same_course(cur, walked(nav, t, action, i), t),
        NavigationSystem::dispatch_outcome(cur, t, action) == Some(true),
        next.cursor == NavigationSystem::dispatch_state(cur, t, action).0,
        next.extended_cursor == NavigationSystem::dispatch_state(cur, t, action).1,
        next.starts(t) == cur.starts(t),
        next.wf(),
    ensures
        walk_open(nav, t, action, i + 1),
        same_course(next, walked(nav, t, action, i + 1), t),
{
    let w = walked(nav, t, action, i);
    lemma_same_course_moves_alike(cur, w, t, action);
    assert(walked(nav, t, action, i + 1) == (NavigationSystem {
        cursor: NavigationSystem::dispatch_state(w, t, action).0,
        extended_cursor: NavigationSystem::dispatch_state(w, t, action).1,
        ..w
    }));
    assert forall|j: nat| j < i + 1 implies NavigationSystem::dispatch_outcome(
        #[trigger] walked(nav, t, action, j),
        t,
        action,
    ) == Some(true) by {
        if j < i {
        }
    }
}

} // verus!
