//! Cursor position and cursor movement over a text.
use crate::text::{
    chars_of, lemma_lines_span, lemma_span_take, line_col_position, line_count, line_len,
    line_length_in, lines_of, lines_span, position_in_lines, text_lines, views, MAX_TEXT_CHARS,
};
use vstd::prelude::*;

verus! {

/// Position of the cursor: character index, line and column (all from 0).
#[derive(Debug, Clone, Copy, PartialEq, Eq, Structural)]
pub struct CursorPosition {
    pub char_pos: usize,
    pub line: usize,
    pub column: usize,
}

impl CursorPosition {
    /// Position 0, line 0, column 0.
    pub open spec fn origin() -> CursorPosition {
        CursorPosition { char_pos: 0, line: 0, column: 0 }
    }

    /// The cursor at the origin.
    pub fn new() -> (r: Self)
        ensures
            r == (CursorPosition { char_pos: 0, line: 0, column: 0 }),
    {
        Self { char_pos: 0, line: 0, column: 0 }
    }

    /// A cursor at the given place.
    pub fn at(char_pos: usize, line: usize, column: usize) -> (r: Self)
        ensures
            r == (CursorPosition { char_pos, line, column }),
    {
        Self { char_pos, line, column }
    }

    /// Moves the cursor to the origin.
    pub fn move_to_origin(&mut self)
        ensures
            *final(self) == (CursorPosition { char_pos: 0, line: 0, column: 0 }),
    {
        self.char_pos = 0;
        self.line = 0;
        self.column = 0;
    }

    /// Moves the cursor to the given place.
    pub fn move_to(&mut self, char_pos: usize, line: usize, column: usize)
        ensures
            *final(self) == (CursorPosition { char_pos, line, column }),
    {
        self.char_pos = char_pos;
        self.line = line;
        self.column = column;
    }

    /// Moves every coordinate by a signed amount, stopping at 0.
    pub fn move_by(&mut self, char_delta: isize, line_delta: isize, column_delta: isize)
        requires
            old(self).char_pos <= isize::MAX,
            old(self).line <= isize::MAX,
            old(self).column <= isize::MAX,
            isize::MIN <= old(self).char_pos + char_delta <= isize::MAX,
            isize::MIN <= old(self).line + line_delta <= isize::MAX,
            isize::MIN <= old(self).column + column_delta <= isize::MAX,
        ensures
            final(self).char_pos == clamp_zero(old(self).char_pos + char_delta),
            final(self).line == clamp_zero(old(self).line + line_delta),
            final(self).column == clamp_zero(old(self).column + column_delta),
    {
        self.char_pos = shift(self.char_pos, char_delta);
        self.line = shift(self.line, line_delta);
        self.column = shift(self.column, column_delta);
    }

    /// Moves one character back, without looking at the text.
    pub fn move_backward(&mut self)
        ensures
            old(self).char_pos == 0 ==> *final(self) == *old(self),
            old(self).char_pos > 0 ==> final(self).char_pos == old(self).char_pos - 1,
            old(self).char_pos > 0 && old(self).column > 0 ==> final(self).line == old(self).line && final(self).column == old(self).column - 1,
            old(self).char_pos > 0 && old(self).column == 0 && old(self).line > 0 ==> final(self).line == old(self).line - 1 && final(self).column == 0,
            old(self).char_pos > 0 && old(self).column == 0 && old(self).line == 0 ==> final(self).line == 0 && final(self).column == 0,
    {
        if self.char_pos > 0 {
            self.char_pos -= 1;
            if self.column > 0 {
                self.column -= 1;
            } else if self.line > 0 {
                self.line -= 1;
                self.column = 0;
            }
        }
    }

    /// Moves one character forward, without looking at the text.
    pub fn move_forward(&mut self)
        requires
            old(self).char_pos < usize::MAX,
            old(self).column < usize::MAX,
        ensures
            *final(self) == (CursorPosition {
                char_pos: (old(self).char_pos + 1) as usize,
                line: old(self).line,
                column: (old(self).column + 1) as usize,
            }),
    {
        self.char_pos += 1;
        self.column += 1;
    }

    /// Moves one line up, without looking at the text.
    pub fn move_up(&mut self)
        ensures
            final(self).char_pos == old(self).char_pos,
            final(self).column == old(self).column,
            final(self).line == (if old(self).line > 0 {
                old(self).line - 1
            } else {
                0
            }),
    {
        if self.line > 0 {
            self.line -= 1;
        }
    }

    /// Moves one line down, without looking at the text.
    pub fn move_down(&mut self)
        requires
            old(self).line < usize::MAX,
        ensures
            *final(self) == (CursorPosition {
                char_pos: old(self).char_pos,
                line: (old(self).line + 1) as usize,
                column: old(self).column,
            }),
    {
        self.line += 1;
    }

    /// Moves to column 0, without looking at the text.
    pub fn move_to_line_start(&mut self)
        ensures
            *final(self) == (CursorPosition { column: 0, ..*old(self) }),
    {
        self.column = 0;
    }

    /// Moving to the end of the line needs the text; this leaves the cursor
    /// unchanged.
    pub fn move_to_line_end(&mut self)
        ensures
            *final(self) == *old(self),
    {
    }
}

/// `x + d` clamped at 0.
pub open spec fn clamp_zero(x: int) -> int {
    if x < 0 {
        0
    } else {
        x
    }
}

fn shift(x: usize, d: isize) -> (r: usize)
    requires
        x <= isize::MAX,
        isize::MIN <= x + d <= isize::MAX,
    ensures
        r == clamp_zero(x + d),
{
    let s: isize = x as isize + d;
    if s < 0 {
        0
    } else {
        s as usize
    }
}

impl Default for CursorPosition {
    fn default() -> (r: Self)
        ensures
            r == (CursorPosition { char_pos: 0, line: 0, column: 0 }),
    {
        Self::new()
    }
}

/// Kinds of cursor movement.
#[derive(Debug, Clone, Copy, PartialEq, Eq, Structural)]
pub enum CursorMovement {
    Forward,
    Backward,
    Up,
    Down,
    LineStart,
    LineEnd,
    BufferStart,
    BufferEnd,
}

/// Whether a movement can be made without an arithmetic fault.
pub open spec fn movement_allowed(c: CursorPosition, t: Seq<char>, m: CursorMovement) -> bool {
    &&& t.len() <= MAX_TEXT_CHARS
    &&& match m {
        CursorMovement::Forward => c.char_pos < t.len() ==> c.line < usize::MAX && c.column
            < usize::MAX,
        CursorMovement::Backward => c.char_pos > 0 ==> {
            &&& c.char_pos <= t.len()
            &&& t[c.char_pos - 1] == '\n' ==> c.line > 0
            &&& t[c.char_pos - 1] != '\n' ==> c.column > 0
        },
        _ => true,
    }
}

/// The cursor after a movement over text `t`, and whether it moved.
pub open spec fn cursor_after(c: CursorPosition, t: Seq<char>, m: CursorMovement) -> (
    CursorPosition,
    bool,
) {
    let ls = text_lines(t);
    match m {
        CursorMovement::Forward => if c.char_pos < t.len() {
            if t[c.char_pos as int] == '\n' {
                (
                    CursorPosition {
                        char_pos: (c.char_pos + 1) as usize,
                        line: (c.line + 1) as usize,
                        column: 0,
                    },
                    true,
                )
            } else {
                (
                    CursorPosition {
                        char_pos: (c.char_pos + 1) as usize,
                        line: c.line,
                        column: (c.column + 1) as usize,
                    },
                    true,
                )
            }
        } else {
            (c, false)
        },
        CursorMovement::Backward => if c.char_pos > 0 {
            if t[c.char_pos - 1] == '\n' {
                (
                    CursorPosition {
                        char_pos: (c.char_pos - 1) as usize,
                        line: (c.line - 1) as usize,
                        column: line_len(t, c.line - 1) as usize,
                    },
                    true,
                )
            } else {
                (
                    CursorPosition {
                        char_pos: (c.char_pos - 1) as usize,
                        line: c.line,
                        column: (c.column - 1) as usize,
                    },
                    true,
                )
            }
        } else {
            (c, false)
        },
        CursorMovement::Up => if c.line > 0 {
            let l = (c.line - 1) as int;
            let col = if c.column < line_len(t, l) {
                c.column as int
            } else {
                line_len(t, l) as int
            };
            (
                CursorPosition {
                    char_pos: line_col_position(ls, l, col) as usize,
                    line: l as usize,
                    column: col as usize,
                },
                true,
            )
        } else {
            (c, false)
        },
        CursorMovement::Down => if c.line + 1 < line_count(t) {
            let l = c.line + 1;
            let col = if c.column < line_len(t, l) {
                c.column as int
            } else {
                line_len(t, l) as int
            };
            (
                CursorPosition {
                    char_pos: line_col_position(ls, l, col) as usize,
                    line: l as usize,
                    column: col as usize,
                },
                true,
            )
        } else {
            (c, false)
        },
        CursorMovement::LineStart => (
            CursorPosition {
                char_pos: line_col_position(ls, c.line as int, 0) as usize,
                line: c.line,
                column: 0,
            },
            true,
        ),
        CursorMovement::LineEnd => (
            CursorPosition {
                char_pos: line_col_position(ls, c.line as int, line_len(t, c.line as int) as int)
                    as usize,
                line: c.line,
                column: line_len(t, c.line as int) as usize,
            },
            true,
        ),
        CursorMovement::BufferStart => (CursorPosition { char_pos: 0, line: 0, column: 0 }, true),
        CursorMovement::BufferEnd => (
            CursorPosition {
                char_pos: t.len() as usize,
                line: if ls.len() > 0 {
                    (ls.len() - 1) as usize
                } else {
                    0
                },
                column: if ls.len() > 0 {
                    ls.last().len() as usize
                } else {
                    0
                },
            },
            true,
        ),
    }
}

/// Cursor movement that looks at the text.
pub struct CursorMover;

impl CursorMover {
    /// Moves `cursor` over `text`; returns whether it moved.
    pub fn move_cursor(cursor: &mut CursorPosition, text: &str, movement: CursorMovement) -> (r:
        bool)
        requires
            movement_allowed(*old(cursor), text@, movement),
        ensures
            (*final(cursor), r) == cursor_after(*old(cursor), text@, movement),
    {
        let chars = chars_of(text);
        let lines = lines_of(&chars);
        proof {
            lemma_lines_span(chars@);
        }
        match movement {
            CursorMovement::Forward => Self::move_forward(cursor, &chars),
            CursorMovement::Backward => Self::move_backward(cursor, &chars, &lines),
            CursorMovement::Up => Self::move_up(cursor, &chars, &lines),
            CursorMovement::Down => Self::move_down(cursor, &chars, &lines),
            CursorMovement::LineStart => Self::move_to_line_start(cursor, &chars, &lines),
            CursorMovement::LineEnd => Self::move_to_line_end(cursor, &chars, &lines),
            CursorMovement::BufferStart => Self::move_to_buffer_start(cursor),
            CursorMovement::BufferEnd => Self::move_to_buffer_end(cursor, &chars, &lines),
        }
    }

    fn move_forward(cursor: &mut CursorPosition, chars: &Vec<char>) -> (r: bool)
        requires
            movement_allowed(*old(cursor), chars@, CursorMovement::Forward),
        ensures
            (*final(cursor), r) == cursor_after(*old(cursor), chars@, CursorMovement::Forward),
    {
        if cursor.char_pos < chars.len() {
            let ch = chars[cursor.char_pos];
            cursor.char_pos += 1;
            if ch == '\n' {
                cursor.line += 1;
                cursor.column = 0;
            } else {
                cursor.column += 1;
            }
            true
        } else {
            false
        }
    }

    fn move_backward(cursor: &mut CursorPosition, chars: &Vec<char>, lines: &Vec<Vec<char>>) -> (r:
        bool)
        requires
            movement_allowed(*old(cursor), chars@, CursorMovement::Backward),
            views(lines@) == text_lines(chars@),
        ensures
            (*final(cursor), r) == cursor_after(*old(cursor), chars@, CursorMovement::Backward),
    {
        if cursor.char_pos > 0 {
            cursor.char_pos -= 1;
            let ch = chars[cursor.char_pos];
            if ch == '\n' {
                cursor.line -= 1;
                cursor.column = line_length_in(lines, cursor.line);
            } else {
                cursor.column -= 1;
            }
            true
        } else {
            false
        }
    }

    fn move_up(cursor: &mut CursorPosition, chars: &Vec<char>, lines: &Vec<Vec<char>>) -> (r: bool)
        requires
            chars@.len() <= MAX_TEXT_CHARS,
            views(lines@) == text_lines(chars@),
        ensures
            (*final(cursor), r) == cursor_after(*old(cursor), chars@, CursorMovement::Up),
    {
        proof {
            lemma_lines_span(chars@);
        }
        if cursor.line > 0 {
            let target_line = cursor.line - 1;
            let target_column = cursor.column;
            let len = line_length_in(lines, target_line);
            cursor.line = target_line;
            cursor.column = if target_column < len { target_column } else { len };
            cursor.char_pos = position_in_lines(lines, cursor.line, cursor.column);
            true
        } else {
            false
        }
    }

    fn move_down(cursor: &mut CursorPosition, chars: &Vec<char>, lines: &Vec<Vec<char>>) -> (r:
        bool)
        requires
            chars@.len() <= MAX_TEXT_CHARS,
            views(lines@) == text_lines(chars@),
        ensures
            (*final(cursor), r) == cursor_after(*old(cursor), chars@, CursorMovement::Down),
    {
        proof {
            lemma_lines_span(chars@);
        }
        let total_lines = Self::count_lines(chars, lines);
        if cursor.line < total_lines - 1 {
            let target_line = cursor.line + 1;
            let target_column = cursor.column;
            let len = line_length_in(lines, target_line);
            cursor.line = target_line;
            cursor.column = if target_column < len { target_column } else { len };
            cursor.char_pos = position_in_lines(lines, cursor.line, cursor.column);
            true
        } else {
            false
        }
    }

    fn move_to_line_start(cursor: &mut CursorPosition, chars: &Vec<char>, lines: &Vec<Vec<char>>) -> (r:
        bool)
        requires
            chars@.len() <= MAX_TEXT_CHARS,
            views(lines@) == text_lines(chars@),
        ensures
            (*final(cursor), r) == cursor_after(*old(cursor), chars@, CursorMovement::LineStart),
    {
        proof {
            lemma_lines_span(chars@);
        }
        cursor.column = 0;
        cursor.char_pos = position_in_lines(lines, cursor.line, 0);
        true
    }

    fn move_to_line_end(cursor: &mut CursorPosition, chars: &Vec<char>, lines: &Vec<Vec<char>>) -> (r:
        bool)
        requires
            chars@.len() <= MAX_TEXT_CHARS,
            views(lines@) == text_lines(chars@),
        ensures
            (*final(cursor), r) == cursor_after(*old(cursor), chars@, CursorMovement::LineEnd),
    {
        proof {
            lemma_lines_span(chars@);
        }
        let line_length = line_length_in(lines, cursor.line);
        cursor.column = line_length;
        cursor.char_pos = position_in_lines(lines, cursor.line, line_length);
        true
    }

    fn move_to_buffer_start(cursor: &mut CursorPosition) -> (r: bool)
        ensures
            *final(cursor) == (CursorPosition { char_pos: 0, line: 0, column: 0 }),
            r,
    {
        cursor.char_pos = 0;
        cursor.line = 0;
        cursor.column = 0;
        true
    }

    fn move_to_buffer_end(cursor: &mut CursorPosition, chars: &Vec<char>, lines: &Vec<Vec<char>>) -> (r:
        bool)
        requires
            views(lines@) == text_lines(chars@),
        ensures
            (*final(cursor), r) == cursor_after(*old(cursor), chars@, CursorMovement::BufferEnd),
    {
        cursor.char_pos = chars.len();
        cursor.line = if lines.len() > 0 { lines.len() - 1 } else { 0 };
        cursor.column = if lines.len() == 0 { 0 } else { lines[cursor.line].len() };
        true
    }

    /// Length of line `line` of the text, 0 when there is no such line.
    pub fn calculate_line_length(text: &str, line: usize) -> (r: usize)
        ensures
            r == line_len(text@, line as int),
    {
        let chars = chars_of(text);
        let lines = lines_of(&chars);
        line_length_in(&lines, line)
    }

    fn count_lines(chars: &Vec<char>, lines: &Vec<Vec<char>>) -> (r: usize)
        requires
            views(lines@) == text_lines(chars@),
        ensures
            r == line_count(chars@),
            r >= 1,
    {
        if chars.len() == 0 {
            1
        } else {
            proof {
                lemma_text_lines_nonempty(chars@);
            }
            lines.len()
        }
    }

    /// Character position of (line, column) in the text.
    pub fn calculate_char_position(text: &str, line: usize, column: usize) -> (r: usize)
        requires
            text@.len() <= MAX_TEXT_CHARS,
        ensures
            r == line_col_position(text_lines(text@), line as int, column as int),
    {
        let chars = chars_of(text);
        let lines = lines_of(&chars);
        proof {
            lemma_lines_span(chars@);
        }
        position_in_lines(&lines, line, column)
    }
}

/// A non-empty text has at least one line.
pub proof fn lemma_text_lines_nonempty(s: Seq<char>)
    requires
        s.len() > 0,
    ensures
        text_lines(s).len() >= 1,
{
    crate::text::lemma_newline_pieces_nonempty(s);
    let p = crate::text::newline_pieces(s);
    if p.last().len() == 0 {
        lemma_last_piece_empty_has_newline(s);
    }
}

proof fn lemma_last_piece_empty_has_newline(s: Seq<char>)
    requires
        s.len() > 0,
        crate::text::newline_pieces(s).last().len() == 0,
    ensures
        crate::text::newline_pieces(s).len() >= 2,
{
    crate::text::lemma_newline_pieces_nonempty(s.drop_last());
}

/// Each of the first `k` lines adds at least its separator to the span.
proof fn lemma_span_counts_lines(ls: Seq<Seq<char>>, k: int)
    requires
        0 <= k <= ls.len(),
    ensures
        lines_span(ls.take(k)) >= k,
    decreases k,
{
    if k > 0 {
        lemma_span_counts_lines(ls, k - 1);
        lemma_span_take(ls, k - 1);
    } else {
        assert(ls.take(0) =~= Seq::<Seq<char>>::empty());
    }
}

/// Moving a line up or down keeps the column where the target line is long
/// enough, and otherwise stops at that line's end: after a move that
/// happened, the cursor is on the neighbouring line, its column is the
/// smaller of the old column and that line's length, and its position is
/// the start of that line plus the column.
pub proof fn law_vertical_move_keeps_column(c: CursorPosition, t: Seq<char>, m: CursorMovement)
    requires
        m == CursorMovement::Up || m == CursorMovement::Down,
        t.len() <= MAX_TEXT_CHARS,
        cursor_after(c, t, m).1,
    ensures
        ({
            let n = cursor_after(c, t, m).0;
            let l: int = if m == CursorMovement::Down {
                c.line + 1
            } else {
                c.line - 1
            };
            &&& n.line == l
            &&& n.column as int == if (c.column as int) < line_len(t, l) {
                c.column as int
            } else {
                line_len(t, l) as int
            }
            &&& n.column <= line_len(t, l)
            &&& n.char_pos == line_col_position(text_lines(t), l, 0) + n.column
        }),
{
    let ls = text_lines(t);
    let l: int = if m == CursorMovement::Down {
        c.line + 1
    } else {
        c.line - 1
    };
    lemma_lines_span(t);
    lemma_span_counts_lines(ls, ls.len() as int);
    lemma_span_take(ls, ls.len() as int);
    assert(ls.take(ls.len() as int) =~= ls);
    let col: int = if (c.column as int) < line_len(t, l) {
        c.column as int
    } else {
        line_len(t, l) as int
    };
    if 0 <= l < ls.len() {
        lemma_span_take(ls, l);
        assert(line_len(t, l) == ls[l].len());
        assert(line_col_position(ls, l, 0) == lines_span(ls.take(l)));
        assert(line_col_position(ls, l, col) == lines_span(ls.take(l)) + col);
    } else {
        assert(line_col_position(ls, l, 0) == lines_span(ls));
        assert(col == 0);
    }
    assert(0 <= line_col_position(ls, l, col) <= usize::MAX);
    assert(cursor_after(c, t, m).0.char_pos == line_col_position(ls, l, col));
}

/// A step forward and a step back undo each other: within a line the
/// cursor comes back exactly; across a newline it comes back to the same
/// position and line, at the end of that line (going back) or at column 0
/// (going forward again).
pub proof fn law_forward_back_undo(c: CursorPosition, t: Seq<char>)
    requires
        t.len() <= MAX_TEXT_CHARS,
        c.line < usize::MAX,
        c.column < usize::MAX,
    ensures
        c.char_pos < t.len() ==> ({
            let f = cursor_after(c, t, CursorMovement::Forward);
            let b = cursor_after(f.0, t, CursorMovement::Backward);
            &&& f.1 && b.1
            &&& f.0.char_pos == c.char_pos + 1
            &&& t[c.char_pos as int] != '\n' ==> b.0 == c
            &&& t[c.char_pos as int] == '\n' ==> b.0 == (CursorPosition {
                column: line_len(t, c.line as int) as usize,
                ..c
            })
        }),
        0 < c.char_pos <= t.len() && c.column > 0 && c.line > 0 ==> ({
            let b = cursor_after(c, t, CursorMovement::Backward);
            let f = cursor_after(b.0, t, CursorMovement::Forward);
            &&& b.1 && f.1
            &&& b.0.char_pos == c.char_pos - 1
            &&& t[c.char_pos - 1] != '\n' ==> f.0 == c
        }),
        0 < c.char_pos <= t.len() && t[c.char_pos - 1] == '\n' && c.line > 0 ==> cursor_after(
            cursor_after(c, t, CursorMovement::Backward).0,
            t,
            CursorMovement::Forward,
        ).0 == (CursorPosition { column: 0, ..c }),
        c.char_pos == t.len() ==> cursor_after(c, t, CursorMovement::Forward) == (c, false),
        c.char_pos == 0 ==> cursor_after(c, t, CursorMovement::Backward) == (c, false),
{
}

/// Line start and line end stay on the cursor's line: the start is column
/// 0 at the line's first position, the end is the column of the line's
/// length at the line's start plus that length.
pub proof fn law_line_start_end(c: CursorPosition, t: Seq<char>)
    requires
        t.len() <= MAX_TEXT_CHARS,
    ensures
        ({
            let s = cursor_after(c, t, CursorMovement::LineStart).0;
            let e = cursor_after(c, t, CursorMovement::LineEnd).0;
            let start = line_col_position(text_lines(t), c.line as int, 0);
            &&& s.line == c.line && s.column == 0 && s.char_pos == start
            &&& e.line == c.line && e.column == line_len(t, c.line as int) && e.char_pos == start + e.column
        }),
{
    let ls = text_lines(t);
    let l = c.line as int;
    lemma_lines_span(t);
    lemma_span_counts_lines(ls, ls.len() as int);
    lemma_span_take(ls, ls.len() as int);
    assert(ls.take(ls.len() as int) =~= ls);
    if l < ls.len() {
        lemma_span_take(ls, l);
        assert(line_len(t, l) == ls[l].len());
    }
}

} // verus!
