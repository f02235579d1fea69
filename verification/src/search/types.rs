//! Types shared by incremental search and query replace.
use crate::buffer::editor::walk;
use vstd::prelude::*;

verus! {

/// Direction of a search.
#[derive(Debug, Clone, Copy, PartialEq, Eq, Structural)]
pub enum SearchDirection {
    Forward,
    Backward,
}

impl SearchDirection {
    /// The prompt label of the direction.
    pub fn label(self) -> (r: &'static str)
        ensures
            r@ == direction_label(self),
    {
        match self {
            SearchDirection::Forward => "I-search",
            SearchDirection::Backward => "I-search backward",
        }
    }
}

/// The prompt label of a direction.
pub open spec fn direction_label(d: SearchDirection) -> Seq<char> {
    match d {
        SearchDirection::Forward => "I-search"@,
        SearchDirection::Backward => "I-search backward"@,
    }
}

/// What the search prompt shows about the state of the search.
#[derive(Debug, Clone, Copy, PartialEq, Eq, Structural)]
pub enum SearchStatus {
    Active,
    NotFound,
    Wrapped,
}

/// One match: character range, and line and column of its start.
#[derive(Debug, Clone, Copy, PartialEq, Eq, Structural)]
pub struct SearchMatch {
    pub start: usize,
    pub end: usize,
    pub line: usize,
    pub column: usize,
}

impl SearchMatch {
    /// Number of characters matched (0 for a reversed range).
    pub fn len(&self) -> (r: usize)
        ensures
            r == (if self.end >= self.start { self.end - self.start } else { 0 }),
    {
        if self.end >= self.start {
            self.end - self.start
        } else {
            0
        }
    }

    /// Whether the match is empty.
    pub fn is_empty(&self) -> (r: bool)
        ensures
            r == (self.start == self.end),
    {
        self.start == self.end
    }
}

/// What a highlight marks.
#[derive(Debug, Clone, Copy, PartialEq, Eq, Structural)]
pub enum HighlightKind {
    Search,
    Selection,
}

/// A highlighted stretch of one line.
#[derive(Debug, Clone, Copy, PartialEq, Eq, Structural)]
pub struct SearchHighlight {
    pub line: usize,
    pub start_column: usize,
    pub end_column: usize,
    pub is_current: bool,
    pub kind: HighlightKind,
}

/// What the minibuffer shows of a running search.
#[derive(Debug, Clone)]
pub struct SearchUiState {
    pub prompt_label: String,
    pub pattern: String,
    pub status: SearchStatus,
    pub current_match: Option<usize>,
    pub total_matches: usize,
    pub wrapped: bool,
    pub message: Option<String>,
    pub direction: SearchDirection,
}

impl SearchUiState {
    /// Whether the search failed.
    pub fn is_error(&self) -> (r: bool)
        ensures
            r == (self.status == SearchStatus::NotFound),
    {
        match self.status {
            SearchStatus::NotFound => true,
            _ => false,
        }
    }
}

/// Line and column of character `index` of `t` (of the end when `index` is
/// past it).
pub open spec fn line_column_of(t: Seq<char>, index: int) -> (int, int) {
    walk(0, 0, t.take(if index <= t.len() { index } else { t.len() as int }))
}

/// Line and column of character `index` of `chars`.
pub fn line_column_at(chars: &Vec<char>, index: usize) -> (r: (usize, usize))
    ensures
        (r.0 as int, r.1 as int) == line_column_of(chars@, index as int),
{
    let mut line: usize = 0;
    let mut column: usize = 0;
    let mut i: usize = 0;
    while i < chars.len() && i != index
        invariant
            i <= chars@.len(),
            i <= index,
            (line as int, column as int) == walk(0, 0, chars@.take(i as int)),
            line <= i,
            column <= i,
        decreases chars@.len() - i,
    {
        assert(chars@.take(i + 1).drop_last() =~= chars@.take(i as int));
        if chars[i] == '\n' {
            line += 1;
            column = 0;
        } else {
            column += 1;
        }
        i += 1;
    }
    assert(chars@.take(i as int) =~= chars@.take(
        if index <= chars@.len() { index as int } else { chars@.len() as int },
    ));
    (line, column)
}

/// Characters from `start`, at most `len` of them, up to the first newline.
pub open spec fn highlight_span_len(t: Seq<char>, start: int, len: int) -> nat
    decreases len,
{
    if len <= 0 || start < 0 || start >= t.len() || t[start] == '\n' {
        0
    } else {
        1 + highlight_span_len(t, start + 1, len - 1)
    }
}

/// The length of the highlight of `len` characters from `start`.
pub fn highlight_span(chars: &Vec<char>, start: usize, len: usize) -> (r: usize)
    ensures
        r == highlight_span_len(chars@, start as int, len as int),
        r <= len,
{
    let mut count: usize = 0;
    while count < len && start < chars.len() && count < chars.len() - start && chars[start + count] != '\n'
        invariant
            count <= len,
            start < chars@.len() ==> count <= chars@.len() - start,
            highlight_span_len(chars@, start as int, len as int) == count + highlight_span_len(
                chars@,
                start + count,
                len - count,
            ),
        decreases len - count,
    {
        count += 1;
    }
    count
}

} // verus!
