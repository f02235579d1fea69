//! Incremental search: the pattern grows and shrinks as the user types, the
//! cursor follows the match nearest to where the search started, and
//! repeating the search steps through the matches with wrap-around.
use crate::buffer::cursor::CursorPosition;
use crate::buffer::editor::{lemma_walk_bounds, synced, TextEditor};
use crate::search::matcher::{
    chars_match, lemma_literal_matches_occur, literal_matches, occurs_here, well_placed, LiteralMatcher, StringMatcher,
};
use crate::search::state::{is_idle, SearchState};
use crate::search::types::{
    direction_label, highlight_span, highlight_span_len, HighlightKind, SearchDirection,
    SearchHighlight, SearchMatch, SearchStatus, SearchUiState,
};
use crate::text::{
    char_is_alphanumeric, char_is_uppercase, chars_of, concat_str, owned, push_char, spec_is_alphanumeric,
    spec_is_uppercase, string_from_range,
};
use vstd::prelude::*;

pub mod types;
pub mod matcher;
pub mod state;
pub mod replace;


verus! {

/// The pattern holds an uppercase letter (the search is then case
/// sensitive).
pub open spec fn has_upper(p: Seq<char>) -> bool {
    exists|k: int| 0 <= k < p.len() && spec_is_uppercase(#[trigger] p[k])
}

/// Index of the first match starting at or after `p`, or -1.
pub open spec fn first_from(ms: Seq<SearchMatch>, p: int, k: int) -> int
    decreases ms.len() - k,
{
    if k < 0 || k >= ms.len() {
        -1
    } else if ms[k].start >= p {
        k
    } else {
        first_from(ms, p, k + 1)
    }
}

/// Index of the last match starting at or before `p` among the first `k`,
/// or -1.
pub open spec fn last_upto(ms: Seq<SearchMatch>, p: int, k: int) -> int
    decreases k,
{
    if k <= 0 || k > ms.len() {
        -1
    } else if ms[k - 1].start <= p {
        k - 1
    } else {
        last_upto(ms, p, k - 1)
    }
}

/// The match chosen near position `p` going in direction `d`, and whether
/// the choice wrapped around the text.
pub open spec fn picked(ms: Seq<SearchMatch>, d: SearchDirection, p: int) -> (int, bool) {
    match d {
        SearchDirection::Forward => if first_from(ms, p, 0) >= 0 {
            (first_from(ms, p, 0), false)
        } else {
            (0, true)
        },
        SearchDirection::Backward => if last_upto(ms, p, ms.len() as int) >= 0 {
            (last_upto(ms, p, ms.len() as int), false)
        } else {
            (ms.len() - 1, true)
        },
    }
}

/// The status a search state shows.
pub open spec fn status_of(st: SearchState) -> SearchStatus {
    if st.failed {
        SearchStatus::NotFound
    } else if st.wrapped {
        SearchStatus::Wrapped
    } else {
        SearchStatus::Active
    }
}

/// The message a search state shows.
pub open spec fn message_of(st: SearchState) -> Option<Seq<char>> {
    if st.failed {
        Some(st.pattern@ + " は見つかりません"@)
    } else if st.wrapped {
        Some("検索が折り返しました"@)
    } else {
        None
    }
}

/// `ui` is what the prompt shows for `st`: nothing when no search runs.
pub open spec fn shows(ui: Option<SearchUiState>, st: SearchState) -> bool {
    match ui {
        None => !st.active,
        Some(u) => {
            &&& st.active
            &&& u.prompt_label@ == direction_label(st.direction)
            &&& u.pattern@ == st.pattern@
            &&& u.status == status_of(st)
            &&& u.current_match == (match st.current_index {
                Some(i) => Some((i + 1) as usize),
                None => None,
            })
            &&& u.total_matches == st.matches@.len()
            &&& u.wrapped == st.wrapped
            &&& u.direction == st.direction
            &&& match message_of(st) {
                Some(m) => u.message matches Some(x) && x@ == m,
                None => u.message is None,
            }
        },
    }
}

/// The highlights of matches `k..` of `ms` over text `t`: one per match
/// whose first line is not empty, marking the current one.
pub open spec fn highlights_from(t: Seq<char>, ms: Seq<SearchMatch>, cur: Option<usize>, k: int) -> Seq<SearchHighlight>
    decreases ms.len() - k,
{
    if k < 0 || k >= ms.len() {
        Seq::empty()
    } else {
        let m = ms[k];
        let span = highlight_span_len(t, m.start as int, if m.end >= m.start { m.end - m.start } else { 0 });
        let rest = highlights_from(t, ms, cur, k + 1);
        if span == 0 {
            rest
        } else {
            seq![SearchHighlight {
                line: m.line,
                start_column: m.column,
                end_column: (m.column + span) as usize,
                is_current: cur == Some(k as usize),
                kind: HighlightKind::Search,
            }] + rest
        }
    }
}

/// The highlights of a search state over text `t`.
pub open spec fn highlights_of(t: Seq<char>, st: SearchState) -> Seq<SearchHighlight> {
    if st.pattern@.len() == 0 {
        Seq::empty()
    } else {
        highlights_from(t, st.matches@, st.current_index, 0)
    }
}

/// A character of a word: alphanumeric or `_`.
pub open spec fn search_word_char(c: char) -> bool {
    spec_is_alphanumeric(c) || c == '_'
}

/// Start of the word run ending at `i`.
pub open spec fn word_run_start(t: Seq<char>, i: int) -> int
    decreases i,
{
    if i <= 0 || i > t.len() || !search_word_char(t[i - 1]) {
        i
    } else {
        word_run_start(t, i - 1)
    }
}

/// End of the word run starting at `i`.
pub open spec fn word_run_end(t: Seq<char>, i: int) -> int
    decreases t.len() - i,
{
    if i < 0 || i >= t.len() || !search_word_char(t[i]) {
        i
    } else {
        word_run_end(t, i + 1)
    }
}

/// The word around position `p` of `t` (empty for an empty text).
pub open spec fn word_around(t: Seq<char>, p: int) -> Seq<char> {
    if t.len() == 0 {
        Seq::empty()
    } else {
        let q = if p <= t.len() { p } else { t.len() as int };
        t.subrange(word_run_start(t, q), word_run_end(t, q))
    }
}

/// The incremental search over a text editor.
#[derive(Debug)]
pub struct SearchController<M: StringMatcher = LiteralMatcher> {
    matcher: M,
    state: SearchState,
    last_pattern: Option<String>,
    case_sensitive: bool,
    highlights: Vec<SearchHighlight>,
    ui_state: Option<SearchUiState>,
    text_cache: String,
}

impl SearchController<LiteralMatcher> {
    /// A controller with the literal matcher.
    pub fn new() -> (r: Self)
        ensures
            r.wf(),
            is_idle(r.search_state()),
            r.last() is None,
            r.ui() is None,
    {
        Self::with_matcher(LiteralMatcher::new())
    }
}

impl<M: StringMatcher> SearchController<M> {
    /// The matches index the cached text and the current index is one of
    /// them; highlights and prompt follow the state.
    pub closed spec fn wf(&self) -> bool {
        &&& well_placed(self.text_cache@, self.state.matches@)
        &&& self.state.current_index matches Some(i) ==> i < self.state.matches@.len()
        &&& self.highlights@ == highlights_of(self.text_cache@, self.state)
        &&& shows(self.ui_state, self.state)
    }

    /// The matches index the cached text and the current index is one of
    /// them.
    pub closed spec fn core_wf(&self) -> bool {
        &&& well_placed(self.text_cache@, self.state.matches@)
        &&& self.state.current_index matches Some(i) ==> i < self.state.matches@.len()
    }

    /// The search state.
    pub closed spec fn search_state(&self) -> SearchState {
        self.state
    }

    /// The pattern of the last accepted search.
    pub closed spec fn last(&self) -> Option<Seq<char>> {
        match self.last_pattern {
            Some(p) => Some(p@),
            None => None,
        }
    }

    /// The prompt state.
    pub closed spec fn ui(&self) -> Option<SearchUiState> {
        self.ui_state
    }

    /// The highlights.
    pub closed spec fn highlight_list(&self) -> Seq<SearchHighlight> {
        self.highlights@
    }

    /// The matcher.
    pub closed spec fn matcher_of(&self) -> M {
        self.matcher
    }

    /// The matches, as the matcher finds them, of the state's pattern in `t`.
    pub closed spec fn expected_matches(&self, t: Seq<char>) -> Seq<SearchMatch> {
        self.matcher.found(t, self.state.pattern@, has_upper(self.state.pattern@))
    }

    /// A controller using `matcher`.
    pub fn with_matcher(matcher: M) -> (r: Self)
        ensures
            r.wf(),
            is_idle(r.search_state()),
            r.last() is None,
            r.ui() is None,
            r.matcher_of() == matcher,
    {
        Self {
            matcher,
            state: SearchState::new(),
            last_pattern: None,
            case_sensitive: true,
            highlights: Vec::new(),
            ui_state: None,
            text_cache: String::new(),
        }
    }

    /// Whether a search runs.
    pub fn is_active(&self) -> (r: bool)
        ensures
            r == self.search_state().active,
    {
        self.state.active
    }

    /// What the prompt shows.
    pub fn ui_state(&self) -> (r: Option<&SearchUiState>)
        ensures
            match self.ui() {
                Some(u) => r == Some(&u),
                None => r is None,
            },
    {
        match &self.ui_state {
            Some(u) => Some(u),
            None => None,
        }
    }

    /// The highlights of the matches.
    pub fn highlights(&self) -> (r: &[SearchHighlight])
        ensures
            r@ == self.highlight_list(),
    {
        self.highlights.as_slice()
    }

    /// Starts a search in direction `direction` from the cursor, with the
    /// pattern of the last accepted search.
    pub fn start(&mut self, editor: &mut TextEditor, direction: SearchDirection)
        requires
            old(self).wf(),
            old(editor).wf(),
        ensures
            final(self).wf(),
            final(editor).wf(),
            final(editor).text() == old(editor).text(),
            started(*old(self), *old(editor), direction, *final(self), *final(editor)),
    {
        let cursor = *editor.cursor();
        self.state.reset();
        self.state.active = true;
        self.state.direction = direction;
        self.state.start_cursor = Some(cursor);
        self.state.start_char_index = cursor.char_pos;
        self.state.pattern = match &self.last_pattern {
            Some(p) => p.clone(),
            None => String::new(),
        };
        self.update_case_sensitivity();
        self.state.failed = false;
        self.text_cache = String::new();
        self.highlights = Vec::new();
        if !self.state.pattern.as_str().is_empty() {
            let text = editor.to_string();
            self.recompute_matches(&text);
            self.select_match_near_cursor(editor, cursor.char_pos);
        } else {
            self.update_ui_state();
        }
    }

    /// Appends `ch` to the pattern (starting a forward search when none
    /// runs) and searches again from where the search started.
    pub fn input_char(&mut self, editor: &mut TextEditor, ch: char)
        requires
            old(self).wf(),
            old(editor).wf(),
        ensures
            final(self).wf(),
            final(editor).wf(),
            final(editor).text() == old(editor).text(),
            typed_in_search(*old(self), *old(editor), ch, *final(self), *final(editor)),
    {
        if !self.state.active {
            self.start(editor, SearchDirection::Forward);
        }
        let ghost c0 = editor.cursor;
        push_char(&mut self.state.pattern, ch);
        self.update_case_sensitivity();
        let text = editor.to_string();
        self.recompute_matches(&text);
        let from = self.state.start_char_index;
        self.select_match_near_cursor(editor, from);
    }

    /// Removes the last character of the pattern and searches again; with
    /// the pattern emptied the cursor returns to where the search started.
    pub fn delete_char(&mut self, editor: &mut TextEditor)
        requires
            old(self).wf(),
            old(editor).wf(),
        ensures
            final(self).wf(),
            final(editor).wf(),
            final(editor).text() == old(editor).text(),
            search_char_deleted(*old(self), *old(editor), *final(self), *final(editor)),
    {
        if !self.state.active || self.state.pattern.as_str().is_empty() {
            self.state.pattern = String::new();
            self.state.matches = Vec::new();
            self.highlights = Vec::new();
            self.state.current_index = None;
            self.state.failed = false;
            self.update_ui_state();
            return;
        }
        let ghost p0 = self.state.pattern@;
        self.state.pattern = pattern_without_last(&self.state.pattern);
        self.update_case_sensitivity();
        let text = editor.to_string();
        if self.state.pattern.as_str().is_empty() {
            self.state.matches = Vec::new();
            self.highlights = Vec::new();
            self.state.current_index = None;
            self.state.failed = false;
            self.state.wrapped = false;
            self.update_ui_state();
            match self.state.start_cursor {
                Some(start) => {
                    let _ = editor.move_cursor_to_char(start.char_pos);
                },
                None => {},
            }
            return;
        }
        self.recompute_matches(&text);
        let from = self.state.start_char_index;
        self.select_match_near_cursor(editor, from);
    }

    /// Moves to the next match (a search starts when none runs).
    pub fn repeat_forward(&mut self, editor: &mut TextEditor)
        requires
            old(self).wf(),
            old(editor).wf(),
        ensures
            final(self).wf(),
            final(editor).wf(),
            final(editor).text() == old(editor).text(),
            repeated(*old(self), *old(editor), SearchDirection::Forward, *final(self), *final(editor)),
    {
        self.repeat(editor, SearchDirection::Forward);
    }

    /// Moves to the previous match (a search starts when none runs).
    pub fn repeat_backward(&mut self, editor: &mut TextEditor)
        requires
            old(self).wf(),
            old(editor).wf(),
        ensures
            final(self).wf(),
            final(editor).wf(),
            final(editor).text() == old(editor).text(),
            repeated(*old(self), *old(editor), SearchDirection::Backward, *final(self), *final(editor)),
    {
        self.repeat(editor, SearchDirection::Backward);
    }

    /// Appends the word at the cursor to the pattern (after a space when
    /// the pattern is not empty) and searches again; without a word the
    /// search fails.
    pub fn add_word_at_cursor(&mut self, editor: &mut TextEditor)
        requires
            old(self).wf(),
            old(editor).wf(),
            old(self).search_state().active,
        ensures
            final(self).wf(),
            final(editor).wf(),
            final(editor).text() == old(editor).text(),
            search_word_added(*old(self), *old(editor), *final(self), *final(editor)),
    {
        let word = self.extract_word_at_cursor(editor);
        if word.as_str().is_empty() {
            self.state.failed = true;
            self.update_ui_state();
            return;
        }
        if !self.state.pattern.as_str().is_empty() {
            push_char(&mut self.state.pattern, ' ');
        }
        self.state.pattern = concat_str(self.state.pattern.as_str(), word.as_str());
        self.update_case_sensitivity();
        let text = editor.to_string();
        self.recompute_matches(&text);
        let from = self.state.start_char_index;
        self.select_match_near_cursor(editor, from);
    }

    /// Ends the search where it stands; a non-empty pattern is kept for the
    /// next search.
    pub fn accept(&mut self)
        requires
            old(self).wf(),
        ensures
            final(self).wf(),
            !old(self).search_state().active ==> *final(self) == *old(self),
            old(self).search_state().active ==> {
                &&& !final(self).search_state().active
                &&& final(self).ui() is None
                &&& final(self).highlight_list() == Seq::<SearchHighlight>::empty()
                &&& final(self).last() == (if old(self).search_state().pattern@.len() > 0 {
                    Some(old(self).search_state().pattern@)
                } else {
                    old(self).last()
                })
            },
    {
        if !self.state.active {
            return;
        }
        if !self.state.pattern.as_str().is_empty() {
            self.last_pattern = Some(self.state.pattern.clone());
        }
        self.state.active = false;
        self.ui_state = None;
        self.highlights = Vec::new();
        self.state.pattern = String::new();
        self.state.current_index = None;
    }

    /// Ends the search and returns the cursor to where it started.
    pub fn cancel(&mut self, editor: &mut TextEditor)
        requires
            old(self).wf(),
            old(editor).wf(),
        ensures
            final(self).wf(),
            final(editor).wf(),
            final(editor).text() == old(editor).text(),
            is_idle(final(self).search_state()),
            final(self).ui() is None,
            final(self).highlight_list() == Seq::<SearchHighlight>::empty(),
            final(self).last() == old(self).last(),
            final(editor).cursor == (match old(self).search_state().start_cursor {
                Some(c) => synced(CursorPosition { char_pos: c.char_pos, ..old(editor).cursor }, old(editor).text()),
                None => old(editor).cursor,
            }),
    {
        match self.state.start_cursor {
            Some(start) => {
                let _ = editor.move_cursor_to_char(start.char_pos);
            },
            None => {},
        }
        self.state.reset();
        self.highlights = Vec::new();
        self.ui_state = None;
    }

    fn repeat(&mut self, editor: &mut TextEditor, dir: SearchDirection)
        requires
            old(self).wf(),
            old(editor).wf(),
        ensures
            final(self).wf(),
            final(editor).wf(),
            final(editor).text() == old(editor).text(),
            repeated(*old(self), *old(editor), dir, *final(self), *final(editor)),
    {
        if !self.state.active {
            self.start(editor, dir);
            return;
        }
        if self.state.pattern.as_str().is_empty() {
            self.update_ui_state();
            return;
        }
        if self.state.matches.len() == 0 {
            self.state.failed = true;
            self.update_ui_state();
            return;
        }
        let n = self.state.matches.len();
        let next_index = match (self.state.current_index, dir) {
            (Some(idx), SearchDirection::Forward) => if idx + 1 < n {
                self.state.wrapped = false;
                idx + 1
            } else {
                self.state.wrapped = true;
                0
            },
            (None, SearchDirection::Forward) => {
                self.state.wrapped = true;
                0
            },
            (Some(idx), SearchDirection::Backward) => if idx > 0 {
                self.state.wrapped = false;
                idx - 1
            } else {
                self.state.wrapped = true;
                n - 1
            },
            (None, SearchDirection::Backward) => {
                self.state.wrapped = true;
                n - 1
            },
        };
        self.state.direction = dir;
        self.move_to_match(editor, next_index);
    }

    fn select_match_near_cursor(&mut self, editor: &mut TextEditor, start_char: usize)
        requires
            old(self).wf(),
            old(editor).wf(),
            old(self).search_state().active,
            !old(self).search_state().wrapped,
            old(self).search_state().current_index is None,
        ensures
            final(self).wf(),
            final(editor).wf(),
            final(editor).text() == old(editor).text(),
            final(self).search_state().pattern == old(self).search_state().pattern,
            final(self).search_state().matches == old(self).search_state().matches,
            final(self).search_state().active,
            final(self).search_state().start_char_index == old(self).search_state().start_char_index,
            final(self).search_state().start_cursor == old(self).search_state().start_cursor,
            final(self).search_state().direction == old(self).search_state().direction,
            final(self).last() == old(self).last(),
            final(self).matcher_of() == old(self).matcher_of(),
            searched_to(final(self).search_state(), old(editor).text(), start_char as int, final(editor).cursor),
    {
        let n = self.state.matches.len();
        if n == 0 {
            self.state.current_index = None;
            self.state.failed = true;
            self.highlights = Vec::new();
            self.update_ui_state();
            return;
        }
        let idx = match self.state.direction {
            SearchDirection::Forward => match first_match_from(&self.state.matches, start_char) {
                Some(i) => i,
                None => {
                    self.state.wrapped = true;
                    0
                },
            },
            SearchDirection::Backward => match last_match_upto(&self.state.matches, start_char) {
                Some(i) => i,
                None => {
                    self.state.wrapped = true;
                    n - 1
                },
            },
        };
        self.move_to_match(editor, idx);
    }

    fn move_to_match(&mut self, editor: &mut TextEditor, index: usize)
        requires
            old(self).core_wf(),
            old(editor).wf(),
            old(self).search_state().active,
            index < old(self).search_state().matches@.len(),
        ensures
            final(self).wf(),
            final(editor).wf(),
            final(editor).text() == old(editor).text(),
            final(self).search_state() == (SearchState {
                current_index: Some(index),
                failed: false,
                ..old(self).search_state()
            }),
            final(self).last() == old(self).last(),
            final(self).matcher_of() == old(self).matcher_of(),
            final(editor).cursor == synced(
                CursorPosition { char_pos: old(self).search_state().matches@[index as int].start, ..old(editor).cursor },
                old(editor).text(),
            ),
    {
        let m = self.state.matches[index];
        self.state.current_index = Some(index);
        self.state.failed = false;
        let _ = editor.move_cursor_to_char(m.start);
        self.rebuild_highlights();
        self.update_ui_state();
    }

    fn recompute_matches(&mut self, text: &String)
        requires
            old(self).state.active,
        ensures
            final(self).wf(),
            final(self).text_cache@ == text@,
            final(self).state == (SearchState {
                matches: final(self).state.matches,
                current_index: None,
                failed: final(self).state.matches@.len() == 0,
                wrapped: false,
                ..old(self).state
            }),
            final(self).state.matches@ == old(self).matcher.found(text@, old(self).state.pattern@, old(self).case_sensitive),
            final(self).matcher == old(self).matcher,
            final(self).last_pattern == old(self).last_pattern,
            final(self).case_sensitive == old(self).case_sensitive,
    {
        self.text_cache = text.clone();
        self.state.matches = self.matcher.find_matches(text.as_str(), self.state.pattern.as_str(), self.case_sensitive);
        self.state.current_index = None;
        self.state.failed = self.state.matches.len() == 0;
        self.state.wrapped = false;
        self.rebuild_highlights();
        self.update_ui_state();
    }

    fn rebuild_highlights(&mut self)
        requires
            well_placed(old(self).text_cache@, old(self).state.matches@),
        ensures
            final(self).highlights@ == highlights_of(final(self).text_cache@, final(self).state),
            final(self).state == old(self).state,
            final(self).text_cache == old(self).text_cache,
            final(self).ui_state == old(self).ui_state,
            final(self).matcher == old(self).matcher,
            final(self).last_pattern == old(self).last_pattern,
            final(self).case_sensitive == old(self).case_sensitive,
    {
        self.highlights = Vec::new();
        if self.state.pattern.as_str().is_empty() {
            return;
        }
        let chars = chars_of(self.text_cache.as_str());
        let ghost t = chars@;
        let ghost ms = self.state.matches@;
        let ghost cur = self.state.current_index;
        let mut k: usize = 0;
        while k < self.state.matches.len()
            invariant
                t == self.text_cache@,
                chars@ == t,
                ms == self.state.matches@,
                cur == self.state.current_index,
                well_placed(t, ms),
                k <= ms.len(),
                highlights_from(t, ms, cur, 0) == self.highlights@ + highlights_from(t, ms, cur, k as int),
                self.state == old(self).state,
                self.text_cache == old(self).text_cache,
                self.ui_state == old(self).ui_state,
                self.matcher == old(self).matcher,
                self.last_pattern == old(self).last_pattern,
                self.case_sensitive == old(self).case_sensitive,
            decreases ms.len() - k,
        {
            let m = self.state.matches[k];
            let mlen = m.len();
            let span_len = highlight_span(&chars, m.start, mlen);
            proof {
                lemma_span_fits(t, m.start as int, mlen as int);
                lemma_walk_bounds(0, 0, t.take(m.start as int));
                assert(t.take(m.start as int).len() == m.start);
            }
            let ghost before = self.highlights@;
            if span_len > 0 {
                self.highlights.push(
                    SearchHighlight {
                        line: m.line,
                        start_column: m.column,
                        end_column: m.column + span_len,
                        is_current: self.state.current_index == Some(k),
                        kind: HighlightKind::Search,
                    },
                );
                assert(self.highlights@ + highlights_from(t, ms, cur, k + 1) =~= before + highlights_from(t, ms, cur, k as int));
            }
            k += 1;
        }
    }

    fn update_ui_state(&mut self)
        requires
            old(self).state.current_index matches Some(i) ==> i < old(self).state.matches@.len(),
        ensures
            shows(final(self).ui_state, final(self).state),
            final(self).state == old(self).state,
            final(self).text_cache == old(self).text_cache,
            final(self).highlights == old(self).highlights,
            final(self).matcher == old(self).matcher,
            final(self).last_pattern == old(self).last_pattern,
            final(self).case_sensitive == old(self).case_sensitive,
    {
        if !self.state.active {
            self.ui_state = None;
            return;
        }
        let status = if self.state.failed {
            SearchStatus::NotFound
        } else if self.state.wrapped {
            SearchStatus::Wrapped
        } else {
            SearchStatus::Active
        };
        let n = self.state.matches.len();
        let current = match self.state.current_index {
            Some(i) => Some(i + 1),
            None => None,
        };
        let message = if self.state.failed {
            Some(concat_str(self.state.pattern.as_str(), " は見つかりません"))
        } else if self.state.wrapped {
            Some(owned("検索が折り返しました"))
        } else {
            None
        };
        self.ui_state = Some(
            SearchUiState {
                prompt_label: owned(self.state.direction.label()),
                pattern: self.state.pattern.clone(),
                status,
                current_match: current,
                total_matches: self.state.matches.len(),
                wrapped: self.state.wrapped,
                message,
                direction: self.state.direction,
            },
        );
    }

    fn update_case_sensitivity(&mut self)
        ensures
            final(self).case_sensitive == has_upper(final(self).state.pattern@),
            final(self).state == old(self).state,
            final(self).text_cache == old(self).text_cache,
            final(self).highlights == old(self).highlights,
            final(self).ui_state == old(self).ui_state,
            final(self).matcher == old(self).matcher,
            final(self).last_pattern == old(self).last_pattern,
    {
        let chars = chars_of(self.state.pattern.as_str());
        let mut found = false;
        let mut k: usize = 0;
        while k < chars.len()
            invariant
                chars@ == self.state.pattern@,
                k <= chars@.len(),
                found == exists|j: int| 0 <= j < k && spec_is_uppercase(#[trigger] chars@[j]),
            decreases chars@.len() - k,
        {
            if char_is_uppercase(chars[k]) {
                found = true;
            }
            k += 1;
        }
        self.case_sensitive = found;
    }

    fn extract_word_at_cursor(&self, editor: &TextEditor) -> (r: String)
        requires
            editor.wf(),
        ensures
            r@ == word_around(editor.text(), editor.cursor.char_pos as int),
    {
        let text = editor.to_string();
        let chars = chars_of(text.as_str());
        if chars.len() == 0 {
            return String::new();
        }
        let cursor = editor.cursor();
        let p = if cursor.char_pos < chars.len() { cursor.char_pos } else { chars.len() };
        let mut start = p;
        let mut end = p;
        while start > 0 && (char_is_alphanumeric(chars[start - 1]) || chars[start - 1] == '_')
            invariant
                start <= p <= chars@.len(),
                word_run_start(chars@, p as int) == word_run_start(chars@, start as int),
            decreases start,
        {
            start -= 1;
        }
        while end < chars.len() && (char_is_alphanumeric(chars[end]) || chars[end] == '_')
            invariant
                p <= end <= chars@.len(),
                word_run_end(chars@, p as int) == word_run_end(chars@, end as int),
            decreases chars@.len() - end,
        {
            end += 1;
        }
        string_from_range(&chars, start, end)
    }
}

/// The pattern without its last character.
fn pattern_without_last(p: &String) -> (r: String)
    requires
        p@.len() > 0,
    ensures
        r@ == p@.drop_last(),
{
    let chars = chars_of(p.as_str());
    string_from_range(&chars, 0, chars.len() - 1)
}

/// Index of the first match starting at or after `p`.
fn first_match_from(ms: &Vec<SearchMatch>, p: usize) -> (r: Option<usize>)
    ensures
        r matches Some(i) ==> i as int == first_from(ms@, p as int, 0) && i < ms@.len(),
        r is None ==> first_from(ms@, p as int, 0) == -1,
{
    let mut k: usize = 0;
    while k < ms.len()
        invariant
            k <= ms@.len(),
            first_from(ms@, p as int, 0) == first_from(ms@, p as int, k as int),
        decreases ms@.len() - k,
    {
        if ms[k].start >= p {
            return Some(k);
        }
        k += 1;
    }
    None
}

/// Index of the last match starting at or before `p`.
fn last_match_upto(ms: &Vec<SearchMatch>, p: usize) -> (r: Option<usize>)
    ensures
        r matches Some(i) ==> i as int == last_upto(ms@, p as int, ms@.len() as int) && i < ms@.len(),
        r is None ==> last_upto(ms@, p as int, ms@.len() as int) == -1,
{
    let mut k: usize = ms.len();
    while k > 0
        invariant
            k <= ms@.len(),
            last_upto(ms@, p as int, ms@.len() as int) == last_upto(ms@, p as int, k as int),
        decreases k,
    {
        if ms[k - 1].start <= p {
            return Some(k - 1);
        }
        k -= 1;
    }
    None
}

/// A highlight fits in the text after its start.
proof fn lemma_span_fits(t: Seq<char>, start: int, len: int)
    requires
        0 <= start,
    ensures
        start <= t.len() ==> highlight_span_len(t, start, len) <= t.len() - start,
    decreases len,
{
    if len > 0 && start < t.len() && t[start] != '\n' {
        lemma_span_fits(t, start + 1, len - 1);
    }
}

/// Typing `ch` into the search (starting a forward search when none
/// runs): the pattern grows by `ch`, the matches are those of the new
/// pattern and the cursor goes to the match found from where the search
/// started.
pub open spec fn typed_in_search<M: StringMatcher>(
    c0: SearchController<M>,
    e0: TextEditor,
    ch: char,
    c1: SearchController<M>,
    e1: TextEditor,
) -> bool {
    &&& c1.search_state().active
    &&& c1.search_state().pattern@ == (if c0.search_state().active {
        c0.search_state().pattern@
    } else {
        match c0.last() {
            Some(p) => p,
            None => Seq::<char>::empty(),
        }
    }).push(ch)
    &&& c1.search_state().matches@ == c1.expected_matches(e0.text())
    &&& searched_to(c1.search_state(), e0.text(), c1.search_state().start_char_index as int, e1.cursor)
    &&& keeps_start(c0, c1)
}

/// Removing the last character of the search pattern: without a pattern
/// nothing is left and the cursor stays; emptying it returns the cursor
/// to where the search started; otherwise the search runs again.
pub open spec fn search_char_deleted<M: StringMatcher>(
    c0: SearchController<M>,
    e0: TextEditor,
    c1: SearchController<M>,
    e1: TextEditor,
) -> bool {
    &&& (!c0.search_state().active || c0.search_state().pattern@.len() == 0 ==> {
        &&& c1.search_state().pattern@ == Seq::<char>::empty()
        &&& c1.search_state().matches@ == Seq::<SearchMatch>::empty()
        &&& c1.search_state().current_index is None
        &&& !c1.search_state().failed
        &&& e1.cursor == e0.cursor
    })
    &&& (c0.search_state().active && c0.search_state().pattern@.len() > 0 ==> {
        &&& c1.search_state().pattern@ == c0.search_state().pattern@.drop_last()
        &&& c1.search_state().active
    })
    &&& (c0.search_state().active && c0.search_state().pattern@.len() == 1 ==> {
        &&& c1.search_state().matches@ == Seq::<SearchMatch>::empty()
        &&& c1.highlight_list() == Seq::<SearchHighlight>::empty()
        &&& e1.cursor == (match c0.search_state().start_cursor {
            Some(c) => synced(CursorPosition { char_pos: c.char_pos, ..e0.cursor }, e0.text()),
            None => e0.cursor,
        })
    })
    &&& (c0.search_state().active && c0.search_state().pattern@.len() > 1 ==> {
        &&& c1.search_state().matches@ == c1.expected_matches(e0.text())
        &&& searched_to(c1.search_state(), e0.text(), c1.search_state().start_char_index as int, e1.cursor)
    })
    &&& keeps_start(c0, c1)
}

/// Adding the word at the cursor to the search pattern (see
/// `add_word_at_cursor`).
pub open spec fn search_word_added<M: StringMatcher>(
    c0: SearchController<M>,
    e0: TextEditor,
    c1: SearchController<M>,
    e1: TextEditor,
) -> bool {
    let w = word_around(e0.text(), e0.cursor.char_pos as int);
    let p0 = c0.search_state().pattern@;
    &&& keeps_start(c0, c1)
    &&& w.len() == 0 ==> c1.search_state().failed && c1.search_state().pattern@ == p0 && e1.cursor == e0.cursor
    &&& w.len() > 0 ==> c1.search_state().pattern@ == (if p0.len() > 0 {
        p0.push(' ') + w
    } else {
        w
    }) && c1.search_state().matches@ == c1.expected_matches(e0.text()) && searched_to(
        c1.search_state(),
        e0.text(),
        c1.search_state().start_char_index as int,
        e1.cursor,
    )
}

/// A step of a running search keeps it running, from the same start.
pub open spec fn keeps_start<M: StringMatcher>(c0: SearchController<M>, c1: SearchController<M>) -> bool {
    c0.search_state().active ==> c1.search_state().active && c1.search_state().start_cursor == c0.search_state().start_cursor
}

/// One step of a running search with its editor: a typed character,
/// Backspace, a repeat in either direction, or the word at the cursor.
pub open spec fn search_step<M: StringMatcher>(a: (SearchController<M>, TextEditor), b: (SearchController<M>, TextEditor)) -> bool {
    &&& b.1.text() == a.1.text()
    &&& {
        ||| exists|ch: char| #[trigger] typed_in_search(a.0, a.1, ch, b.0, b.1)
        ||| search_char_deleted(a.0, a.1, b.0, b.1)
        ||| repeated(a.0, a.1, SearchDirection::Forward, b.0, b.1)
        ||| repeated(a.0, a.1, SearchDirection::Backward, b.0, b.1)
        ||| search_word_added(a.0, a.1, b.0, b.1)
    }
}

/// A search started at cursor `s0` keeps that start and the text through
/// any run of search steps, so `cancel` at the end puts the cursor back at
/// `s0`'s position.
pub proof fn law_search_keeps_its_start<M: StringMatcher>(run: Seq<(SearchController<M>, TextEditor)>, s0: CursorPosition)
    requires
        run.len() >= 1,
        run[0].0.search_state().active,
        run[0].0.search_state().start_cursor == Some(s0),
        forall|i: int| 0 <= i < run.len() - 1 ==> #[trigger] search_step(run[i], run[i + 1]),
    ensures
        run.last().0.search_state().active,
        run.last().0.search_state().start_cursor == Some(s0),
        run.last().1.text() == run[0].1.text(),
    decreases run.len(),
{
    if run.len() > 1 {
        let init = run.drop_last();
        assert forall|i: int| 0 <= i < init.len() - 1 implies #[trigger] search_step(init[i], init[i + 1]) by {
            assert(search_step(run[i], run[i + 1]));
        }
        law_search_keeps_its_start(init, s0);
        let j = run.len() - 2;
        assert(search_step(run[j], run[j + 1]));
        assert(run[j] == init.last());
        assert(run.last() == run[j + 1]);
        let a = run[j];
        let b = run.last();
        if exists|ch: char| #[trigger] typed_in_search(a.0, a.1, ch, b.0, b.1) {
            let ch = choose|ch: char| #[trigger] typed_in_search(a.0, a.1, ch, b.0, b.1);
        }
    }
}

/// The search stands at the match picked near `from` (its wrap flag set
/// accordingly) and the cursor moved to it, or, without matches, failed
/// with the cursor where it was.
pub open spec fn searched_to(st: SearchState, t: Seq<char>, from: int, c1: CursorPosition) -> bool {
    if st.matches@.len() == 0 {
        &&& st.current_index is None
        &&& st.failed
    } else {
        let (i, w) = picked(st.matches@, st.direction, from);
        &&& 0 <= i < st.matches@.len()
        &&& st.current_index == Some(i as usize)
        &&& !st.failed
        &&& st.wrapped == w
        &&& c1.char_pos == (if st.matches@[i].start <= t.len() { st.matches@[i].start as int } else { t.len() as int })
    }
}

/// What starting a search does.
pub open spec fn started<M: StringMatcher>(
    c0: SearchController<M>,
    e0: TextEditor,
    d: SearchDirection,
    c1: SearchController<M>,
    e1: TextEditor,
) -> bool {
    let st = c1.search_state();
    &&& st.active
    &&& st.direction == d
    &&& st.start_cursor == Some(e0.cursor)
    &&& st.start_char_index == e0.cursor.char_pos
    &&& st.pattern@ == (match c0.last() {
        Some(p) => p,
        None => Seq::<char>::empty(),
    })
    &&& c1.last() == c0.last()
    &&& st.pattern@.len() == 0 ==> st.matches@.len() == 0 && e1.cursor == e0.cursor && !st.failed
    &&& st.pattern@.len() > 0 ==> st.matches@ == c1.expected_matches(e0.text()) && searched_to(
        st,
        e0.text(),
        e0.cursor.char_pos as int,
        e1.cursor,
    )
}

/// What repeating a search in direction `d` does: without a search one
/// starts; with matches the next one in `d` is taken, wrapping around.
pub open spec fn repeated<M: StringMatcher>(
    c0: SearchController<M>,
    e0: TextEditor,
    d: SearchDirection,
    c1: SearchController<M>,
    e1: TextEditor,
) -> bool {
    let s0 = c0.search_state();
    let s1 = c1.search_state();
    let n = s0.matches@.len();
    if !s0.active {
        started(c0, e0, d, c1, e1)
    } else if s0.pattern@.len() == 0 {
        s1 == s0 && e1.cursor == e0.cursor
    } else if n == 0 {
        s1 == (SearchState { failed: true, ..s0 }) && e1.cursor == e0.cursor
    } else {
        let (next, w) = match (s0.current_index, d) {
            (Some(i), SearchDirection::Forward) => if i + 1 < n { (i + 1, false) } else { (0, true) },
            (None, SearchDirection::Forward) => (0, true),
            (Some(i), SearchDirection::Backward) => if i > 0 { (i - 1, false) } else { (n - 1, true) },
            (None, SearchDirection::Backward) => (n - 1, true),
        };
        &&& s1 == (SearchState {
            current_index: Some(next as usize),
            failed: false,
            wrapped: w,
            direction: d,
            ..s0
        })
        &&& e1.cursor == synced(CursorPosition { char_pos: s0.matches@[next].start, ..e0.cursor }, e0.text())
    }
}

/// The search's case rule follows its pattern: a pattern with an uppercase
/// letter only matches text that has exactly those characters, while a
/// pattern without one matches regardless of ASCII case (its matches are
/// those of a case-insensitive search).
pub proof fn law_search_case_follows_pattern(c: SearchController<LiteralMatcher>, t: Seq<char>)
    requires
        t.len() <= usize::MAX,
    ensures
        (exists|k: int| 0 <= k < c.search_state().pattern@.len() && spec_is_uppercase(
            #[trigger] c.search_state().pattern@[k],
        )) ==> forall|j: int|
            0 <= j < c.expected_matches(t).len() ==> t.subrange(
                (#[trigger] c.expected_matches(t)[j]).start as int,
                c.expected_matches(t)[j].end as int,
            ) == c.search_state().pattern@,
        (forall|k: int| 0 <= k < c.search_state().pattern@.len() ==> !spec_is_uppercase(
            #[trigger] c.search_state().pattern@[k],
        )) ==> c.expected_matches(t) == literal_matches(t, c.search_state().pattern@, false),
{
    let p = c.search_state().pattern@;
    lemma_literal_matches_occur(t, p, has_upper(p));
    if exists|k: int| 0 <= k < p.len() && spec_is_uppercase(#[trigger] p[k]) {
        assert(has_upper(p));
        assert forall|j: int| 0 <= j < c.expected_matches(t).len() implies t.subrange(
            (#[trigger] c.expected_matches(t)[j]).start as int,
            c.expected_matches(t)[j].end as int,
        ) == p by {
            let m = c.expected_matches(t)[j];
            assert(occurs_here(t, p, m.start as int, true));
            assert(t.subrange(m.start as int, m.end as int) =~= p) by {
                assert forall|k: int| 0 <= k < p.len() implies t.subrange(m.start as int, m.end as int)[k] == p[k] by {
                    assert(chars_match(t[m.start + k], p[k], true));
                }
            }
        }
    }
}

/// The match a search picks near position `p`: going forward, the first
/// match starting at or after `p`, or (wrapping) the first match of all when
/// none does; going backward, the last match starting at or before `p`, or
/// (wrapping) the last match of all when none does.
pub proof fn law_search_picks_nearest(ms: Seq<SearchMatch>, d: SearchDirection, p: int)
    requires
        ms.len() > 0,
    ensures
        ({
            let (k, wrapped) = picked(ms, d, p);
            &&& 0 <= k < ms.len()
            &&& d == SearchDirection::Forward ==> if wrapped {
                k == 0 && forall|j: int| 0 <= j < ms.len() ==> (#[trigger] ms[j]).start < p
            } else {
                ms[k].start >= p && forall|j: int| 0 <= j < k ==> (#[trigger] ms[j]).start < p
            }
            &&& d == SearchDirection::Backward ==> if wrapped {
                k == ms.len() - 1 && forall|j: int| 0 <= j < ms.len() ==> (#[trigger] ms[j]).start > p
            } else {
                ms[k].start <= p && forall|j: int| k < j < ms.len() ==> (#[trigger] ms[j]).start > p
            }
        }),
{
    lemma_first_from(ms, p, 0);
    lemma_last_upto(ms, p, ms.len() as int);
}

proof fn lemma_first_from(ms: Seq<SearchMatch>, p: int, k: int)
    requires
        0 <= k <= ms.len(),
    ensures
        first_from(ms, p, k) == -1 ==> forall|j: int| k <= j < ms.len() ==> (#[trigger] ms[j]).start < p,
        first_from(ms, p, k) != -1 ==> k <= first_from(ms, p, k) < ms.len() && ms[first_from(ms, p, k)].start >= p
            && forall|j: int| k <= j < first_from(ms, p, k) ==> (#[trigger] ms[j]).start < p,
    decreases ms.len() - k,
{
    if k < ms.len() && ms[k].start < p {
        lemma_first_from(ms, p, k + 1);
    }
}

proof fn lemma_last_upto(ms: Seq<SearchMatch>, p: int, k: int)
    requires
        0 <= k <= ms.len(),
    ensures
        last_upto(ms, p, k) == -1 ==> forall|j: int| 0 <= j < k ==> (#[trigger] ms[j]).start > p,
        last_upto(ms, p, k) != -1 ==> 0 <= last_upto(ms, p, k) < k && ms[last_upto(ms, p, k)].start <= p
            && forall|j: int| last_upto(ms, p, k) < j < k ==> (#[trigger] ms[j]).start > p,
    decreases k,
{
    if k > 0 && ms[k - 1].start > p {
        lemma_last_upto(ms, p, k - 1);
    }
}

} // verus!
