//! Query replace: the occurrences of a pattern are offered one by one to be
//! replaced or skipped; cancelling undoes the replacements made.
use crate::buffer::editor::TextEditor;
use crate::error::Result;
use crate::search::matcher::{literal_matches, LiteralMatcher, StringMatcher};
use crate::search::types::{
    highlight_span, highlight_span_len, line_column_at, line_column_of, HighlightKind, SearchHighlight,
};
use crate::text::{chars_of, string_from_range};
use vstd::prelude::*;

verus! {

/// How a replace session started.
#[derive(Debug, Clone)]
pub struct ReplaceStart {
    pub total_matches: usize,
    pub case_sensitive: bool,
    pub is_regex: bool,
}

/// How far a replace session got.
#[derive(Debug, Clone)]
pub struct ReplaceProgress {
    pub replaced: usize,
    pub skipped: usize,
    pub remaining: usize,
    pub finished: bool,
}

/// How a replace session ended.
#[derive(Debug, Clone)]
pub struct ReplaceSummary {
    pub replaced: usize,
    pub skipped: usize,
    pub cancelled: bool,
}

/// An occurrence still on offer, with its replacement.
#[derive(Debug, Clone)]
pub struct ReplaceCandidate {
    pub start: usize,
    pub end: usize,
    pub replacement: String,
}

/// A replacement made: where, how long the new text is, and what it
/// replaced.
#[derive(Debug, Clone)]
pub struct AppliedChange {
    pub start: usize,
    pub replacement_len: usize,
    pub original: String,
}

/// A running replace session. Beside the offers and counters it keeps, for
/// the proof only, the text the session started from and the text its last
/// replacement left, and whether every replacement was made on the text the
/// previous one left.
#[derive(Clone)]
pub struct ReplaceState {
    pub pattern: String,
    pub replacement_input: String,
    pub candidates: Vec<ReplaceCandidate>,
    pub current_index: usize,
    pub replaced: usize,
    pub skipped: usize,
    pub is_regex: bool,
    pub history: Vec<AppliedChange>,
    pub total_initial: usize,
    pub origin: Ghost<Seq<char>>,
    pub session_text: Ghost<Seq<char>>,
    pub in_sync: Ghost<bool>,
}

/// Undoes one replacement of text `t`: `(start, length, original)`.
pub open spec fn undo_one(t: Seq<char>, h: (int, int, Seq<char>)) -> Seq<char> {
    t.take(h.0) + h.2 + t.skip(h.0 + h.1)
}

/// Text `t` can be taken back to `origin` by undoing the replacements
/// `hs`, the last one first: each undo finds its range within the text
/// and room to put the original back.
pub open spec fn replayable(t: Seq<char>, hs: Seq<(int, int, Seq<char>)>, origin: Seq<char>) -> bool
    decreases hs.len(),
{
    if hs.len() == 0 {
        t == origin
    } else {
        let h = hs.last();
        &&& 0 <= h.0
        &&& h.0 + h.1 <= t.len()
        &&& crate::buffer::editor::room_for(t, h.2.len() as int)
        &&& replayable(undo_one(t, h), hs.drop_last(), origin)
    }
}

/// The replacements of a history.
pub open spec fn changes(hs: Seq<AppliedChange>) -> Seq<(int, int, Seq<char>)> {
    hs.map_values(|h: AppliedChange| (h.start as int, h.replacement_len as int, h.original@))
}

/// The session is consistent: counters add up, the offer lies within the
/// offers, and undoing the history of a session that stayed in step with
/// its text gives back the text it started from.
pub open spec fn session_ok(s: ReplaceState) -> bool {
    &&& s.replaced + s.skipped + s.candidates@.len() <= s.total_initial
    &&& s.current_index <= s.candidates@.len()
    &&& forall|k: int| 0 <= k < s.candidates@.len() ==> (#[trigger] s.candidates@[k]).start <= s.candidates@[k].end
    &&& forall|k: int| 0 <= k < s.history@.len() ==> (#[trigger] s.history@[k]).start + s.history@[k].replacement_len
        <= usize::MAX
    &&& s.in_sync@ ==> replayable(s.session_text@, changes(s.history@), s.origin@)
}

/// The progress of a session state.
pub open spec fn progress_of(s: ReplaceState) -> (usize, usize, usize, bool) {
    (
        s.replaced,
        s.skipped,
        (if s.candidates@.len() >= s.current_index { s.candidates@.len() - s.current_index } else { 0 }) as usize,
        s.candidates@.len() == 0,
    )
}

/// `p` reports the tuple `v`.
pub open spec fn reports(p: ReplaceProgress, v: (usize, usize, usize, bool)) -> bool {
    p.replaced == v.0 && p.skipped == v.1 && p.remaining == v.2 && p.finished == v.3
}

/// `v` shifted by `diff`, clamped to `usize`'s range.
pub open spec fn shifted(v: usize, diff: int) -> usize {
    if v + diff < 0 {
        0
    } else if v + diff > usize::MAX {
        usize::MAX
    } else {
        (v + diff) as usize
    }
}

/// The highlights of offers `k..` over text `t`: one per offer whose first
/// line is not empty, marking the current offer.
pub open spec fn offer_highlights(t: Seq<char>, cs: Seq<ReplaceCandidate>, cur: usize, k: int) -> Seq<SearchHighlight>
    decreases cs.len() - k,
{
    if k < 0 || k >= cs.len() {
        Seq::empty()
    } else {
        let c = cs[k];
        let lc = line_column_of(t, c.start as int);
        let span = highlight_span_len(t, c.start as int, if c.end >= c.start { c.end - c.start } else { 0 });
        let rest = offer_highlights(t, cs, cur, k + 1);
        if span == 0 {
            rest
        } else {
            seq![SearchHighlight {
                line: lc.0 as usize,
                start_column: lc.1 as usize,
                end_column: (lc.1 + span) as usize,
                is_current: k == cur,
                kind: HighlightKind::Search,
            }] + rest
        }
    }
}

/// Characters `start..end` of `t`, both clamped to its end.
pub open spec fn clamped_slice(t: Seq<char>, start: int, end: int) -> Seq<char> {
    let s = if start <= t.len() { start } else { t.len() as int };
    let e = if end <= t.len() { end } else { t.len() as int };
    t.subrange(s, e)
}

/// The query-replace controller.
#[derive(Clone)]
pub struct QueryReplaceController {
    state: Option<ReplaceState>,
}

impl QueryReplaceController {
    /// The running session, if any.
    pub closed spec fn session(&self) -> Option<ReplaceState> {
        self.state
    }

    /// The session is consistent.
    pub closed spec fn wf(&self) -> bool {
        self.state matches Some(s) ==> session_ok(s)
    }

    /// No session.
    pub fn new() -> (r: Self)
        ensures
            r.wf(),
            r.session() is None,
    {
        Self { state: None }
    }

    /// Whether a session runs.
    pub fn is_active(&self) -> (r: bool)
        ensures
            r == self.session() is Some,
    {
        self.state.is_some()
    }

    /// The pattern of the session.
    pub fn pattern(&self) -> (r: Option<&str>)
        ensures
            match self.session() {
                Some(s) => r matches Some(p) && p@ == s.pattern@,
                None => r is None,
            },
    {
        match &self.state {
            Some(s) => Some(s.pattern.as_str()),
            None => None,
        }
    }

    /// The replacement text of the session.
    pub fn replacement(&self) -> (r: Option<&str>)
        ensures
            match self.session() {
                Some(s) => r matches Some(p) && p@ == s.replacement_input@,
                None => r is None,
            },
    {
        match &self.state {
            Some(s) => Some(s.replacement_input.as_str()),
            None => None,
        }
    }

    /// Whether the session replaces a regular expression.
    pub fn is_regex(&self) -> (r: bool)
        ensures
            r == (self.session() matches Some(s) && s.is_regex),
    {
        match &self.state {
            Some(s) => s.is_regex,
            None => false,
        }
    }

    /// Number of occurrences the session started with.
    pub fn total_matches(&self) -> (r: usize)
        ensures
            r == (match self.session() {
                Some(s) => s.total_initial,
                None => 0,
            }),
    {
        match &self.state {
            Some(s) => s.total_initial,
            None => 0,
        }
    }

    /// The range of the current offer.
    pub fn current_range(&self) -> (r: Option<(usize, usize)>)
        ensures
            match self.session() {
                Some(s) => if s.current_index < s.candidates@.len() {
                    r == Some((s.candidates@[s.current_index as int].start, s.candidates@[s.current_index as int].end))
                } else {
                    r is None
                },
                None => r is None,
            },
    {
        match &self.state {
            Some(s) => if s.current_index < s.candidates.len() {
                Some((s.candidates[s.current_index].start, s.candidates[s.current_index].end))
            } else {
                None
            },
            None => None,
        }
    }

    /// Starts a session replacing the literal occurrences of `pattern` in
    /// `text` by `replacement`; without occurrences no session starts.
    pub fn start_literal(&mut self, text: &str, pattern: String, replacement: String, case_sensitive: bool) -> (r:
        ReplaceStart)
        ensures
            final(self).wf(),
            r.total_matches == literal_matches(text@, pattern@, case_sensitive).len(),
            r.case_sensitive == case_sensitive,
            !r.is_regex,
            r.total_matches == 0 ==> final(self).session() is None,
            r.total_matches > 0 ==> (final(self).session() matches Some(s) && s.pattern@ == pattern@
                && s.replacement_input@ == replacement@ && s.current_index == 0 && s.replaced == 0 && s.skipped == 0
                && s.total_initial == r.total_matches && !s.is_regex && s.history@.len() == 0 && s.origin@ == text@
                && s.session_text@ == text@ && s.in_sync@ && s.candidates@.len() == r.total_matches
                && forall|k: int|
                0 <= k < s.candidates@.len() ==> (#[trigger] s.candidates@[k]).start == literal_matches(
                    text@,
                    pattern@,
                    case_sensitive,
                )[k].start && s.candidates@[k].end == literal_matches(text@, pattern@, case_sensitive)[k].end
                    && s.candidates@[k].replacement@ == replacement@),
    {
        let matcher = LiteralMatcher::new();
        let matches = matcher.find_matches(text, pattern.as_str(), case_sensitive);
        let total = matches.len();
        let mut candidates: Vec<ReplaceCandidate> = Vec::new();
        let mut k: usize = 0;
        while k < matches.len()
            invariant
                k <= matches@.len(),
                candidates@.len() == k,
                forall|m: int|
                    0 <= m < k ==> (#[trigger] candidates@[m]).start == matches@[m].start && candidates@[m].end
                        == matches@[m].end && candidates@[m].replacement@ == replacement@,
            decreases matches@.len() - k,
        {
            candidates.push(
                ReplaceCandidate { start: matches[k].start, end: matches[k].end, replacement: replacement.clone() },
            );
            k += 1;
        }
        self.state = if total == 0 {
            None
        } else {
            Some(
                ReplaceState {
                    pattern: pattern.clone(),
                    replacement_input: replacement.clone(),
                    candidates,
                    current_index: 0,
                    replaced: 0,
                    skipped: 0,
                    is_regex: false,
                    history: Vec::new(),
                    total_initial: total,
                    origin: Ghost(text@),
                    session_text: Ghost(text@),
                    in_sync: Ghost(true),
                },
            )
        };
        ReplaceStart { total_matches: total, case_sensitive, is_regex: false }
    }

    /// The current offer over `text`: what it covers, its replacement, its
    /// number (from 1) and the number of occurrences.
    pub fn current_preview(&self, text: &str) -> (r: Option<(String, String, usize, usize)>)
        requires
            self.wf(),
        ensures
            match self.session() {
                Some(s) => if s.current_index < s.candidates@.len() {
                    let c = s.candidates@[s.current_index as int];
                    r matches Some(p) && p.0@ == clamped_slice(text@, c.start as int, c.end as int) && p.1@
                        == c.replacement@ && p.2 == s.replaced + s.skipped + 1 && p.3 == s.total_initial
                } else {
                    r is None
                },
                None => r is None,
            },
    {
        match &self.state {
            Some(s) => if s.current_index < s.candidates.len() {
                let c = &s.candidates[s.current_index];
                let chars = chars_of(text);
                let n = chars.len();
                let a = if c.start <= n { c.start } else { n };
                let b = if c.end <= n { c.end } else { n };
                let original = string_from_range(&chars, a, b);
                Some((original, c.replacement.clone(), s.replaced + s.skipped + 1, s.total_initial))
            } else {
                None
            },
            None => None,
        }
    }

    /// The highlights of the offers over `text`.
    pub fn highlights(&self, text: &str) -> (r: Vec<SearchHighlight>)
        ensures
            match self.session() {
                Some(s) => r@ == offer_highlights(text@, s.candidates@, s.current_index, 0),
                None => r@ == Seq::<SearchHighlight>::empty(),
            },
    {
        let mut highlights: Vec<SearchHighlight> = Vec::new();
        let state = match &self.state {
            Some(s) => s,
            None => {
                return highlights;
            },
        };
        let chars = chars_of(text);
        let ghost t = chars@;
        let ghost cs = state.candidates@;
        let mut k: usize = 0;
        while k < state.candidates.len()
            invariant
                t == text@,
                chars@ == t,
                cs == state.candidates@,
                k <= cs.len(),
                offer_highlights(t, cs, state.current_index, 0) == highlights@ + offer_highlights(
                    t,
                    cs,
                    state.current_index,
                    k as int,
                ),
            decreases cs.len() - k,
        {
            let c = &state.candidates[k];
            let (line, column) = line_column_at(&chars, c.start);
            let len = if c.end >= c.start { c.end - c.start } else { 0 };
            let span = highlight_span(&chars, c.start, len);
            proof {
                lemma_offer_span_fits(t, c.start as int, len as int);
                crate::buffer::editor::lemma_walk_bounds(0, 0, t.take(if c.start <= t.len() { c.start as int } else { t.len() as int }));
            }
            let ghost before = highlights@;
            if span > 0 {
                highlights.push(
                    SearchHighlight {
                        line,
                        start_column: column,
                        end_column: column + span,
                        is_current: k == state.current_index,
                        kind: HighlightKind::Search,
                    },
                );
                assert(highlights@ + offer_highlights(t, cs, state.current_index, k + 1) =~= before
                    + offer_highlights(t, cs, state.current_index, k as int));
            }
            k += 1;
        }
        highlights
    }

    /// Replaces the current offer in `editor` and moves on to the next one;
    /// later offers shift by the change in length.
    pub fn accept_current(&mut self, editor: &mut TextEditor) -> (r: Result<ReplaceProgress>)
        requires
            old(self).wf(),
            old(editor).wf(),
        ensures
            final(self).wf(),
            final(editor).wf(),
            accepted(old(self).session(), *old(editor), final(self).session(), *final(editor), r),
    {
        let state = match &mut self.state {
            Some(s) => s,
            None => {
                return Ok(ReplaceProgress { replaced: 0, skipped: 0, remaining: 0, finished: true });
            },
        };
        if state.candidates.len() == 0 || state.current_index >= state.candidates.len() {
            return Ok(ReplaceProgress { replaced: state.replaced, skipped: state.skipped, remaining: 0, finished: true });
        }
        let ghost s0 = *state;
        let ghost t0 = editor.text();
        let candidate = state.candidates.remove(state.current_index);
        let replacement_len = chars_of(candidate.replacement.as_str()).len();
        let original = match editor.replace_range_span(candidate.start, candidate.end, candidate.replacement.as_str()) {
            Ok(o) => o,
            Err(e) => {
                proof {
                    assert forall|k: int| 0 <= k < state.candidates@.len() implies (#[trigger] state.candidates@[k]).start
                        <= state.candidates@[k].end by {
                        if k < s0.current_index {
                            assert(state.candidates@[k] == s0.candidates@[k]);
                        } else {
                            assert(state.candidates@[k] == s0.candidates@[k + 1]);
                        }
                    }
                }
                return Err(e);
            },
        };
        let original_len = chars_of(original.as_str()).len();
        proof {
            editor.buffer.lemma_len_bound();
        }
        let ghost h = AppliedChange { start: candidate.start, replacement_len, original };
        state.history.push(AppliedChange { start: candidate.start, replacement_len, original });
        state.replaced += 1;
        proof {
            let t1 = editor.text();
            assert(undo_one(t1, (candidate.start as int, replacement_len as int, original@)) =~= t0);
            assert(changes(state.history@).drop_last() =~= changes(s0.history@));
            assert(changes(state.history@).last() == (candidate.start as int, replacement_len as int, original@));
            state.in_sync = Ghost(s0.in_sync@ && t0 == s0.session_text@);
            state.session_text = Ghost(t1);
            assert(t1.len() == t0.len() - (candidate.end - candidate.start) + replacement_len);
            if state.in_sync@ {
                assert(replayable(t1, changes(state.history@), state.origin@));
            }
        }
        let ci = state.current_index;
        let ghost removed = state.candidates@;
        proof {
            assert forall|k: int| 0 <= k < removed.len() implies #[trigger] removed[k] == (if k < ci {
                s0.candidates@[k]
            } else {
                s0.candidates@[k + 1]
            }) by {}
        }
        if replacement_len > original_len {
            adjust_candidates_up(&mut state.candidates, ci, replacement_len - original_len);
        } else if replacement_len < original_len {
            adjust_candidates_down(&mut state.candidates, ci, original_len - replacement_len);
        }
        proof {
            let diff = candidate.replacement@.len() - (candidate.end - candidate.start);
            assert(replacement_len == candidate.replacement@.len());
            assert(original_len == candidate.end - candidate.start);
            assert forall|k: int| 0 <= k < state.candidates@.len() && ci <= k && replacement_len == original_len
                implies #[trigger] state.candidates@[k].start == shifted(removed[k].start, diff)
                && state.candidates@[k].end == shifted(removed[k].end, diff) by {}
            assert(shifted_offers(s0.candidates@, ci as int, diff, state.candidates@));
        }
        if state.current_index >= state.candidates.len() && state.candidates.len() > 0 {
            state.current_index = state.candidates.len() - 1;
        }
        let remaining = if state.candidates.len() >= state.current_index {
            state.candidates.len() - state.current_index
        } else {
            0
        };
        Ok(
            ReplaceProgress {
                replaced: state.replaced,
                skipped: state.skipped,
                remaining,
                finished: state.candidates.len() == 0,
            },
        )
    }

    /// Drops the current offer without replacing it.
    pub fn skip_current(&mut self) -> (r: ReplaceProgress)
        requires
            old(self).wf(),
        ensures
            final(self).wf(),
            match old(self).session() {
                None => final(self).session() is None && reports(r, (0, 0, 0, true)),
                Some(s) => final(self).session() matches Some(n) && skipped(s, n) && if s.candidates@.len() == 0
                    || s.current_index >= s.candidates@.len() {
                    reports(r, (s.replaced, s.skipped, 0, true))
                } else {
                    reports(r, progress_of(n))
                },
            },
    {
        let state = match &mut self.state {
            Some(s) => s,
            None => {
                return ReplaceProgress { replaced: 0, skipped: 0, remaining: 0, finished: true };
            },
        };
        if state.candidates.len() == 0 || state.current_index >= state.candidates.len() {
            return ReplaceProgress { replaced: state.replaced, skipped: state.skipped, remaining: 0, finished: true };
        }
        let ghost s0 = *state;
        state.candidates.remove(state.current_index);
        state.skipped += 1;
        if state.current_index >= state.candidates.len() && state.candidates.len() > 0 {
            state.current_index = state.candidates.len() - 1;
        }
        proof {
            assert forall|k: int| 0 <= k < state.candidates@.len() implies (#[trigger] state.candidates@[k]).start
                <= state.candidates@[k].end by {
                if k < s0.current_index {
                    assert(state.candidates@[k] == s0.candidates@[k]);
                } else {
                    assert(state.candidates@[k] == s0.candidates@[k + 1]);
                }
            }
        }
        let remaining = if state.candidates.len() >= state.current_index {
            state.candidates.len() - state.current_index
        } else {
            0
        };
        ReplaceProgress {
            replaced: state.replaced,
            skipped: state.skipped,
            remaining,
            finished: state.candidates.len() == 0,
        }
    }

    /// Replaces every remaining offer.
    pub fn accept_all(&mut self, editor: &mut TextEditor) -> (r: Result<ReplaceProgress>)
        requires
            old(self).wf(),
            old(editor).wf(),
        ensures
            final(self).wf(),
            final(editor).wf(),
            r matches Ok(p) ==> reports(p, match final(self).session() {
                Some(s) => progress_of(s),
                None => (0, 0, 0, true),
            }),
            r is Ok ==> match final(self).session() {
                Some(s) => s.candidates@.len() == 0 || s.current_index >= s.candidates@.len(),
                None => true,
            },
            match old(self).session() {
                None => r is Ok && final(self).session() is None && final(editor).text() == old(editor).text(),
                Some(s) => (s.candidates@.len() == 0 || s.current_index >= s.candidates@.len()) ==> r is Ok
                    && final(self).session() == old(self).session() && final(editor).text() == old(editor).text(),
            },
            r is Err ==> final(self).session() is Some,
    {
        let finished_at_start = match &self.state {
            Some(s) => s.candidates.len() == 0 || s.current_index >= s.candidates.len(),
            None => true,
        };
        if finished_at_start {
            return Ok(self.progress());
        }
        loop
            invariant
                self.wf(),
                editor.wf(),
                self.session() is Some,
                old(self).session() matches Some(s0) && !(s0.candidates@.len() == 0 || s0.current_index
                    >= s0.candidates@.len()),
            ensures
                self.wf(),
                editor.wf(),
                match self.session() {
                    Some(s) => s.candidates@.len() == 0 || s.current_index >= s.candidates@.len(),
                    None => true,
                },
            decreases match self.session() {
                Some(s) => s.candidates@.len(),
                None => 0,
            },
        {
            let finished = match &self.state {
                Some(s) => s.candidates.len() == 0 || s.current_index >= s.candidates.len(),
                None => true,
            };
            if finished {
                break;
            }
            self.accept_current(editor)?;
        }
        Ok(self.progress())
    }

    /// How far the session got.
    pub fn progress(&self) -> (r: ReplaceProgress)
        ensures
            reports(r, match self.session() {
                Some(s) => progress_of(s),
                None => (0, 0, 0, true),
            }),
    {
        match &self.state {
            Some(s) => ReplaceProgress {
                replaced: s.replaced,
                skipped: s.skipped,
                remaining: if s.candidates.len() >= s.current_index {
                    s.candidates.len() - s.current_index
                } else {
                    0
                },
                finished: s.candidates.len() == 0,
            },
            None => ReplaceProgress { replaced: 0, skipped: 0, remaining: 0, finished: true },
        }
    }

    /// Ends the session, undoing its replacements, the last one first. When
    /// the editor holds the text the session left and every replacement was
    /// made on the text the previous one left, the undo succeeds and the text
    /// the session started from comes back.
    pub fn cancel(&mut self, editor: &mut TextEditor) -> (r: Result<ReplaceSummary>)
        requires
            old(self).wf(),
            old(editor).wf(),
        ensures
            final(self).wf(),
            final(editor).wf(),
            final(self).session() is None,
            r matches Ok(sum) ==> sum.cancelled && match old(self).session() {
                Some(s) => sum.replaced == s.replaced && sum.skipped == s.skipped,
                None => sum.replaced == 0 && sum.skipped == 0,
            },
            old(self).session() is None ==> r is Ok && final(editor).text() == old(editor).text(),
            match old(self).session() {
                Some(s) => s.in_sync@ && old(editor).text() == s.session_text@ ==> r is Ok && final(editor).text()
                    == s.origin@,
                None => true,
            },
    {
        let taken = self.state.take();
        assert(taken == old(self).session());
        match taken {
            Some(state) => {
                let ghost hs = changes(state.history@);
                let mut i = state.history.len();
                assert(hs.take(i as int) =~= hs);
                while i > 0
                    invariant
                        self.session() is None,
                        old(self).session() == Some(state),
                        editor.wf(),
                        i <= state.history@.len(),
                        hs == changes(state.history@),
                        session_ok(state),
                        state.in_sync@ && old(editor).text() == state.session_text@ ==> replayable(
                            editor.text(),
                            hs.take(i as int),
                            state.origin@,
                        ),
                    decreases i,
                {
                    let change = &state.history[i - 1];
                    let end = change.start + change.replacement_len;
                    let ghost before = editor.text();
                    proof {
                        assert(hs.take(i as int).drop_last() =~= hs.take(i - 1));
                        assert(hs.take(i as int).last() == hs[i - 1]);
                        assert(hs[i - 1] == (change.start as int, change.replacement_len as int, change.original@));
                        if state.in_sync@ && old(editor).text() == state.session_text@ {
                            assert(replayable(before, hs.take(i as int), state.origin@));
                            assert(change.start + change.replacement_len <= before.len());
                            assert(crate::buffer::editor::room_for(before, change.original@.len() as int));
                        }
                    }
                    match editor.replace_range_span(change.start, end, change.original.as_str()) {
                        Ok(_) => {},
                        Err(e) => {
                            proof {
                                assert(!(state.in_sync@ && old(editor).text() == state.session_text@));
                            }
                            return Err(e);
                        },
                    }
                    proof {
                        assert(editor.text() == undo_one(before, hs[i - 1]));
                    }
                    i -= 1;
                }
                proof {
                    assert(hs.take(0) =~= Seq::<(int, int, Seq<char>)>::empty());
                    assert(hs.take(hs.len() as int) =~= hs);
                }
                Ok(ReplaceSummary { replaced: state.replaced, skipped: state.skipped, cancelled: true })
            },
            None => Ok(ReplaceSummary { replaced: 0, skipped: 0, cancelled: true }),
        }
    }

    /// Ends the session, keeping its replacements.
    pub fn finish(&mut self) -> (r: ReplaceSummary)
        ensures
            final(self).wf(),
            final(self).session() is None,
            !r.cancelled,
            match old(self).session() {
                Some(s) => r.replaced == s.replaced && r.skipped == s.skipped,
                None => r.replaced == 0 && r.skipped == 0,
            },
    {
        match self.state.take() {
            Some(state) => ReplaceSummary { replaced: state.replaced, skipped: state.skipped, cancelled: false },
            None => ReplaceSummary { replaced: 0, skipped: 0, cancelled: false },
        }
    }
}

impl Default for QueryReplaceController {
    fn default() -> (r: Self)
        ensures
            r.wf(),
            r.session() is None,
    {
        Self::new()
    }
}

/// Shifts offers `from..` up by `d`, saturating.
fn adjust_candidates_up(cs: &mut Vec<ReplaceCandidate>, from: usize, d: usize)
    requires
        forall|k: int| 0 <= k < old(cs)@.len() ==> (#[trigger] old(cs)@[k]).start <= old(cs)@[k].end,
    ensures
        final(cs)@.len() == old(cs)@.len(),
        forall|k: int| 0 <= k < final(cs)@.len() ==> (#[trigger] final(cs)@[k]).start <= final(cs)@[k].end,
        forall|k: int|
            0 <= k < final(cs)@.len() ==> (#[trigger] final(cs)@[k]).replacement@ == old(cs)@[k].replacement@ && if k
                < from {
                final(cs)@[k].start == old(cs)@[k].start && final(cs)@[k].end == old(cs)@[k].end
            } else {
                final(cs)@[k].start == shifted(old(cs)@[k].start, d as int) && final(cs)@[k].end == shifted(
                    old(cs)@[k].end,
                    d as int,
                )
            },
{
    let mut k = from;
    while k < cs.len()
        invariant
            cs@.len() == old(cs)@.len(),
            from <= k,
            forall|m: int| 0 <= m < cs@.len() ==> (#[trigger] cs@[m]).start <= cs@[m].end,
            forall|m: int|
                0 <= m < cs@.len() ==> (#[trigger] cs@[m]).replacement@ == old(cs)@[m].replacement@ && if m < from
                    || m >= k {
                    cs@[m].start == old(cs)@[m].start && cs@[m].end == old(cs)@[m].end
                } else {
                    cs@[m].start == shifted(old(cs)@[m].start, d as int) && cs@[m].end == shifted(
                        old(cs)@[m].end,
                        d as int,
                    )
                },
        decreases cs@.len() - k,
    {
        let s = cs[k].start;
        let e = cs[k].end;
        let ns = s.saturating_add(d);
        let ne = e.saturating_add(d);
        let c = ReplaceCandidate { start: ns, end: ne, replacement: cs[k].replacement.clone() };
        cs.set(k, c);
        k += 1;
    }
}

/// Shifts offers `from..` down by `d`, saturating.
fn adjust_candidates_down(cs: &mut Vec<ReplaceCandidate>, from: usize, d: usize)
    requires
        forall|k: int| 0 <= k < old(cs)@.len() ==> (#[trigger] old(cs)@[k]).start <= old(cs)@[k].end,
    ensures
        final(cs)@.len() == old(cs)@.len(),
        forall|k: int| 0 <= k < final(cs)@.len() ==> (#[trigger] final(cs)@[k]).start <= final(cs)@[k].end,
        forall|k: int|
            0 <= k < final(cs)@.len() ==> (#[trigger] final(cs)@[k]).replacement@ == old(cs)@[k].replacement@ && if k
                < from {
                final(cs)@[k].start == old(cs)@[k].start && final(cs)@[k].end == old(cs)@[k].end
            } else {
                final(cs)@[k].start == shifted(old(cs)@[k].start, -d) && final(cs)@[k].end == shifted(
                    old(cs)@[k].end,
                    -d,
                )
            },
{
    let mut k = from;
    while k < cs.len()
        invariant
            cs@.len() == old(cs)@.len(),
            from <= k,
            forall|m: int| 0 <= m < cs@.len() ==> (#[trigger] cs@[m]).start <= cs@[m].end,
            forall|m: int|
                0 <= m < cs@.len() ==> (#[trigger] cs@[m]).replacement@ == old(cs)@[m].replacement@ && if m < from
                    || m >= k {
                    cs@[m].start == old(cs)@[m].start && cs@[m].end == old(cs)@[m].end
                } else {
                    cs@[m].start == shifted(old(cs)@[m].start, -d) && cs@[m].end == shifted(old(cs)@[m].end, -d)
                },
        decreases cs@.len() - k,
    {
        let s = cs[k].start;
        let e = cs[k].end;
        let ns = s.saturating_sub(d);
        let ne = e.saturating_sub(d);
        let c = ReplaceCandidate { start: ns, end: ne, replacement: cs[k].replacement.clone() };
        cs.set(k, c);
        k += 1;
    }
}

proof fn lemma_offer_span_fits(t: Seq<char>, start: int, len: int)
    requires
        0 <= start,
    ensures
        start <= t.len() ==> highlight_span_len(t, start, len) <= t.len() - start,
        start > t.len() ==> highlight_span_len(t, start, len) == 0,
    decreases len,
{
    if len > 0 && start < t.len() && t[start] != '\n' {
        lemma_offer_span_fits(t, start + 1, len - 1);
    }
}

/// Every offer found is accounted for: replaced, skipped or still on offer,
/// the current offer being the first one left.
pub open spec fn counted(s: ReplaceState) -> bool {
    &&& s.replaced + s.skipped + s.candidates@.len() == s.total_initial
    &&& s.current_index == 0
}

/// `ns` is `cs` without offer `i`, the offers after it moved by `diff`.
pub open spec fn shifted_offers(cs: Seq<ReplaceCandidate>, i: int, diff: int, ns: Seq<ReplaceCandidate>) -> bool {
    &&& ns.len() == cs.len() - 1
    &&& forall|k: int|
        #![trigger ns[k]]
        0 <= k < ns.len() ==> if k < i {
            ns[k].start == cs[k].start && ns[k].end == cs[k].end && ns[k].replacement@ == cs[k].replacement@
        } else {
            ns[k].start == shifted(cs[k + 1].start, diff) && ns[k].end == shifted(cs[k + 1].end, diff)
                && ns[k].replacement@ == cs[k + 1].replacement@
        }
}

/// Progress adds up: while every offer is accounted for, the replaced, the
/// skipped and the remaining offers make up all the matches found, and the
/// session is finished exactly when none remain.
pub proof fn law_progress_adds_up(s: ReplaceState)
    requires
        counted(s),
    ensures
        progress_of(s).0 + progress_of(s).1 + progress_of(s).2 == s.total_initial,
        progress_of(s).3 == (progress_of(s).2 == 0),
{
}

/// One step of a session that keeps every offer accounted for: an accept
/// whose replacement went through (or that found no offer), or a skip.
pub open spec fn accounted_step(a: ReplaceState, b: ReplaceState) -> bool {
    ||| exists|e0: TextEditor, e1: TextEditor, r: Result<ReplaceProgress>|
        r is Ok && #[trigger] accepted(Some(a), e0, Some(b), e1, r)
    ||| skipped(a, b)
}

/// Progress adds up through a session: from a start where every offer is
/// accounted for (as `start_literal` leaves it), after any run of skips and
/// accepts that went through, the replaced, the skipped and the remaining
/// offers still make up all the matches found, and the session is finished
/// exactly when none remain.
pub proof fn law_progress_adds_up_over_runs(run: Seq<ReplaceState>)
    requires
        run.len() >= 1,
        counted(run[0]),
        forall|i: int| 0 <= i < run.len() - 1 ==> #[trigger] accounted_step(run[i], run[i + 1]),
    ensures
        counted(run.last()),
        progress_of(run.last()).0 + progress_of(run.last()).1 + progress_of(run.last()).2
            == run.last().total_initial,
        progress_of(run.last()).3 == (progress_of(run.last()).2 == 0),
    decreases run.len(),
{
    if run.len() > 1 {
        let init = run.drop_last();
        assert forall|i: int| 0 <= i < init.len() - 1 implies #[trigger] accounted_step(init[i], init[i + 1]) by {
            assert(accounted_step(run[i], run[i + 1]));
        }
        law_progress_adds_up_over_runs(init);
        let j = run.len() - 2;
        assert(accounted_step(run[j], run[j + 1]));
        let a = run[j];
        let b = run.last();
        assert(a == init.last());
        if !skipped(a, b) {
            let (e0, e1, r) = choose|e0: TextEditor, e1: TextEditor, r: Result<ReplaceProgress>|
                r is Ok && #[trigger] accepted(Some(a), e0, Some(b), e1, r);
        }
    }
    law_progress_adds_up(run.last());
}

/// What skipping does to a session: without an offer nothing changes;
/// otherwise the current offer leaves the list, the skip is counted and the
/// rest stays as it was.
pub open spec fn skipped(s: ReplaceState, n: ReplaceState) -> bool {
    if s.candidates@.len() == 0 || s.current_index >= s.candidates@.len() {
        n == s
    } else {
        &&& n.candidates@ == s.candidates@.remove(s.current_index as int)
        &&& n.skipped == s.skipped + 1
        &&& n.replaced == s.replaced
        &&& n.history == s.history
        &&& n.total_initial == s.total_initial
        &&& n.origin == s.origin
        &&& n.session_text == s.session_text
        &&& n.in_sync == s.in_sync
        &&& counted(s) ==> counted(n)
        &&& n.current_index == (if s.current_index >= n.candidates@.len() && n.candidates@.len() > 0 {
            (n.candidates@.len() - 1) as usize
        } else {
            s.current_index
        })
    }
}

/// One step of a replace session with the text of its editor: an accept,
/// whatever its outcome, or a skip, which leaves the text.
pub open spec fn replace_step(a: (ReplaceState, Seq<char>), b: (ReplaceState, Seq<char>)) -> bool {
    ||| exists|e0: TextEditor, e1: TextEditor, r: Result<ReplaceProgress>|
        e0.text() == a.1 && e1.text() == b.1 && #[trigger] accepted(Some(a.0), e0, Some(b.0), e1, r)
    ||| skipped(a.0, b.0) && b.1 == a.1
}

/// A session that starts in step with its editor (as `start_literal`
/// leaves it) stays in step through any run of accepts and skips, with the
/// same starting text; so `cancel` at the end restores that text.
pub proof fn law_run_stays_in_step(run: Seq<(ReplaceState, Seq<char>)>)
    requires
        run.len() >= 1,
        run[0].0.in_sync@,
        run[0].1 == run[0].0.session_text@,
        forall|i: int| 0 <= i < run.len() - 1 ==> #[trigger] replace_step(run[i], run[i + 1]),
    ensures
        run.last().0.in_sync@,
        run.last().1 == run.last().0.session_text@,
        run.last().0.origin == run[0].0.origin,
    decreases run.len(),
{
    if run.len() > 1 {
        let init = run.drop_last();
        assert forall|i: int| 0 <= i < init.len() - 1 implies #[trigger] replace_step(init[i], init[i + 1]) by {
            assert(replace_step(run[i], run[i + 1]));
        }
        law_run_stays_in_step(init);
        let j = run.len() - 2;
        assert(replace_step(run[j], run[j + 1]));
        let a = run[j];
        let b = run.last();
        assert(a == init.last());
        assert(b == run[j + 1]);
        if !(skipped(a.0, b.0) && b.1 == a.1) {
            let (e0, e1, r) = choose|e0: TextEditor, e1: TextEditor, r: Result<ReplaceProgress>|
                e0.text() == a.1 && e1.text() == b.1 && #[trigger] accepted(Some(a.0), e0, Some(b.0), e1, r);
        }
    }
}

/// Offer `c` lies within `t` and the text has room for its replacement.
pub open spec fn offer_fits(c: ReplaceCandidate, t: Seq<char>) -> bool {
    c.start <= c.end <= t.len() && crate::buffer::editor::room_for(t, c.replacement@.len() as int)
}

/// What accepting the current offer does. Without a session or an offer
/// nothing changes. Otherwise the offer leaves the list; when the
/// replacement succeeds the text is replaced, the change recorded, later
/// offers shifted and the counters advanced; a failed replacement leaves
/// the text as it was.
pub open spec fn accepted(
    s0: Option<ReplaceState>,
    e0: TextEditor,
    s1: Option<ReplaceState>,
    e1: TextEditor,
    r: Result<ReplaceProgress>,
) -> bool {
    match s0 {
        None => s1 is None && e1.text() == e0.text() && (r matches Ok(p) && reports(p, (0, 0, 0, true))),
        Some(s) => if s.candidates@.len() == 0 || s.current_index >= s.candidates@.len() {
            s1 == s0 && e1.text() == e0.text() && (r matches Ok(p) && reports(p, (s.replaced, s.skipped, 0, true)))
        } else {
            let c = s.candidates@[s.current_index as int];
            let t0 = e0.text();
            &&& s1 matches Some(n)
            &&& n.candidates@.len() == s.candidates@.len() - 1
            &&& r is Err ==> {
                &&& e1.text() == t0 && !offer_fits(c, t0)
                &&& n.candidates@ == s.candidates@.remove(s.current_index as int)
                &&& n.current_index == s.current_index && n.replaced == s.replaced && n.skipped == s.skipped
                &&& n.history == s.history && n.total_initial == s.total_initial
                &&& n.origin == s.origin && n.session_text == s.session_text && n.in_sync == s.in_sync
            }
            &&& r is Ok ==> {
                &&& e1.text() == t0.take(c.start as int) + c.replacement@ + t0.skip(c.end as int)
                &&& shifted_offers(
                    s.candidates@,
                    s.current_index as int,
                    c.replacement@.len() - (c.end - c.start),
                    n.candidates@,
                )
                &&& n.current_index == (if s.current_index >= n.candidates@.len() && n.candidates@.len() > 0 {
                    (n.candidates@.len() - 1) as usize
                } else {
                    s.current_index
                })
                &&& n.total_initial == s.total_initial
                &&& counted(s) ==> counted(n)
                &&& n.replaced == s.replaced + 1
                &&& n.skipped == s.skipped
                &&& n.history@.len() == s.history@.len() + 1
                &&& n.history@.last().original@ == t0.subrange(c.start as int, c.end as int)
                &&& n.in_sync@ == (s.in_sync@ && t0 == s.session_text@)
                &&& n.session_text@ == e1.text()
                &&& n.origin == s.origin
                &&& r matches Ok(p) && reports(p, progress_of(n))
            }
        },
    }
}

} // verus!
