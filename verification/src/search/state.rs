//! The state of an incremental search.
use crate::buffer::cursor::CursorPosition;
use crate::search::types::{SearchDirection, SearchMatch};
use vstd::prelude::*;

verus! {

/// Where an incremental search stands.
#[derive(Debug, Clone)]
pub struct SearchState {
    pub active: bool,
    pub direction: SearchDirection,
    pub start_cursor: Option<CursorPosition>,
    pub start_char_index: usize,
    pub pattern: String,
    pub matches: Vec<SearchMatch>,
    pub current_index: Option<usize>,
    pub failed: bool,
    pub wrapped: bool,
}

/// The state of no search.
pub open spec fn is_idle(s: SearchState) -> bool {
    &&& !s.active
    &&& s.direction == SearchDirection::Forward
    &&& s.start_cursor is None
    &&& s.start_char_index == 0
    &&& s.pattern@ == Seq::<char>::empty()
    &&& s.matches@ == Seq::<SearchMatch>::empty()
    &&& s.current_index is None
    &&& !s.failed
    &&& !s.wrapped
}

impl SearchState {
    /// No search.
    pub fn new() -> (r: Self)
        ensures
            is_idle(r),
    {
        Self {
            active: false,
            direction: SearchDirection::Forward,
            start_cursor: None,
            start_char_index: 0,
            pattern: String::new(),
            matches: Vec::new(),
            current_index: None,
            failed: false,
            wrapped: false,
        }
    }

    /// Back to no search.
    pub fn reset(&mut self)
        ensures
            is_idle(*final(self)),
    {
        *self = Self::new();
    }
}

} // verus!
