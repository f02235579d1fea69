//! The part of the text a window shows: its first line, its height, how
//! far it is scrolled sideways and its width.
use vstd::prelude::*;

verus! {

/// Lines a new viewport shows.
pub const DEFAULT_VIEW_HEIGHT: usize = 24;

/// Columns a new viewport shows.
pub const DEFAULT_VIEW_WIDTH: usize = 80;

/// The shown part of a text.
#[derive(Debug, Clone, Copy, PartialEq, Eq, Structural)]
pub struct ViewportState {
    /// First line shown.
    pub top_line: usize,
    /// Lines shown.
    pub height: usize,
    /// First column shown.
    pub scroll_x: usize,
    /// Columns shown.
    pub width: usize,
}

/// `a - b`, or zero when `b` is larger.
pub open spec fn sat_sub(a: int, b: int) -> int {
    if a > b {
        a - b
    } else {
        0
    }
}

/// The height used for scrolling: at least one line.
pub open spec fn effective_height(v: ViewportState) -> int {
    if v.height == 0 {
        1
    } else {
        v.height as int
    }
}

/// `v` with its first line at most `total` minus its height.
pub open spec fn clamped_vertically(v: ViewportState, total: int) -> ViewportState {
    let max_top = sat_sub(total, effective_height(v));
    if v.top_line > max_top {
        ViewportState { top_line: max_top as usize, ..v }
    } else {
        v
    }
}

/// `v` scrolled sideways at most `max_columns` columns.
pub open spec fn clamped_horizontally(v: ViewportState, max_columns: int) -> ViewportState {
    if v.scroll_x > max_columns {
        ViewportState { scroll_x: max_columns as usize, ..v }
    } else {
        v
    }
}

/// A new viewport: the top of the text on a default-sized window.
pub open spec fn initial_viewport() -> ViewportState {
    ViewportState { top_line: 0, height: DEFAULT_VIEW_HEIGHT, scroll_x: 0, width: DEFAULT_VIEW_WIDTH }
}

impl ViewportState {
    /// The top of the text, on a default-sized window.
    pub fn new() -> (r: Self)
        ensures
            r == (ViewportState { top_line: 0, height: DEFAULT_VIEW_HEIGHT, scroll_x: 0, width: DEFAULT_VIEW_WIDTH }),
    {
        ViewportState { top_line: 0, height: DEFAULT_VIEW_HEIGHT, scroll_x: 0, width: DEFAULT_VIEW_WIDTH }
    }

    /// Keeps the first line within a text of `total_lines` lines, so that
    /// the window is filled when the text allows it.
    pub fn clamp_vertical(&mut self, total_lines: usize)
        ensures
            *final(self) == clamped_vertically(*old(self), total_lines as int),
    {
        let height = if self.height == 0 { 1 } else { self.height };
        let max_top = if total_lines > height { total_lines - height } else { 0 };
        if self.top_line > max_top {
            self.top_line = max_top;
        }
    }

    /// Keeps the sideways scroll within `max_columns` columns.
    pub fn clamp_horizontal(&mut self, max_columns: usize)
        ensures
            *final(self) == clamped_horizontally(*old(self), max_columns as int),
    {
        if self.scroll_x > max_columns {
            self.scroll_x = max_columns;
        }
    }

    /// Sets the size of the window.
    pub fn resize(&mut self, width: usize, height: usize)
        ensures
            *final(self) == (ViewportState { width, height, ..*old(self) }),
    {
        self.width = width;
        self.height = height;
    }
}

impl Default for ViewportState {
    fn default() -> (r: Self)
        ensures
            r == (ViewportState { top_line: 0, height: DEFAULT_VIEW_HEIGHT, scroll_x: 0, width: DEFAULT_VIEW_WIDTH }),
    {
        Self::new()
    }
}

} // verus!
