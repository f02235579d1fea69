//! Snapshots of the editor for the graphical front end to draw: the text
//! as lines, the cursor, the minibuffer, the status line, the view, the
//! theme, the search prompt and the highlights, all as plain values.
use crate::buffer::cursor::CursorPosition;
use crate::collate::texts;
use crate::minibuffer::system::MinibufferSystem;
use crate::minibuffer::{MinibufferMode, ModeView};
use crate::search::types::{HighlightKind, SearchDirection, SearchHighlight, SearchStatus, SearchUiState};
use crate::text::{chars_of, owned, split_pieces, string_from_chars, newline_pieces};
use crate::ui::gui_theme::GuiThemeConfig;
use crate::ui::viewport::ViewportState;
use vstd::prelude::*;

verus! {

/// What the editor tells about itself besides the text: the status line's
/// label, whether the buffer changed, the search prompt and highlights.
#[derive(Debug, Clone)]
pub struct RenderMetadata {
    pub status_label: String,
    pub is_modified: bool,
    pub search_ui: Option<SearchUiState>,
    pub highlights: Vec<SearchHighlight>,
}

/// The whole picture.
#[derive(Debug, Clone)]
pub struct EditorSnapshot {
    pub buffer: BufferSnapshot,
    pub minibuffer: MinibufferSnapshot,
    pub status: StatusSnapshot,
    pub viewport: ViewportSnapshot,
    pub theme: GuiThemeSnapshot,
    pub search_ui: Option<SearchUISnapshot>,
    pub highlights: Vec<HighlightSnapshot>,
}

/// The text as lines, with the cursor.
#[derive(Debug, Clone)]
pub struct BufferSnapshot {
    pub lines: Vec<String>,
    pub cursor: CursorSnapshot,
}

/// Line and column of the cursor.
#[derive(Debug, Clone, Copy, PartialEq, Eq, Structural)]
pub struct CursorSnapshot {
    pub line: usize,
    pub column: usize,
}

/// The minibuffer: its mode's name, prompt, input, candidates and status
/// message.
#[derive(Debug, Clone)]
pub struct MinibufferSnapshot {
    pub mode: String,
    pub prompt: String,
    pub input: String,
    pub completions: Vec<String>,
    pub message: Option<String>,
}

/// The status line.
#[derive(Debug, Clone)]
pub struct StatusSnapshot {
    pub label: String,
    pub is_modified: bool,
}

/// The view.
#[derive(Debug, Clone, Copy, PartialEq, Eq, Structural)]
pub struct ViewportSnapshot {
    pub top_line: usize,
    pub height: usize,
    pub scroll_x: usize,
    pub width: usize,
}

/// The colours.
#[derive(Debug, Clone)]
pub struct GuiThemeSnapshot {
    pub app_background: String,
    pub app_foreground: String,
    pub focus_ring: String,
    pub active_line_background: String,
    pub cursor_background: String,
    pub cursor_foreground: String,
    pub minibuffer_border: String,
    pub minibuffer_prompt: String,
    pub minibuffer_input: String,
    pub minibuffer_info: String,
    pub minibuffer_error: String,
    pub statusline_border: String,
    pub statusline_background: String,
    pub statusline_foreground: String,
}

/// A highlight, its kind by name.
#[derive(Debug, Clone)]
pub struct HighlightSnapshot {
    pub line: usize,
    pub start_column: usize,
    pub end_column: usize,
    pub is_current: bool,
    pub kind: String,
}

/// The search prompt, its status and direction by name.
#[derive(Debug, Clone)]
pub struct SearchUISnapshot {
    pub prompt_label: String,
    pub pattern: String,
    pub status: String,
    pub current_match: Option<usize>,
    pub total_matches: usize,
    pub wrapped: bool,
    pub message: Option<String>,
    pub direction: String,
}

/// The answer to a save: whether it worked, the message and the picture.
#[derive(Debug, Clone)]
pub struct SaveResponse {
    pub success: bool,
    pub message: Option<String>,
    pub snapshot: EditorSnapshot,
}

/// The name of a minibuffer mode.
pub open spec fn mode_name(m: ModeView) -> Seq<char> {
    match m {
        ModeView::Inactive => "inactive"@,
        ModeView::FindFile => "find-file"@,
        ModeView::ExecuteCommand => "execute-command"@,
        ModeView::EvalExpression => "eval-expression"@,
        ModeView::WriteFile => "write-file"@,
        ModeView::SwitchBuffer => "switch-buffer"@,
        ModeView::KillBuffer => "kill-buffer"@,
        ModeView::SaveConfirmation => "save-confirmation"@,
        ModeView::ErrorDisplay(..) => "error"@,
        ModeView::InfoDisplay(..) => "info"@,
        ModeView::QueryReplacePattern(..) => "query-replace-pattern"@,
        ModeView::QueryReplaceReplacement(..) => "query-replace-replacement"@,
    }
}

fn describe_mode(mode: &MinibufferMode) -> (r: String)
    ensures
        r@ == mode_name(mode@),
{
    match mode {
        MinibufferMode::Inactive => owned("inactive"),
        MinibufferMode::FindFile => owned("find-file"),
        MinibufferMode::ExecuteCommand => owned("execute-command"),
        MinibufferMode::EvalExpression => owned("eval-expression"),
        MinibufferMode::WriteFile => owned("write-file"),
        MinibufferMode::SwitchBuffer => owned("switch-buffer"),
        MinibufferMode::KillBuffer => owned("kill-buffer"),
        MinibufferMode::SaveConfirmation => owned("save-confirmation"),
        MinibufferMode::ErrorDisplay { .. } => owned("error"),
        MinibufferMode::InfoDisplay { .. } => owned("info"),
        MinibufferMode::QueryReplacePattern { .. } => owned("query-replace-pattern"),
        MinibufferMode::QueryReplaceReplacement { .. } => owned("query-replace-replacement"),
    }
}

fn copy_texts(v: &Vec<String>) -> (r: Vec<String>)
    ensures
        texts(r@) == texts(v@),
{
    let mut out: Vec<String> = Vec::new();
    let mut i: usize = 0;
    while i < v.len()
        invariant
            i <= v.len(),
            texts(out@) == texts(v@.take(i as int)),
        decreases v.len() - i,
    {
        out.push(owned(v[i].as_str()));
        assert(texts(v@.take(i + 1)) =~= texts(v@.take(i as int)).push(v@[i as int]@));
        assert(texts(out@) =~= texts(v@.take(i as int)).push(v@[i as int]@));
        i += 1;
    }
    assert(v@.take(v@.len() as int) =~= v@);
    out
}

fn copy_text(t: &Option<String>) -> (r: Option<String>)
    ensures
        match t {
            Some(x) => r matches Some(y) && y@ == x@,
            None => r is None,
        },
{
    match t {
        Some(x) => Some(owned(x.as_str())),
        None => None,
    }
}

impl BufferSnapshot {
    /// The text split at its newlines, with the cursor's line and column.
    pub fn from_text(text: &str, cursor: &CursorPosition) -> (r: Self)
        ensures
            texts(r.lines@) == newline_pieces(text@),
            r.cursor == (CursorSnapshot { line: cursor.line, column: cursor.column }),
    {
        let pieces = split_pieces(&chars_of(text));
        let mut lines: Vec<String> = Vec::new();
        let mut i: usize = 0;
        while i < pieces.len()
            invariant
                i <= pieces.len(),
                texts(lines@) == crate::text::views(pieces@.take(i as int)),
            decreases pieces.len() - i,
        {
            lines.push(string_from_chars(pieces[i].as_slice()));
            assert(crate::text::views(pieces@.take(i + 1)) =~= crate::text::views(pieces@.take(i as int)).push(
                pieces@[i as int]@,
            ));
            assert(texts(lines@) =~= crate::text::views(pieces@.take(i as int)).push(pieces@[i as int]@));
            i += 1;
        }
        assert(pieces@.take(pieces@.len() as int) =~= pieces@);
        BufferSnapshot { lines, cursor: CursorSnapshot { line: cursor.line, column: cursor.column } }
    }
}

impl MinibufferSnapshot {
    /// The minibuffer as it stands.
    pub fn from_system(system: &MinibufferSystem) -> (r: Self)
        ensures
            r.mode@ == mode_name(system@.mode),
            r.prompt@ == system@.prompt,
            r.input@ == system@.input,
            texts(r.completions@) == system@.completions,
            r.message matches Some(m) ==> system@.status == Some(m@),
            r.message is None ==> system@.status is None,
    {
        let state = system.minibuffer_state();
        MinibufferSnapshot {
            mode: describe_mode(&state.mode),
            prompt: owned(state.prompt.as_str()),
            input: owned(state.input.as_str()),
            completions: copy_texts(&state.completions),
            message: copy_text(&state.status_message),
        }
    }
}

impl ViewportSnapshot {
    /// The view's figures.
    pub fn from_state(state: ViewportState) -> (r: Self)
        ensures
            r == (ViewportSnapshot {
                top_line: state.top_line,
                height: state.height,
                scroll_x: state.scroll_x,
                width: state.width,
            }),
    {
        ViewportSnapshot { top_line: state.top_line, height: state.height, scroll_x: state.scroll_x, width: state.width }
    }
}

impl GuiThemeSnapshot {
    /// The theme's colours.
    pub fn from_config(c: GuiThemeConfig) -> (r: Self)
        ensures
            forall|k: crate::ui::gui_theme::GuiThemeKey| #[trigger] snapshot_color(r, k)
                == crate::ui::gui_theme::theme_color(c, k),
    {
        GuiThemeSnapshot {
            app_background: c.app_background,
            app_foreground: c.app_foreground,
            focus_ring: c.focus_ring,
            active_line_background: c.active_line_background,
            cursor_background: c.cursor_background,
            cursor_foreground: c.cursor_foreground,
            minibuffer_border: c.minibuffer_border,
            minibuffer_prompt: c.minibuffer_prompt,
            minibuffer_input: c.minibuffer_input,
            minibuffer_info: c.minibuffer_info,
            minibuffer_error: c.minibuffer_error,
            statusline_border: c.statusline_border,
            statusline_background: c.statusline_background,
            statusline_foreground: c.statusline_foreground,
        }
    }
}

/// The colour a snapshot gives a key.
pub open spec fn snapshot_color(t: GuiThemeSnapshot, k: crate::ui::gui_theme::GuiThemeKey) -> Seq<char> {
    match k {
        crate::ui::gui_theme::GuiThemeKey::AppBackground => t.app_background@,
        crate::ui::gui_theme::GuiThemeKey::AppForeground => t.app_foreground@,
        crate::ui::gui_theme::GuiThemeKey::FocusRing => t.focus_ring@,
        crate::ui::gui_theme::GuiThemeKey::ActiveLineBackground => t.active_line_background@,
        crate::ui::gui_theme::GuiThemeKey::CursorBackground => t.cursor_background@,
        crate::ui::gui_theme::GuiThemeKey::CursorForeground => t.cursor_foreground@,
        crate::ui::gui_theme::GuiThemeKey::MinibufferBorder => t.minibuffer_border@,
        crate::ui::gui_theme::GuiThemeKey::MinibufferPrompt => t.minibuffer_prompt@,
        crate::ui::gui_theme::GuiThemeKey::MinibufferInput => t.minibuffer_input@,
        crate::ui::gui_theme::GuiThemeKey::MinibufferInfo => t.minibuffer_info@,
        crate::ui::gui_theme::GuiThemeKey::MinibufferError => t.minibuffer_error@,
        crate::ui::gui_theme::GuiThemeKey::StatuslineBorder => t.statusline_border@,
        crate::ui::gui_theme::GuiThemeKey::StatuslineBackground => t.statusline_background@,
        crate::ui::gui_theme::GuiThemeKey::StatuslineForeground => t.statusline_foreground@,
    }
}

/// The name of a highlight's kind.
pub open spec fn kind_name(k: HighlightKind) -> Seq<char> {
    match k {
        HighlightKind::Search => "search"@,
        HighlightKind::Selection => "selection"@,
    }
}

/// The name of a search status.
pub open spec fn status_name(s: SearchStatus) -> Seq<char> {
    match s {
        SearchStatus::Active => "active"@,
        SearchStatus::NotFound => "not-found"@,
        SearchStatus::Wrapped => "wrapped"@,
    }
}

/// The name of a search direction.
pub open spec fn direction_name(d: SearchDirection) -> Seq<char> {
    match d {
        SearchDirection::Forward => "forward"@,
        SearchDirection::Backward => "backward"@,
    }
}

impl HighlightSnapshot {
    /// The highlight `h`.
    pub fn from_highlight(h: &SearchHighlight) -> (r: Self)
        ensures
            r.line == h.line,
            r.start_column == h.start_column,
            r.end_column == h.end_column,
            r.is_current == h.is_current,
            r.kind@ == kind_name(h.kind),
    {
        HighlightSnapshot {
            line: h.line,
            start_column: h.start_column,
            end_column: h.end_column,
            is_current: h.is_current,
            kind: match h.kind {
                HighlightKind::Search => owned("search"),
                HighlightKind::Selection => owned("selection"),
            },
        }
    }
}

impl SearchUISnapshot {
    /// The search prompt `s`.
    pub fn from_ui(s: &SearchUiState) -> (r: Self)
        ensures
            r.prompt_label@ == s.prompt_label@,
            r.pattern@ == s.pattern@,
            r.status@ == status_name(s.status),
            r.current_match == s.current_match,
            r.total_matches == s.total_matches,
            r.wrapped == s.wrapped,
            r.message matches Some(m) ==> s.message matches Some(x) && x@ == m@,
            r.message is None ==> s.message is None,
            r.direction@ == direction_name(s.direction),
    {
        SearchUISnapshot {
            prompt_label: owned(s.prompt_label.as_str()),
            pattern: owned(s.pattern.as_str()),
            status: match s.status {
                SearchStatus::Active => owned("active"),
                SearchStatus::NotFound => owned("not-found"),
                SearchStatus::Wrapped => owned("wrapped"),
            },
            current_match: s.current_match,
            total_matches: s.total_matches,
            wrapped: s.wrapped,
            message: copy_text(&s.message),
            direction: match s.direction {
                SearchDirection::Forward => owned("forward"),
                SearchDirection::Backward => owned("backward"),
            },
        }
    }
}

impl EditorSnapshot {
    /// The picture of the editor from its parts.
    pub fn new(
        text: &str,
        cursor: &CursorPosition,
        metadata: &RenderMetadata,
        minibuffer: &MinibufferSystem,
        viewport: ViewportState,
        gui_theme: GuiThemeConfig,
    ) -> (r: Self)
        ensures
            texts(r.buffer.lines@) == newline_pieces(text@),
            r.buffer.cursor == (CursorSnapshot { line: cursor.line, column: cursor.column }),
            r.minibuffer.mode@ == mode_name(minibuffer@.mode),
            r.minibuffer.input@ == minibuffer@.input,
            r.minibuffer.prompt@ == minibuffer@.prompt,
            r.status.label@ == metadata.status_label@,
            r.status.is_modified == metadata.is_modified,
            r.viewport == viewport_snapshot(viewport),
            forall|k: crate::ui::gui_theme::GuiThemeKey| #[trigger] snapshot_color(r.theme, k)
                == crate::ui::gui_theme::theme_color(gui_theme, k),
            r.search_ui is Some <==> metadata.search_ui is Some,
            r.highlights@.len() == metadata.highlights@.len(),
            forall|i: int|
                0 <= i < r.highlights@.len() ==> (#[trigger] r.highlights@[i]).line == metadata.highlights@[i].line
                    && r.highlights@[i].start_column == metadata.highlights@[i].start_column
                    && r.highlights@[i].end_column == metadata.highlights@[i].end_column
                    && r.highlights@[i].is_current == metadata.highlights@[i].is_current
                    && r.highlights@[i].kind@ == kind_name(metadata.highlights@[i].kind),
    {
        let mut highlights: Vec<HighlightSnapshot> = Vec::new();
        let mut i: usize = 0;
        while i < metadata.highlights.len()
            invariant
                i <= metadata.highlights@.len(),
                highlights@.len() == i,
                forall|j: int|
                    0 <= j < i ==> (#[trigger] highlights@[j]).line == metadata.highlights@[j].line
                        && highlights@[j].start_column == metadata.highlights@[j].start_column
                        && highlights@[j].end_column == metadata.highlights@[j].end_column
                        && highlights@[j].is_current == metadata.highlights@[j].is_current
                        && highlights@[j].kind@ == kind_name(metadata.highlights@[j].kind),
            decreases metadata.highlights@.len() - i,
        {
            highlights.push(HighlightSnapshot::from_highlight(&metadata.highlights[i]));
            i += 1;
        }
        EditorSnapshot {
            buffer: BufferSnapshot::from_text(text, cursor),
            minibuffer: MinibufferSnapshot::from_system(minibuffer),
            status: StatusSnapshot { label: owned(metadata.status_label.as_str()), is_modified: metadata.is_modified },
            viewport: ViewportSnapshot::from_state(viewport),
            theme: GuiThemeSnapshot::from_config(gui_theme),
            search_ui: match &metadata.search_ui {
                Some(ui) => Some(SearchUISnapshot::from_ui(ui)),
                None => None,
            },
            highlights,
        }
    }
}

/// The snapshot of a view.
pub open spec fn viewport_snapshot(state: ViewportState) -> ViewportSnapshot {
    ViewportSnapshot { top_line: state.top_line, height: state.height, scroll_x: state.scroll_x, width: state.width }
}

} // verus!
