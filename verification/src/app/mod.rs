//! The editor application: key routing, commands, the kill ring, the
//! view and the minibuffer. The terminal loop outside feeds it key
//! presses and window sizes, draws it, and carries out the file requests
//! it makes.
pub mod keys;

use crate::buffer::cursor::CursorPosition;
use crate::buffer::editor::{room_for, EditOperations, TextEditor};
use crate::buffer::gap_buffer::MAX_BUFFER_CHARS;
use crate::buffer::navigation::NavigationAction;
use crate::buffer::BufferManager;
use crate::editor::kill_ring::{rotated, KillRing};
use crate::error::{altre_error_text, AltreError};
use crate::file::operations::FileBuffer;
use crate::input::commands::{pushed, Command, CommandProcessor, CommandResult, FileRequest};
use crate::input::keybinding::{Action, DeleteDirection, Direction, KeyProcessResult, ModernKeyMap};
use crate::minibuffer::system::{FileOperation, MinibufferSystem, ResponseView, SystemEvent, SystemResponse};
use crate::minibuffer::{with_error, with_mode, ModeView, StateView, INFO_MESSAGE_SECS};
use crate::search::types::{SearchDirection, SearchHighlight};
use crate::search::SearchController;
use crate::text::{chars_of, concat_str, owned, trim_text, text_lines, lines_of, string_from_range, views};
use crate::ui::viewport::{clamped_horizontally, clamped_vertically, initial_viewport, sat_sub, ViewportState};
use keys::{format_key_event, TermKey, TermKeyCode};
use vstd::prelude::*;

verus! {

/// What the last command did, for joining kills and popping yanks.
#[derive(Debug, Clone, Copy, PartialEq, Eq, Structural)]
pub enum KillContext {
    /// Anything else.
    Other,
    /// A kill.
    Kill,
    /// A yank.
    Yank,
}

/// Whether a kill joins the newest ring entry after or before it.
#[derive(Debug, Clone, Copy, PartialEq, Eq, Structural)]
pub enum KillMerge {
    Append,
    Prepend,
}

/// File work the application asks the terminal loop to do.
#[derive(Debug, Clone, PartialEq, Eq)]
pub enum AppRequest {
    /// Read this file into the editor.
    OpenFile(String),
    /// Save the current buffer to its file.
    SaveFile,
    /// Save the current buffer under this name.
    SaveFileAs(String),
}

/// The ring after a kill of `t`: right after another kill it joins the
/// newest entry (after or before it), otherwise it is pushed.
pub open spec fn ring_after_kill(ring: Seq<Seq<char>>, cap: nat, ctx: KillContext, t: Seq<char>, merge: KillMerge) -> Seq<Seq<char>> {
    if ctx == KillContext::Kill {
        if ring.len() == 0 {
            seq![t]
        } else {
            match merge {
                KillMerge::Append => ring.update(0, ring[0] + t),
                KillMerge::Prepend => ring.update(0, t + ring[0]),
            }
        }
    } else {
        pushed(ring, cap, t)
    }
}

/// The minibuffer after an information message.
pub open spec fn with_info(s: StateView, m: Seq<char>) -> StateView {
    with_mode(s, ModeView::InfoDisplay(m, INFO_MESSAGE_SECS as nat * 1_000_000_000))
}

/// The editor application.
pub struct App {
    running: bool,
    initialized: bool,
    buffer_manager: BufferManager,
    editor: TextEditor,
    minibuffer: MinibufferSystem,
    keymap: ModernKeyMap,
    command_processor: CommandProcessor,
    search: SearchController,
    current_prefix: Option<String>,
    kill_ring: KillRing,
    kill_context: KillContext,
    last_yank_range: Option<(usize, usize)>,
    viewport: ViewportState,
    recenter_step: u8,
    mark: Option<usize>,
    working_dir: Option<String>,
    request: Option<AppRequest>,
}

impl App {
    /// Well-formed: the parts are.
    pub closed spec fn wf(&self) -> bool {
        &&& self.editor.wf()
        &&& self.minibuffer.wf()
        &&& self.command_processor.wf()
        &&& self.search.wf()
        &&& self.buffer_manager.wf()
        &&& self.recenter_step < 3
    }

    /// The text being edited.
    pub closed spec fn text(&self) -> Seq<char> {
        self.editor.text()
    }

    /// The cursor.
    pub closed spec fn cursor_at(&self) -> CursorPosition {
        self.editor.cursor
    }

    /// The kill ring, newest first.
    pub closed spec fn ring(&self) -> Seq<Seq<char>> {
        self.kill_ring@
    }

    /// The kill ring's capacity.
    pub closed spec fn ring_cap(&self) -> nat {
        self.kill_ring.cap()
    }

    /// What the last command did.
    pub closed spec fn kill_state(&self) -> KillContext {
        self.kill_context
    }

    /// Where the last yank put its text (start, length).
    pub closed spec fn yanked(&self) -> Option<(usize, usize)> {
        self.last_yank_range
    }

    /// The view.
    pub closed spec fn view_state(&self) -> ViewportState {
        self.viewport
    }

    /// Where `C-l` recenters next (0, 1 or 2).
    pub closed spec fn recenter_phase(&self) -> u8 {
        self.recenter_step
    }

    /// The minibuffer.
    pub closed spec fn mini(&self) -> StateView {
        self.minibuffer@
    }

    /// Whether the application keeps running.
    pub closed spec fn live(&self) -> bool {
        self.running
    }

    /// The mark.
    pub closed spec fn mark_at(&self) -> Option<usize> {
        self.mark
    }

    /// Whether the application was set up.
    pub closed spec fn set_up(&self) -> bool {
        self.initialized
    }

    /// Whether a buffer is current.
    pub closed spec fn buffer_open(&self) -> bool {
        self.buffer_manager.current() is Some
    }

    /// The file work asked for and not yet done.
    pub closed spec fn pending(&self) -> Option<AppRequest> {
        self.request
    }

    /// The current directory the application was told about.
    pub closed spec fn directory(&self) -> Option<Seq<char>> {
        match self.working_dir {
            Some(d) => Some(d@),
            None => None,
        }
    }

    /// A running application with an empty editor.
    pub fn new() -> (r: Result<Self, AltreError>)
        ensures
            r matches Ok(a) && a.wf() && a.live() && a.text() == Seq::<char>::empty() && a.ring()
                == Seq::<Seq<char>>::empty() && a.kill_state() == KillContext::Other && a.yanked() is None
                && a.mark_at() is None && a.pending() is None && a.view_state() == initial_viewport()
                && a.recenter_phase() == 0 && a.mini() == crate::minibuffer::initial_state() && a.can_add_buffer()
                && a.directory() is None && !a.searching() && !a.prefix_pending() && a.file_buffer() is None
                && a.cursor_at() == (CursorPosition { char_pos: 0, line: 0, column: 0 })
                && a.ring_cap() == crate::editor::kill_ring::DEFAULT_CAPACITY,
    {
        Ok(App {
            running: true,
            initialized: true,
            buffer_manager: BufferManager::new(),
            editor: TextEditor::new(),
            minibuffer: MinibufferSystem::new(),
            keymap: ModernKeyMap::new(),
            command_processor: CommandProcessor::new(),
            search: SearchController::new(),
            current_prefix: None,
            kill_ring: KillRing::new(),
            kill_context: KillContext::Other,
            last_yank_range: None,
            viewport: ViewportState::new(),
            recenter_step: 0,
            mark: None,
            working_dir: None,
            request: None,
        })
    }

    /// Tells the application the current directory, for the prompts that
    /// start from it.
    pub fn set_working_directory(&mut self, dir: Option<String>)
        ensures
            final(self).directory() == match dir {
                Some(d) => Some(d@),
                None => None::<Seq<char>>,
            },
            final(self).wf() == old(self).wf(),
            final(self).text() == old(self).text(),
    {
        self.working_dir = dir;
    }

    /// Tells the application the size of the window.
    pub fn resize(&mut self, width: usize, height: usize)
        ensures
            final(self).view_state() == (ViewportState { width, height, ..old(self).view_state() }),
            final(self).wf() == old(self).wf(),
            final(self).text() == old(self).text(),
    {
        self.viewport.resize(width, height);
    }

    /// Whether the application keeps running.
    pub fn is_running(&self) -> (r: bool)
        ensures
            r == self.live(),
    {
        self.running
    }

    /// Stops the application.
    pub fn shutdown(&mut self)
        ensures
            !final(self).live(),
            final(self).wf() == old(self).wf(),
            final(self).text() == old(self).text(),
            final(self).mini() == old(self).mini(),
            final(self).ring() == old(self).ring(),
            final(self).pending() == old(self).pending(),
            final(self).directory() == old(self).directory(),
            final(self).kill_state() == old(self).kill_state(),
            final(self).mark_at() == old(self).mark_at(),
            final(self).file_buffer() == old(self).file_buffer(),
    {
        self.running = false;
    }

    /// Whether the application was set up.
    pub fn is_initialized(&self) -> (r: bool)
        ensures
            r == self.set_up(),
    {
        self.initialized
    }

    /// Whether a buffer is current.
    pub fn has_buffer(&self) -> (r: bool)
        ensures
            r == self.buffer_open(),
    {
        self.buffer_manager.current_buffer_id().is_some()
    }

    /// The text being edited.
    pub fn get_buffer_content(&self) -> (r: String)
        requires
            self.wf(),
        ensures
            r@ == self.text(),
    {
        self.editor.to_string()
    }

    /// The cursor.
    pub fn get_cursor_position(&self) -> (r: &CursorPosition)
        ensures
            *r == self.cursor_at(),
    {
        self.editor.cursor()
    }

    /// The view.
    pub fn viewport(&self) -> (r: &ViewportState)
        ensures
            *r == self.view_state(),
    {
        &self.viewport
    }

    /// The minibuffer system.
    pub fn minibuffer(&self) -> (r: &MinibufferSystem)
        ensures
            r@ == self.mini(),
    {
        &self.minibuffer
    }

    /// The editor.
    pub fn editor(&self) -> (r: &TextEditor)
        ensures
            r.text() == self.text(),
            r.cursor == self.cursor_at(),
    {
        &self.editor
    }

    /// The incremental search.
    pub closed spec fn search_state(&self) -> SearchController {
        self.search
    }

    /// The prefix key typed so far.
    pub closed spec fn prefix(&self) -> Option<Seq<char>> {
        match self.current_prefix {
            Some(p) => Some(p@),
            None => None,
        }
    }

    /// The incremental search.
    pub fn search(&self) -> (r: &SearchController)
        ensures
            *r == self.search_state(),
    {
        &self.search
    }

    /// The prefix key typed so far, for the status line.
    pub fn current_prefix(&self) -> (r: Option<&String>)
        ensures
            match r {
                Some(p) => self.prefix() == Some(p@),
                None => self.prefix() is None,
            },
    {
        match &self.current_prefix {
            Some(p) => Some(p),
            None => None,
        }
    }

    fn show_info_message(&mut self, message: String)
        requires
            old(self).wf(),
        ensures
            final(self).wf(),
            final(self).mini() == with_info(old(self).mini(), message@),
            final(self).text() == old(self).text(),
            final(self).editor == old(self).editor,
            final(self).kill_ring == old(self).kill_ring,
            final(self).kill_context == old(self).kill_context,
            final(self).last_yank_range == old(self).last_yank_range,
            final(self).viewport == old(self).viewport,
            final(self).recenter_step == old(self).recenter_step,
            final(self).running == old(self).running,
            final(self).mark == old(self).mark,
            final(self).request == old(self).request,
            final(self).working_dir == old(self).working_dir,
            final(self).command_processor == old(self).command_processor,
            final(self).search == old(self).search,
            final(self).buffer_manager == old(self).buffer_manager,
            final(self).keymap == old(self).keymap,
    {
        let _ = self.minibuffer.show_info(message.as_str());
    }

    fn show_error_message(&mut self, error: AltreError)
        requires
            old(self).wf(),
        ensures
            final(self).wf(),
            final(self).mini() == with_error(old(self).mini(), altre_error_text(error)),
            final(self).editor == old(self).editor,
            final(self).kill_ring == old(self).kill_ring,
            final(self).kill_context == old(self).kill_context,
            final(self).last_yank_range == old(self).last_yank_range,
            final(self).viewport == old(self).viewport,
            final(self).recenter_step == old(self).recenter_step,
            final(self).running == old(self).running,
            final(self).mark == old(self).mark,
            final(self).request == old(self).request,
            final(self).working_dir == old(self).working_dir,
            final(self).command_processor == old(self).command_processor,
            final(self).search == old(self).search,
            final(self).buffer_manager == old(self).buffer_manager,
            final(self).keymap == old(self).keymap,
    {
        let m = error.message();
        let _ = self.minibuffer.show_error(m.as_str());
    }

    fn reset_kill_context(&mut self)
        ensures
            final(self).kill_context == KillContext::Other,
            final(self).last_yank_range is None,
            final(self).editor == old(self).editor,
            final(self).minibuffer == old(self).minibuffer,
            final(self).kill_ring == old(self).kill_ring,
            final(self).viewport == old(self).viewport,
            final(self).recenter_step == old(self).recenter_step,
            final(self).running == old(self).running,
            final(self).mark == old(self).mark,
            final(self).search == old(self).search,
            final(self).command_processor == old(self).command_processor,
            final(self).buffer_manager == old(self).buffer_manager,
            final(self).request == old(self).request,
            final(self).working_dir == old(self).working_dir,
            final(self).keymap == old(self).keymap,
    {
        self.kill_context = KillContext::Other;
        self.last_yank_range = None;
    }

    fn record_kill(&mut self, text: String, merge: KillMerge)
        ensures
            final(self).editor == old(self).editor,
            final(self).minibuffer == old(self).minibuffer,
            final(self).viewport == old(self).viewport,
            final(self).recenter_step == old(self).recenter_step,
            final(self).running == old(self).running,
            final(self).mark == old(self).mark,
            final(self).search == old(self).search,
            final(self).command_processor == old(self).command_processor,
            final(self).buffer_manager == old(self).buffer_manager,
            final(self).request == old(self).request,
            final(self).working_dir == old(self).working_dir,
            final(self).ring_cap() == old(self).ring_cap(),
            final(self).last_yank_range is None,
            text@.len() == 0 ==> final(self).kill_context == KillContext::Other && final(self).ring() == old(self).ring(),
            text@.len() > 0 ==> final(self).kill_context == KillContext::Kill && final(self).ring() == ring_after_kill(
                old(self).ring(),
                old(self).ring_cap(),
                old(self).kill_context,
                text@,
                merge,
            ),
    {
        if text.as_str().is_empty() {
            self.reset_kill_context();
            return;
        }
        match merge {
            KillMerge::Append => {
                match self.kill_context {
                    KillContext::Kill => self.kill_ring.append_to_front(text.as_str()),
                    _ => self.kill_ring.push(text),
                }
            },
            KillMerge::Prepend => {
                match self.kill_context {
                    KillContext::Kill => self.kill_ring.prepend_to_front(text.as_str()),
                    _ => self.kill_ring.push(text),
                }
            },
        }
        self.kill_context = KillContext::Kill;
        self.last_yank_range = None;
    }
}


/// The longest length among `ls`.
pub open spec fn max_len(ls: Seq<Seq<char>>) -> nat
    decreases ls.len(),
{
    if ls.len() == 0 {
        0
    } else {
        let m = max_len(ls.drop_last());
        if ls.last().len() > m {
            ls.last().len()
        } else {
            m
        }
    }
}

/// The number of lines (at least one) and the longest line's length.
pub open spec fn metrics(t: Seq<char>) -> (int, int) {
    if t.len() == 0 {
        (1, 0)
    } else {
        let ls = text_lines(t);
        (if ls.len() == 0 { 1 } else { ls.len() as int }, max_len(ls) as int)
    }
}

/// The view scrolled just enough to show the cursor, kept within the
/// text's lines and its longest line.
pub open spec fn made_visible(v: ViewportState, cur: CursorPosition, t: Seq<char>) -> ViewportState {
    let (total, max_columns) = metrics(t);
    let v1 = clamped_vertically(v, total);
    let h = crate::ui::viewport::effective_height(v1);
    let v2 = if cur.line < v1.top_line {
        ViewportState { top_line: cur.line, ..v1 }
    } else if cur.line >= v1.top_line + h {
        ViewportState { top_line: (cur.line + 1 - h) as usize, ..v1 }
    } else {
        v1
    };
    let v3 = clamped_vertically(v2, total);
    let v4 = if cur.column < v3.scroll_x {
        ViewportState { scroll_x: cur.column, ..v3 }
    } else if cur.column >= v3.scroll_x + v3.width {
        ViewportState {
            scroll_x: (if v3.width == 0 && cur.column == usize::MAX {
                cur.column as int
            } else {
                cur.column + 1 - v3.width
            }) as usize,
            ..v3
        }
    } else {
        v3
    };
    clamped_horizontally(v4, max_columns)
}

/// The first line `C-l` shows in phase `step`: the cursor line in the
/// middle, at the top, or at the bottom, within `max_top`.
pub open spec fn recentered_top(step: u8, line: int, height: int, max_top: int) -> int {
    let desired = if step % 3 == 0 {
        sat_sub(line, height / 2)
    } else if step % 3 == 1 {
        line
    } else {
        sat_sub(if line < usize::MAX { line + 1 } else { line }, height)
    };
    if desired < max_top {
        desired
    } else {
        max_top
    }
}

/// The first line after scrolling a page down from `top`.
pub open spec fn page_down_top(top: int, total: int, height: int) -> int {
    let step = if height - 1 >= 1 { height - 1 } else { 1 };
    let max_top = sat_sub(total, height);
    let raised = if top + step <= usize::MAX { top + step } else { usize::MAX as int };
    if raised < max_top {
        raised
    } else {
        max_top
    }
}

/// The first line after scrolling a page up from `top`.
pub open spec fn page_up_top(top: int, height: int) -> int {
    let step = if height - 1 >= 1 { height - 1 } else { 1 };
    sat_sub(top, step)
}

fn longest(ls: &Vec<Vec<char>>) -> (r: usize)
    ensures
        r == max_len(views(ls@)),
{
    let mut m: usize = 0;
    let mut i: usize = 0;
    while i < ls.len()
        invariant
            i <= ls.len(),
            m == max_len(views(ls@).take(i as int)),
        decreases ls.len() - i,
    {
        assert(views(ls@).take(i + 1).drop_last() =~= views(ls@).take(i as int));
        assert(views(ls@)[i as int] == ls@[i as int]@);
        if ls[i].len() > m {
            m = ls[i].len();
        }
        i += 1;
    }
    assert(views(ls@).take(ls@.len() as int) =~= views(ls@));
    m
}

/// The cursor went from `a` to `b` by `k` characters, forward or back.
pub open spec fn moved_by(a: int, b: int, forward: bool, k: int) -> bool {
    if forward {
        b == a + k
    } else {
        b == a - k
    }
}

/// Typing `ch` at the cursor is owed to succeed: the cursor lies in the
/// text, its line and column can grow, the character is valid input and
/// the text has room.
pub open spec fn typing_owed(a: App, ch: char) -> bool {
    &&& a.cursor_at().line < usize::MAX
    &&& a.cursor_at().column < usize::MAX
    &&& crate::buffer::editor::valid_input_char(ch)
    &&& a.cursor_at().char_pos <= a.text().len()
    &&& crate::buffer::editor::room_for(a.text(), 1)
}

/// After a yank pop from `a0` to `a1`: the text of the last yank is
/// replaced by the next ring entry, which becomes the yank, and the cursor
/// follows it.
pub open spec fn popped(a0: App, a1: App) -> bool {
    match a0.yanked() {
        Some((st, n)) => {
            let t = a0.text();
            let next = rotated(a0.ring())[0];
            let shown = crate::buffer::editor::normalize_newlines(next);
            &&& a1.text() == t.take(st as int) + shown + t.skip(st + n)
            &&& a1.yanked() == Some((st, next.len() as usize))
            &&& a1.cursor_at().char_pos == (st + shown.len()) as usize
            &&& a1.ring() == rotated(a0.ring())
        },
        None => false,
    }
}

/// A yank pop is owed to succeed: the previous command was a yank whose
/// text still lies in the text, the ring has an entry, and the text without
/// the yanked part has room for the next entry.
pub open spec fn pop_owed(a: App) -> bool {
    &&& a.kill_state() == KillContext::Yank
    &&& a.ring().len() > 0
    &&& a.yanked() matches Some((s, n)) && s + n <= a.text().len() && room_for(
        a.text().take(s as int) + a.text().skip(s + n),
        rotated(a.ring())[0].len() as int,
    )
}

/// A yank is owed to succeed: the ring has an entry, the cursor lies in
/// the text and can advance over it, and the text has room.
pub open spec fn yank_owed(a: App) -> bool {
    &&& a.ring().len() > 0
    &&& a.cursor_at().line + a.ring()[0].len() <= usize::MAX
    &&& a.cursor_at().column + a.ring()[0].len() <= usize::MAX
    &&& a.cursor_at().char_pos <= a.text().len()
    &&& crate::buffer::editor::room_for(a.text(), a.ring()[0].len() as int)
}

/// A newline at the cursor is owed to succeed: the cursor lies in the
/// text, its line and column can grow and the text has room.
pub open spec fn newline_owed(a: App) -> bool {
    &&& a.cursor_at().line < usize::MAX
    &&& a.cursor_at().column < usize::MAX
    &&& a.cursor_at().char_pos <= a.text().len()
    &&& crate::buffer::editor::room_for(a.text(), 1)
}

/// Deleting before cursor `c` of `t` gave `t1` with cursor `c1`: the
/// character before the cursor is gone and the cursor stepped back, when
/// the cursor lay within the text after its start; otherwise nothing
/// changed.
pub open spec fn deleted_before(t: Seq<char>, c: CursorPosition, t1: Seq<char>, c1: CursorPosition) -> bool {
    if 0 < c.char_pos <= t.len() {
        t1 == t.remove(c.char_pos - 1) && c1.char_pos == c.char_pos - 1
    } else if c.char_pos == 0 {
        t1 == t
    } else {
        t1 == t || (t1 == t.remove(c.char_pos - 1) && c1.char_pos == c.char_pos - 1)
    }
}

/// Deleting at cursor `c` of `t` gave `t1` with cursor `c1`: the character
/// at the cursor is gone, the cursor stays; at the end nothing changed.
pub open spec fn deleted_at(t: Seq<char>, c: CursorPosition, t1: Seq<char>, c1: CursorPosition) -> bool {
    if c.char_pos < t.len() {
        t1 == t.remove(c.char_pos as int) && c1 == c
    } else {
        t1 == t
    }
}

impl App {
    fn buffer_metrics(&self) -> (r: (usize, usize))
        requires
            self.wf(),
        ensures
            r.0 as int == metrics(self.text()).0,
            r.1 as int == metrics(self.text()).1,
    {
        let content = chars_of(self.editor.to_string().as_str());
        if content.len() == 0 {
            return (1, 0);
        }
        let lines = lines_of(&content);
        let n = if lines.len() == 0 { 1 } else { lines.len() };
        (n, longest(&lines))
    }

    fn ensure_cursor_visible(&mut self)
        requires
            old(self).wf(),
        ensures
            final(self).wf(),
            final(self).viewport == made_visible(old(self).viewport, old(self).editor.cursor, old(self).text()),
            final(self).editor == old(self).editor,
            final(self).minibuffer == old(self).minibuffer,
            final(self).kill_ring == old(self).kill_ring,
            final(self).kill_context == old(self).kill_context,
            final(self).last_yank_range == old(self).last_yank_range,
            final(self).recenter_step == old(self).recenter_step,
            final(self).running == old(self).running,
            final(self).mark == old(self).mark,
            final(self).request == old(self).request,
            final(self).working_dir == old(self).working_dir,
            final(self).keymap == old(self).keymap,
            final(self).search == old(self).search,
            final(self).command_processor == old(self).command_processor,
            final(self).buffer_manager == old(self).buffer_manager,
    {
        let (total_lines, max_columns) = self.buffer_metrics();
        self.viewport.clamp_vertical(total_lines);
        let height = if self.viewport.height == 0 { 1 } else { self.viewport.height };
        let cursor_line = self.editor.cursor().line;
        if cursor_line < self.viewport.top_line {
            self.viewport.top_line = cursor_line;
        } else if cursor_line - self.viewport.top_line >= height {
            self.viewport.top_line = cursor_line - (height - 1);
        }
        self.viewport.clamp_vertical(total_lines);
        let cursor_column = self.editor.cursor().column;
        let width = self.viewport.width;
        if cursor_column < self.viewport.scroll_x {
            self.viewport.scroll_x = cursor_column;
        } else if cursor_column - self.viewport.scroll_x >= width {
            if width == 0 {
                if cursor_column < usize::MAX {
                    self.viewport.scroll_x = cursor_column + 1;
                } else {
                    self.viewport.scroll_x = cursor_column;
                }
            } else {
                self.viewport.scroll_x = cursor_column - (width - 1);
            }
        }
        self.viewport.clamp_horizontal(max_columns);
    }

    fn move_cursor_vertical(&mut self, down: bool, count: usize)
        requires
            old(self).wf(),
        ensures
            final(self).wf(),
            final(self).text() == old(self).text(),
            final(self).minibuffer == old(self).minibuffer,
            final(self).kill_ring == old(self).kill_ring,
            final(self).kill_context == old(self).kill_context,
            final(self).last_yank_range == old(self).last_yank_range,
            final(self).viewport == old(self).viewport,
            final(self).recenter_step == old(self).recenter_step,
            final(self).running == old(self).running,
            final(self).mark == old(self).mark,
            final(self).request == old(self).request,
            final(self).working_dir == old(self).working_dir,
            final(self).search == old(self).search,
            final(self).command_processor == old(self).command_processor,
            final(self).buffer_manager == old(self).buffer_manager,
            ({
                let nav0 = crate::buffer::navigation::NavigationSystem {
                    cursor: old(self).editor.cursor,
                    ..old(self).editor.navigation
                };
                let action = vertical_action(down);
                exists|k: nat|
                    k <= count && crate::buffer::navigation::walk_open(nav0, old(self).text(), action, k)
                        && final(self).editor.cursor == #[trigger] crate::buffer::navigation::walked(
                        nav0,
                        old(self).text(),
                        action,
                        k,
                    ).cursor
            }),
    {
        let action = if down { NavigationAction::MoveLineDown } else { NavigationAction::MoveLineUp };
        let ghost t = self.text();
        let ghost nav0 = crate::buffer::navigation::NavigationSystem {
            cursor: self.editor.cursor,
            ..self.editor.navigation
        };
        let mut i: usize = 0;
        while i < count
            invariant_except_break
                crate::buffer::navigation::same_course(
                    crate::buffer::navigation::NavigationSystem { cursor: self.editor.cursor, ..self.editor.navigation },
                    crate::buffer::navigation::walked(nav0, t, action, i as nat),
                    t,
                ),
            invariant
                i <= count,
                t == old(self).text(),
                nav0 == (crate::buffer::navigation::NavigationSystem {
                    cursor: old(self).editor.cursor,
                    ..old(self).editor.navigation
                }),
                nav0.wf(),
                crate::buffer::navigation::walk_open(nav0, t, action, i as nat),
                self.editor.cursor == crate::buffer::navigation::walked(nav0, t, action, i as nat).cursor,
                action == vertical_action(down),
                self.wf(),
                self.text() == old(self).text(),
                self.minibuffer == old(self).minibuffer,
                self.kill_ring == old(self).kill_ring,
                self.kill_context == old(self).kill_context,
                self.last_yank_range == old(self).last_yank_range,
                self.viewport == old(self).viewport,
                self.recenter_step == old(self).recenter_step,
                self.running == old(self).running,
                self.mark == old(self).mark,
                self.request == old(self).request,
                self.search == old(self).search,
                self.command_processor == old(self).command_processor,
                self.buffer_manager == old(self).buffer_manager,
                self.working_dir == old(self).working_dir,
                action == NavigationAction::MoveLineDown || action == NavigationAction::MoveLineUp,
            decreases count - i,
        {
            proof {
                self.editor.buffer.lemma_len_bound();
            }
            let ghost cur = crate::buffer::navigation::NavigationSystem {
                cursor: self.editor.cursor,
                ..self.editor.navigation
            };
            proof {
                crate::buffer::navigation::lemma_same_course_moves_alike(
                    cur,
                    crate::buffer::navigation::walked(nav0, t, action, i as nat),
                    t,
                    action,
                );
            }
            match self.editor.navigate(action) {
                Ok(true) => {},
                _ => {
                    break;
                },
            }
            proof {
                crate::buffer::navigation::lemma_walk_step(
                    nav0,
                    t,
                    action,
                    i as nat,
                    cur,
                    crate::buffer::navigation::NavigationSystem { cursor: self.editor.cursor, ..self.editor.navigation },
                );
            }
            i += 1;
        }
        assert((i as nat) <= count && crate::buffer::navigation::walk_open(nav0, t, action, i as nat)
            && self.editor.cursor == crate::buffer::navigation::walked(nav0, t, action, i as nat).cursor);
    }

    fn move_cursor_horizontal(&mut self, forward: bool, count: usize)
        requires
            old(self).wf(),
        ensures
            final(self).wf(),
            final(self).text() == old(self).text(),
            final(self).minibuffer == old(self).minibuffer,
            final(self).kill_ring == old(self).kill_ring,
            final(self).kill_context == old(self).kill_context,
            final(self).last_yank_range == old(self).last_yank_range,
            final(self).viewport == old(self).viewport,
            final(self).recenter_step == old(self).recenter_step,
            final(self).running == old(self).running,
            final(self).mark == old(self).mark,
            final(self).request == old(self).request,
            final(self).working_dir == old(self).working_dir,
            final(self).search == old(self).search,
            final(self).command_processor == old(self).command_processor,
            final(self).buffer_manager == old(self).buffer_manager,
            exists|k: int|
                0 <= k <= count && #[trigger] moved_by(
                    old(self).cursor_at().char_pos as int,
                    final(self).cursor_at().char_pos as int,
                    forward,
                    k,
                ),
    {
        let action = if forward { NavigationAction::MoveCharForward } else { NavigationAction::MoveCharBackward };
        let mut i: usize = 0;
        while i < count
            invariant
                self.wf(),
                self.text() == old(self).text(),
                self.minibuffer == old(self).minibuffer,
                self.kill_ring == old(self).kill_ring,
                self.kill_context == old(self).kill_context,
                self.last_yank_range == old(self).last_yank_range,
                self.viewport == old(self).viewport,
                self.recenter_step == old(self).recenter_step,
                self.running == old(self).running,
                self.mark == old(self).mark,
                self.request == old(self).request,
                self.search == old(self).search,
                self.command_processor == old(self).command_processor,
                self.buffer_manager == old(self).buffer_manager,
                self.working_dir == old(self).working_dir,
                i <= count,
                moved_by(old(self).cursor_at().char_pos as int, self.cursor_at().char_pos as int, forward, i as int),
                action == (if forward { NavigationAction::MoveCharForward } else { NavigationAction::MoveCharBackward }),
            decreases count - i,
        {
            proof {
                self.editor.buffer.lemma_len_bound();
            }
            let c = *self.editor.cursor();
            let len = self.editor.buffer.len_chars();
            if (forward && c.char_pos < len && (c.line == usize::MAX || c.column == usize::MAX)) || (!forward
                && c.char_pos > len) {
                break;
            }
            match self.editor.navigate(action) {
                Ok(true) => {},
                _ => {
                    break;
                },
            }
            i += 1;
        }
    }

    fn scroll_page_down(&mut self)
        requires
            old(self).wf(),
        ensures
            final(self).wf(),
            final(self).text() == old(self).text(),
            final(self).ring() == old(self).ring(),
            final(self).kill_context == KillContext::Other,
            final(self).last_yank_range is None,
            final(self).recenter_step == 0,
            final(self).viewport == made_visible(
                ViewportState {
                    top_line: page_down_top(
                        old(self).viewport.top_line as int,
                        metrics(old(self).text()).0,
                        crate::ui::viewport::effective_height(old(self).viewport),
                    ) as usize,
                    ..old(self).viewport
                },
                final(self).editor.cursor,
                old(self).text(),
            ),
            final(self).minibuffer == old(self).minibuffer,
            final(self).running == old(self).running,
            final(self).mark == old(self).mark,
            final(self).request == old(self).request,
            final(self).working_dir == old(self).working_dir,
            ({
                let nav0 = crate::buffer::navigation::NavigationSystem {
                    cursor: old(self).editor.cursor,
                    ..old(self).editor.navigation
                };
                let top1 = page_down_top(
                    old(self).viewport.top_line as int,
                    metrics(old(self).text()).0,
                    crate::ui::viewport::effective_height(old(self).viewport),
                );
                exists|k: nat|
                    k <= (if top1 > old(self).viewport.top_line {
                        top1 - old(self).viewport.top_line
                    } else {
                        0
                    }) && crate::buffer::navigation::walk_open(nav0, old(self).text(), NavigationAction::MoveLineDown, k)
                        && final(self).editor.cursor == #[trigger] crate::buffer::navigation::walked(
                        nav0,
                        old(self).text(),
                        NavigationAction::MoveLineDown,
                        k,
                    ).cursor
            }),
    {
        let (total_lines, _) = self.buffer_metrics();
        let height = if self.viewport.height == 0 { 1 } else { self.viewport.height };
        let step = if height - 1 >= 1 { height - 1 } else { 1 };
        let old_top = self.viewport.top_line;
        let max_top = if total_lines > height { total_lines - height } else { 0 };
        let raised = if old_top <= usize::MAX - step { old_top + step } else { usize::MAX };
        let new_top = if raised < max_top { raised } else { max_top };
        let delta = if new_top > old_top { new_top - old_top } else { 0 };
        let ghost nav0 = crate::buffer::navigation::NavigationSystem { cursor: self.editor.cursor, ..self.editor.navigation };
        let ghost t = self.text();
        self.viewport.top_line = new_top;
        if delta > 0 {
            self.move_cursor_vertical(true, delta);
            assert(vertical_action(true) == NavigationAction::MoveLineDown);
        } else {
            assert(crate::buffer::navigation::walked(nav0, t, NavigationAction::MoveLineDown, 0) == nav0);
            assert(crate::buffer::navigation::walk_open(nav0, t, NavigationAction::MoveLineDown, 0));
            assert(self.editor.cursor == crate::buffer::navigation::walked(nav0, t, NavigationAction::MoveLineDown, 0).cursor);
        }
        assert(exists|k: nat|
            k <= delta && crate::buffer::navigation::walk_open(nav0, t, NavigationAction::MoveLineDown, k)
                && self.editor.cursor == #[trigger] crate::buffer::navigation::walked(
                nav0,
                t,
                NavigationAction::MoveLineDown,
                k,
            ).cursor);
        self.recenter_step = 0;
        self.reset_kill_context();
        self.ensure_cursor_visible();
    }

    fn scroll_page_up(&mut self)
        requires
            old(self).wf(),
        ensures
            final(self).wf(),
            final(self).text() == old(self).text(),
            final(self).ring() == old(self).ring(),
            final(self).kill_context == KillContext::Other,
            final(self).last_yank_range is None,
            final(self).recenter_step == 0,
            final(self).viewport == made_visible(
                ViewportState {
                    top_line: page_up_top(
                        old(self).viewport.top_line as int,
                        crate::ui::viewport::effective_height(old(self).viewport),
                    ) as usize,
                    ..old(self).viewport
                },
                final(self).editor.cursor,
                old(self).text(),
            ),
            final(self).minibuffer == old(self).minibuffer,
            final(self).running == old(self).running,
            final(self).mark == old(self).mark,
            final(self).request == old(self).request,
            final(self).working_dir == old(self).working_dir,
            ({
                let nav0 = crate::buffer::navigation::NavigationSystem {
                    cursor: old(self).editor.cursor,
                    ..old(self).editor.navigation
                };
                let top1 = page_up_top(
                    old(self).viewport.top_line as int,
                    crate::ui::viewport::effective_height(old(self).viewport),
                );
                exists|k: nat|
                    k <= old(self).viewport.top_line - top1 && crate::buffer::navigation::walk_open(
                        nav0,
                        old(self).text(),
                        NavigationAction::MoveLineUp,
                        k,
                    ) && final(self).editor.cursor == #[trigger] crate::buffer::navigation::walked(
                        nav0,
                        old(self).text(),
                        NavigationAction::MoveLineUp,
                        k,
                    ).cursor
            }),
    {
        let height = if self.viewport.height == 0 { 1 } else { self.viewport.height };
        let step = if height - 1 >= 1 { height - 1 } else { 1 };
        let old_top = self.viewport.top_line;
        let new_top = if old_top > step { old_top - step } else { 0 };
        let delta = old_top - new_top;
        let ghost nav0 = crate::buffer::navigation::NavigationSystem { cursor: self.editor.cursor, ..self.editor.navigation };
        let ghost t = self.text();
        self.viewport.top_line = new_top;
        if delta > 0 {
            self.move_cursor_vertical(false, delta);
            assert(vertical_action(false) == NavigationAction::MoveLineUp);
        } else {
            assert(crate::buffer::navigation::walked(nav0, t, NavigationAction::MoveLineUp, 0) == nav0);
            assert(crate::buffer::navigation::walk_open(nav0, t, NavigationAction::MoveLineUp, 0));
            assert(self.editor.cursor == crate::buffer::navigation::walked(nav0, t, NavigationAction::MoveLineUp, 0).cursor);
        }
        assert(exists|k: nat|
            k <= delta && crate::buffer::navigation::walk_open(nav0, t, NavigationAction::MoveLineUp, k)
                && self.editor.cursor == #[trigger] crate::buffer::navigation::walked(
                nav0,
                t,
                NavigationAction::MoveLineUp,
                k,
            ).cursor);
        self.recenter_step = 0;
        self.reset_kill_context();
        self.ensure_cursor_visible();
    }

    fn recenter_view(&mut self)
        requires
            old(self).wf(),
        ensures
            final(self).wf(),
            final(self).editor == old(self).editor,
            final(self).ring() == old(self).ring(),
            final(self).kill_context == KillContext::Other,
            final(self).last_yank_range is None,
            final(self).recenter_step == (old(self).recenter_step + 1) % 3,
            ({
                let h = crate::ui::viewport::effective_height(old(self).viewport);
                let top = recentered_top(
                    old(self).recenter_step,
                    old(self).editor.cursor.line as int,
                    h,
                    sat_sub(metrics(old(self).text()).0, h),
                );
                final(self).viewport == made_visible(
                    ViewportState { top_line: top as usize, ..old(self).viewport },
                    old(self).editor.cursor,
                    old(self).text(),
                )
            }),
            final(self).minibuffer == old(self).minibuffer,
            final(self).running == old(self).running,
            final(self).mark == old(self).mark,
            final(self).request == old(self).request,
            final(self).working_dir == old(self).working_dir,
    {
        let (total_lines, _) = self.buffer_metrics();
        let height = if self.viewport.height == 0 { 1 } else { self.viewport.height };
        let cursor_line = self.editor.cursor().line;
        let max_top = if total_lines > height { total_lines - height } else { 0 };
        let phase = self.recenter_step % 3;
        let desired = if phase == 0 {
            let half = height / 2;
            if cursor_line > half { cursor_line - half } else { 0 }
        } else if phase == 1 {
            cursor_line
        } else {
            let below = if cursor_line < usize::MAX { cursor_line + 1 } else { cursor_line };
            if below > height { below - height } else { 0 }
        };
        self.viewport.top_line = if desired < max_top { desired } else { max_top };
        self.recenter_step = (self.recenter_step + 1) % 3;
        self.reset_kill_context();
        self.ensure_cursor_visible();
    }

    fn scroll_left(&mut self)
        requires
            old(self).wf(),
        ensures
            final(self).wf(),
            final(self).text() == old(self).text(),
            final(self).ring() == old(self).ring(),
            final(self).kill_context == KillContext::Other,
            final(self).last_yank_range is None,
            final(self).recenter_step == 0,
            ({
                let step: int = if old(self).viewport.width / 2 >= 1 { (old(self).viewport.width / 2) as int } else { 1 };
                let raised = if old(self).viewport.scroll_x + step <= usize::MAX {
                    old(self).viewport.scroll_x + step
                } else {
                    usize::MAX as int
                };
                final(self).viewport == made_visible(
                    ViewportState { scroll_x: raised as usize, ..old(self).viewport },
                    final(self).editor.cursor,
                    old(self).text(),
                )
            }),
            final(self).minibuffer == old(self).minibuffer,
            final(self).running == old(self).running,
            final(self).mark == old(self).mark,
            final(self).request == old(self).request,
            final(self).working_dir == old(self).working_dir,
    {
        let half = self.viewport.width / 2;
        let step = if half >= 1 { half } else { 1 };
        self.viewport.scroll_x = if self.viewport.scroll_x <= usize::MAX - step {
            self.viewport.scroll_x + step
        } else {
            usize::MAX
        };
        self.move_cursor_horizontal(true, step);
        self.recenter_step = 0;
        self.reset_kill_context();
        self.ensure_cursor_visible();
    }

    fn scroll_right(&mut self)
        requires
            old(self).wf(),
        ensures
            final(self).wf(),
            final(self).text() == old(self).text(),
            final(self).ring() == old(self).ring(),
            final(self).kill_context == KillContext::Other,
            final(self).last_yank_range is None,
            final(self).recenter_step == 0,
            ({
                let step: int = if old(self).viewport.width / 2 >= 1 { (old(self).viewport.width / 2) as int } else { 1 };
                let delta = if old(self).viewport.scroll_x < step { old(self).viewport.scroll_x as int } else { step as int };
                final(self).viewport == made_visible(
                    ViewportState { scroll_x: (old(self).viewport.scroll_x - delta) as usize, ..old(self).viewport },
                    final(self).editor.cursor,
                    old(self).text(),
                )
            }),
            final(self).minibuffer == old(self).minibuffer,
            final(self).running == old(self).running,
            final(self).mark == old(self).mark,
            final(self).request == old(self).request,
            final(self).working_dir == old(self).working_dir,
    {
        let half = self.viewport.width / 2;
        let step = if half >= 1 { half } else { 1 };
        if self.viewport.scroll_x > 0 {
            let delta = if self.viewport.scroll_x < step { self.viewport.scroll_x } else { step };
            self.viewport.scroll_x = self.viewport.scroll_x - delta;
            self.move_cursor_horizontal(false, delta);
        }
        self.recenter_step = 0;
        self.reset_kill_context();
        self.ensure_cursor_visible();
    }
}


/// The mark after `n` characters were inserted at `p`: a mark after `p`
/// moves along.
pub open spec fn mark_after_insert(m: Option<usize>, p: int, n: int) -> Option<usize> {
    match m {
        Some(x) => if x > p { Some((x + n) as usize) } else { Some(x) },
        None => None,
    }
}

/// The mark after `start..end` was deleted: a mark inside moves to
/// `start`, one after it moves back.
pub open spec fn mark_after_delete(m: Option<usize>, start: int, end: int) -> Option<usize> {
    match m {
        Some(x) => if x >= end {
            Some((x - (end - start)) as usize)
        } else if x > start {
            Some(start as usize)
        } else {
            Some(x)
        },
        None => None,
    }
}

/// The selected range: between the mark and the cursor, both kept within
/// the text.
pub open spec fn selection(m: Option<usize>, cursor: int, len: int) -> Option<(usize, usize)> {
    match m {
        Some(x) => {
            let a = if x <= len { x as int } else { len };
            let b = if cursor <= len { cursor } else { len };
            if a <= b {
                Some((a as usize, b as usize))
            } else {
                Some((b as usize, a as usize))
            }
        },
        None => None,
    }
}

impl App {
    fn position_error(&mut self)
        requires
            old(self).wf(),
        ensures
            final(self).wf(),
            final(self).editor == old(self).editor,
            final(self).kill_ring == old(self).kill_ring,
            final(self).mark == old(self).mark,
            final(self).running == old(self).running,
            final(self).request == old(self).request,
            final(self).working_dir == old(self).working_dir,
            final(self).kill_context == KillContext::Other,
            final(self).last_yank_range is None,
    {
        let pos = self.editor.cursor().char_pos;
        self.reset_kill_context();
        self.show_error_message(AltreError::from_edit(crate::error::EditError::OutOfBounds(pos)));
    }

    /// The selected range: between the mark and the cursor, kept within the
    /// text; `None` without a mark.
    pub fn selection_range(&self) -> (r: Option<(usize, usize)>)
        requires
            self.wf(),
        ensures
            r == selection(self.mark_at(), self.cursor_at().char_pos as int, self.text().len() as int),
    {
        match self.mark {
            Some(m) => {
                let len = self.editor.buffer.len_chars();
                let a = if m <= len { m } else { len };
                let c = self.editor.cursor().char_pos;
                let b = if c <= len { c } else { len };
                if a <= b {
                    Some((a, b))
                } else {
                    Some((b, a))
                }
            },
            None => None,
        }
    }

    fn after_edit(&mut self, result: Result<(), AltreError>)
        requires
            old(self).wf(),
        ensures
            final(self).wf(),
            final(self).editor == old(self).editor,
            final(self).kill_ring == old(self).kill_ring,
            final(self).kill_context == KillContext::Other,
            final(self).last_yank_range is None,
            final(self).recenter_step == 0,
            final(self).mark == old(self).mark,
            final(self).running == old(self).running,
            final(self).request == old(self).request,
            final(self).working_dir == old(self).working_dir,
            result is Ok ==> final(self).minibuffer == old(self).minibuffer,
            result matches Err(e) ==> final(self).mini() == with_error(old(self).mini(), altre_error_text(e)),
    {
        match result {
            Ok(_) => {},
            Err(err) => self.show_error_message(err),
        }
        self.reset_kill_context();
        self.recenter_step = 0;
        self.ensure_cursor_visible();
    }

    /// Types a character at the cursor.
    pub fn insert_char(&mut self, ch: char) -> (r: Result<(), AltreError>)
        requires
            old(self).wf(),
        ensures
            final(self).wf(),
            final(self).ring() == old(self).ring(),
            r is Ok ==> final(self).text() == old(self).text().insert(old(self).cursor_at().char_pos as int, ch),
            r is Err ==> final(self).text() == old(self).text(),
            old(self).cursor_at().line == usize::MAX || old(self).cursor_at().column == usize::MAX
                || !crate::buffer::editor::valid_input_char(ch) ==> r is Err,
            old(self).cursor_at().line < usize::MAX && old(self).cursor_at().column < usize::MAX
                && crate::buffer::editor::valid_input_char(ch) && old(self).cursor_at().char_pos <= old(self).text().len()
                && room_for(old(self).text(), 1) ==> r is Ok,
    {
        let c = *self.editor.cursor();
        if c.line == usize::MAX || c.column == usize::MAX {
            return Err(AltreError::from_edit(crate::error::EditError::OutOfBounds(c.char_pos)));
        }
        let r = self.editor.insert_char(ch);
        if r.is_ok() {
            self.mark = match self.mark {
                Some(m) => if m > c.char_pos && m < usize::MAX { Some(m + 1) } else { Some(m) },
                None => None,
            };
        }
        r
    }

    /// Inserts a string at the cursor.
    pub fn insert_str(&mut self, s: &str) -> (r: Result<(), AltreError>)
        requires
            old(self).wf(),
        ensures
            final(self).wf(),
            final(self).ring() == old(self).ring(),
            r is Err ==> final(self).text() == old(self).text(),
            r is Ok && s@.len() > 0 ==> final(self).text() == old(self).text().take(
                old(self).cursor_at().char_pos as int,
            ) + crate::buffer::editor::normalize_newlines(s@) + old(self).text().skip(
                old(self).cursor_at().char_pos as int,
            ),
            r is Ok && s@.len() == 0 ==> final(self).text() == old(self).text(),
            old(self).cursor_at().line + s@.len() > usize::MAX || old(self).cursor_at().column + s@.len() > usize::MAX
                ==> r is Err,
            old(self).cursor_at().line + s@.len() <= usize::MAX && old(self).cursor_at().column + s@.len() <= usize::MAX
                && (s@.len() == 0 || (old(self).cursor_at().char_pos <= old(self).text().len() && room_for(
                old(self).text(),
                s@.len() as int,
            ))) ==> r is Ok,
    {
        let n = chars_of(s).len();
        let c = *self.editor.cursor();
        if c.line > usize::MAX - n || c.column > usize::MAX - n {
            return Err(AltreError::from_edit(crate::error::EditError::OutOfBounds(c.char_pos)));
        }
        self.editor.insert_str(s)
    }

    /// Puts the cursor at the start of the text.
    pub fn move_cursor_to_start(&mut self) -> (r: Result<(), AltreError>)
        requires
            old(self).wf(),
        ensures
            final(self).wf(),
            r is Ok,
            final(self).text() == old(self).text(),
            final(self).cursor_at() == (CursorPosition { char_pos: 0, line: 0, column: 0 }),
    {
        self.editor.set_cursor(CursorPosition::new());
        proof {
            assert(old(self).text().take(0) =~= Seq::<char>::empty());
        }
        Ok(())
    }

    fn kill_with(&mut self, result: Result<String, AltreError>, merge: KillMerge)
        requires
            old(self).wf(),
        ensures
            final(self).wf(),
            final(self).editor == old(self).editor,
            final(self).mark == old(self).mark,
            final(self).running == old(self).running,
            final(self).request == old(self).request,
            final(self).working_dir == old(self).working_dir,
            final(self).ring_cap() == old(self).ring_cap(),
            final(self).last_yank_range is None,
            result matches Ok(t) ==> final(self).recenter_step == 0 && final(self).minibuffer == old(self).minibuffer
                && (t@.len() == 0 ==> final(self).kill_context == KillContext::Other && final(self).ring() == old(
                self,
            ).ring()) && (t@.len() > 0 ==> final(self).kill_context == KillContext::Kill && final(self).ring()
                == ring_after_kill(old(self).ring(), old(self).ring_cap(), old(self).kill_context, t@, merge)),
            result matches Err(e) ==> final(self).mini() == with_error(old(self).mini(), altre_error_text(e))
                && final(self).ring() == old(self).ring(),
            result is Ok ==> final(self).viewport == made_visible(old(self).viewport, old(self).editor.cursor, old(self).text()),
    {
        match result {
            Ok(text) => {
                self.record_kill(text, merge);
                self.recenter_step = 0;
                self.ensure_cursor_visible();
            },
            Err(err) => {
                self.show_error_message(err);
                self.last_yank_range = None;
            },
        }
    }

    fn kill_line_forward(&mut self)
        requires
            old(self).wf(),
        ensures
            final(self).wf(),
            final(self).running == old(self).running,
            final(self).request == old(self).request,
            final(self).working_dir == old(self).working_dir,
            ({
                let t = old(self).text();
                let start = old(self).cursor_at().char_pos as int;
                if start >= t.len() {
                    final(self).text() == t && final(self).ring() == old(self).ring() && final(self).kill_state()
                        == KillContext::Other
                } else {
                    let end = crate::buffer::editor::kill_line_end(t, start);
                    &&& final(self).text() == t.take(start) + t.skip(end)
                    &&& final(self).cursor_at() == crate::buffer::editor::synced(old(self).cursor_at(), final(self).text())
                    &&& final(self).view_state() == made_visible(old(self).view_state(), final(self).cursor_at(), final(self).text())
                    &&& final(self).ring() == ring_after_kill(
                        old(self).ring(),
                        old(self).ring_cap(),
                        old(self).kill_state(),
                        t.subrange(start, end),
                        KillMerge::Append,
                    )
                    &&& final(self).kill_state() == KillContext::Kill
                    &&& final(self).mark_at() == mark_after_delete(old(self).mark_at(), start, end)
                }
            }),
    {
        let start = self.editor.cursor().char_pos;
        let res = self.editor.kill_line_forward();
        let ghost t = old(self).text();
        proof {
            if (start as int) < t.len() {
                crate::buffer::editor::lemma_skip_bounds(t, start as int);
            }
        }
        match &res {
            Ok(text) => {
                let n = chars_of(text.as_str()).len();
                proof {
                    old(self).editor.buffer.lemma_len_bound();
                    if (start as int) < t.len() {
                        assert(text@ == t.subrange(start as int, crate::buffer::editor::kill_line_end(t, start as int)));
                        assert(start + n <= t.len());
                    } else {
                        assert(n == 0);
                    }
                }
                self.mark = match self.mark {
                    Some(m) => if m >= start + n { Some(m - n) } else if m > start { Some(start) } else { Some(m) },
                    None => None,
                };
            },
            Err(_) => {},
        }
        self.kill_with(res, KillMerge::Append);
    }

    fn kill_word_forward(&mut self)
        requires
            old(self).wf(),
        ensures
            final(self).wf(),
            final(self).running == old(self).running,
            final(self).request == old(self).request,
            final(self).working_dir == old(self).working_dir,
            ({
                let t = old(self).text();
                let start = old(self).cursor_at().char_pos as int;
                let end = crate::buffer::editor::word_end_forward(t, start);
                if end == start || start >= t.len() {
                    final(self).text() == t && final(self).ring() == old(self).ring()
                } else {
                    &&& final(self).text() == t.take(start) + t.skip(end)
                    &&& final(self).ring() == ring_after_kill(
                        old(self).ring(),
                        old(self).ring_cap(),
                        old(self).kill_state(),
                        t.subrange(start, end),
                        KillMerge::Append,
                    )
                    &&& final(self).kill_state() == KillContext::Kill
                }
            }),
    {
        proof {
            let t = self.text();
            let start = self.cursor_at().char_pos as int;
            if start < t.len() {
                crate::buffer::editor::lemma_word_end_bounds(t, start);
            }
        }
        let res = self.editor.delete_word_forward();
        self.kill_with(res, KillMerge::Append);
    }

    fn kill_word_backward(&mut self)
        requires
            old(self).wf(),
        ensures
            final(self).wf(),
            final(self).running == old(self).running,
            final(self).request == old(self).request,
            final(self).working_dir == old(self).working_dir,
            ({
                let t = old(self).text();
                let end = old(self).cursor_at().char_pos as int;
                let start = crate::buffer::editor::word_start_backward(t, end);
                if end > t.len() || start == end {
                    final(self).text() == t && final(self).ring() == old(self).ring()
                } else {
                    &&& final(self).text() == t.take(start) + t.skip(end)
                    &&& final(self).ring() == ring_after_kill(
                        old(self).ring(),
                        old(self).ring_cap(),
                        old(self).kill_state(),
                        t.subrange(start, end),
                        KillMerge::Prepend,
                    )
                    &&& final(self).kill_state() == KillContext::Kill
                }
            }),
    {
        proof {
            self.editor.buffer.lemma_len_bound();
        }
        if self.editor.cursor().char_pos > self.editor.buffer.len_chars() {
            self.position_error();
            return;
        }
        proof {
            crate::buffer::editor::lemma_word_start_bounds(self.text(), self.cursor_at().char_pos as int);
        }
        let res = self.editor.delete_word_backward();
        self.kill_with(res, KillMerge::Prepend);
    }
}


/// A highlight of columns `start..end` of `line`, when that is not empty.
pub open spec fn span_marks(line: int, start: int, end: int) -> Seq<SearchHighlight> {
    if end > start {
        seq![
            SearchHighlight {
                line: line as usize,
                start_column: start as usize,
                end_column: end as usize,
                is_current: false,
                kind: crate::search::types::HighlightKind::Selection,
            },
        ]
    } else {
        Seq::empty()
    }
}

/// Length of piece `l` of the text split at `'\n'`, or 0.
pub open spec fn piece_len(t: Seq<char>, l: int) -> int {
    let ps = crate::text::newline_pieces(t);
    if 0 <= l < ps.len() {
        ps[l].len() as int
    } else {
        0
    }
}

/// Whole-line highlights of the lines `from..to`.
pub open spec fn middle_marks(t: Seq<char>, from: int, to: int) -> Seq<SearchHighlight>
    decreases to - from,
{
    if from >= to {
        Seq::empty()
    } else {
        span_marks(from, 0, piece_len(t, from)) + middle_marks(t, from + 1, to)
    }
}

/// The highlights that show the selection `start..end` of `t`, line by
/// line.
pub open spec fn selection_marks(t: Seq<char>, start: int, end: int) -> Seq<SearchHighlight> {
    if start == end {
        Seq::empty()
    } else {
        let a = crate::buffer::editor::walk(0, 0, t.take(start));
        let b = crate::buffer::editor::walk(0, 0, t.take(end));
        if a.0 == b.0 {
            span_marks(a.0, a.1, b.1)
        } else {
            span_marks(a.0, a.1, piece_len(t, a.0)) + middle_marks(t, a.0 + 1, b.0) + span_marks(b.0, 0, b.1)
        }
    }
}

/// Line and column of position `p` of `t`.
fn line_column_of(t: &Vec<char>, p: usize) -> (r: (usize, usize))
    requires
        p <= t@.len(),
    ensures
        r.0 as int == crate::buffer::editor::walk(0, 0, t@.take(p as int)).0,
        r.1 as int == crate::buffer::editor::walk(0, 0, t@.take(p as int)).1,
{
    let mut line: usize = 0;
    let mut col: usize = 0;
    let mut i: usize = 0;
    while i < p
        invariant
            i <= p <= t@.len(),
            line as int == crate::buffer::editor::walk(0, 0, t@.take(i as int)).0,
            col as int == crate::buffer::editor::walk(0, 0, t@.take(i as int)).1,
        decreases p - i,
    {
        proof {
            crate::buffer::editor::lemma_walk_bounds(0, 0, t@.take(i as int));
            assert(t@.take(i + 1).drop_last() =~= t@.take(i as int));
        }
        if t[i] == '\n' {
            line = line + 1;
            col = 0;
        } else {
            col = col + 1;
        }
        i += 1;
    }
    (line, col)
}

fn push_span(list: &mut Vec<SearchHighlight>, line: usize, start: usize, end: usize)
    ensures
        final(list)@ == old(list)@ + span_marks(line as int, start as int, end as int),
{
    if end > start {
        list.push(
            SearchHighlight {
                line,
                start_column: start,
                end_column: end,
                is_current: false,
                kind: crate::search::types::HighlightKind::Selection,
            },
        );
    } else {
        assert(old(list)@ + span_marks(line as int, start as int, end as int) =~= old(list)@);
    }
}

impl App {
    /// The highlights that show the selection, line by line.
    pub fn selection_highlights(&self) -> (r: Vec<SearchHighlight>)
        requires
            self.wf(),
        ensures
            r@ == match selection(self.mark_at(), self.cursor_at().char_pos as int, self.text().len() as int) {
                Some((s, e)) => selection_marks(self.text(), s as int, e as int),
                None => Seq::<SearchHighlight>::empty(),
            },
    {
        let (start, end) = match self.selection_range() {
            Some(range) => range,
            None => return Vec::new(),
        };
        if start == end {
            return Vec::new();
        }
        let t = chars_of(self.editor.to_string().as_str());
        let (start_line, start_col) = line_column_of(&t, start);
        let (end_line, end_col) = line_column_of(&t, end);
        let pieces = crate::text::split_pieces(&t);
        let mut highlights: Vec<SearchHighlight> = Vec::new();
        if start_line == end_line {
            push_span(&mut highlights, start_line, start_col, end_col);
            return highlights;
        }
        let first_len = if start_line < pieces.len() { pieces[start_line].len() } else { 0 };
        push_span(&mut highlights, start_line, start_col, first_len);
        let ghost head = highlights@;
        proof {
            crate::buffer::editor::lemma_walk_bounds(0, 0, t@.take(end as int));
            crate::buffer::editor::lemma_walk_bounds(0, 0, t@.take(start as int));
        }
        let mut line = start_line + 1;
        while line < end_line
            invariant
                start_line < line <= end_line || (line == start_line + 1 && end_line <= start_line),
                views(pieces@) == crate::text::newline_pieces(t@),
                highlights@ + middle_marks(t@, line as int, end_line as int) == head + middle_marks(
                    t@,
                    start_line + 1,
                    end_line as int,
                ),
            decreases end_line - line,
        {
            let len = if line < pieces.len() { pieces[line].len() } else { 0 };
            assert(len == piece_len(t@, line as int)) by {
                if line < pieces.len() {
                    assert(views(pieces@)[line as int] == pieces@[line as int]@);
                }
            }
            let ghost before = highlights@;
            push_span(&mut highlights, line, 0, len);
            assert(before + middle_marks(t@, line as int, end_line as int) =~= highlights@ + middle_marks(
                t@,
                line + 1,
                end_line as int,
            ));
            line += 1;
        }
        push_span(&mut highlights, end_line, 0, end_col);
        proof {
            assert(first_len == piece_len(t@, start_line as int)) by {
                if start_line < pieces.len() {
                    assert(views(pieces@)[start_line as int] == pieces@[start_line as int]@);
                }
            }
        }
        highlights
    }
}


/// Frame conditions kept by the commands that do not touch the file side.
pub open spec fn keeps_files(a0: App, a1: App) -> bool {
    &&& a1.live() == a0.live()
    &&& a1.pending() == a0.pending()
    &&& a1.directory() == a0.directory()
}

impl App {
    fn show_error_text(&mut self, message: &str)
        requires
            old(self).wf(),
        ensures
            final(self).wf(),
            final(self).mini() == with_error(old(self).mini(), message@),
            final(self).editor == old(self).editor,
            final(self).kill_ring == old(self).kill_ring,
            final(self).kill_context == old(self).kill_context,
            final(self).last_yank_range == old(self).last_yank_range,
            final(self).viewport == old(self).viewport,
            final(self).recenter_step == old(self).recenter_step,
            final(self).running == old(self).running,
            final(self).mark == old(self).mark,
            final(self).request == old(self).request,
            final(self).working_dir == old(self).working_dir,
            final(self).command_processor == old(self).command_processor,
            final(self).search == old(self).search,
            final(self).buffer_manager == old(self).buffer_manager,
            final(self).keymap == old(self).keymap,
    {
        let _ = self.minibuffer.show_error(message);
    }

    fn yank(&mut self)
        requires
            old(self).wf(),
        ensures
            final(self).wf(),
            keeps_files(*old(self), *final(self)),
            final(self).ring() == old(self).ring(),
            old(self).ring().len() == 0 ==> final(self).text() == old(self).text() && final(self).mini() == with_info(
                old(self).mini(),
                "キルリングが空です"@,
            ) && final(self).kill_state() == KillContext::Other,
            final(self).kill_state() == KillContext::Yank ==> old(self).ring().len() > 0 && final(self).yanked()
                == Some((old(self).cursor_at().char_pos, old(self).ring()[0].len() as usize)) && (old(self).ring()[0].len()
                > 0 ==> final(self).text() == old(self).text().take(old(self).cursor_at().char_pos as int)
                + crate::buffer::editor::normalize_newlines(old(self).ring()[0]) + old(self).text().skip(
                old(self).cursor_at().char_pos as int,
            )),
            final(self).kill_state() != KillContext::Yank ==> final(self).text() == old(self).text(),
            yank_owed(*old(self)) ==> final(self).kill_state() == KillContext::Yank,
            final(self).kill_state() == KillContext::Yank && old(self).ring()[0].len() > 0 ==> final(self).cursor_at().char_pos
                == (old(self).cursor_at().char_pos + crate::buffer::editor::normalize_newlines(old(self).ring()[0]).len()) as usize,
    {
        let text = match self.kill_ring.yank() {
            Some(t) => t,
            None => {
                self.show_info_message(owned("キルリングが空です"));
                self.reset_kill_context();
                return;
            },
        };
        let start = self.editor.cursor().char_pos;
        let len = chars_of(text.as_str()).len();
        let c = *self.editor.cursor();
        if c.line > usize::MAX - len || c.column > usize::MAX - len {
            self.position_error();
            return;
        }
        let before = self.editor.buffer.len_chars();
        match self.editor.insert_str(text.as_str()) {
            Ok(_) => {
                let after = self.editor.buffer.len_chars();
                let added = if after >= before { after - before } else { 0 };
                self.mark = match self.mark {
                    Some(m) => if m > start && m <= usize::MAX - added { Some(m + added) } else { Some(m) },
                    None => None,
                };
                self.kill_context = KillContext::Yank;
                self.last_yank_range = Some((start, len));
                self.recenter_step = 0;
                self.ensure_cursor_visible();
            },
            Err(err) => {
                self.reset_kill_context();
                self.show_error_message(err);
            },
        }
    }

    fn yank_pop(&mut self)
        requires
            old(self).wf(),
        ensures
            final(self).wf(),
            keeps_files(*old(self), *final(self)),
            old(self).kill_state() != KillContext::Yank ==> final(self).text() == old(self).text() && final(self).ring()
                == old(self).ring() && final(self).kill_state() == KillContext::Other && final(self).mini() == with_info(
                old(self).mini(),
                "直前のコマンドがヤンクではありません"@,
            ),
            old(self).kill_state() == KillContext::Yank && old(self).yanked() is None ==> final(self).text() == old(
                self,
            ).text() && final(self).ring() == old(self).ring() && final(self).mini() == with_info(
                old(self).mini(),
                "ヤンク範囲が不明です"@,
            ),
            final(self).kill_state() == KillContext::Yank ==> old(self).kill_state() == KillContext::Yank
                && final(self).ring() == rotated(old(self).ring()),
            final(self).ring() == old(self).ring() || final(self).ring() == rotated(old(self).ring()),
            old(self).kill_state() == KillContext::Yank && final(self).kill_state() == KillContext::Yank ==> popped(
                *old(self),
                *final(self),
            ),
            pop_owed(*old(self)) ==> final(self).kill_state() == KillContext::Yank,
    {
        match self.kill_context {
            KillContext::Yank => {},
            _ => {
                self.show_info_message(owned("直前のコマンドがヤンクではありません"));
                self.reset_kill_context();
                return;
            },
        }
        let (start, previous_len) = match self.last_yank_range {
            Some(range) => range,
            None => {
                self.show_info_message(owned("ヤンク範囲が不明です"));
                self.reset_kill_context();
                return;
            },
        };
        let _ = self.editor.move_cursor_to_char(start);
        let len = self.editor.buffer.len_chars();
        if previous_len > usize::MAX - start {
            self.position_error();
            return;
        }
        let ghost t0 = self.text();
        match self.editor.delete_range(start, start + previous_len) {
            Ok(_) => {},
            Err(err) => {
                self.reset_kill_context();
                self.show_error_message(err);
                return;
            },
        }
        let ghost t1 = self.text();
        proof {
            assert(start + previous_len <= t0.len());
            assert(self.cursor_at().char_pos == start);
            assert(t1.take(start as int) =~= t0.take(start as int));
            assert(t1.skip(start as int) =~= t0.skip(start + previous_len));
        }
        self.mark = match self.mark {
            Some(m) => if m >= start + previous_len {
                Some(m - previous_len)
            } else if m > start {
                Some(start)
            } else {
                Some(m)
            },
            None => None,
        };
        let next_text = match self.kill_ring.rotate() {
            Some(t) => t,
            None => {
                self.reset_kill_context();
                self.show_info_message(owned("キルリングが空です"));
                return;
            },
        };
        let new_len = chars_of(next_text.as_str()).len();
        let c = *self.editor.cursor();
        proof {
            crate::buffer::editor::lemma_walk_bounds(0, 0, t1.take(start as int));
        }
        if c.line > usize::MAX - new_len || c.column > usize::MAX - new_len {
            self.position_error();
            return;
        }
        let before = self.editor.buffer.len_chars();
        match self.editor.insert_str(next_text.as_str()) {
            Ok(_) => {},
            Err(err) => {
                self.reset_kill_context();
                self.show_error_message(err);
                return;
            },
        }
        proof {
            if next_text@.len() == 0 {
                assert(t1.take(start as int) + Seq::<char>::empty() + t1.skip(start as int) =~= t1);
            }
        }
        let after = self.editor.buffer.len_chars();
        let added = if after >= before { after - before } else { 0 };
        self.mark = match self.mark {
            Some(m) => if m > start && m <= usize::MAX - added { Some(m + added) } else { Some(m) },
            None => None,
        };
        self.kill_context = KillContext::Yank;
        self.last_yank_range = Some((start, new_len));
        self.recenter_step = 0;
        self.ensure_cursor_visible();
    }

    fn keyboard_quit(&mut self)
        requires
            old(self).wf(),
        ensures
            final(self).wf(),
            keeps_files(*old(self), *final(self)),
            final(self).text() == old(self).text(),
            final(self).ring() == old(self).ring(),
            final(self).kill_state() == KillContext::Other,
            final(self).yanked() is None,
            final(self).keymap == old(self).keymap,
            final(self).recenter_phase() == 0,
            final(self).mark_at() is None,
            final(self).mini() == with_info(old(self).mini(), "キャンセルしました"@),
    {
        self.reset_kill_context();
        self.recenter_step = 0;
        if self.search.is_active() {
            self.search.cancel(&mut self.editor);
        }
        self.mark = None;
        self.show_info_message(owned("キャンセルしました"));
        self.ensure_cursor_visible();
    }

    fn set_mark_command(&mut self)
        requires
            old(self).wf(),
        ensures
            final(self).wf(),
            keeps_files(*old(self), *final(self)),
            final(self).text() == old(self).text(),
            final(self).ring() == old(self).ring(),
            final(self).mark_at() == Some(old(self).cursor_at().char_pos),
            final(self).recenter_phase() == 0,
            final(self).mini() == with_info(old(self).mini(), "マークを設定しました"@),
    {
        self.mark = Some(self.editor.cursor().char_pos);
        self.show_info_message(owned("マークを設定しました"));
        self.recenter_step = 0;
    }

    fn kill_region(&mut self) -> (r: Result<(), AltreError>)
        requires
            old(self).wf(),
        ensures
            final(self).wf(),
            keeps_files(*old(self), *final(self)),
            r is Err ==> final(self).text() == old(self).text() && !room_for(old(self).text(), 0),
            old(self).mark_at() is None ==> r is Ok && final(self).text() == old(self).text() && final(self).ring() == old(self).ring()
                && final(self).mini() == with_info(old(self).mini(), "リージョンが選択されていません"@),
            ({
                let t = old(self).text();
                match selection(old(self).mark_at(), old(self).cursor_at().char_pos as int, t.len() as int) {
                    Some((s, e)) => r is Ok ==> {
                        &&& final(self).text() == t.take(s as int) + t.skip(e as int)
                        &&& final(self).mark_at() is None
                        &&& s < e ==> final(self).ring() == ring_after_kill(
                            old(self).ring(),
                            old(self).ring_cap(),
                            old(self).kill_state(),
                            t.subrange(s as int, e as int),
                            KillMerge::Append,
                        ) && final(self).kill_state() == KillContext::Kill
                        &&& s == e ==> final(self).ring() == old(self).ring()
                    },
                    None => true,
                }
            }),
    {
        let (start, end) = match self.selection_range() {
            Some(range) => range,
            None => {
                self.show_info_message(owned("リージョンが選択されていません"));
                return Ok(());
            },
        };
        proof {
            reveal_strlit("");
        }
        let text = match self.editor.replace_range_span(start, end, "") {
            Ok(t) => t,
            Err(e) => return Err(e),
        };
        if text.as_str().is_empty() {
            self.show_info_message(owned("選択範囲が空です"));
        } else {
            self.record_kill(text, KillMerge::Append);
        }
        self.mark = None;
        self.recenter_step = 0;
        self.ensure_cursor_visible();
        proof {
            let t = old(self).text();
            assert(t.take(start as int) + Seq::<char>::empty() + t.skip(end as int) =~= t.take(start as int) + t.skip(
                end as int,
            ));
        }
        Ok(())
    }

    fn copy_region(&mut self) -> (r: Result<(), AltreError>)
        requires
            old(self).wf(),
        ensures
            final(self).wf(),
            keeps_files(*old(self), *final(self)),
            r is Ok,
            final(self).text() == old(self).text(),
            final(self).mark_at() == old(self).mark_at(),
            old(self).mark_at() is None ==> final(self).ring() == old(self).ring(),
            ({
                let t = old(self).text();
                match selection(old(self).mark_at(), old(self).cursor_at().char_pos as int, t.len() as int) {
                    Some((s, e)) => s < e ==> final(self).ring() == ring_after_kill(
                        old(self).ring(),
                        old(self).ring_cap(),
                        old(self).kill_state(),
                        t.subrange(s as int, e as int),
                        KillMerge::Append,
                    ) && final(self).kill_state() == KillContext::Kill,
                    None => true,
                }
            }),
    {
        match self.selection_range() {
            Some((start, end)) => {
                let t = chars_of(self.editor.to_string().as_str());
                let text = string_from_range(&t, start, end);
                if text.as_str().is_empty() {
                    self.show_info_message(owned("選択範囲が空です"));
                } else {
                    self.record_kill(text, KillMerge::Append);
                    self.show_info_message(owned("リージョンをコピーしました"));
                }
            },
            None => {
                self.show_info_message(owned("リージョンが選択されていません"));
            },
        }
        self.recenter_step = 0;
        self.ensure_cursor_visible();
        Ok(())
    }

    fn exchange_point_and_mark(&mut self) -> (r: Result<(), AltreError>)
        requires
            old(self).wf(),
        ensures
            final(self).wf(),
            keeps_files(*old(self), *final(self)),
            r is Ok,
            final(self).text() == old(self).text(),
            final(self).ring() == old(self).ring(),
            old(self).mark_at() is None ==> final(self).mini() == with_info(old(self).mini(), "マークが設定されていません"@),
            old(self).mark_at() matches Some(m) ==> final(self).mark_at() == Some(old(self).cursor_at().char_pos)
                && final(self).cursor_at().char_pos == (if m <= old(self).text().len() { m as int } else { old(self).text().len() as int }),
    {
        let m = match self.mark {
            Some(m) => m,
            None => {
                self.show_info_message(owned("マークが設定されていません"));
                return Ok(());
            },
        };
        let c = self.editor.cursor().char_pos;
        let _ = self.editor.move_cursor_to_char(m);
        self.mark = Some(c);
        self.recenter_step = 0;
        self.ensure_cursor_visible();
        Ok(())
    }

    fn mark_entire_buffer(&mut self) -> (r: Result<(), AltreError>)
        requires
            old(self).wf(),
        ensures
            final(self).wf(),
            keeps_files(*old(self), *final(self)),
            r is Ok,
            final(self).text() == old(self).text(),
            final(self).ring() == old(self).ring(),
            final(self).mark_at() == Some(0usize),
            final(self).cursor_at().char_pos == old(self).text().len(),
            final(self).mini() == with_info(old(self).mini(), "バッファ全体を選択しました"@),
    {
        let len = self.editor.buffer.len_chars();
        let _ = self.editor.move_cursor_to_char(len);
        self.mark = Some(0);
        self.show_info_message(owned("バッファ全体を選択しました"));
        self.recenter_step = 0;
        self.ensure_cursor_visible();
        Ok(())
    }

    fn navigate(&mut self, action: NavigationAction)
        requires
            old(self).wf(),
        ensures
            final(self).wf(),
            keeps_files(*old(self), *final(self)),
            final(self).text() == old(self).text(),
            final(self).ring() == old(self).ring(),
            final(self).kill_state() == KillContext::Other,
            final(self).yanked() is None,
            final(self).recenter_phase() == 0,
            final(self).mark_at() == old(self).mark_at(),
            navigated(*old(self), action, *final(self), old(self).mini()),
    {
        self.reset_kill_context();
        self.recenter_step = 0;
        let c = *self.editor.cursor();
        let len = self.editor.buffer.len_chars();
        proof {
            self.editor.buffer.lemma_len_bound();
        }
        if (action == NavigationAction::MoveCharForward && c.char_pos < len && (c.line == usize::MAX || c.column
            == usize::MAX)) || (action == NavigationAction::MoveCharBackward && c.char_pos > len) {
            let m = crate::buffer::navigation::NavigationError::InvalidPosition(c.char_pos).message();
            self.show_error_text(m.as_str());
            return;
        }
        match self.editor.navigate(action) {
            Ok(true) => {
                self.ensure_cursor_visible();
            },
            Ok(false) => self.show_info_message(owned("これ以上移動できません")),
            Err(err) => {
                let m = err.message();
                self.show_error_text(m.as_str());
            },
        }
    }

    fn type_char(&mut self, ch: char)
        requires
            old(self).wf(),
        ensures
            final(self).wf(),
            keeps_files(*old(self), *final(self)),
            final(self).ring() == old(self).ring(),
            final(self).kill_state() == KillContext::Other,
            final(self).recenter_phase() == 0,
            final(self).text() == old(self).text() || (final(self).text() == old(self).text().insert(
                old(self).cursor_at().char_pos as int,
                ch,
            ) && final(self).cursor_at() == crate::buffer::editor::after_typing(old(self).cursor_at(), ch)),
            typing_owed(*old(self), ch) ==> final(self).text() == old(self).text().insert(
                old(self).cursor_at().char_pos as int,
                ch,
            ),
    {
        let c = *self.editor.cursor();
        if c.line == usize::MAX || c.column == usize::MAX {
            self.position_error();
            self.recenter_step = 0;
            return;
        }
        let r = self.editor.insert_char(ch);
        if r.is_ok() {
            self.mark = match self.mark {
                Some(m) => if m > c.char_pos && m < usize::MAX { Some(m + 1) } else { Some(m) },
                None => None,
            };
        }
        self.after_edit(r);
    }

    fn new_line(&mut self)
        requires
            old(self).wf(),
        ensures
            final(self).wf(),
            keeps_files(*old(self), *final(self)),
            final(self).ring() == old(self).ring(),
            final(self).kill_state() == KillContext::Other,
            final(self).recenter_phase() == 0,
            final(self).text() == old(self).text() || (final(self).text() == old(self).text().insert(
                old(self).cursor_at().char_pos as int,
                '\n',
            ) && final(self).cursor_at() == crate::buffer::editor::after_typing(old(self).cursor_at(), '\n')),
            newline_owed(*old(self)) ==> final(self).text() == old(self).text().insert(
                old(self).cursor_at().char_pos as int,
                '\n',
            ),
    {
        let c = *self.editor.cursor();
        if c.line == usize::MAX || c.column == usize::MAX {
            self.position_error();
            self.recenter_step = 0;
            return;
        }
        let r = self.editor.insert_newline();
        if r.is_ok() {
            self.mark = match self.mark {
                Some(m) => if m > c.char_pos && m < usize::MAX { Some(m + 1) } else { Some(m) },
                None => None,
            };
        }
        self.after_edit(r);
    }

    fn delete_char(&mut self, backward: bool)
        requires
            old(self).wf(),
        ensures
            final(self).wf(),
            keeps_files(*old(self), *final(self)),
            final(self).ring() == old(self).ring(),
            final(self).kill_state() == KillContext::Other,
            final(self).recenter_phase() == 0,
            backward ==> deleted_before(old(self).text(), old(self).cursor_at(), final(self).text(), final(self).cursor_at()),
            !backward ==> deleted_at(old(self).text(), old(self).cursor_at(), final(self).text(), final(self).cursor_at()),
    {
        let c = self.editor.cursor().char_pos;
        let r = if backward { self.editor.delete_backward() } else { self.editor.delete_forward() };
        let res = match r {
            Ok(_) => {
                let at = if backward { c - 1 } else { c };
                self.mark = match self.mark {
                    Some(m) => if m > at { Some(m - 1) } else { Some(m) },
                    None => None,
                };
                Ok(())
            },
            Err(e) => Err(e),
        };
        self.after_edit(res);
    }
}

/// The directory the prompts start from: the one the application was
/// told about, or the home directory.
pub open spec fn dir_or_home(d: Option<Seq<char>>) -> Seq<char> {
    match d {
        Some(x) => x,
        None => "~/"@,
    }
}

/// `d` ending in a slash.
pub open spec fn as_dir(d: Seq<char>) -> Seq<char> {
    if d.len() > 0 && d.last() == '/' {
        d
    } else {
        d.push('/')
    }
}

/// The name offered for a new file in `d`.
pub open spec fn untitled_in(d: Seq<char>) -> Seq<char> {
    as_dir(d) + "untitled"@
}

/// The name offered for a buffer called `name` without a file.
pub open spec fn suggested_name(name: Seq<char>) -> Seq<char> {
    if crate::text::trimmed(name).len() == 0 {
        "untitled"@
    } else {
        name
    }
}

/// The initial input of the save prompt for `name`: joined to the known
/// directory, as it is without one.
pub open spec fn save_as_initial(d: Option<Seq<char>>, name: Seq<char>) -> Seq<char> {
    match d {
        Some(x) => crate::file::path::path_joined(x, name),
        None => name,
    }
}

fn ends_with_slash(s: &str) -> (r: bool)
    ensures
        r == (s@.len() > 0 && s@.last() == '/'),
{
    let v = chars_of(s);
    v.len() > 0 && v[v.len() - 1] == '/'
}

fn home_or(d: &Option<String>) -> (r: String)
    ensures
        r@ == dir_or_home(match d {
            Some(x) => Some(x@),
            None => None,
        }),
{
    match d {
        Some(x) => x.clone(),
        None => owned("~/"),
    }
}

fn dir_text(d: &str) -> (r: String)
    ensures
        r@ == as_dir(d@),
{
    if ends_with_slash(d) {
        owned(d)
    } else {
        proof {
            reveal_strlit("/");
            assert(d@ + "/"@ =~= d@.push('/'));
        }
        concat_str(d, "/")
    }
}

impl App {
    /// The buffer of the file being edited, if any.
    pub closed spec fn file_buffer(&self) -> Option<crate::file::operations::FileBuffer> {
        self.command_processor.buffer()
    }

    /// The text a save writes: that of the command processor's editor.
    pub closed spec fn saved_text(&self) -> Seq<char> {
        self.command_processor.editor_state().text()
    }

    /// The buffer of the file being edited, if any.
    pub fn current_file(&self) -> (r: Option<&crate::file::operations::FileBuffer>)
        ensures
            match self.file_buffer() {
                Some(b) => r == Some(&b),
                None => r is None,
            },
    {
        self.command_processor.current_buffer()
    }

    fn start_find_file_prompt(&mut self) -> (r: Result<(), AltreError>)
        requires
            old(self).wf(),
        ensures
            final(self).wf(),
            r is Ok,
            final(self).mini() == crate::minibuffer::started(
                old(self).mini(),
                ModeView::FindFile,
                "Find file: "@,
                as_dir(dir_or_home(old(self).directory())),
            ),
            final(self).minibuffer.pending() == old(self).minibuffer.pending(),
            final(self).editor == old(self).editor,
            final(self).kill_ring == old(self).kill_ring,
            final(self).kill_context == old(self).kill_context,
            final(self).last_yank_range == old(self).last_yank_range,
            final(self).viewport == old(self).viewport,
            final(self).recenter_step == old(self).recenter_step,
            final(self).running == old(self).running,
            final(self).mark == old(self).mark,
            final(self).request == old(self).request,
            final(self).working_dir == old(self).working_dir,
            final(self).command_processor == old(self).command_processor,
    {
        let dir = home_or(&self.working_dir);
        let initial = dir_text(dir.as_str());
        let _ = self.minibuffer.start_find_file(Some(initial.as_str()));
        Ok(())
    }

    fn start_execute_command_prompt(&mut self) -> (r: Result<(), AltreError>)
        requires
            old(self).wf(),
        ensures
            final(self).wf(),
            r is Ok,
            final(self).mini() == crate::minibuffer::started(
                old(self).mini(),
                ModeView::ExecuteCommand,
                "M-x "@,
                Seq::empty(),
            ),
            final(self).editor == old(self).editor,
            final(self).kill_ring == old(self).kill_ring,
            final(self).kill_context == old(self).kill_context,
            final(self).last_yank_range == old(self).last_yank_range,
            final(self).viewport == old(self).viewport,
            final(self).recenter_step == old(self).recenter_step,
            final(self).running == old(self).running,
            final(self).mark == old(self).mark,
            final(self).request == old(self).request,
            final(self).working_dir == old(self).working_dir,
            final(self).command_processor == old(self).command_processor,
    {
        let _ = self.minibuffer.start_execute_command();
        Ok(())
    }

    fn start_eval_expression_prompt(&mut self) -> (r: Result<(), AltreError>)
        requires
            old(self).wf(),
        ensures
            final(self).wf(),
            r is Ok,
            final(self).mini() == crate::minibuffer::started(
                old(self).mini(),
                ModeView::EvalExpression,
                "Eval: "@,
                Seq::empty(),
            ),
            final(self).editor == old(self).editor,
            final(self).kill_ring == old(self).kill_ring,
            final(self).kill_context == old(self).kill_context,
            final(self).last_yank_range == old(self).last_yank_range,
            final(self).viewport == old(self).viewport,
            final(self).recenter_step == old(self).recenter_step,
            final(self).running == old(self).running,
            final(self).mark == old(self).mark,
            final(self).request == old(self).request,
            final(self).working_dir == old(self).working_dir,
            final(self).command_processor == old(self).command_processor,
    {
        let _ = self.minibuffer.start_eval_expression();
        Ok(())
    }

    fn start_save_as_prompt(&mut self, suggested_name: &str) -> (r: Result<(), AltreError>)
        requires
            old(self).wf(),
        ensures
            final(self).wf(),
            r is Ok,
            final(self).mini() == crate::minibuffer::started(
                old(self).mini(),
                ModeView::WriteFile,
                "Save file: "@,
                save_as_initial(old(self).directory(), suggested_name@),
            ),
            final(self).editor == old(self).editor,
            final(self).kill_ring == old(self).kill_ring,
            final(self).kill_context == old(self).kill_context,
            final(self).last_yank_range == old(self).last_yank_range,
            final(self).viewport == old(self).viewport,
            final(self).recenter_step == old(self).recenter_step,
            final(self).running == old(self).running,
            final(self).mark == old(self).mark,
            final(self).request == old(self).request,
            final(self).working_dir == old(self).working_dir,
            final(self).command_processor == old(self).command_processor,
    {
        let initial = match &self.working_dir {
            Some(d) => crate::file::path::join_path(d.as_str(), suggested_name),
            None => owned(suggested_name),
        };
        let _ = self.minibuffer.start_write_file(Some(initial.as_str()));
        Ok(())
    }

    fn save_buffer(&mut self) -> (r: Result<(), AltreError>)
        requires
            old(self).wf(),
        ensures
            final(self).wf(),
            r is Ok,
            keeps_files_but_request(*old(self), *final(self)),
            final(self).text() == old(self).text(),
            final(self).ring() == old(self).ring(),
            final(self).pending() == old(self).pending() || final(self).pending() == Some(AppRequest::SaveFile),
            match old(self).file_buffer() {
                None => final(self).mini() == crate::minibuffer::started(
                    old(self).mini(),
                    ModeView::WriteFile,
                    "Save file: "@,
                    save_as_initial(old(self).directory(), untitled_in(dir_or_home(old(self).directory()))),
                ) && final(self).pending() == old(self).pending(),
                Some(b) => if b.path is None {
                    final(self).mini() == crate::minibuffer::started(
                        old(self).mini(),
                        ModeView::WriteFile,
                        "Save file: "@,
                        save_as_initial(old(self).directory(), suggested_name(b.name@)),
                    ) && final(self).pending() == old(self).pending()
                } else {
                    &&& final(self).file_buffer() is Some
                    &&& final(self).file_buffer()->Some_0.content@ == old(self).command_processor.editor_state().text()
                    &&& save_due(b, old(self).command_processor.editor_state().text()) ==> final(self).pending() == Some(
                        AppRequest::SaveFile,
                    )
                    &&& !save_due(b, old(self).command_processor.editor_state().text()) ==> final(self).pending()
                        == old(self).pending() && final(self).mini() == with_info(old(self).mini(), "変更なし"@)
                },
            },
    {
        let suggested = match self.command_processor.current_buffer() {
            Some(buffer) => {
                if buffer.path.is_none() {
                    let t = trim_text(buffer.name.as_str());
                    if t.as_str().is_empty() {
                        Some(owned("untitled"))
                    } else {
                        Some(buffer.name.clone())
                    }
                } else {
                    None
                }
            },
            None => {
                let dir = home_or(&self.working_dir);
                let d = dir_text(dir.as_str());
                Some(concat_str(d.as_str(), "untitled"))
            },
        };
        match suggested {
            Some(name) => self.start_save_as_prompt(name.as_str()),
            None => {
                let result = self.command_processor.prepare_save();
                if result.file_request.is_some() {
                    self.request = Some(AppRequest::SaveFile);
                } else if result.success {
                    match result.message {
                        Some(msg) => self.show_info_message(msg),
                        None => {},
                    }
                } else {
                    match result.message {
                        Some(msg) => self.show_error_message(AltreError::Application(msg)),
                        None => {},
                    }
                }
                Ok(())
            },
        }
    }
}

/// Saving `b` with content `t` is due: `t` hashes differently from what
/// was last saved.
pub open spec fn save_due(b: FileBuffer, t: Seq<char>) -> bool {
    crate::file::metadata::text_hash(t) != crate::file::metadata::text_hash(b.change_tracker.saved())
}

/// Only the file request may have changed among the lasting settings.
pub open spec fn keeps_files_but_request(a0: App, a1: App) -> bool {
    &&& a1.live() == a0.live()
    &&& a1.directory() == a0.directory()
}

/// The commands the application does not carry out; it says so.
pub open spec fn unimplemented_command(c: Command) -> bool {
    match c {
        Command::ForwardWord | Command::BackwardWord | Command::Undo | Command::Redo | Command::WriteFile
        | Command::SaveAllBuffers | Command::SwitchToBuffer | Command::KillBuffer | Command::ListBuffers
        | Command::SplitWindowBelow | Command::SplitWindowRight | Command::DeleteOtherWindows
        | Command::DeleteWindow | Command::OtherWindow | Command::QueryReplace | Command::RegexQueryReplace
        | Command::Unknown(_) => true,
        _ => false,
    }
}

/// The lasting settings are kept.
pub open spec fn settles(a0: App, a1: App) -> bool {
    &&& a1.live() == a0.live()
    &&& a1.pending() == a0.pending()
}

/// The view after a scroll command from `a0` to `a1`: the top line moves
/// a page down or up (never past the last page), and the cursor moves by
/// lines along with it, at most as many as the top line moved (it stops
/// where it cannot move further, or where a move took too long); or the
/// view recenters on the cursor in turn (middle, top, bottom), or the
/// columns shift by half the width; then the view is moved so that the
/// cursor shows.
pub open spec fn scrolled(a0: App, c: Command, a1: App) -> bool {
    let v = a0.view_state();
    let t = a0.text();
    let h = crate::ui::viewport::effective_height(v);
    let step: int = if v.width / 2 >= 1 { (v.width / 2) as int } else { 1 };
    let nav0 = crate::buffer::navigation::NavigationSystem { cursor: a0.cursor_at(), ..a0.editor_state().navigation };
    match c {
        Command::ScrollPageDown => {
            let top1 = page_down_top(v.top_line as int, metrics(t).0, h);
            &&& a1.view_state() == made_visible(ViewportState { top_line: top1 as usize, ..v }, a1.cursor_at(), t)
            &&& exists|k: nat|
                k <= (if top1 > v.top_line {
                    top1 - v.top_line
                } else {
                    0
                }) && crate::buffer::navigation::walk_open(nav0, t, NavigationAction::MoveLineDown, k) && a1.cursor_at()
                    == #[trigger] crate::buffer::navigation::walked(nav0, t, NavigationAction::MoveLineDown, k).cursor
        },
        Command::ScrollPageUp => {
            let top1 = page_up_top(v.top_line as int, h);
            &&& a1.view_state() == made_visible(ViewportState { top_line: top1 as usize, ..v }, a1.cursor_at(), t)
            &&& exists|k: nat|
                k <= v.top_line - top1 && crate::buffer::navigation::walk_open(
                    nav0,
                    t,
                    NavigationAction::MoveLineUp,
                    k,
                ) && a1.cursor_at() == #[trigger] crate::buffer::navigation::walked(
                    nav0,
                    t,
                    NavigationAction::MoveLineUp,
                    k,
                ).cursor
        },
        Command::Recenter => a1.view_state() == made_visible(
            ViewportState {
                top_line: recentered_top(a0.recenter_phase(), a0.cursor_at().line as int, h, sat_sub(metrics(t).0, h))
                    as usize,
                ..v
            },
            a0.cursor_at(),
            t,
        ) && a1.cursor_at() == a0.cursor_at() && a1.recenter_phase() == (a0.recenter_phase() + 1) % 3,
        Command::ScrollLeft => a1.view_state() == made_visible(
            ViewportState {
                scroll_x: (if v.scroll_x + step <= usize::MAX { v.scroll_x + step } else { usize::MAX as int }) as usize,
                ..v
            },
            a1.cursor_at(),
            t,
        ),
        Command::ScrollRight => a1.view_state() == made_visible(
            ViewportState {
                scroll_x: (v.scroll_x - (if v.scroll_x < step { v.scroll_x as int } else { step })) as usize,
                ..v
            },
            a1.cursor_at(),
            t,
        ),
        _ => true,
    }
}

/// The navigation action of a motion command.
pub open spec fn motion_of(c: Command) -> NavigationAction {
    match c {
        Command::ForwardChar => NavigationAction::MoveCharForward,
        Command::BackwardChar => NavigationAction::MoveCharBackward,
        Command::NextLine => NavigationAction::MoveLineDown,
        Command::PreviousLine => NavigationAction::MoveLineUp,
        Command::MoveLineStart => NavigationAction::MoveLineStart,
        Command::MoveLineEnd => NavigationAction::MoveLineEnd,
        Command::MoveBufferStart => NavigationAction::MoveBufferStart,
        _ => NavigationAction::MoveBufferEnd,
    }
}

/// The line move down or up.
pub open spec fn vertical_action(down: bool) -> NavigationAction {
    if down {
        NavigationAction::MoveLineDown
    } else {
        NavigationAction::MoveLineUp
    }
}

/// The cursor and view after `action` from `a0` to `a1`, the minibuffer
/// showing `m0` before: a blocked motion, one the navigation system
/// refuses, and one that took too long leave cursor and view and show an
/// error; with nowhere to move they stay and the minibuffer says so (or
/// shows the error of a move that took too long); otherwise the cursor goes
/// where the navigation system moves it and the view follows it.
pub open spec fn navigated(a0: App, action: NavigationAction, a1: App, m0: StateView) -> bool {
    let nav0 = crate::buffer::navigation::NavigationSystem { cursor: a0.cursor_at(), ..a0.editor_state().navigation };
    let out = crate::buffer::navigation::NavigationSystem::dispatch_outcome(nav0, a0.text(), action);
    let blocked = crate::input::commands::motion_blocked(a0.cursor_at(), a0.text().len() as int, action);
    let stayed = a1.cursor_at() == a0.cursor_at() && a1.view_state() == a0.view_state();
    let refused = stayed && exists|m: Seq<char>| a1.mini() == with_error(m0, m);
    &&& blocked ==> refused
    &&& !blocked && out is None ==> refused
    &&& !blocked && out == Some(false) ==> stayed && (a1.mini() == with_info(m0, "これ以上移動できません"@) || exists|
        m: Seq<char>,
    | a1.mini() == with_error(m0, m))
    &&& !blocked && out == Some(true) ==> refused || (a1.cursor_at()
        == crate::buffer::navigation::NavigationSystem::dispatch_state(nav0, a0.text(), action).0
        && a1.view_state() == made_visible(a0.view_state(), a1.cursor_at(), a0.text()) && a1.mini() == m0)
}

/// A command that leaves the text and the kill ring alone.
pub open spec fn text_kept(a0: App, a1: App) -> bool {
    &&& a1.text() == a0.text()
    &&& a1.ring() == a0.ring()
}

/// What a command does to the text, the kill ring, the mark and the
/// lasting settings.
pub open spec fn command_outcome(a0: App, c: Command, a1: App) -> bool {
    command_outcome_from(a0, c, a1, a0.mini())
}

/// What a command does, the minibuffer showing `m0` when it starts.
pub open spec fn command_outcome_from(a0: App, c: Command, a1: App, m0: StateView) -> bool {
    let t0 = a0.text();
    let t1 = a1.text();
    let p = a0.cursor_at().char_pos as int;
    &&& a1.directory() == a0.directory()
    &&& match c {
        Command::ForwardChar | Command::BackwardChar | Command::NextLine | Command::PreviousLine
        | Command::MoveLineStart | Command::MoveLineEnd | Command::MoveBufferStart | Command::MoveBufferEnd => {
            &&& text_kept(a0, a1)
            &&& settles(a0, a1)
            &&& a1.kill_state() == KillContext::Other
            &&& a1.mark_at() == a0.mark_at()
            &&& navigated(a0, motion_of(c), a1, m0)
        },
        Command::InsertChar(ch) => {
            &&& settles(a0, a1)
            &&& a1.ring() == a0.ring()
            &&& a1.kill_state() == KillContext::Other
            &&& t1 == t0 || (t1 == t0.insert(p, ch) && a1.cursor_at() == crate::buffer::editor::after_typing(
                a0.cursor_at(),
                ch,
            ))
            &&& typing_owed(a0, ch) ==> t1 == t0.insert(p, ch)
        },
        Command::InsertNewline => {
            &&& settles(a0, a1)
            &&& a1.ring() == a0.ring()
            &&& a1.kill_state() == KillContext::Other
            &&& t1 == t0 || (t1 == t0.insert(p, '\n') && a1.cursor_at() == crate::buffer::editor::after_typing(
                a0.cursor_at(),
                '\n',
            ))
            &&& newline_owed(a0) ==> t1 == t0.insert(p, '\n')
        },
        Command::DeleteBackwardChar => settles(a0, a1) && a1.ring() == a0.ring() && a1.kill_state()
            == KillContext::Other && deleted_before(t0, a0.cursor_at(), t1, a1.cursor_at()),
        Command::DeleteChar => settles(a0, a1) && a1.ring() == a0.ring() && a1.kill_state()
            == KillContext::Other && deleted_at(t0, a0.cursor_at(), t1, a1.cursor_at()),
        Command::KillLine => settles(a0, a1) && if p >= t0.len() {
            text_kept(a0, a1) && a1.kill_state() == KillContext::Other
        } else {
            let end = crate::buffer::editor::kill_line_end(t0, p);
            &&& t1 == t0.take(p) + t0.skip(end)
            &&& a1.cursor_at().char_pos == p
            &&& a1.cursor_at() == crate::buffer::editor::synced(a0.cursor_at(), t1)
            &&& a1.view_state() == made_visible(a0.view_state(), a1.cursor_at(), t1)
            &&& a1.ring() == ring_after_kill(a0.ring(), a0.ring_cap(), a0.kill_state(), t0.subrange(p, end), KillMerge::Append)
            &&& a1.kill_state() == KillContext::Kill
            &&& a1.mark_at() == mark_after_delete(a0.mark_at(), p, end)
        },
        Command::KillWordForward => settles(a0, a1) && {
            let end = crate::buffer::editor::word_end_forward(t0, p);
            if end == p || p >= t0.len() {
                text_kept(a0, a1)
            } else {
                &&& t1 == t0.take(p) + t0.skip(end)
                &&& a1.ring() == ring_after_kill(a0.ring(), a0.ring_cap(), a0.kill_state(), t0.subrange(p, end), KillMerge::Append)
                &&& a1.kill_state() == KillContext::Kill
            }
        },
        Command::KillWordBackward => settles(a0, a1) && {
            let start = crate::buffer::editor::word_start_backward(t0, p);
            if p > t0.len() || start == p {
                text_kept(a0, a1)
            } else {
                &&& t1 == t0.take(start) + t0.skip(p)
                &&& a1.ring() == ring_after_kill(a0.ring(), a0.ring_cap(), a0.kill_state(), t0.subrange(start, p), KillMerge::Prepend)
                &&& a1.kill_state() == KillContext::Kill
            }
        },
        Command::Yank => {
            &&& settles(a0, a1)
            &&& a1.ring() == a0.ring()
            &&& a0.ring().len() == 0 ==> t1 == t0 && a1.kill_state() == KillContext::Other
            &&& a1.kill_state() == KillContext::Yank ==> a0.ring().len() > 0 && a1.yanked() == Some(
                (a0.cursor_at().char_pos, a0.ring()[0].len() as usize),
            ) && (a0.ring()[0].len() > 0 ==> t1 == t0.take(p) + crate::buffer::editor::normalize_newlines(a0.ring()[0])
                + t0.skip(p))
            &&& a1.kill_state() != KillContext::Yank ==> t1 == t0
            &&& yank_owed(a0) ==> a1.kill_state() == KillContext::Yank
            &&& a1.kill_state() == KillContext::Yank && a0.ring()[0].len() > 0 ==> a1.cursor_at().char_pos == (p
                + crate::buffer::editor::normalize_newlines(a0.ring()[0]).len()) as usize
        },
        Command::YankPop => {
            &&& settles(a0, a1)
            &&& a0.kill_state() != KillContext::Yank ==> text_kept(a0, a1) && a1.kill_state() == KillContext::Other
            &&& a1.kill_state() == KillContext::Yank ==> a0.kill_state() == KillContext::Yank && popped(a0, a1)
            &&& pop_owed(a0) ==> a1.kill_state() == KillContext::Yank && popped(a0, a1)
            &&& a1.ring() == a0.ring() || a1.ring() == rotated(a0.ring())
        },
        Command::KeyboardQuit => text_kept(a0, a1) && settles(a0, a1) && a1.kill_state() == KillContext::Other
            && a1.mark_at() is None,
        Command::SetMark => text_kept(a0, a1) && settles(a0, a1) && a1.mark_at() == Some(a0.cursor_at().char_pos),
        Command::KillRegion => settles(a0, a1) && if a0.mark_at() is None {
            text_kept(a0, a1)
        } else {
            (t1 == t0 && !room_for(t0, 0)) || match selection(a0.mark_at(), p, t0.len() as int) {
                Some((s, e)) => {
                    &&& t1 == t0.take(s as int) + t0.skip(e as int)
                    &&& a1.mark_at() is None
                    &&& s < e ==> a1.ring() == ring_after_kill(
                        a0.ring(),
                        a0.ring_cap(),
                        a0.kill_state(),
                        t0.subrange(s as int, e as int),
                        KillMerge::Append,
                    ) && a1.kill_state() == KillContext::Kill
                    &&& s == e ==> a1.ring() == a0.ring()
                },
                None => false,
            }
        },
        Command::CopyRegion => settles(a0, a1) && t1 == t0 && a1.mark_at() == a0.mark_at() && match selection(
            a0.mark_at(),
            p,
            t0.len() as int,
        ) {
            Some((s, e)) => s < e ==> a1.ring() == ring_after_kill(
                a0.ring(),
                a0.ring_cap(),
                a0.kill_state(),
                t0.subrange(s as int, e as int),
                KillMerge::Append,
            ) && a1.kill_state() == KillContext::Kill,
            None => a1.ring() == a0.ring(),
        },
        Command::ExchangePointAndMark => text_kept(a0, a1) && settles(a0, a1) && match a0.mark_at() {
            Some(m) => a1.mark_at() == Some(a0.cursor_at().char_pos) && a1.cursor_at().char_pos == (if m <= t0.len() {
                m as int
            } else {
                t0.len() as int
            }),
            None => true,
        },
        Command::MarkBuffer => text_kept(a0, a1) && settles(a0, a1) && a1.mark_at() == Some(0usize)
            && a1.cursor_at().char_pos == t0.len(),
        Command::ScrollPageDown | Command::ScrollPageUp | Command::Recenter | Command::ScrollLeft
        | Command::ScrollRight => text_kept(a0, a1) && settles(a0, a1) && a1.kill_state() == KillContext::Other
            && scrolled(a0, c, a1),
        Command::SaveBuffer => text_kept(a0, a1) && a1.live() == a0.live() && match a0.file_buffer() {
            Some(b) => b.path is Some ==> (save_due(b, a0.saved_text()) ==> a1.pending() == Some(AppRequest::SaveFile))
                && (!save_due(b, a0.saved_text()) ==> a1.pending() == a0.pending()),
            None => a1.pending() == a0.pending(),
        },
        Command::SaveBuffersKillTerminal | Command::Quit => text_kept(a0, a1) && !a1.live() && a1.pending()
            == a0.pending(),
        _ => text_kept(a0, a1) && settles(a0, a1) && a1.kill_state() == a0.kill_state(),
    }
}

/// What a command shows in the minibuffer, where that is fixed.
pub open spec fn command_message(a0: App, c: Command, a1: App) -> bool {
    let m0 = a0.mini();
    let m1 = a1.mini();
    match c {
        Command::FindFile => m1 == crate::minibuffer::started(
            m0,
            ModeView::FindFile,
            "Find file: "@,
            as_dir(dir_or_home(a0.directory())),
        ),
        Command::ExecuteCommand => m1 == crate::minibuffer::started(m0, ModeView::ExecuteCommand, "M-x "@, Seq::empty()),
        Command::EvalExpression => m1 == crate::minibuffer::started(m0, ModeView::EvalExpression, "Eval: "@, Seq::empty()),
        Command::KeyboardQuit => m1 == with_info(m0, "キャンセルしました"@),
        Command::SetMark => m1 == with_info(m0, "マークを設定しました"@),
        Command::MarkBuffer => m1 == with_info(m0, "バッファ全体を選択しました"@),
        Command::SaveBuffersKillTerminal | Command::Quit => m1 == m0,
        Command::SaveBuffer => match a0.file_buffer() {
            None => m1 == crate::minibuffer::started(
                m0,
                ModeView::WriteFile,
                "Save file: "@,
                save_as_initial(a0.directory(), untitled_in(dir_or_home(a0.directory()))),
            ),
            Some(b) => b.path is None ==> m1 == crate::minibuffer::started(
                m0,
                ModeView::WriteFile,
                "Save file: "@,
                save_as_initial(a0.directory(), suggested_name(b.name@)),
            ),
        },
        _ => unimplemented_command(c) ==> m1 == with_info(m0, "未実装のコマンド: "@ + crate::input::commands::command_debug(c)),
    }
}

impl App {
    /// Carries out `command`.
    #[verifier::spinoff_prover]
    #[verifier::rlimit(40)]
    pub fn execute_command(&mut self, command: Command) -> (r: Result<(), AltreError>)
        requires
            old(self).wf(),
        ensures
            final(self).wf(),
            r is Err ==> command == Command::KillRegion && final(self).text() == old(self).text() && !room_for(
                old(self).text(),
                0,
            ),
            command_outcome(*old(self), command, *final(self)),
            command_message(*old(self), command, *final(self)),
    {
        match command {
            Command::FindFile => self.start_find_file_prompt(),
            Command::ForwardChar => {
                self.navigate(NavigationAction::MoveCharForward);
                Ok(())
            },
            Command::BackwardChar => {
                self.navigate(NavigationAction::MoveCharBackward);
                Ok(())
            },
            Command::NextLine => {
                self.navigate(NavigationAction::MoveLineDown);
                Ok(())
            },
            Command::PreviousLine => {
                self.navigate(NavigationAction::MoveLineUp);
                Ok(())
            },
            Command::InsertChar(ch) => {
                self.type_char(ch);
                Ok(())
            },
            Command::DeleteBackwardChar => {
                self.delete_char(true);
                Ok(())
            },
            Command::DeleteChar => {
                self.delete_char(false);
                Ok(())
            },
            Command::InsertNewline => {
                self.new_line();
                Ok(())
            },
            Command::KillWordForward => {
                self.kill_word_forward();
                Ok(())
            },
            Command::KillWordBackward => {
                self.kill_word_backward();
                Ok(())
            },
            Command::KillLine => {
                self.kill_line_forward();
                Ok(())
            },
            Command::Yank => {
                self.yank();
                Ok(())
            },
            Command::YankPop => {
                self.yank_pop();
                Ok(())
            },
            Command::KeyboardQuit => {
                self.keyboard_quit();
                Ok(())
            },
            Command::SetMark => {
                self.set_mark_command();
                Ok(())
            },
            Command::KillRegion => self.kill_region(),
            Command::CopyRegion => self.copy_region(),
            Command::ExchangePointAndMark => self.exchange_point_and_mark(),
            Command::MarkBuffer => self.mark_entire_buffer(),
            Command::ScrollPageDown => {
                self.scroll_page_down();
                Ok(())
            },
            Command::ScrollPageUp => {
                self.scroll_page_up();
                Ok(())
            },
            Command::Recenter => {
                self.recenter_view();
                Ok(())
            },
            Command::ScrollLeft => {
                self.scroll_left();
                Ok(())
            },
            Command::ScrollRight => {
                self.scroll_right();
                Ok(())
            },
            Command::SaveBuffer => self.save_buffer(),
            Command::SaveBuffersKillTerminal | Command::Quit => {
                self.shutdown();
                Ok(())
            },
            Command::ExecuteCommand => self.start_execute_command_prompt(),
            Command::EvalExpression => self.start_eval_expression_prompt(),
            Command::MoveLineStart => {
                self.navigate(NavigationAction::MoveLineStart);
                Ok(())
            },
            Command::MoveLineEnd => {
                self.navigate(NavigationAction::MoveLineEnd);
                Ok(())
            },
            Command::MoveBufferStart => {
                self.navigate(NavigationAction::MoveBufferStart);
                Ok(())
            },
            Command::MoveBufferEnd => {
                self.navigate(NavigationAction::MoveBufferEnd);
                Ok(())
            },
            _ => {
                let name = command.debug_text();
                self.show_info_message(concat_str("未実装のコマンド: ", name.as_str()));
                Ok(())
            },
        }
    }

    /// Carries out the command of `action`.
    pub fn handle_action(&mut self, action: Action) -> (r: Result<(), AltreError>)
        requires
            old(self).wf(),
        ensures
            final(self).wf(),
            r is Ok,
            command_outcome(*old(self), crate::input::keybinding::action_command(action), *final(self)),
            command_message(*old(self), crate::input::keybinding::action_command(action), *final(self)),
    {
        match action.to_command() {
            Some(command) => self.execute_command(command),
            None => {
                self.show_error_message(AltreError::Application(owned("アクションをコマンドに変換できませんでした")));
                Ok(())
            },
        }
    }
}

/// The minibuffer after a key that dismisses a message on display.
pub open spec fn after_message(m: StateView, k: crate::input::keybinding::Key) -> StateView {
    if m.mode is ErrorDisplay || m.mode is InfoDisplay {
        crate::minibuffer::key_step(m, k).0
    } else {
        m
    }
}

/// Where a key press goes.
#[derive(PartialEq, Eq, Structural)]
pub enum KeyRoute {
    /// The minibuffer prompt.
    Prompt,
    /// The running search.
    Search,
    /// Starting a search.
    StartSearch,
    /// `C-g`.
    Cancel,
    /// Escape.
    Escape,
    /// The key map.
    Keymap,
}

/// Whether `k` starts a search (`C-s`, `C-r`, either case).
pub open spec fn search_key(k: TermKey) -> bool {
    k.ctrl && (k.code == TermKeyCode::Char('s') || k.code == TermKeyCode::Char('S') || k.code == TermKeyCode::Char('r')
        || k.code == TermKeyCode::Char('R'))
}

/// Whether `k` is `C-g` with no other modifier.
pub open spec fn cancel_key(k: TermKey) -> bool {
    k.ctrl && !k.alt && !k.shift && k.code == TermKeyCode::Char('g')
}

/// Where a key press goes in the state `a`: to a prompt in use, to a
/// running search, to the search keys, to `C-g` and Escape, and otherwise
/// to the key map, in that order.
pub open spec fn key_route(a: App, k: TermKey) -> KeyRoute {
    let m = after_message(a.mini(), keys::editor_key(k));
    if !(m.mode is Inactive) {
        KeyRoute::Prompt
    } else if a.searching() {
        KeyRoute::Search
    } else if !a.prefix_pending() && search_key(k) {
        KeyRoute::StartSearch
    } else if cancel_key(k) {
        KeyRoute::Cancel
    } else if k.code == TermKeyCode::Esc {
        KeyRoute::Escape
    } else {
        KeyRoute::Keymap
    }
}

/// The request to open `p`.
pub open spec fn opens(r: Option<AppRequest>, p: Seq<char>) -> bool {
    match r {
        Some(AppRequest::OpenFile(x)) => x@ == p,
        _ => false,
    }
}

/// The request to save under `p`.
pub open spec fn saves_as(r: Option<AppRequest>, p: Seq<char>) -> bool {
    match r {
        Some(AppRequest::SaveFileAs(x)) => x@ == p,
        _ => false,
    }
}

/// What a key does to a prompt in use: file names are asked for, `M-x`
/// commands are announced, quitting stops the application.
pub open spec fn prompt_outcome(a0: App, k: TermKey, a1: App) -> bool {
    let (s1, rv) = crate::minibuffer::key_step(a0.mini(), keys::editor_key(k));
    let (resp, eff) = crate::minibuffer::system::result_outcome(rv);
    let m = crate::minibuffer::system::applied(s1, eff);
    &&& text_kept(a0, a1)
    &&& a1.kill_state() == a0.kill_state()
    &&& a1.mark_at() == a0.mark_at()
    &&& match resp {
        ResponseView::Open(p) => a1.live() == a0.live() && a1.mini() == m && opens(a1.pending(), p),
        ResponseView::SaveAs(p) => a1.live() == a0.live() && (a0.text().len() + 0x10000 <= MAX_BUFFER_CHARS ==> {
            &&& a1.mini() == m
            &&& saves_as(a1.pending(), p)
            &&& a1.file_buffer() is Some
            &&& a1.file_buffer()->Some_0.content@ == a0.text()
        }),
        ResponseView::Save => settles(a0, a1) && a1.mini() == with_info(m, "未実装のファイル操作です"@),
        ResponseView::ExecuteCommand(c) => settles(a0, a1) && a1.mini() == with_info(m, "コマンド実行: "@ + c),
        ResponseView::Quit => !a1.live() && a1.pending() == a0.pending() && a1.mini() == m,
        _ => settles(a0, a1) && a1.mini() == m,
    }
}

/// A cancelled search leaves the text and puts the cursor back where the
/// search started.
pub open spec fn search_cancelled(c0: SearchController, e0: TextEditor, e1: TextEditor) -> bool {
    &&& e1.text() == e0.text()
    &&& e1.cursor == (match c0.search_state().start_cursor {
        Some(c) => crate::buffer::editor::synced(CursorPosition { char_pos: c.char_pos, ..e0.cursor }, e0.text()),
        None => e0.cursor,
    })
}

/// What a key does to a running search: `C-s` and `C-r` go to the next or
/// previous match, `C-w` adds the word at the cursor, a plain character
/// extends the pattern, Backspace shortens it, Enter ends the search where
/// it stands and `C-g` or Escape cancel it.
pub open spec fn search_key_outcome(a0: App, k: TermKey, a1: App) -> bool {
    let c0 = a0.search_ctl();
    let e0 = a0.editor_state();
    let c1 = a1.search_ctl();
    let e1 = a1.editor_state();
    match k.code {
        TermKeyCode::Char(c) => if k.ctrl && (c == 's' || c == 'S') {
            crate::search::repeated(c0, e0, SearchDirection::Forward, c1, e1)
        } else if k.ctrl && (c == 'r' || c == 'R') {
            crate::search::repeated(c0, e0, SearchDirection::Backward, c1, e1)
        } else if k.ctrl && (c == 'w' || c == 'W') {
            crate::search::search_word_added(c0, e0, c1, e1)
        } else if k.ctrl && (c == 'g' || c == 'G') {
            !a1.searching() && search_cancelled(c0, e0, e1)
        } else if k.ctrl || k.alt {
            c1 == c0 && e1 == e0
        } else {
            crate::search::typed_in_search(c0, e0, c, c1, e1)
        },
        TermKeyCode::Backspace => crate::search::search_char_deleted(c0, e0, c1, e1),
        TermKeyCode::Enter => !a1.searching() && e1 == e0,
        TermKeyCode::Esc => !a1.searching() && search_cancelled(c0, e0, e1),
        _ => c1 == c0 && e1 == e0,
    }
}

impl App {
    /// The incremental search.
    pub closed spec fn search_ctl(&self) -> SearchController {
        self.search
    }

    /// The editor.
    pub closed spec fn editor_state(&self) -> TextEditor {
        self.editor
    }

    /// Whether a search runs.
    pub open spec fn searching(&self) -> bool {
        self.search_ctl().search_state().active
    }

    /// The key map.
    pub closed spec fn key_map(&self) -> crate::input::keybinding::ModernKeyMap {
        self.keymap
    }

    /// Whether a prefix key waits for the next key.
    pub open spec fn prefix_pending(&self) -> bool {
        self.key_map().state() != crate::input::keybinding::PartialMatchState::NoPrefix
    }

    /// What the key map does with `k` in this state.
    pub closed spec fn keymap_step(&self, k: crate::input::keybinding::Key) -> (
        KeyProcessResult,
        crate::input::keybinding::PartialMatchState,
    ) {
        crate::input::keybinding::key_step(self.keymap.single(), self.keymap.cx(), self.keymap.state(), k)
    }

    fn handle_search_key(&mut self, key: TermKey)
        requires
            old(self).wf(),
            old(self).searching(),
        ensures
            final(self).wf(),
            text_kept(*old(self), *final(self)),
            settles(*old(self), *final(self)),
            final(self).directory() == old(self).directory(),
            final(self).mini() == old(self).mini(),
            final(self).kill_state() == old(self).kill_state(),
            final(self).mark_at() == old(self).mark_at(),
            final(self).keymap == old(self).keymap,
            key.code == TermKeyCode::Enter || key.code == TermKeyCode::Esc || (key.ctrl && (key.code == TermKeyCode::Char('g')
                || key.code == TermKeyCode::Char('G'))) ==> !final(self).searching(),
            (key.code matches TermKeyCode::Char(_)) && !key.ctrl && !key.alt ==> final(self).searching(),
            search_key_outcome(*old(self), key, *final(self)),
    {
        let ctrl = key.ctrl;
        match key.code {
            TermKeyCode::Char(c) => {
                if ctrl && (c == 's' || c == 'S') {
                    self.search.repeat_forward(&mut self.editor);
                } else if ctrl && (c == 'r' || c == 'R') {
                    self.search.repeat_backward(&mut self.editor);
                } else if ctrl && (c == 'w' || c == 'W') {
                    self.search.add_word_at_cursor(&mut self.editor);
                } else if ctrl && (c == 'g' || c == 'G') {
                    self.search.cancel(&mut self.editor);
                } else if ctrl || key.alt {
                } else {
                    self.search.input_char(&mut self.editor, c);
                }
            },
            TermKeyCode::Enter => {
                self.search.accept();
            },
            TermKeyCode::Backspace => {
                self.search.delete_char(&mut self.editor);
            },
            TermKeyCode::Esc => {
                self.search.cancel(&mut self.editor);
            },
            _ => {},
        }
    }

    fn try_start_search(&mut self, key: &TermKey) -> (r: bool)
        requires
            old(self).wf(),
        ensures
            final(self).wf(),
            r == (!old(self).prefix_pending() && search_key(*key)),
            !r ==> *final(self) == *old(self),
            r ==> final(self).searching() && text_kept(*old(self), *final(self)) && settles(*old(self), *final(self))
                && final(self).directory() == old(self).directory() && final(self).mini() == old(self).mini()
                && final(self).kill_state() == old(self).kill_state() && final(self).mark_at() == old(self).mark_at(),
    {
        if self.keymap.is_partial_match() {
            return false;
        }
        if key.ctrl {
            match key.code {
                TermKeyCode::Char(c) => {
                    if c == 's' || c == 'S' {
                        self.keymap.reset_partial_match();
                        self.current_prefix = None;
                        self.search.start(&mut self.editor, SearchDirection::Forward);
                        return true;
                    } else if c == 'r' || c == 'R' {
                        self.keymap.reset_partial_match();
                        self.current_prefix = None;
                        self.search.start(&mut self.editor, SearchDirection::Backward);
                        return true;
                    }
                },
                _ => {},
            }
        }
        false
    }

    fn handle_special_keys(&mut self, key: &TermKey) -> (r: bool)
        requires
            old(self).wf(),
        ensures
            final(self).wf(),
            r == (cancel_key(*key) || key.code == TermKeyCode::Esc),
            !r ==> *final(self) == *old(self),
            r ==> !final(self).prefix_pending() && text_kept(*old(self), *final(self)) && settles(*old(self), *final(self))
                && final(self).directory() == old(self).directory(),
            cancel_key(*key) ==> final(self).mark_at() is None && final(self).kill_state() == KillContext::Other
                && final(self).mini() == with_info(old(self).mini(), "キャンセルしました"@),
            !cancel_key(*key) && key.code == TermKeyCode::Esc ==> final(self).mini() == old(self).mini()
                && final(self).mark_at() == old(self).mark_at() && final(self).kill_state() == old(self).kill_state(),
    {
        if cancel_key_of(key) {
            self.keymap.reset_partial_match();
            self.current_prefix = None;
            self.keyboard_quit();
            return true;
        }
        match key.code {
            TermKeyCode::Esc => {
                self.keymap.reset_partial_match();
                self.current_prefix = None;
                true
            },
            _ => false,
        }
    }

    fn handle_minibuffer_key(&mut self, key: TermKey) -> (r: Result<(), AltreError>)
        requires
            old(self).wf(),
        ensures
            final(self).wf(),
            r is Ok,
            final(self).directory() == old(self).directory(),
            prompt_outcome(*old(self), key, *final(self)),
    {
        let k = key.to_key();
        match self.minibuffer.handle_event(SystemEvent::KeyInput(k)) {
            Ok(SystemResponse::FileOperation(op)) => {
                match op {
                    FileOperation::Open(path) => {
                        let result = self.command_processor.open_file(path);
                        match result.file_request {
                            Some(FileRequest::Open { path }) => {
                                self.request = Some(AppRequest::OpenFile(path));
                            },
                            _ => {},
                        }
                    },
                    FileOperation::SaveAs(path) => {
                        let len = self.editor.buffer.len_chars();
                        if len > MAX_BUFFER_CHARS - 0x10000 {
                            self.show_error_text("保存エラー: バッファが大きすぎます");
                        } else {
                            let content = self.editor.to_string();
                            self.command_processor.sync_editor_content(content.as_str());
                            self.request = Some(AppRequest::SaveFileAs(path));
                        }
                    },
                    FileOperation::Save => {
                        self.show_info_message(owned("未実装のファイル操作です"));
                    },
                }
                Ok(())
            },
            Ok(SystemResponse::ExecuteCommand(cmd)) => {
                self.show_info_message(concat_str("コマンド実行: ", cmd.as_str()));
                Ok(())
            },
            Ok(SystemResponse::Quit) => {
                self.shutdown();
                Ok(())
            },
            Ok(_) => Ok(()),
            Err(err) => {
                let m = err.message();
                self.show_error_message(AltreError::Application(concat_str("ミニバッファエラー: ", m.as_str())));
                Ok(())
            },
        }
    }
}

fn cancel_key_of(key: &TermKey) -> (r: bool)
    ensures
        r == cancel_key(*key),
{
    key.ctrl && !key.alt && !key.shift && key.code == TermKeyCode::Char('g')
}

impl App {
    /// Handles a key press: a message on display is dismissed first; the
    /// key then goes where `key_route` sends it.
    pub fn handle_key_event(&mut self, key: TermKey) -> (r: Result<(), AltreError>)
        requires
            old(self).wf(),
        ensures
            final(self).wf(),
            r is Ok,
            final(self).directory() == old(self).directory(),
            ({
                let k = keys::editor_key(key);
                let m = after_message(old(self).mini(), k);
                match key_route(*old(self), key) {
                    KeyRoute::Prompt => prompt_outcome(*old(self), key, *final(self)),
                    KeyRoute::Search => text_kept(*old(self), *final(self)) && settles(*old(self), *final(self))
                        && final(self).mini() == m && search_key_outcome(*old(self), key, *final(self)),
                    KeyRoute::StartSearch => text_kept(*old(self), *final(self)) && settles(*old(self), *final(self))
                        && final(self).searching() && final(self).mini() == m,
                    KeyRoute::Cancel => text_kept(*old(self), *final(self)) && settles(*old(self), *final(self))
                        && !final(self).prefix_pending() && final(self).mark_at() is None && final(self).kill_state()
                        == KillContext::Other && final(self).mini() == with_info(m, "キャンセルしました"@),
                    KeyRoute::Escape => text_kept(*old(self), *final(self)) && settles(*old(self), *final(self))
                        && !final(self).prefix_pending() && final(self).mini() == m,
                    KeyRoute::Keymap => match old(self).keymap_step(k).0 {
                        KeyProcessResult::Action(a) => command_outcome_from(
                            *old(self),
                            crate::input::keybinding::action_command(a),
                            *final(self),
                            m,
                        ),
                        KeyProcessResult::PartialMatch => text_kept(*old(self), *final(self)) && settles(
                            *old(self),
                            *final(self),
                        ) && final(self).prefix_pending() == (old(self).keymap_step(k).1
                            != crate::input::keybinding::PartialMatchState::NoPrefix) && final(self).mini() == m,
                        KeyProcessResult::NoMatch => text_kept(*old(self), *final(self)) && if key.ctrl && key.code
                            == TermKeyCode::Char('c') {
                            !final(self).live()
                        } else {
                            settles(*old(self), *final(self)) && final(self).mini() == with_info(
                                m,
                                "未対応のキー: "@ + keys::key_description(key),
                            )
                        },
                    },
                }
            }),
    {
        let k = key.to_key();
        if self.minibuffer.is_message_displayed() {
            match self.minibuffer.handle_event(SystemEvent::KeyInput(k)) {
                Ok(_) => {},
                Err(err) => {
                    let m = err.message();
                    self.show_error_message(AltreError::Application(concat_str("ミニバッファの処理に失敗しました: ", m.as_str())));
                    return Ok(());
                },
            }
        }
        if self.minibuffer.is_active() {
            return self.handle_minibuffer_key(key);
        }
        if self.search.is_active() {
            self.handle_search_key(key);
            return Ok(());
        }
        if self.try_start_search(&key) {
            return Ok(());
        }
        if self.handle_special_keys(&key) {
            return Ok(());
        }
        let result = self.keymap.process_key(k);
        match result {
            KeyProcessResult::Action(action) => {
                self.current_prefix = None;
                let _ = self.handle_action(action);
            },
            KeyProcessResult::PartialMatch => {
                if self.keymap.is_partial_match() {
                    self.current_prefix = Some(owned("C-x"));
                } else {
                    self.current_prefix = None;
                }
            },
            KeyProcessResult::NoMatch => {
                if key.ctrl && key.code == TermKeyCode::Char('c') {
                    self.shutdown();
                } else {
                    let name = format_key_event(&key);
                    self.show_info_message(concat_str("未対応のキー: ", name.as_str()));
                }
            },
        }
        Ok(())
    }

    /// The periodic tick of the terminal loop.
    pub fn process_minibuffer_timer(&mut self)
        requires
            old(self).wf(),
        ensures
            final(self).wf(),
            final(self).mini() == old(self).mini(),
            text_kept(*old(self), *final(self)),
            settles(*old(self), *final(self)),
            final(self).directory() == old(self).directory(),
    {
        let _ = self.minibuffer.handle_event(SystemEvent::Update);
    }

    /// Hands out the file work asked for, leaving none.
    pub fn take_request(&mut self) -> (r: Option<AppRequest>)
        ensures
            r == old(self).pending(),
            final(self).pending() is None,
            final(self).wf() == old(self).wf(),
            final(self).text() == old(self).text(),
            final(self).mini() == old(self).mini(),
            final(self).live() == old(self).live(),
            final(self).file_buffer() == old(self).file_buffer(),
            final(self).directory() == old(self).directory(),
    {
        let r = self.request.take();
        r
    }

    /// Shows a file the terminal loop read (or a new file it set up) at
    /// `shown_path`: the editor gets its content with the cursor at the
    /// start and the view at the top.
    pub fn finish_open(&mut self, buffer: FileBuffer, shown_path: &str, created: bool)
        requires
            old(self).wf(),
            buffer.wf(),
            buffer.content@.len() + 0x10000 <= MAX_BUFFER_CHARS,
        ensures
            final(self).wf(),
            final(self).text() == buffer.content@,
            final(self).cursor_at().char_pos == 0,
            final(self).file_buffer() == Some(buffer),
            final(self).mini() == with_info(
                old(self).mini(),
                (if created { "新規ファイルを作成しました: "@ } else { "ファイルを開きました: "@ }) + shown_path@,
            ),
            final(self).ring() == old(self).ring(),
            final(self).mark_at() is None,
            settles(*old(self), *final(self)),
            final(self).directory() == old(self).directory(),
    {
        let content = buffer.content.clone();
        let result = self.command_processor.finish_open(buffer, shown_path, created);
        match result.message {
            Some(msg) => self.show_info_message(msg),
            None => {},
        }
        self.editor = TextEditor::from_str(content.as_str());
        self.viewport = ViewportState::new();
        self.recenter_step = 0;
        self.mark = None;
        self.ensure_cursor_visible();
    }

    /// Records that the terminal loop saved the buffer, under `saved_as`
    /// when it was saved under a new name, and says so with `shown_path`.
    pub fn finish_save(&mut self, saved_as: Option<std::path::PathBuf>, shown_path: &str)
        requires
            old(self).wf(),
        ensures
            final(self).wf(),
            text_kept(*old(self), *final(self)),
            settles(*old(self), *final(self)),
            final(self).directory() == old(self).directory(),
            old(self).file_buffer() is None ==> final(self).mini() == with_error(
                old(self).mini(),
                "Application error: "@ + "保存するバッファがありません"@,
            ),
            old(self).file_buffer() matches Some(b) ==> {
                &&& final(self).file_buffer() is Some
                &&& final(self).file_buffer()->Some_0.change_tracker.saved() == b.content@
                &&& final(self).mini() == with_info(
                    old(self).mini(),
                    (if saved_as is Some { "保存しました: "@ } else { "バッファを保存しました: "@ }) + shown_path@,
                )
            },
    {
        let renamed = saved_as.is_some();
        if self.command_processor.complete_save(saved_as) {
            if renamed {
                self.show_info_message(concat_str("保存しました: ", shown_path));
            } else {
                self.show_info_message(concat_str("バッファを保存しました: ", shown_path));
            }
        } else {
            self.show_error_message(AltreError::Application(owned("保存するバッファがありません")));
        }
    }

    /// Reports file work that failed with `message`.
    pub fn fail_request(&mut self, message: String)
        requires
            old(self).wf(),
        ensures
            final(self).wf(),
            text_kept(*old(self), *final(self)),
            settles(*old(self), *final(self)),
            final(self).directory() == old(self).directory(),
            final(self).mini() == with_error(old(self).mini(), altre_error_text(AltreError::Application(message))),
    {
        self.show_error_message(AltreError::Application(message));
    }
}

impl App {
    /// Whether another buffer can be made.
    pub closed spec fn can_add_buffer(&self) -> bool {
        self.buffer_manager.next() < usize::MAX
    }

    /// Makes a buffer for `file_path` and reports on the file: whether it
    /// `exists` is what the terminal loop found on disk. Reading it is not
    /// done here.
    pub fn open_file(&mut self, file_path: &str, exists: bool) -> (r: Result<(), AltreError>)
        requires
            old(self).wf(),
            old(self).can_add_buffer(),
        ensures
            final(self).wf(),
            r is Ok,
            final(self).buffer_open(),
            text_kept(*old(self), *final(self)),
            settles(*old(self), *final(self)),
            final(self).directory() == old(self).directory(),
            exists ==> final(self).mini() == with_info(old(self).mini(), "未実装: "@ + file_path@ + " の読み込み"@),
            !exists ==> final(self).mini() == with_error(
                old(self).mini(),
                "Application error: "@ + ("ファイルが存在しません: "@ + file_path@),
            ),
    {
        let _buffer_id = self.buffer_manager.create_buffer();
        if exists {
            let head = concat_str("未実装: ", file_path);
            self.show_info_message(concat_str(head.as_str(), " の読み込み"));
        } else {
            self.show_error_message(AltreError::Application(concat_str("ファイルが存在しません: ", file_path)));
        }
        Ok(())
    }
}

impl App {
    /// The typed file name to find candidates for, when the prompt wants
    /// them.
    pub fn completion_request(&self) -> (r: Option<String>)
        ensures
            r is Some <==> crate::minibuffer::wants_path_completion(self.mini()),
            r matches Some(t) ==> t@ == self.mini().input,
    {
        self.minibuffer.completion_request()
    }

    /// Offers the file-name candidates the terminal loop found.
    pub fn supply_completions(&mut self, candidates: Vec<String>)
        requires
            old(self).wf(),
        ensures
            final(self).wf(),
            final(self).mini() == crate::minibuffer::with_candidates(old(self).mini(), crate::collate::texts(candidates@)),
            text_kept(*old(self), *final(self)),
            settles(*old(self), *final(self)),
            final(self).directory() == old(self).directory(),
    {
        self.minibuffer.supply_completions(candidates);
    }
}

proof fn lemma_normalize_plain(s: Seq<char>)
    requires
        !s.contains('\r'),
    ensures
        crate::buffer::editor::normalize_newlines(s) == s,
    decreases s.len(),
{
    if s.len() > 0 {
        assert(!s.drop_first().contains('\r')) by {
            if s.drop_first().contains('\r') {
                let i = choose|i: int| 0 <= i < s.drop_first().len() && s.drop_first()[i] == '\r';
                assert(s[i + 1] == '\r');
            }
        }
        lemma_normalize_plain(s.drop_first());
        assert(s[0] != '\r') by {
            assert(s[0] == s[0]);
        }
        assert(seq![s[0]] + s.drop_first() =~= s);
    }
}

/// Killing a line and yanking at the same place gives the text back, when
/// the kill did not join an earlier one and the text holds no carriage
/// return (a yank writes `\r` as a newline).
pub proof fn law_kill_line_then_yank_restores(a0: App, a1: App, a2: App)
    requires
        a0.kill_state() != KillContext::Kill,
        a0.cursor_at().char_pos < a0.text().len(),
        !a0.text().contains('\r'),
        command_outcome(a0, Command::KillLine, a1),
        command_outcome(a1, Command::Yank, a2),
        a2.kill_state() == KillContext::Yank,
    ensures
        a2.text() == a0.text(),
{
    let t0 = a0.text();
    let p = a0.cursor_at().char_pos as int;
    let end = crate::buffer::editor::kill_line_end(t0, p);
    crate::buffer::editor::lemma_skip_bounds(t0, p);
    let killed = t0.subrange(p, end);
    assert(a1.ring()[0] == killed);
    assert(!killed.contains('\r')) by {
        if killed.contains('\r') {
            let i = choose|i: int| 0 <= i < killed.len() && killed[i] == '\r';
            assert(t0[p + i] == '\r');
        }
    }
    lemma_normalize_plain(killed);
    let t1 = a1.text();
    assert(t1.take(p) =~= t0.take(p));
    assert(t1.skip(p) =~= t0.skip(end));
    assert(t0.take(p) + killed + t0.skip(end) =~= t0);
}

} // verus!

