//! The buffered editor: typed input collects in an input buffer and reaches
//! the text in batches; every other edit flushes it first.
use crate::buffer::cursor::CursorPosition;
use crate::buffer::editor::{
    after_typing, clamped, lemma_normalize_len, lemma_walk_bounds, normalize_newlines, range_adjusted, room_for, synced,
    valid_input_char, walk, ChangeListener, EditOperations, TextEditor as BaseTextEditor,
};
use crate::buffer::navigation::{NavigationAction, NavigationError, NavigationSystem};
use crate::editor::input_buffer::{InputBuffer, InputBufferStats};
use crate::error::{AltreError, EditError, Result};
use crate::text::{chars_of, concat_str, utf8_len, utf8_len_of, MAX_TEXT_CHARS};
use crate::time::instant_now;
use std::time::Instant;
use vstd::prelude::*;

verus! {

/// Editor with input buffering.
pub struct TextEditor {
    pub base_editor: BaseTextEditor,
    pub input_buffer: InputBuffer,
    pub last_operation_time: Instant,
}

/// The text after `p` is typed at cursor `c` of text `t`.
pub open spec fn typed_into(t: Seq<char>, c: CursorPosition, p: Seq<char>) -> Seq<char> {
    t.take(c.char_pos as int) + normalize_newlines(p) + t.skip(c.char_pos as int)
}

/// The cursor after `p` is typed at cursor `c`.
pub open spec fn typed_cursor(c: CursorPosition, p: Seq<char>) -> CursorPosition {
    let n = normalize_newlines(p);
    let w = walk(c.line as int, c.column as int, n);
    CursorPosition { char_pos: (c.char_pos + n.len()) as usize, line: w.0 as usize, column: w.1 as usize }
}

/// The text once the pending input of `e` is moved into it.
pub open spec fn flushed_text(e: TextEditor) -> Seq<char> {
    if e.pending().len() == 0 {
        e.text()
    } else {
        typed_into(e.text(), e.base_editor.cursor, e.pending())
    }
}

/// The cursor once the pending input of `e` is moved into the text.
pub open spec fn flushed_cursor(e: TextEditor) -> CursorPosition {
    if e.pending().len() == 0 {
        e.base_editor.cursor
    } else {
        typed_cursor(e.base_editor.cursor, e.pending())
    }
}

/// Moving the pending input of `e` into the text cannot fail: nothing is
/// pending, or the cursor lies in the text and the text has room.
pub open spec fn flush_owed(e: TextEditor) -> bool {
    ||| e.pending().len() == 0
    ||| e.base_editor.cursor.char_pos <= e.text().len() && crate::buffer::editor::room_for(
        e.text(),
        e.pending().len() as int,
    )
}

/// A failed edit that flushes first leaves the old text or the flushed one.
pub open spec fn failed_after_flush(e0: TextEditor, e1: TextEditor) -> bool {
    e1.text() == e0.text() || e1.text() == flushed_text(e0)
}

/// Backspace after a flush: the character before the flushed cursor is
/// removed and returned, and the cursor steps back over it.
pub open spec fn backspaced(e0: TextEditor, r: Result<char>, e1: TextEditor) -> bool {
    let t = flushed_text(e0);
    let c = flushed_cursor(e0);
    &&& r is Ok ==> e1.text() == t.remove(c.char_pos - 1) && e1.base_editor.cursor.char_pos == c.char_pos - 1
    &&& r is Err ==> failed_after_flush(e0, e1)
    &&& flush_owed(e0) && 0 < c.char_pos <= t.len() ==> r == Ok::<char, AltreError>(t[c.char_pos - 1])
    &&& c.char_pos == 0 ==> r is Err
}

/// Delete after a flush: the character at the flushed cursor is removed and
/// returned; the cursor stays.
pub open spec fn forward_deleted(e0: TextEditor, r: Result<char>, e1: TextEditor) -> bool {
    let t = flushed_text(e0);
    let c = flushed_cursor(e0);
    &&& r matches Ok(ch) ==> c.char_pos < t.len() && ch == t[c.char_pos as int] && e1.text() == t.remove(
        c.char_pos as int,
    ) && e1.base_editor.cursor == c
    &&& r is Err ==> failed_after_flush(e0, e1)
    &&& flush_owed(e0) && c.char_pos < t.len() ==> r is Ok
    &&& c.char_pos >= t.len() ==> r is Err
}

/// Typed input `p` was either kept pending, the text unchanged, or moved
/// into the text (which is owed when the cursor lies in the text and the
/// text has room), leaving nothing pending.
pub open spec fn buffered_or_flushed(e0: TextEditor, p: Seq<char>, e1: TextEditor, r: Result<()>) -> bool {
    let t0 = e0.text();
    let c0 = e0.base_editor.cursor;
    ||| r is Ok && e1.pending() == p && e1.text() == t0
    ||| {
        &&& e1.pending() == Seq::<char>::empty()
        &&& r is Ok ==> e1.text() == (if p.len() == 0 {
            t0
        } else {
            typed_into(t0, c0, p)
        })
        &&& r is Err ==> e1.text() == t0
        &&& c0.char_pos <= t0.len() && crate::buffer::editor::room_for(t0, p.len() as int) ==> r is Ok
    }
}

impl TextEditor {
    /// Both parts are well formed.
    pub open spec fn wf(&self) -> bool {
        &&& self.base_editor.wf()
        &&& self.input_buffer.wf()
    }

    /// The text of the editor (without pending input).
    pub open spec fn text(&self) -> Seq<char> {
        self.base_editor.text()
    }

    /// Pending input.
    pub open spec fn pending(&self) -> Seq<char> {
        self.input_buffer.pending()
    }

    /// The cursor can advance over the pending input and `n` more
    /// characters.
    pub open spec fn room(&self, n: nat) -> bool {
        &&& self.wf()
        &&& self.base_editor.cursor.line + self.pending().len() + n <= usize::MAX
        &&& self.base_editor.cursor.column + self.pending().len() + n <= usize::MAX
    }

    /// An empty editor.
    pub fn new() -> (r: Self)
        ensures
            r.wf(),
            r.text() == Seq::<char>::empty(),
            r.pending() == Seq::<char>::empty(),
    {
        Self {
            base_editor: BaseTextEditor::new(),
            input_buffer: InputBuffer::new(),
            last_operation_time: instant_now(),
        }
    }

    /// An editor holding `s`.
    pub fn from_str(s: &str) -> (r: Self)
        requires
            s@.len() + 0x10000 <= crate::buffer::gap_buffer::MAX_BUFFER_CHARS,
        ensures
            r.wf(),
            r.text() == s@,
            r.pending() == Seq::<char>::empty(),
    {
        Self {
            base_editor: BaseTextEditor::from_str(s),
            input_buffer: InputBuffer::new(),
            last_operation_time: instant_now(),
        }
    }

    /// Buffers a typed character; the buffer is flushed into the text when
    /// it is due or half full.
    pub fn buffer_input_char(&mut self, ch: char) -> (r: Result<()>)
        requires
            old(self).room(1),
        ensures
            final(self).wf(),
            utf8_len(old(self).pending()) + crate::text::utf8_width(ch) > old(self).input_buffer.max_size() ==> r is Err
                && final(self).text() == old(self).text() && final(self).pending() == old(self).pending(),
            utf8_len(old(self).pending()) + crate::text::utf8_width(ch) <= old(self).input_buffer.max_size()
                ==> buffered_or_flushed(*old(self), old(self).pending().push(ch), *final(self), r),
            utf8_len(old(self).pending()) + crate::text::utf8_width(ch) <= old(self).input_buffer.max_size() && utf8_len(
                old(self).pending(),
            ) + crate::text::utf8_width(ch) >= old(self).input_buffer.max_size() / 2 ==> final(self).pending()
                == Seq::<char>::empty(),
    {
        self.start_performance_measurement();
        proof {
            assert(old(self).pending().push(ch).drop_last() =~= old(self).pending());
        }
        match self.input_buffer.add_char(ch) {
            Ok(()) => {},
            Err(e) => {
                return Err(input_error(&e.message()));
            },
        }
        if self.input_buffer.should_flush() || self.input_buffer.should_force_flush() {
            self.flush_input_buffer()?;
        }
        Ok(())
    }

    /// Buffers a typed string; a string longer than half the buffer goes
    /// straight into the text.
    pub fn buffer_input_str(&mut self, s: &str) -> (r: Result<()>)
        requires
            old(self).room(s@.len()),
        ensures
            final(self).wf(),
            utf8_len(s@) > old(self).input_buffer.max_size() / 2 ==> {
                &&& final(self).pending() == old(self).pending()
                &&& r is Ok ==> final(self).text() == typed_into(old(self).text(), old(self).base_editor.cursor, s@)
                &&& r is Err ==> final(self).text() == old(self).text()
                &&& old(self).base_editor.cursor.char_pos <= old(self).text().len() && crate::buffer::editor::room_for(
                    old(self).text(),
                    s@.len() as int,
                ) ==> r is Ok
            },
            utf8_len(s@) <= old(self).input_buffer.max_size() / 2 && utf8_len(old(self).pending()) + utf8_len(s@)
                > old(self).input_buffer.max_size() ==> r is Err && final(self).text() == old(self).text()
                && final(self).pending() == old(self).pending(),
            utf8_len(s@) <= old(self).input_buffer.max_size() / 2 && utf8_len(old(self).pending()) + utf8_len(s@)
                <= old(self).input_buffer.max_size() ==> buffered_or_flushed(*old(self), old(self).pending() + s@, *final(self), r),
    {
        self.start_performance_measurement();
        let chars = chars_of(s);
        let bytes = match utf8_len_of(&chars) {
            Some(n) => n,
            None => usize::MAX,
        };
        let stats = self.input_buffer.stats();
        if bytes > stats.max_size / 2 {
            self.base_editor.insert_str(s)?;
        } else {
            match self.input_buffer.add_str(s) {
                Ok(()) => {},
                Err(e) => {
                    return Err(input_error(&e.message()));
                },
            }
            if self.input_buffer.should_flush() || self.input_buffer.should_force_flush() {
                self.flush_input_buffer()?;
            }
        }
        Ok(())
    }

    /// Moves pending input into the text.
    pub fn flush_input_buffer(&mut self) -> (r: Result<()>)
        requires
            old(self).room(0),
        ensures
            final(self).wf(),
            final(self).pending() == Seq::<char>::empty(),
            old(self).pending().len() == 0 ==> r is Ok && final(self).text() == old(self).text()
                && final(self).base_editor.cursor == old(self).base_editor.cursor,
            r is Ok && old(self).pending().len() > 0 ==> final(self).text() == typed_into(
                old(self).text(),
                old(self).base_editor.cursor,
                old(self).pending(),
            ),
            r is Ok ==> final(self).text() == flushed_text(*old(self)) && final(self).base_editor.cursor
                == flushed_cursor(*old(self)),
            r is Err ==> final(self).text() == old(self).text() && final(self).base_editor.cursor == clamped(
                old(self).base_editor.cursor,
                old(self).text(),
            ),
            flush_owed(*old(self)) ==> r is Ok,
            final(self).base_editor.cursor.line <= old(self).base_editor.cursor.line + old(self).pending().len(),
            final(self).base_editor.cursor.column <= old(self).base_editor.cursor.column + old(self).pending().len(),
    {
        let pending = self.input_buffer.flush();
        proof {
            lemma_normalize_len(pending@);
            lemma_walk_bounds(
                self.base_editor.cursor.line as int,
                self.base_editor.cursor.column as int,
                normalize_newlines(pending@),
            );
        }
        if !pending.as_str().is_empty() {
            self.base_editor.insert_str(pending.as_str())?;
        }
        Ok(())
    }

    /// Sets the input timeout (ms) and size (bytes).
    pub fn update_input_buffer_config(&mut self, timeout_ms: u64, max_size: usize)
        requires
            old(self).wf(),
        ensures
            final(self).wf(),
            final(self).text() == old(self).text(),
            final(self).input_buffer.max_size() == max_size,
            final(self).input_buffer.timeout_ms() == timeout_ms,
    {
        self.input_buffer.update_config(timeout_ms, max_size);
    }

    /// Inserts a character directly.
    pub fn fast_insert_char(&mut self, ch: char) -> (r: Result<()>)
        requires
            old(self).room(1),
        ensures
            final(self).wf(),
            final(self).pending() == old(self).pending(),
            r is Ok ==> final(self).text() == old(self).text().insert(old(self).base_editor.cursor.char_pos as int, ch),
            r is Err ==> final(self).text() == old(self).text(),
    {
        self.start_performance_measurement();
        let result = self.base_editor.insert_char(ch);
        self.end_performance_measurement();
        result
    }

    /// Inserts a string directly.
    pub fn insert_string_optimized(&mut self, s: &str) -> (r: Result<()>)
        requires
            old(self).room(s@.len()),
        ensures
            final(self).wf(),
            final(self).pending() == old(self).pending(),
            r is Ok && s@.len() > 0 ==> final(self).text() == typed_into(old(self).text(), old(self).base_editor.cursor, s@),
            r is Err || s@.len() == 0 ==> final(self).text() == old(self).text(),
    {
        self.start_performance_measurement();
        let result = self.base_editor.insert_str(s);
        self.end_performance_measurement();
        result
    }

    /// Flushes, then deletes the character before the cursor.
    pub fn safe_delete_backward(&mut self) -> (r: Result<char>)
        requires
            old(self).room(0),
        ensures
            final(self).wf(),
            final(self).pending() == Seq::<char>::empty(),
            backspaced(*old(self), r, *final(self)),
    {
        self.start_performance_measurement();
        self.flush_input_buffer()?;
        let result = self.base_editor.delete_backward();
        self.end_performance_measurement();
        result
    }

    /// Flushes, then deletes the character at the cursor.
    pub fn safe_delete_forward(&mut self) -> (r: Result<char>)
        requires
            old(self).room(0),
        ensures
            final(self).wf(),
            final(self).pending() == Seq::<char>::empty(),
            forward_deleted(*old(self), r, *final(self)),
    {
        self.start_performance_measurement();
        self.flush_input_buffer()?;
        let result = self.base_editor.delete_forward();
        self.end_performance_measurement();
        result
    }

    /// The underlying editor.
    pub fn base_editor(&self) -> (r: &BaseTextEditor)
        ensures
            *r == self.base_editor,
    {
        &self.base_editor
    }

    /// The underlying editor, for changes.
    pub fn base_editor_mut(&mut self) -> (r: &mut BaseTextEditor)
        ensures
            *r == old(self).base_editor,
            final(self).base_editor == *final(r),
    {
        &mut self.base_editor
    }

    /// Statistics of the input buffer.
    pub fn input_buffer_stats(&self) -> (r: InputBufferStats)
        requires
            self.wf(),
        ensures
            r.current_size == utf8_len(self.pending()),
            r.max_size == self.input_buffer.max_size(),
    {
        self.input_buffer.stats()
    }

    fn start_performance_measurement(&mut self)
        ensures
            final(self).base_editor == old(self).base_editor,
            final(self).input_buffer == old(self).input_buffer,
    {
        self.last_operation_time = instant_now();
    }

    /// Whether the operation since the last measurement took over 1 ms.
    fn end_performance_measurement(&self) -> (slow: bool) {
        crate::time::elapsed_nanos(&self.last_operation_time) / crate::time::NANOS_PER_MILLI > 1
    }

    /// Whether input is pending.
    pub fn has_pending_input(&self) -> (r: bool)
        ensures
            r == (self.pending().len() > 0),
    {
        !self.input_buffer.is_empty()
    }

    /// Flushes the pending input when it is due.
    pub fn update(&mut self) -> (r: Result<()>)
        requires
            old(self).room(0),
        ensures
            final(self).wf(),
            final(self).pending() == old(self).pending() || final(self).pending() == Seq::<char>::empty(),
    {
        if self.input_buffer.should_flush() {
            self.flush_input_buffer()?;
        }
        Ok(())
    }

    /// The text as a string (without pending input).
    pub fn to_string(&self) -> (r: String)
        requires
            self.wf(),
        ensures
            r@ == self.text(),
    {
        self.base_editor.to_string()
    }

    /// The cursor.
    pub fn cursor(&self) -> (r: &CursorPosition)
        ensures
            *r == self.base_editor.cursor,
    {
        self.base_editor.cursor()
    }

    /// Flushes, then places the cursor (clamped into the text).
    pub fn set_cursor(&mut self, position: CursorPosition)
        requires
            old(self).room(0),
        ensures
            final(self).wf(),
            final(self).pending() == Seq::<char>::empty(),
            final(self).base_editor.cursor == clamped(position, final(self).text()),
    {
        let _ = self.flush_input_buffer();
        self.base_editor.set_cursor(position);
    }

    /// Registers a change listener.
    pub fn add_change_listener(&mut self, listener: Box<dyn ChangeListener>)
        ensures
            final(self).base_editor.buffer == old(self).base_editor.buffer,
            final(self).input_buffer == old(self).input_buffer,
    {
        self.base_editor.add_change_listener(listener);
    }

    /// Flushes, then runs a navigation command.
    pub fn navigate(&mut self, action: NavigationAction) -> (r: core::result::Result<bool, NavigationError>)
        requires
            old(self).room(0),
            old(self).text().len() <= MAX_TEXT_CHARS,
            action == NavigationAction::MoveCharForward ==> old(self).base_editor.cursor.line + old(self).pending().len() < usize::MAX
                && old(self).base_editor.cursor.column + old(self).pending().len() < usize::MAX,
            action == NavigationAction::MoveCharBackward ==> old(self).base_editor.cursor.char_pos + normalize_newlines(old(self).pending()).len() <= old(self).text().len() + normalize_newlines(old(self).pending()).len(),
        ensures
            final(self).wf(),
            final(self).pending() == Seq::<char>::empty(),
            failed_after_flush(*old(self), *final(self)),
            flush_owed(*old(self)) ==> final(self).text() == flushed_text(*old(self)) && (exists|nav: NavigationSystem|
                #![trigger NavigationSystem::dispatch_outcome(nav, flushed_text(*old(self)), action)]
                nav.cursor == flushed_cursor(*old(self)) && (r matches Ok(b) ==> NavigationSystem::dispatch_outcome(
                    nav,
                    flushed_text(*old(self)),
                    action,
                ) == Some(b)) && (r == Ok::<bool, NavigationError>(true) ==> final(self).base_editor.cursor
                    == NavigationSystem::dispatch_state(nav, flushed_text(*old(self)), action).0)),
            flush_owed(*old(self)) && r != Ok::<bool, NavigationError>(true) ==> final(self).base_editor.cursor
                == flushed_cursor(*old(self)),
    {
        let _ = self.flush_input_buffer();
        let ghost nav = NavigationSystem { cursor: self.base_editor.cursor, ..self.base_editor.navigation };
        let text_ok = self.base_editor.buffer.len_chars() <= MAX_TEXT_CHARS;
        let c = self.base_editor.cursor;
        let len = self.base_editor.buffer.len_chars();
        if !text_ok || (action == NavigationAction::MoveCharForward && c.char_pos < len && (c.line == usize::MAX || c.column == usize::MAX))
            || (action == NavigationAction::MoveCharBackward && c.char_pos > len) {
            return Err(NavigationError::InvalidPosition(c.char_pos));
        }
        let r = self.base_editor.navigate(action);
        proof {
            if flush_owed(*old(self)) {
                assert(NavigationSystem::dispatch_outcome(nav, flushed_text(*old(self)), action)
                    == NavigationSystem::dispatch_outcome(nav, flushed_text(*old(self)), action));
            }
        }
        r
    }
}

/// The application error for a failed input-buffer operation.
fn input_error(message: &String) -> (e: AltreError)
    ensures
        e matches AltreError::Edit(m) && m@ == "Buffer operation failed: "@ + "入力バッファエラー: "@ + message@,
{
    let detail = concat_str("入力バッファエラー: ", message.as_str());
    AltreError::from_edit(EditError::BufferError(detail))
}

impl EditOperations for TextEditor {
    open spec fn can_edit(&self) -> bool {
        self.room(0)
    }

    open spec fn can_grow(&self, n: nat) -> bool {
        self.room(n)
    }

    /// Flushes, then inserts a character.
    fn insert_char(&mut self, ch: char) -> (r: Result<()>)
        ensures
            final(self).wf(),
            final(self).pending() == Seq::<char>::empty(),
            r is Ok ==> final(self).text() == flushed_text(*old(self)).insert(flushed_cursor(*old(self)).char_pos as int, ch)
                && final(self).base_editor.cursor == after_typing(flushed_cursor(*old(self)), ch),
            r is Err ==> failed_after_flush(*old(self), *final(self)),
            !valid_input_char(ch) ==> r is Err,
            flush_owed(*old(self)) && valid_input_char(ch) && flushed_cursor(*old(self)).char_pos <= flushed_text(*old(self)).len()
                && room_for(flushed_text(*old(self)), 1) ==> r is Ok,
    {
        self.flush_input_buffer()?;
        self.base_editor.insert_char(ch)
    }

    /// Flushes, then inserts a string.
    fn insert_str(&mut self, s: &str) -> (r: Result<()>)
        ensures
            final(self).wf(),
            final(self).pending() == Seq::<char>::empty(),
            r is Ok && s@.len() == 0 ==> final(self).text() == flushed_text(*old(self))
                && final(self).base_editor.cursor == flushed_cursor(*old(self)),
            r is Ok && s@.len() > 0 ==> final(self).text() == typed_into(flushed_text(*old(self)), flushed_cursor(*old(self)), s@)
                && final(self).base_editor.cursor == typed_cursor(flushed_cursor(*old(self)), s@),
            r is Err ==> failed_after_flush(*old(self), *final(self)),
            flush_owed(*old(self)) && (s@.len() == 0 || flushed_cursor(*old(self)).char_pos <= flushed_text(*old(self)).len()
                && room_for(flushed_text(*old(self)), s@.len() as int)) ==> r is Ok,
    {
        self.flush_input_buffer()?;
        self.base_editor.insert_str(s)
    }

    /// Flushes, then inserts a character.
    fn insert_char_at_cursor(&mut self, ch: char) -> (r: Result<()>)
        ensures
            final(self).wf(),
            final(self).pending() == Seq::<char>::empty(),
            r is Ok ==> final(self).text() == flushed_text(*old(self)).insert(flushed_cursor(*old(self)).char_pos as int, ch)
                && final(self).base_editor.cursor == after_typing(flushed_cursor(*old(self)), ch),
            r is Err ==> failed_after_flush(*old(self), *final(self)),
            !valid_input_char(ch) ==> r is Err,
            flush_owed(*old(self)) && valid_input_char(ch) && flushed_cursor(*old(self)).char_pos <= flushed_text(*old(self)).len()
                && room_for(flushed_text(*old(self)), 1) ==> r is Ok,
    {
        self.flush_input_buffer()?;
        self.base_editor.insert_char_at_cursor(ch)
    }

    /// Flushes, then deletes the character before the cursor.
    fn delete_backward(&mut self) -> (r: Result<char>)
        ensures
            final(self).wf(),
            final(self).pending() == Seq::<char>::empty(),
            backspaced(*old(self), r, *final(self)),
    {
        self.safe_delete_backward()
    }

    /// Flushes, then deletes the character at the cursor.
    fn delete_forward(&mut self) -> (r: Result<char>)
        ensures
            final(self).wf(),
            final(self).pending() == Seq::<char>::empty(),
            forward_deleted(*old(self), r, *final(self)),
    {
        self.safe_delete_forward()
    }

    /// Flushes, then inserts a newline.
    fn insert_newline(&mut self) -> (r: Result<()>)
        ensures
            final(self).wf(),
            final(self).pending() == Seq::<char>::empty(),
            r is Ok ==> final(self).text() == flushed_text(*old(self)).insert(flushed_cursor(*old(self)).char_pos as int, '\n')
                && final(self).base_editor.cursor == after_typing(flushed_cursor(*old(self)), '\n'),
            r is Err ==> failed_after_flush(*old(self), *final(self)),
            flush_owed(*old(self)) && flushed_cursor(*old(self)).char_pos <= flushed_text(*old(self)).len()
                && room_for(flushed_text(*old(self)), 1) ==> r is Ok,
    {
        self.flush_input_buffer()?;
        self.base_editor.insert_newline()
    }

    /// Flushes, then deletes `start..end`.
    fn delete_range(&mut self, start: usize, end: usize) -> (r: Result<String>)
        ensures
            final(self).wf(),
            final(self).pending() == Seq::<char>::empty(),
            ({
                let t = flushed_text(*old(self));
                let c = flushed_cursor(*old(self));
                &&& r matches Ok(d) ==> d@ == t.subrange(start as int, end as int) && start <= end <= t.len()
                    && final(self).text() == t.take(start as int) + t.skip(end as int)
                    && final(self).base_editor.cursor == synced(
                        c.with_pos(range_adjusted(c.char_pos, start, end)),
                        final(self).text(),
                    )
                &&& r is Err ==> failed_after_flush(*old(self), *final(self))
                &&& flush_owed(*old(self)) && start <= end <= t.len() ==> r is Ok
                &&& start > end ==> r is Err
            }),
    {
        self.flush_input_buffer()?;
        self.base_editor.delete_range(start, end)
    }
}

impl Default for TextEditor {
    fn default() -> (r: Self)
        ensures
            r.wf(),
            r.text() == Seq::<char>::empty(),
    {
        Self::new()
    }
}

} // verus!
