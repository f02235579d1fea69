//! Edit operations as values, the engine that applies them to a buffer, and
//! a history of applied operations.
use crate::buffer::cursor::{cursor_after, movement_allowed, CursorMovement, CursorMover, CursorPosition};
use crate::buffer::editor::walk;
use crate::buffer::gap_buffer::{MAX_BUFFER_CHARS, MAX_GAP_CAPACITY, MIN_GAP_RESERVE};
use crate::buffer::Buffer;
use crate::text::{chars_of, owned};
use vstd::prelude::*;

verus! {

/// An edit of a buffer.
#[derive(Debug, Clone)]
pub enum EditOperation {
    InsertChar { pos: usize, ch: char },
    InsertString { pos: usize, text: String },
    DeleteChar { pos: usize },
    DeleteRange { start: usize, end: usize },
    MoveCursor { movement: CursorMovement },
}

/// The outcome of applying an edit.
#[derive(Debug)]
pub struct EditResult {
    pub success: bool,
    pub error_message: Option<String>,
    pub cursor_moved: bool,
    pub text_changed: bool,
}

/// `r` reports success with the given flags.
pub open spec fn succeeded(r: EditResult, cursor_moved: bool, text_changed: bool) -> bool {
    &&& r.success
    &&& r.error_message is None
    &&& r.cursor_moved == cursor_moved
    &&& r.text_changed == text_changed
}

/// `r` reports failure with message `m`.
pub open spec fn failed(r: EditResult, m: Seq<char>) -> bool {
    &&& !r.success
    &&& r.error_message matches Some(e) && e@ == m
    &&& !r.cursor_moved
    &&& !r.text_changed
}

impl EditResult {
    /// A successful outcome.
    pub fn success(cursor_moved: bool, text_changed: bool) -> (r: Self)
        ensures
            succeeded(r, cursor_moved, text_changed),
    {
        Self { success: true, error_message: None, cursor_moved, text_changed }
    }

    /// A failed outcome with message `error`.
    pub fn failure(error: &str) -> (r: Self)
        ensures
            failed(r, error@),
    {
        Self { success: false, error_message: Some(owned(error)), cursor_moved: false, text_changed: false }
    }
}

/// The cursor at position `p` of `t`, with line and column counted over the
/// characters before it (all of `t` when `p` is past its end).
pub open spec fn placed_cursor(t: Seq<char>, p: usize) -> CursorPosition {
    let lc = walk(0, 0, t.take(if p <= t.len() { p as int } else { t.len() as int }));
    CursorPosition { char_pos: p, line: lc.0 as usize, column: lc.1 as usize }
}

/// The storage can take `n` more characters.
pub open spec fn storage_room(t: Seq<char>, n: int) -> bool {
    t.len() + n + MAX_GAP_CAPACITY + MIN_GAP_RESERVE <= MAX_BUFFER_CHARS
}

/// The message of a failed storage operation.
pub open spec fn storage_failure() -> Seq<char> {
    "Buffer operation failed"@
}

/// What applying `op` must do, given the buffer before (`b0`) and after
/// (`b1`) and the outcome `r`. A text edit moves the cursor to the edit
/// point and marks the buffer modified; a refused edit changes nothing.
pub open spec fn applied(b0: Buffer, op: EditOperation, b1: Buffer, r: EditResult) -> bool {
    let t = b0.content@;
    let unchanged = b1.content@ == t && b1.cursor == b0.cursor && b1.modified == b0.modified;
    match op {
        EditOperation::InsertChar { pos, ch } => {
            &&& pos > t.len() ==> failed(r, storage_failure()) && unchanged
            &&& pos <= t.len() && storage_room(t, 1) ==> r.success
            &&& r.success ==> succeeded(r, true, true) && b1.content@ == t.insert(pos as int, ch)
                && b1.cursor == placed_cursor(b1.content@, (pos + 1) as usize) && b1.modified
            &&& !r.success ==> failed(r, storage_failure()) && unchanged
        },
        EditOperation::InsertString { pos, text } => {
            &&& pos > t.len() ==> failed(r, storage_failure()) && unchanged
            &&& pos <= t.len() && storage_room(t, text@.len() as int) ==> r.success
            &&& r.success ==> succeeded(r, true, true) && b1.content@ == t.take(pos as int) + text@
                + t.skip(pos as int) && b1.cursor == placed_cursor(
                b1.content@,
                (pos + text@.len()) as usize,
            ) && b1.modified
            &&& !r.success ==> failed(r, storage_failure()) && unchanged
        },
        EditOperation::DeleteChar { pos } => if pos >= t.len() {
            failed(r, "削除位置が範囲外です"@) && unchanged
        } else {
            &&& succeeded(r, true, true)
            &&& b1.content@ == t.remove(pos as int)
            &&& b1.cursor == placed_cursor(b1.content@, pos)
            &&& b1.modified
        },
        EditOperation::DeleteRange { start, end } => if start >= end {
            failed(r, "無効な削除範囲です"@) && unchanged
        } else if end > t.len() {
            failed(r, "削除範囲が範囲外です"@) && unchanged
        } else {
            &&& succeeded(r, true, true)
            &&& b1.content@ == t.take(start as int) + t.skip(end as int)
            &&& b1.cursor == placed_cursor(b1.content@, start)
            &&& b1.modified
        },
        EditOperation::MoveCursor { movement } => {
            let (c, moved) = cursor_after(b0.cursor, t, movement);
            &&& b1.content@ == t
            &&& b1.modified == b0.modified
            &&& succeeded(r, moved, false)
            &&& b1.cursor == (if moved { c } else { b0.cursor })
        },
    }
}

/// A movement operation must be one the cursor can make over the text.
pub open spec fn operation_allowed(b: Buffer, op: EditOperation) -> bool {
    match op {
        EditOperation::MoveCursor { movement } => movement_allowed(b.cursor, b.content@, movement),
        _ => true,
    }
}

/// Applies edit operations to buffers.
pub struct EditEngine;

impl EditEngine {
    /// Applies `operation` to `buffer`.
    pub fn apply_operation(buffer: &mut Buffer, operation: EditOperation) -> (r: EditResult)
        requires
            old(buffer).wf(),
            operation_allowed(*old(buffer), operation),
        ensures
            final(buffer).wf(),
            final(buffer).file_path == old(buffer).file_path,
            applied(*old(buffer), operation, *final(buffer), r),
    {
        match operation {
            EditOperation::InsertChar { pos, ch } => Self::insert_char(buffer, pos, ch),
            EditOperation::InsertString { pos, text } => Self::insert_string(buffer, pos, &text),
            EditOperation::DeleteChar { pos } => Self::delete_char(buffer, pos),
            EditOperation::DeleteRange { start, end } => Self::delete_range(buffer, start, end),
            EditOperation::MoveCursor { movement } => Self::move_cursor(buffer, movement),
        }
    }

    fn insert_char(buffer: &mut Buffer, pos: usize, ch: char) -> (r: EditResult)
        requires
            old(buffer).wf(),
        ensures
            final(buffer).wf(),
            final(buffer).file_path == old(buffer).file_path,
            applied(*old(buffer), EditOperation::InsertChar { pos, ch }, *final(buffer), r),
    {
        match buffer.content.insert(pos, ch) {
            Ok(()) => {
                proof {
                    buffer.content.lemma_len_bound();
                }
                buffer.set_modified(true);
                let text = buffer.content.get_text();
                let mut cursor = buffer.cursor;
                cursor.char_pos = pos + 1;
                Self::update_cursor_line_column(&mut cursor, &text);
                buffer.cursor = cursor;
                EditResult::success(true, true)
            },
            Err(_) => EditResult::failure("Buffer operation failed"),
        }
    }

    fn insert_string(buffer: &mut Buffer, pos: usize, text: &String) -> (r: EditResult)
        requires
            old(buffer).wf(),
        ensures
            final(buffer).wf(),
            final(buffer).file_path == old(buffer).file_path,
            applied(*old(buffer), EditOperation::InsertString { pos, text: *text }, *final(buffer), r),
    {
        match buffer.content.insert_str(pos, text.as_str()) {
            Ok(()) => {
                proof {
                    buffer.content.lemma_len_bound();
                }
                buffer.set_modified(true);
                let buffer_text = buffer.content.get_text();
                let count = chars_of(text.as_str()).len();
                let mut cursor = buffer.cursor;
                cursor.char_pos = pos + count;
                Self::update_cursor_line_column(&mut cursor, &buffer_text);
                buffer.cursor = cursor;
                EditResult::success(true, true)
            },
            Err(_) => EditResult::failure("Buffer operation failed"),
        }
    }

    fn delete_char(buffer: &mut Buffer, pos: usize) -> (r: EditResult)
        requires
            old(buffer).wf(),
        ensures
            final(buffer).wf(),
            final(buffer).file_path == old(buffer).file_path,
            applied(*old(buffer), EditOperation::DeleteChar { pos }, *final(buffer), r),
    {
        if pos >= buffer.content.char_len() {
            return EditResult::failure("削除位置が範囲外です");
        }
        match buffer.content.delete(pos) {
            Ok(_) => {
                buffer.set_modified(true);
                let text = buffer.content.get_text();
                let mut cursor = buffer.cursor;
                cursor.char_pos = pos;
                Self::update_cursor_line_column(&mut cursor, &text);
                buffer.cursor = cursor;
                EditResult::success(true, true)
            },
            Err(_) => EditResult::failure("Buffer operation failed"),
        }
    }

    fn delete_range(buffer: &mut Buffer, start: usize, end: usize) -> (r: EditResult)
        requires
            old(buffer).wf(),
        ensures
            final(buffer).wf(),
            final(buffer).file_path == old(buffer).file_path,
            applied(*old(buffer), EditOperation::DeleteRange { start, end }, *final(buffer), r),
    {
        if start >= end {
            return EditResult::failure("無効な削除範囲です");
        }
        if end > buffer.content.char_len() {
            return EditResult::failure("削除範囲が範囲外です");
        }
        let ghost t0 = buffer.content@;
        let mut pos = end;
        while pos > start
            invariant
                start <= pos <= end <= t0.len(),
                buffer.wf(),
                buffer.content@ == t0.take(pos as int) + t0.skip(end as int),
                buffer.cursor == old(buffer).cursor,
                buffer.modified == old(buffer).modified,
                buffer.file_path == old(buffer).file_path,
            decreases pos,
        {
            pos -= 1;
            let ghost before = buffer.content@;
            let _ = buffer.content.delete(pos);
            assert(buffer.content@ =~= t0.take(pos as int) + t0.skip(end as int)) by {
                assert(before.remove(pos as int) =~= t0.take(pos as int) + t0.skip(end as int));
            }
        }
        buffer.set_modified(true);
        let text = buffer.content.get_text();
        let mut cursor = buffer.cursor;
        cursor.char_pos = start;
        Self::update_cursor_line_column(&mut cursor, &text);
        buffer.cursor = cursor;
        EditResult::success(true, true)
    }

    fn move_cursor(buffer: &mut Buffer, movement: CursorMovement) -> (r: EditResult)
        requires
            old(buffer).wf(),
            movement_allowed(old(buffer).cursor, old(buffer).content@, movement),
        ensures
            final(buffer).wf(),
            final(buffer).file_path == old(buffer).file_path,
            applied(*old(buffer), EditOperation::MoveCursor { movement }, *final(buffer), r),
    {
        let text = buffer.content.get_text();
        let mut cursor = buffer.cursor;
        let moved = CursorMover::move_cursor(&mut cursor, text.as_str(), movement);
        if moved {
            buffer.cursor = cursor;
            EditResult::success(true, false)
        } else {
            EditResult::success(false, false)
        }
    }

    /// Recounts the line and column of `cursor` from its position in `text`.
    fn update_cursor_line_column(cursor: &mut CursorPosition, text: &String)
        ensures
            *final(cursor) == placed_cursor(text@, old(cursor).char_pos),
    {
        let chars = chars_of(text.as_str());
        let mut line: usize = 0;
        let mut column: usize = 0;
        let mut i: usize = 0;
        while i < chars.len() && i != cursor.char_pos
            invariant
                i <= chars@.len(),
                i <= cursor.char_pos,
                chars@ == text@,
                (line as int, column as int) == walk(0, 0, chars@.take(i as int)),
                line <= i,
                column <= i,
            decreases chars@.len() - i,
        {
            assert(chars@.take(i + 1).drop_last() =~= chars@.take(i as int));
            if chars[i] == '\n' {
                line += 1;
                column = 0;
            } else {
                column += 1;
            }
            i += 1;
        }
        assert(chars@.take(i as int) =~= text@.take(
            if cursor.char_pos <= text@.len() { cursor.char_pos as int } else { text@.len() as int },
        ));
        cursor.line = line;
        cursor.column = column;
    }
}

/// Builds edit operations.
pub struct EditOperationBuilder;

impl EditOperationBuilder {
    /// Insert `ch` at `pos`.
    pub fn insert_char(pos: usize, ch: char) -> (r: EditOperation)
        ensures
            r == (EditOperation::InsertChar { pos, ch }),
    {
        EditOperation::InsertChar { pos, ch }
    }

    /// Insert `text` at `pos`.
    pub fn insert_string(pos: usize, text: String) -> (r: EditOperation)
        ensures
            r == (EditOperation::InsertString { pos, text }),
    {
        EditOperation::InsertString { pos, text }
    }

    /// Delete the character at `pos`.
    pub fn delete_char(pos: usize) -> (r: EditOperation)
        ensures
            r == (EditOperation::DeleteChar { pos }),
    {
        EditOperation::DeleteChar { pos }
    }

    /// Delete `start..end`.
    pub fn delete_range(start: usize, end: usize) -> (r: EditOperation)
        ensures
            r == (EditOperation::DeleteRange { start, end }),
    {
        EditOperation::DeleteRange { start, end }
    }

    /// Move the cursor.
    pub fn move_cursor(movement: CursorMovement) -> (r: EditOperation)
        ensures
            r == (EditOperation::MoveCursor { movement }),
    {
        EditOperation::MoveCursor { movement }
    }
}

/// Applied operations, with a position for undo and redo: pushing an
/// operation drops everything after the position.
#[derive(Debug)]
pub struct EditHistory {
    operations: Vec<EditOperation>,
    current_index: usize,
}

impl EditHistory {
    /// The position lies within the operations.
    pub closed spec fn wf(&self) -> bool {
        self.current_index <= self.operations@.len()
    }

    /// The recorded operations.
    pub closed spec fn operations(&self) -> Seq<EditOperation> {
        self.operations@
    }

    /// The position: operations before it can be undone, those from it on
    /// redone.
    pub closed spec fn position(&self) -> nat {
        self.current_index as nat
    }

    /// An empty history.
    pub fn new() -> (r: Self)
        ensures
            r.wf(),
            r.operations() == Seq::<EditOperation>::empty(),
            r.position() == 0,
    {
        Self { operations: Vec::new(), current_index: 0 }
    }

    /// Records `operation` after the position, dropping what followed it.
    pub fn push_operation(&mut self, operation: EditOperation)
        requires
            old(self).wf(),
        ensures
            final(self).wf(),
            final(self).operations() == old(self).operations().take(old(self).position() as int).push(operation),
            final(self).position() == final(self).operations().len(),
    {
        self.operations.truncate(self.current_index);
        self.operations.push(operation);
        self.current_index = self.operations.len();
    }

    /// Number of recorded operations.
    pub fn len(&self) -> (r: usize)
        ensures
            r == self.operations().len(),
    {
        self.operations.len()
    }

    /// Whether nothing is recorded.
    pub fn is_empty(&self) -> (r: bool)
        ensures
            r == (self.operations().len() == 0),
    {
        self.operations.is_empty()
    }

    /// Whether an operation lies before the position.
    pub fn can_undo(&self) -> (r: bool)
        ensures
            r == (self.position() > 0),
    {
        self.current_index > 0
    }

    /// Whether an operation lies after the position.
    pub fn can_redo(&self) -> (r: bool)
        ensures
            r == (self.position() < self.operations().len()),
    {
        self.current_index < self.operations.len()
    }
}

impl Default for EditHistory {
    fn default() -> (r: Self)
        ensures
            r.wf(),
            r.operations() == Seq::<EditOperation>::empty(),
    {
        Self::new()
    }
}

} // verus!
