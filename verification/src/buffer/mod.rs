//! Text buffers: gap buffer storage, cursor, navigation and editing, and
//! the set of open buffers.
use crate::buffer::cursor::CursorPosition;
use crate::buffer::gap_buffer::GapBuffer;
use crate::error::{AltreError, BufferError, Result};
use std::path::PathBuf;
use vstd::prelude::*;

pub mod gap_buffer;
pub mod cursor;
pub mod navigation;
pub mod editor;
pub mod operations;

verus! {

/// A path of the file system.
#[verifier::external_type_specification]
#[verifier::external_body]
pub struct ExPathBuf(PathBuf);

/// `Clone` of `PathBuf`: a path with the same components.
pub assume_specification[ <PathBuf as Clone>::clone ](p: &PathBuf) -> (r: PathBuf)
    ensures
        r == *p,
;

/// Identifier of a buffer.
pub type BufferId = usize;

/// One text buffer.
pub struct Buffer {
    pub content: GapBuffer,
    pub cursor: CursorPosition,
    pub file_path: Option<PathBuf>,
    pub modified: bool,
}

impl Buffer {
    /// The storage is well formed.
    pub open spec fn wf(&self) -> bool {
        self.content.wf()
    }

    /// An empty, unmodified buffer with no file.
    pub fn new() -> (r: Self)
        ensures
            r.wf(),
            r.content@ == Seq::<char>::empty(),
            r.cursor == CursorPosition::origin(),
            r.file_path is None,
            !r.modified,
    {
        Self { content: GapBuffer::new(), cursor: CursorPosition::new(), file_path: None, modified: false }
    }

    /// An empty, unmodified buffer for the file at `path`.
    pub fn with_file(path: PathBuf) -> (r: Self)
        ensures
            r.wf(),
            r.content@ == Seq::<char>::empty(),
            r.cursor == CursorPosition::origin(),
            r.file_path == Some(path),
            !r.modified,
    {
        Self {
            content: GapBuffer::new(),
            cursor: CursorPosition::new(),
            file_path: Some(path),
            modified: false,
        }
    }

    /// Whether the buffer has unsaved changes.
    pub fn is_modified(&self) -> (r: bool)
        ensures
            r == self.modified,
    {
        self.modified
    }

    /// Sets the modified flag.
    pub fn set_modified(&mut self, modified: bool)
        ensures
            final(self).modified == modified,
            final(self).content == old(self).content,
            final(self).cursor == old(self).cursor,
            final(self).file_path == old(self).file_path,
    {
        self.modified = modified;
    }
}

impl Default for Buffer {
    fn default() -> (r: Self)
        ensures
            r.wf(),
            r.content@ == Seq::<char>::empty(),
            !r.modified,
    {
        Self::new()
    }
}

/// The open buffers. Identifiers are handed out from 0 upwards and no
/// buffer is ever dropped, so the buffer with identifier `i` is the `i`-th
/// one created.
pub struct BufferManager {
    buffers: Vec<Buffer>,
    current_buffer: Option<BufferId>,
    next_id: BufferId,
}

impl BufferManager {
    /// Identifiers match positions, and the current buffer exists.
    pub closed spec fn wf(&self) -> bool {
        &&& self.buffers@.len() == self.next_id
        &&& self.current_buffer matches Some(id) ==> id < self.next_id
        &&& forall|i: int| 0 <= i < self.buffers@.len() ==> (#[trigger] self.buffers@[i]).wf()
    }

    /// The buffers, by identifier.
    pub closed spec fn buffers(&self) -> Seq<Buffer> {
        self.buffers@
    }

    /// The identifier of the current buffer.
    pub closed spec fn current(&self) -> Option<BufferId> {
        self.current_buffer
    }

    /// The identifier the next buffer gets.
    pub closed spec fn next(&self) -> BufferId {
        self.next_id
    }

    /// No buffers, none current.
    pub fn new() -> (r: Self)
        ensures
            r.wf(),
            r.buffers() == Seq::<Buffer>::empty(),
            r.current() is None,
            r.next() == 0,
    {
        Self { buffers: Vec::new(), current_buffer: None, next_id: 0 }
    }

    /// Creates an empty buffer and returns its identifier; the first buffer
    /// becomes the current one.
    pub fn create_buffer(&mut self) -> (id: BufferId)
        requires
            old(self).wf(),
            old(self).next() < usize::MAX,
        ensures
            final(self).wf(),
            id == old(self).next(),
            final(self).next() == id + 1,
            final(self).buffers().len() == old(self).buffers().len() + 1,
            final(self).buffers().take(id as int) == old(self).buffers(),
            final(self).buffers()[id as int].content@ == Seq::<char>::empty(),
            !final(self).buffers()[id as int].modified,
            final(self).current() == (if old(self).current() is None {
                Some(id)
            } else {
                old(self).current()
            }),
    {
        let id = self.next_id;
        self.next_id += 1;
        let buffer = Buffer::new();
        self.buffers.push(buffer);
        if self.current_buffer.is_none() {
            self.current_buffer = Some(id);
        }
        assert(self.buffers@.take(id as int) =~= old(self).buffers@);
        id
    }

    /// The identifier of the current buffer.
    pub fn current_buffer_id(&self) -> (r: Option<BufferId>)
        ensures
            r == self.current(),
    {
        self.current_buffer
    }

    /// The current buffer.
    pub fn current_buffer(&self) -> (r: Option<&Buffer>)
        requires
            self.wf(),
        ensures
            match self.current() {
                Some(id) => r == Some(&self.buffers()[id as int]),
                None => r is None,
            },
    {
        match self.current_buffer {
            Some(id) => Some(&self.buffers[id]),
            None => None,
        }
    }

    /// The buffer with identifier `id`.
    pub fn get_buffer(&self, id: BufferId) -> (r: Option<&Buffer>)
        requires
            self.wf(),
        ensures
            id < self.buffers().len() ==> r == Some(&self.buffers()[id as int]),
            id >= self.buffers().len() ==> r is None,
    {
        if id < self.buffers.len() {
            Some(&self.buffers[id])
        } else {
            None
        }
    }

    /// The buffer with identifier `id`, for changes.
    pub fn get_buffer_mut(&mut self, id: BufferId) -> (r: Option<&mut Buffer>)
        requires
            old(self).wf(),
        ensures
            id >= old(self).buffers().len() ==> r is None && *final(self) == *old(self),
            id < old(self).buffers().len() ==> (r matches Some(b) && *b == old(self).buffers()[id as int]
                && final(self).buffers() == old(self).buffers().update(id as int, *final(b))),
            final(self).current() == old(self).current(),
            final(self).next() == old(self).next(),
    {
        if id < self.buffers.len() {
            Some(&mut self.buffers[id])
        } else {
            None
        }
    }

    /// The current buffer, for changes.
    pub fn current_buffer_mut(&mut self) -> (r: Option<&mut Buffer>)
        requires
            old(self).wf(),
        ensures
            old(self).current() is None ==> r is None && *final(self) == *old(self),
            old(self).current() matches Some(id) ==> (r matches Some(b) && *b == old(self).buffers()[id as int]
                && final(self).buffers() == old(self).buffers().update(id as int, *final(b))),
            final(self).current() == old(self).current(),
            final(self).next() == old(self).next(),
    {
        match self.current_buffer {
            Some(id) => Some(&mut self.buffers[id]),
            None => None,
        }
    }

    /// Makes buffer `id` current; an unknown identifier is refused.
    pub fn switch_to_buffer(&mut self, id: BufferId) -> (r: Result<()>)
        requires
            old(self).wf(),
        ensures
            final(self).wf(),
            final(self).buffers() == old(self).buffers(),
            final(self).next() == old(self).next(),
            id < old(self).buffers().len() ==> r is Ok && final(self).current() == Some(id),
            id >= old(self).buffers().len() ==> r == Err::<(), AltreError>(AltreError::Buffer(BufferError::Empty))
                && final(self).current() == old(self).current(),
    {
        if id < self.buffers.len() {
            self.current_buffer = Some(id);
            Ok(())
        } else {
            Err(AltreError::Buffer(BufferError::Empty))
        }
    }
}

impl Default for BufferManager {
    fn default() -> (r: Self)
        ensures
            r.wf(),
            r.buffers() == Seq::<Buffer>::empty(),
            r.current() is None,
    {
        Self::new()
    }
}

} // verus!
