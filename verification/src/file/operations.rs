//! File buffers and the checks made on file content. Opening and saving
//! files touch the file system and are left to the application.
use crate::error::Result;
use crate::file::metadata::{FileChangeTracker, FileInfo};
use crate::text::{char_is_control, chars_of, owned};
use std::path::PathBuf;
use vstd::prelude::*;

verus! {

/// The last component of a path, rendered lossily (`Path::file_name` and
/// `to_string_lossy`), when the path has one.
pub uninterp spec fn path_file_name(p: PathBuf) -> Option<Seq<char>>;

/// `Path::file_name`, rendered lossily.
#[verifier::external_body]
pub(crate) fn file_name_of(p: &PathBuf) -> (r: Option<String>)
    ensures
        match r {
            Some(s) => path_file_name(*p) == Some(s@),
            None => path_file_name(*p) is None,
        },
{
    match p.file_name() {
        Some(n) => Some(n.to_string_lossy().to_string()),
        None => None,
    }
}

/// The name a buffer for the file at `p` gets: the file name, or nothing
/// when the path has none.
pub open spec fn buffer_name_of(p: PathBuf) -> Seq<char> {
    match path_file_name(p) {
        Some(n) => n,
        None => Seq::empty(),
    }
}

/// The file name of `p`, or the empty string when it has none.
pub fn file_name_or_empty(p: &PathBuf) -> (r: String)
    ensures
        r@ == buffer_name_of(*p),
{
    match file_name_of(p) {
        Some(s) => s,
        None => {
            proof {
                reveal_strlit("");
            }
            owned("")
        },
    }
}

/// A text buffer backed by a file.
#[derive(Clone)]
pub struct FileBuffer {
    pub path: Option<PathBuf>,
    pub name: String,
    pub content: String,
    pub change_tracker: FileChangeTracker,
    pub file_info: Option<FileInfo>,
    pub read_only: bool,
}

impl FileBuffer {
    /// The change tracker is consistent.
    pub open spec fn wf(&self) -> bool {
        self.change_tracker.wf()
    }

    /// An empty, unsaved buffer called `name`.
    pub fn new_empty(name: String) -> (r: Self)
        ensures
            r.wf(),
            r.name@ == name@,
            r.path is None,
            r.content@ == Seq::<char>::empty(),
            r.change_tracker.saved() == Seq::<char>::empty(),
            r.file_info is None,
            !r.read_only,
    {
        proof {
            reveal_strlit("");
        }
        FileBuffer {
            name,
            path: None,
            content: String::new(),
            change_tracker: FileChangeTracker::new(""),
            file_info: None,
            read_only: false,
        }
    }

    /// A buffer for a file at `path` that does not exist yet.
    pub fn for_new_file(path: PathBuf) -> (r: Self)
        ensures
            r.wf(),
            r.name@ == buffer_name_of(path),
            r.path == Some(path),
            r.content@ == Seq::<char>::empty(),
            r.change_tracker.saved() == Seq::<char>::empty(),
            r.file_info is None,
            !r.read_only,
    {
        let name = file_name_or_empty(&path);
        proof {
            reveal_strlit("");
        }
        FileBuffer {
            name,
            path: Some(path),
            content: String::new(),
            change_tracker: FileChangeTracker::new(""),
            file_info: None,
            read_only: false,
        }
    }

    /// A buffer holding `content` read from the file at `path`.
    pub fn from_content(path: PathBuf, content: String, file_info: FileInfo) -> (r: Self)
        ensures
            r.wf(),
            r.name@ == buffer_name_of(path),
            r.path == Some(path),
            r.content@ == content@,
            r.change_tracker.saved() == content@,
            r.file_info == Some(file_info),
            !r.read_only,
    {
        let name = file_name_or_empty(&path);
        let tracker = FileChangeTracker::new(content.as_str());
        FileBuffer { name, path: Some(path), content, change_tracker: tracker, file_info: Some(file_info), read_only: false }
    }

    /// Whether the content differs (by hash) from what was saved.
    pub fn is_modified(&self) -> (r: bool)
        requires
            self.wf(),
        ensures
            r == (crate::file::metadata::text_hash(self.content@) != crate::file::metadata::text_hash(
                self.change_tracker.saved(),
            )),
            self.content@ == self.change_tracker.saved() ==> !r,
    {
        self.change_tracker.is_modified(self.content.as_str())
    }

    /// Records the content as saved.
    pub fn mark_saved(&mut self)
        ensures
            final(self).wf(),
            final(self).change_tracker.saved() == old(self).content@,
            final(self).content == old(self).content,
            final(self).path == old(self).path,
            final(self).name == old(self).name,
    {
        self.change_tracker.mark_saved(self.content.as_str());
    }

    /// Associates the buffer with `path`, naming it after the file.
    pub fn set_path(&mut self, path: PathBuf)
        ensures
            final(self).name@ == buffer_name_of(path),
            final(self).path == Some(path),
            final(self).content == old(self).content,
            final(self).change_tracker == old(self).change_tracker,
            final(self).file_info == old(self).file_info,
            final(self).read_only == old(self).read_only,
    {
        self.name = file_name_or_empty(&path);
        self.path = Some(path);
    }
}

/// Checks on file content read from disk.
pub struct FileReader;

impl FileReader {
    /// The reader.
    pub fn new() -> (r: Self)
        ensures
            r == FileReader,
    {
        Self
    }

    /// Checks read content: control characters other than tab and newline
    /// are tolerated (the content is accepted as it is).
    pub fn validate_content(&self, content: &str) -> (r: Result<()>)
        ensures
            r is Ok,
    {
        let chars = chars_of(content);
        let mut i: usize = 0;
        let mut suspicious: usize = 0;
        while i < chars.len()
            invariant
                i <= chars@.len(),
                suspicious <= i,
            decreases chars@.len() - i,
        {
            let c = chars[i];
            if char_is_control(c) && c != '\t' && c != '\n' {
                suspicious += 1;
            }
            i += 1;
        }
        Ok(())
    }
}

impl Default for FileReader {
    fn default() -> (r: Self) {
        Self
    }
}

/// Checks content before saving: any line endings are accepted, since
/// saving normalizes them.
pub fn validate_save_content(content: &str) -> (r: Result<()>)
    ensures
        r is Ok,
{
    Ok(())
}

} // verus!
