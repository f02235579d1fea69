//! Where the debug log of the graphical front end is written.
use std::path::PathBuf;
use vstd::prelude::*;

verus! {

/// A debug log in JSON lines at `path`; the writing is done by its user.
pub struct DebugLogger {
    path: PathBuf,
}

impl DebugLogger {
    /// The log at `path` (its directory is made by the caller).
    pub fn new(path: PathBuf) -> (r: Self)
        ensures
            r.file() == path,
    {
        DebugLogger { path }
    }

    /// The log file.
    pub closed spec fn file(&self) -> PathBuf {
        self.path
    }

    /// The log file.
    pub fn path(&self) -> (r: &PathBuf)
        ensures
            *r == self.file(),
    {
        &self.path
    }
}

} // verus!
