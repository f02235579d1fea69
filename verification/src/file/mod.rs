//! Files: line endings and encoding, change tracking, file buffers and
//! paths. Reading and writing the file system is left to the application.
use vstd::prelude::*;

pub mod metadata;
pub mod operations;
pub mod path;

verus! {
} // verus!
