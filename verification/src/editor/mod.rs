//! Editing layer: kill ring, input buffering, the buffered editor and
//! change notification.
use vstd::prelude::*;

pub mod kill_ring;
pub mod input_buffer;
pub mod text_editor;
pub mod change_notifier;

verus! {
} // verus!
