//! Settings of the user interface.
use vstd::prelude::*;

pub mod gui_theme;
pub mod viewport;

verus! {
} // verus!
