//! Keyboard input: keys and key maps, and editor commands.
use vstd::prelude::*;

pub mod keybinding;
pub mod commands;
pub mod command_keymap;

verus! {
} // verus!
