//! An Emacs-like text editor core: gap buffer, cursor and navigation,
//! editing operations, kill ring, incremental search, minibuffer and the
//! command layer, with their contracts.
use vstd::prelude::*;

pub mod text;
pub mod collate;
pub mod alisp;
pub mod app;
pub mod error;
pub mod time;
pub mod buffer;
pub mod editor;
pub mod search;
pub mod input;
pub mod file;
pub mod minibuffer;
pub mod ui;
pub mod gui;
pub mod cli;

verus! {
} // verus!
