//! What the graphical front end exchanges with the editor: key presses it
//! sends, the options it starts with and the snapshots it draws.
pub mod keymap;
pub mod logging;
pub mod options;
pub mod snapshot;
