//! The pieces of the alisp extension language the editor keeps: symbols,
//! source positions and errors, and how errors are shown.
use vstd::prelude::*;

pub mod error;
pub mod integration;
pub mod symbol;

verus! {
} // verus!
