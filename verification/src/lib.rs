//! Interactive key/value pair editor core.
//!
//! The library holds the interaction state machine of a small terminal tool
//! that builds a set of key/value string pairs and, on exit, can emit them as
//! one line of JSON. The menu model, the edit buffer and the screen
//! transitions are verified; rendering and input polling live outside.

use vstd::prelude::*;

pub mod json;
pub mod menu;
pub mod pairs;
pub mod state;

verus! {

/// The two failure kinds of the library.
///
/// `InvariantViolation` marks a programmer error: the menu queried while
/// empty, or the field focus toggled while no field is focused.
/// `SerializationFailure` marks a failure of the external JSON encoder.
#[derive(Debug, PartialEq, Eq, Structural, Clone, Copy)]
pub enum AppError {
    InvariantViolation,
    SerializationFailure,
}

} // verus!
