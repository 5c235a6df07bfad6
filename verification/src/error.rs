//! The conditions that the application reports instead of failing.

use vstd::prelude::*;

verus! {

/// Why the storage layer could not answer.
#[derive(Debug, Clone, PartialEq, Eq)]
pub struct DataError {
    /// What the storage layer said.
    pub message: String,
}

/// A condition that the outer loop shows to the user or to the developer.
/// None of them ends the process.
#[derive(Debug, Clone, PartialEq, Eq)]
pub enum AppError {
    /// The storage layer failed while a screen was loading its data. The
    /// screen that was active stays active.
    DataUnavailable(DataError),
    /// One screen declares the same trigger character twice. Holds that
    /// character.
    ConfigurationError(char),
    /// A screen had no answer to an action. Every screen answers every
    /// action, so no operation of this library returns it.
    UnmappedAction,
}

} // verus!
