//! The library's error type: a statement-level driver error, or an internal
//! string-formatting fault while composing SQL text.

use vstd::prelude::*;

verus! {

/// An error surfaced by this library.
#[derive(Debug)]
pub enum SealionError {
    /// An internal string-composition fault while building SQL text.
    /// Treated as exceptional: the library's own SQL building never
    /// produces it.
    IoError(std::fmt::Error),
    /// An error from the underlying database driver.
    RusqliteError(rusqlite::Error),
}

pub type SealionResult<T> = Result<T, SealionError>;

} // verus!
