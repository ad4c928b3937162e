//! The failures a store operation can report.

use vstd::prelude::*;

verus! {

/// Why a store operation did not do what was asked.
///
/// A lookup that finds nothing is not a failure: it returns `Ok(None)`.
#[derive(Clone, Copy, Debug, PartialEq, Eq, Structural)]
pub enum StoreError {
    /// A uniqueness rule (node label, or triple tuple) would be broken.
    Conflict,
    /// A triple names a node identity that the store does not hold.
    IntegrityViolation,
    /// The database could not be opened, prepared, read or written, or has
    /// no identity left to give.
    StorageUnavailable,
}

impl StoreError {
    /// A short name for the failure, for messages.
    pub fn describe(&self) -> (text: &'static str)
        ensures
            text@ == match *self {
                StoreError::Conflict => "conflict"@,
                StoreError::IntegrityViolation => "integrity violation"@,
                StoreError::StorageUnavailable => "storage unavailable"@,
            },
    {
        match self {
            StoreError::Conflict => "conflict",
            StoreError::IntegrityViolation => "integrity violation",
            StoreError::StorageUnavailable => "storage unavailable",
        }
    }
}

} // verus!
