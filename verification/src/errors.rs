//! The error taxonomy of the library.
//!
//! Every failure is reported as one of these variants, each carrying the
//! offending field or path, so a caller can tell configuration errors from
//! I/O errors without re-deriving the context.

use vstd::prelude::*;

verus! {

/// A typed error returned by the library.
#[derive(Debug, Clone, PartialEq, Eq)]
pub enum Error {
    /// The given name is empty, or nothing of it survives normalization.
    InvalidIdentifier { name: String },
    /// The option set combines a runtime with a flag that the runtime does
    /// not support.
    UnsupportedCombination { flag: String },
    /// A filesystem operation failed before any artifact of the batch was
    /// durably written. `path` names the artifact that failed, `cause` the
    /// underlying condition as reported by the caller.
    IOFailure { path: String, cause: String },
    /// A later artifact of a multi-artifact batch failed after earlier ones
    /// had already been written. `path` names the artifact that failed,
    /// `cause` the underlying condition as reported by the caller.
    PartialWriteFailure { path: String, cause: String },
}

} // verus!
