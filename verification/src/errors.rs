//! The error taxonomy of the pipeline.
//!
//! `Validation` marks malformed or missing input and is never retried.
//! `StorageUnavailable` marks a failed persist or fetch: transient and
//! retryable by the caller. `PinFailed` is distinct from it: the content was
//! persisted but the durability pin failed, so callers may retry the pin
//! alone. `NotFound` marks a fetch of an unknown address. `Serialization`
//! marks a record that could not be canonicalized: an internal defect, since
//! payload shapes are validated first.

use vstd::prelude::*;

verus! {

/// One error outcome of a stage operation, with a human-readable message.
#[derive(Debug)]
pub enum StageError {
    Validation(String),
    StorageUnavailable(String),
    PinFailed(String),
    NotFound(String),
    Serialization(String),
}

impl StageError {
    /// The message carried by the error.
    pub open spec fn message_view(self) -> Seq<char> {
        match self {
            StageError::Validation(m) => m@,
            StageError::StorageUnavailable(m) => m@,
            StageError::PinFailed(m) => m@,
            StageError::NotFound(m) => m@,
            StageError::Serialization(m) => m@,
        }
    }

    /// The human-readable message of the error.
    pub fn message(&self) -> (r: &str)
        ensures
            r@ == self.message_view(),
    {
        match self {
            StageError::Validation(m) => m.as_str(),
            StageError::StorageUnavailable(m) => m.as_str(),
            StageError::PinFailed(m) => m.as_str(),
            StageError::NotFound(m) => m.as_str(),
            StageError::Serialization(m) => m.as_str(),
        }
    }

    /// Whether the error marks rejected input.
    pub fn is_validation(&self) -> (r: bool)
        ensures
            r == (self is Validation),
    {
        match self {
            StageError::Validation(_) => true,
            _ => false,
        }
    }

    /// Whether the error marks a failed persist: transient, caller may retry
    /// the whole operation.
    pub fn is_storage_unavailable(&self) -> (r: bool)
        ensures
            r == (self is StorageUnavailable),
    {
        match self {
            StageError::StorageUnavailable(_) => true,
            _ => false,
        }
    }

    /// Whether the error marks a failed pin: the content is persisted, the
    /// caller may retry the pin alone.
    pub fn is_pin_failed(&self) -> (r: bool)
        ensures
            r == (self is PinFailed),
    {
        match self {
            StageError::PinFailed(_) => true,
            _ => false,
        }
    }
}

} // verus!
