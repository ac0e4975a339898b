//! Typed pipeline errors. Every stage failure aborts the pipeline and is
//! reported as one of these kinds together with a human-readable message.

use vstd::prelude::*;

verus! {

/// The error kinds the pipeline can report.
#[derive(Debug)]
pub enum DocError {
    /// The source image is unreadable, corrupt, or in an unsupported codec.
    DecodeFailed(String),
    /// Re-encoding the pixel buffer failed.
    EncodeFailed(String),
    /// Malformed caller input (bad base64, out-of-range option, bad path).
    InvalidInput(String),
    /// A filesystem read or write failed during a file-based operation.
    IoFailure(String),
    /// Text extraction from an existing container document failed.
    ExtractionFailed(String),
}

impl DocError {
    /// The human-readable message carried by the error.
    pub fn message(&self) -> (r: &String)
        ensures
            r == match self {
                DocError::DecodeFailed(m) => m,
                DocError::EncodeFailed(m) => m,
                DocError::InvalidInput(m) => m,
                DocError::IoFailure(m) => m,
                DocError::ExtractionFailed(m) => m,
            },
    {
        match self {
            DocError::DecodeFailed(m) => m,
            DocError::EncodeFailed(m) => m,
            DocError::InvalidInput(m) => m,
            DocError::IoFailure(m) => m,
            DocError::ExtractionFailed(m) => m,
        }
    }
}

} // verus!
