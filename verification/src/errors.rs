//! The error taxonomy of the pipeline.
//!
//! Per-file failures carry one of these kinds together with a human-readable
//! message; batch-level failures (an unusable request, a worker pool that
//! could not be built) abort the whole batch before any file is processed.

use vstd::prelude::*;

verus! {

/// What went wrong with one file, or with the batch as a whole.
#[derive(Clone, Copy, Debug, PartialEq, Eq, Structural)]
pub enum ErrorKind {
    /// The input could not be decoded (unreadable, corrupt or unsupported).
    DecodeError,
    /// The resolved target dimensions are degenerate.
    ResizeError,
    /// The encoder rejected the image or failed internally.
    EncodeError,
    /// An output could not be written or an input could not be removed.
    IoError,
    /// A native encoder aborted unexpectedly.
    EncoderPanic,
    /// The request itself is not actionable.
    InvalidRequest,
}

/// An error kind together with a human-readable message.
#[derive(Clone, Debug)]
pub struct CompressError {
    pub kind: ErrorKind,
    pub message: String,
}

impl CompressError {
    /// Builds an error of the given kind carrying `message`.
    pub fn new(kind: ErrorKind, message: String) -> (r: CompressError)
        ensures
            r.kind == kind,
            r.message == message,
    {
        CompressError { kind, message }
    }
}

} // verus!
