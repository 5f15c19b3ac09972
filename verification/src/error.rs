//! Failures, tagged by the stage they belong to.

use vstd::prelude::*;

verus! {

/// What went wrong, in broad terms.
#[derive(Debug, Clone, Copy, PartialEq, Eq, Structural)]
pub enum ErrorKind {
    /// The network or the server failed: no answer, or a status other than success.
    Transport,
    /// Fewer or more bytes arrived than the server announced.
    Integrity,
    /// Content was received but could not be decoded or encoded.
    Parse,
    /// The lookup of a playable address failed.
    Resolution,
    /// A file or directory operation failed.
    Filesystem,
}

/// A failure: its kind, and a message for the reader.
#[derive(Debug, Clone, PartialEq, Eq)]
pub struct SyncError {
    pub kind: ErrorKind,
    pub message: String,
}

/// Mathematical view of a [`SyncError`].
pub struct ErrorView {
    pub kind: ErrorKind,
    pub message: Seq<char>,
}

impl View for SyncError {
    type V = ErrorView;

    open spec fn view(&self) -> ErrorView {
        ErrorView { kind: self.kind, message: self.message@ }
    }
}

impl SyncError {
    /// A failure of the given kind with the given message.
    pub fn new(kind: ErrorKind, message: String) -> (e: SyncError)
        ensures
            e@ == (ErrorView { kind, message: message@ }),
    {
        SyncError { kind, message }
    }

    /// The message alone, as it is shown to the caller.
    pub fn describe(&self) -> (s: String)
        ensures
            s@ == self@.message,
    {
        self.message.clone()
    }
}

} // verus!
