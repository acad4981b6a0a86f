//! The failures that a single exchange can end in.

use vstd::prelude::*;

verus! {

/// Why an exchange did not complete normally.
#[derive(Debug, Clone, Copy, PartialEq, Eq, Structural)]
pub enum RelayError {
    /// A client-supplied path segment holds the sequence `..`.
    InvalidPath,
    /// The file's metadata could not be read, or the file could not be opened.
    NotFound,
    /// The upstream service could not be reached before its response head arrived.
    UpstreamUnavailable,
    /// Reading from upstream or from disk failed after the response head was sent.
    StreamingFailure,
}

/// The status code that answers `e`, or `None` once the head is already sent.
pub open spec fn status_of(e: RelayError) -> Option<u16> {
    match e {
        RelayError::InvalidPath => Some(400u16),
        RelayError::NotFound => Some(404u16),
        RelayError::UpstreamUnavailable => Some(500u16),
        RelayError::StreamingFailure => None,
    }
}

impl RelayError {
    /// The HTTP status sent to the client for this failure; a streaming
    /// failure has none, as the status line has already gone out.
    pub fn status_code(&self) -> (r: Option<u16>)
        ensures
            r == status_of(*self),
    {
        match self {
            RelayError::InvalidPath => Some(400),
            RelayError::NotFound => Some(404),
            RelayError::UpstreamUnavailable => Some(500),
            RelayError::StreamingFailure => None,
        }
    }
}

} // verus!
