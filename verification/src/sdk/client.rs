//! Errors of the high-level client.

use vstd::prelude::*;
use crate::handshake::HandshakeError;
use crate::stream::StreamError;

verus! {

/// Errors emitted by the high-level client.
#[derive(Debug)]
#[non_exhaustive]
pub enum ClientError {
    /// OS-level failures such as socket errors, or missing session data.
    Io(String),
    /// Handshake or session establishment failures.
    Handshake(HandshakeError),
    /// Streaming errors.
    Stream(StreamError),
}

impl ClientError {
    /// Wraps a handshake error.
    pub fn from_handshake(err: HandshakeError) -> (wrapped: Self)
        ensures
            wrapped == ClientError::Handshake(err),
    {
        ClientError::Handshake(err)
    }

    /// Wraps a stream error.
    pub fn from_stream(err: StreamError) -> (wrapped: Self)
        ensures
            wrapped == ClientError::Stream(err),
    {
        ClientError::Stream(err)
    }
}

} // verus!
