//! Handshake layer: its errors, its outcome and challenge authentication.

use vstd::prelude::*;
use crate::messages::{Acknowledge, CapabilitySet, ControlEnvelope, DeviceIdentity, SessionEstablished};

pub mod transport;

verus! {

/// Errors of the handshake and of everything built on a session.
#[derive(Debug, Clone)]
pub enum HandshakeError {
    /// Malformed message, unsupported version or unexpected transition.
    Protocol(String),
    /// MAC mismatch, invalid signature or rejected peer.
    Authentication(String),
    /// Timeout, socket error or retransmit exhaustion.
    Transport(String),
}

/// The class of an error and its message, as plain values.
pub enum HandshakeErrorSpec {
    Protocol(Seq<char>),
    Authentication(Seq<char>),
    Transport(Seq<char>),
}

impl View for HandshakeError {
    type V = HandshakeErrorSpec;

    open spec fn view(&self) -> HandshakeErrorSpec {
        match *self {
            HandshakeError::Protocol(message) => HandshakeErrorSpec::Protocol(message@),
            HandshakeError::Authentication(message) => HandshakeErrorSpec::Authentication(message@),
            HandshakeError::Transport(message) => HandshakeErrorSpec::Transport(message@),
        }
    }
}

/// Opening message of the handshake.
#[derive(Debug, Clone)]
pub struct Hello {
    pub identity: DeviceIdentity,
    pub capabilities: CapabilitySet,
    pub public_key: Vec<u8>,
    pub nonce: Vec<u8>,
}

/// The answer to a hello: the nonce, signed.
#[derive(Debug, Clone)]
pub struct Challenge {
    pub nonce: Vec<u8>,
    pub signature: Vec<u8>,
}

/// The message that closes the handshake.
#[derive(Debug, Clone)]
pub struct Confirm {
    pub session_id: u128,
    pub mac: Vec<u8>,
}

/// Liveness signal of a peer.
#[derive(Debug, Clone)]
pub struct Keepalive {
    pub session_id: u128,
    pub tick_ms: u64,
}

/// Everything that travels over the handshake and control transport.
#[derive(Debug, Clone)]
pub enum HandshakeMessage {
    Hello(Hello),
    Challenge(Challenge),
    Confirm(Confirm),
    Control(ControlEnvelope),
    Ack(Acknowledge),
    Keepalive(Keepalive),
}

/// Symmetric key material derived from the key agreement.
#[derive(Debug, Clone)]
pub struct SessionKeys {
    pub material: Vec<u8>,
}

/// What a completed handshake hands to the session.
#[derive(Debug, Clone)]
pub struct HandshakeOutcome {
    pub established: SessionEstablished,
    pub keys: SessionKeys,
}

} // verus!
