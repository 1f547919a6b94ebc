//! ALPINE: an authenticated, session-oriented protocol for streaming channel
//! data between a controller and its nodes over lossy datagram transports.
//!
//! The library holds the deterministic core of the protocol: the session
//! state machine, the retransmission policy of the reliable control channel,
//! stream profiles, jitter handling for outgoing frames, the network
//! conditions tracker, the recovery monitor and the adaptation engine.
//! Every function carries a contract that the verifier checks.

pub mod control;
pub mod crypto;
pub mod handshake;
pub mod messages;
pub mod profile;
pub mod ratio;
pub mod sdk;
pub mod session;
pub mod stream;

pub use control::{ControlClient, ControlCrypto, ControlResponder};
pub use messages::{
    Acknowledge, CapabilitySet, ChannelFormat, ControlEnvelope, ControlOp, DeviceIdentity,
    DiscoveryReply, FrameEnvelope, MessageType, SessionEstablished,
};
pub use profile::{CompiledStreamProfile, StreamProfile};
pub use session::{AlnpRole, AlnpSession, JitterStrategy};
pub use stream::{AlnpStream, FrameTransport};
