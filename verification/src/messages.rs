//! Message schema: the typed records that the protocol layers exchange.
//!
//! Identifiers are held as plain integers and payloads as canonical bytes;
//! turning a record into its wire encoding is left to the transport side.

use vstd::prelude::*;
use crate::stream::recovery::RecoveryReason;

verus! {

/// Tag that tells the wire messages apart.
#[derive(Debug, Clone, Copy, PartialEq, Eq, Structural)]
pub enum MessageType {
    AlpineDiscoverRequest,
    AlpineDiscoverReply,
    AlpineHandshakeHello,
    AlpineHandshakeChallenge,
    AlpineHandshakeConfirm,
    AlpineControl,
    AlpineControlAck,
    AlpineKeepalive,
    AlpineFrame,
}

/// A version of the protocol.
#[derive(Debug, Clone, Copy, PartialEq, Eq, Structural)]
pub struct ProtocolVersion {
    pub major: u8,
    pub minor: u8,
}

/// Major version of the protocol that this library speaks.
pub const ALPINE_VERSION_MAJOR: u8 = 1;

/// Minor version of the protocol that this library speaks.
pub const ALPINE_VERSION_MINOR: u8 = 0;

impl ProtocolVersion {
    /// The version of the protocol that this library speaks.
    pub open spec fn alpine() -> ProtocolVersion {
        ProtocolVersion { major: ALPINE_VERSION_MAJOR, minor: ALPINE_VERSION_MINOR }
    }

    /// Returns the version of the protocol that this library speaks.
    pub fn current() -> (version: Self)
        ensures
            version == Self::alpine(),
    {
        ProtocolVersion { major: ALPINE_VERSION_MAJOR, minor: ALPINE_VERSION_MINOR }
    }
}

/// Width of one channel value in a frame.
#[derive(Debug, Clone, Copy, PartialEq, Eq, Structural)]
pub enum ChannelFormat {
    U8,
    U16,
}

/// Error codes surfaced at the boundary of the protocol.
#[derive(Debug, Clone, Copy, PartialEq, Eq, Structural)]
pub enum ErrorCode {
    HandshakeTimeout,
    AuthFailed,
    ReplayDetected,
    ProfileLocked,
    NotReady,
    StreamingDisabled,
    Transport,
}

impl ErrorCode {
    /// The name of the code on the wire.
    pub fn as_str(&self) -> (name: &'static str)
        ensures
            name@ == match *self {
                ErrorCode::HandshakeTimeout => "HANDSHAKE_TIMEOUT"@,
                ErrorCode::AuthFailed => "AUTH_FAILED"@,
                ErrorCode::ReplayDetected => "REPLAY_DETECTED"@,
                ErrorCode::ProfileLocked => "PROFILE_LOCKED"@,
                ErrorCode::NotReady => "NOT_READY"@,
                ErrorCode::StreamingDisabled => "STREAMING_DISABLED"@,
                ErrorCode::Transport => "TRANSPORT"@,
            },
    {
        match self {
            ErrorCode::HandshakeTimeout => "HANDSHAKE_TIMEOUT",
            ErrorCode::AuthFailed => "AUTH_FAILED",
            ErrorCode::ReplayDetected => "REPLAY_DETECTED",
            ErrorCode::ProfileLocked => "PROFILE_LOCKED",
            ErrorCode::NotReady => "NOT_READY",
            ErrorCode::StreamingDisabled => "STREAMING_DISABLED",
            ErrorCode::Transport => "TRANSPORT",
        }
    }
}

/// Operation carried by a control envelope.
#[derive(Debug, Clone, Copy, PartialEq, Eq, Structural)]
pub enum ControlOp {
    Identify,
    GetInfo,
    GetCaps,
    GetStatus,
    SetConfig,
    Restart,
    TimeSync,
    Vendor,
}

/// Stable identity of a peer. It does not change during a session.
#[derive(Debug, Clone)]
pub struct DeviceIdentity {
    pub device_id: String,
    pub manufacturer_id: String,
    pub model_id: String,
    pub hardware_rev: String,
    pub firmware_rev: String,
}

/// Features that a peer advertises.
#[derive(Debug, Clone)]
pub struct CapabilitySet {
    pub streaming_supported: bool,
    pub encryption_supported: bool,
    pub channel_formats: Vec<ChannelFormat>,
    pub max_channels: u32,
    pub vendor_data: Option<String>,
}

impl Default for CapabilitySet {
    /// Streaming and encryption supported, 8-bit and 16-bit channels, and
    /// room for 512 channels.
    fn default() -> (caps: Self)
        ensures
            caps.streaming_supported,
            caps.encryption_supported,
            caps.channel_formats@ == seq![ChannelFormat::U8, ChannelFormat::U16],
            caps.max_channels == 512,
            caps.vendor_data is None,
    {
        let mut channel_formats: Vec<ChannelFormat> = Vec::new();
        channel_formats.push(ChannelFormat::U8);
        channel_formats.push(ChannelFormat::U16);
        assert(channel_formats@ =~= seq![ChannelFormat::U8, ChannelFormat::U16]);
        Self {
            streaming_supported: true,
            encryption_supported: true,
            channel_formats,
            max_channels: 512,
            vendor_data: None,
        }
    }
}

/// The answer of a device to a discovery request.
#[derive(Debug, Clone)]
pub struct DiscoveryReply {
    pub message_type: MessageType,
    pub alpine_version: ProtocolVersion,
    pub device_id: String,
    pub manufacturer_id: String,
    pub model_id: String,
    pub hardware_rev: String,
    pub firmware_rev: String,
    pub capabilities: CapabilitySet,
    pub server_nonce: Vec<u8>,
    /// Signature over the server nonce followed by the client nonce.
    pub signature: Vec<u8>,
}

/// What a completed handshake establishes. Read-only afterwards.
#[derive(Debug, Clone)]
pub struct SessionEstablished {
    pub session_id: u128,
    pub device_identity: DeviceIdentity,
    pub capabilities: CapabilitySet,
    pub negotiated_version: ProtocolVersion,
}

/// An authenticated control message.
#[derive(Debug, Clone)]
pub struct ControlEnvelope {
    pub message_type: MessageType,
    pub session_id: u128,
    pub seq: u64,
    pub op: ControlOp,
    /// The payload in its canonical encoding.
    pub payload: Vec<u8>,
    pub mac: Vec<u8>,
}

/// The answer to a control envelope; `seq` echoes the envelope.
#[derive(Debug, Clone)]
pub struct Acknowledge {
    pub message_type: MessageType,
    pub session_id: u128,
    pub seq: u64,
    pub ok: bool,
    pub detail: Option<String>,
    pub mac: Vec<u8>,
}

/// One streaming data unit.
#[derive(Debug, Clone)]
pub struct FrameEnvelope {
    pub message_type: MessageType,
    pub session_id: u128,
    pub timestamp_us: u64,
    pub priority: u8,
    pub channel_format: ChannelFormat,
    pub channels: Vec<u16>,
    /// The reason of the recovery that is under way, if one is. On the wire
    /// it is the reserved metadata entry.
    pub recovery: Option<RecoveryReason>,
}


/// The reserved metadata entry that a frame carries while a recovery is
/// under way: its key, the phase, and the name of the reason.
#[derive(Debug, Clone, Copy)]
pub struct RecoveryMetadata {
    pub key: &'static str,
    pub phase: &'static str,
    pub reason: &'static str,
}

impl FrameEnvelope {
    /// The reserved metadata entry of the frame, if a recovery is under way.
    pub fn recovery_metadata(&self) -> (entry: Option<RecoveryMetadata>)
        ensures
            match (entry, self.recovery) {
                (Some(found), Some(reason)) => found.key@ == "alpine_recovery"@ && found.phase@
                    == "recovery"@ && found.reason@ == match reason {
                    RecoveryReason::SustainedLoss => "sustained_loss"@,
                    RecoveryReason::BurstLoss => "burst_loss"@,
                },
                (None, None) => true,
                _ => false,
            },
    {
        match self.recovery {
            Some(reason) => Some(
                RecoveryMetadata {
                    key: "alpine_recovery",
                    phase: "recovery",
                    reason: reason.as_str(),
                },
            ),
            None => None,
        }
    }
}

} // verus!
