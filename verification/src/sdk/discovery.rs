//! Validation of discovery replies.

use vstd::prelude::*;
use crate::crypto::identity::{ed25519_accepts, verify_ed25519};
use crate::messages::{DeviceIdentity, DiscoveryReply, MessageType, ProtocolVersion};

verus! {

/// Errors emitted by the discovery helper.
#[derive(Debug)]
pub enum DiscoveryClientError {
    /// A socket failed.
    Io(String),
    /// No reply arrived in time.
    Timeout,
    /// A reply could not be decoded.
    Decode(String),
    /// A reply is of another message type or protocol version.
    UnsupportedVersion,
    /// The signature of a reply is invalid.
    SignatureInvalid,
    /// The request could not be broadcast.
    Broadcast(String),
}

/// The bytes that a device signs in its reply: its own nonce, then the nonce
/// of the request.
pub open spec fn signed_nonces(server_nonce: Seq<u8>, client_nonce: Seq<u8>) -> Seq<u8> {
    server_nonce + client_nonce
}

/// What the validation of a reply gives: whether the reply was verified
/// against a key, or why it is refused.
pub open spec fn validation_of(
    reply: DiscoveryReply,
    expected_nonce: Seq<u8>,
    verifier: Option<Seq<u8>>,
) -> Result<bool, DiscoveryClientError> {
    if reply.message_type != MessageType::AlpineDiscoverReply || reply.alpine_version
        != ProtocolVersion::alpine() {
        Err(DiscoveryClientError::UnsupportedVersion)
    } else {
        match verifier {
            None => Ok(false),
            Some(key) => if ed25519_accepts(
                key,
                signed_nonces(reply.server_nonce@, expected_nonce),
                reply.signature@,
            ) {
                Ok(true)
            } else {
                Err(DiscoveryClientError::SignatureInvalid)
            },
        }
    }
}

/// Validates a discovery reply.
///
/// A reply of another message type or protocol version is refused. With a
/// verifying key, the signature of the reply over both nonces has to verify,
/// and the reply counts as signed; without one, the reply is taken unsigned.
pub fn validate_reply(
    reply: &DiscoveryReply,
    expected_nonce: &[u8],
    verifier: Option<&[u8; 32]>,
) -> (result: Result<bool, DiscoveryClientError>)
    ensures
        result == validation_of(
            *reply,
            expected_nonce@,
            match verifier {
                Some(key) => Some(key@),
                None => None,
            },
        ),
{
    if reply.message_type != MessageType::AlpineDiscoverReply || reply.alpine_version
        != ProtocolVersion::current() {
        return Err(DiscoveryClientError::UnsupportedVersion);
    }
    match verifier {
        Some(key) => {
            let mut data: Vec<u8> = Vec::new();
            let mut i: usize = 0;
            while i < reply.server_nonce.len()
                invariant
                    i <= reply.server_nonce@.len(),
                    data@ == reply.server_nonce@.take(i as int),
                decreases reply.server_nonce@.len() - i,
            {
                data.push(reply.server_nonce[i]);
                proof {
                    assert(data@ =~= reply.server_nonce@.take(i + 1));
                }
                i = i + 1;
            }
            proof {
                assert(reply.server_nonce@.take(i as int) =~= reply.server_nonce@);
            }
            let mut j: usize = 0;
            while j < expected_nonce.len()
                invariant
                    j <= expected_nonce@.len(),
                    data@ == reply.server_nonce@ + expected_nonce@.take(j as int),
                decreases expected_nonce@.len() - j,
            {
                data.push(expected_nonce[j]);
                proof {
                    assert(data@ =~= reply.server_nonce@ + expected_nonce@.take(j + 1));
                }
                j = j + 1;
            }
            proof {
                assert(expected_nonce@.take(j as int) =~= expected_nonce@);
            }
            if verify_ed25519(key, data.as_slice(), reply.signature.as_slice()) {
                Ok(true)
            } else {
                Err(DiscoveryClientError::SignatureInvalid)
            }
        },
        None => Ok(false),
    }
}

/// The identity that a reply announces.
pub fn identity_of(reply: &DiscoveryReply) -> (identity: DeviceIdentity)
    ensures
        identity.device_id == reply.device_id,
        identity.manufacturer_id == reply.manufacturer_id,
        identity.model_id == reply.model_id,
        identity.hardware_rev == reply.hardware_rev,
        identity.firmware_rev == reply.firmware_rev,
{
    DeviceIdentity {
        device_id: reply.device_id.clone(),
        manufacturer_id: reply.manufacturer_id.clone(),
        model_id: reply.model_id.clone(),
        hardware_rev: reply.hardware_rev.clone(),
        firmware_rev: reply.firmware_rev.clone(),
    }
}

} // verus!
