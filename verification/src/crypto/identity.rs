//! Ed25519 credentials of a node, held as key bytes.

use ed25519_dalek::{Signature, Signer, SigningKey, Verifier, VerifyingKey};
use vstd::prelude::*;

verus! {

/// The Ed25519 signature that a secret key gives for a message.
pub uninterp spec fn ed25519_signature(secret: Seq<u8>, message: Seq<u8>) -> Seq<u8>;

/// Whether Ed25519 verification with a public key accepts a signature for a
/// message.
pub uninterp spec fn ed25519_accepts(public: Seq<u8>, message: Seq<u8>, signature: Seq<u8>) -> bool;

/// The Ed25519 public key that belongs to a secret key.
pub uninterp spec fn ed25519_public_key(secret: Seq<u8>) -> Seq<u8>;

/// Calls `ed25519_dalek::SigningKey::sign` with the key made from the secret
/// bytes. Signing is deterministic, so the result is taken to be a function
/// of the secret and the message; a signature is 64 bytes long.
#[verifier::external_body]
fn sign_ed25519(secret: &[u8; 32], message: &[u8]) -> (signature: Vec<u8>)
    ensures
        signature@ == ed25519_signature(secret@, message@),
        signature@.len() == 64,
{
    SigningKey::from_bytes(secret).sign(message).to_bytes().to_vec()
}

/// Calls `ed25519_dalek::VerifyingKey::verify` with the key and signature
/// made from the given bytes. Bytes that are no public key or no signature
/// are not accepted; a signature has to be 64 bytes long.
#[verifier::external_body]
pub(crate) fn verify_ed25519(public: &[u8; 32], message: &[u8], signature: &[u8]) -> (accepted: bool)
    ensures
        accepted == ed25519_accepts(public@, message@, signature@),
        signature@.len() != 64 ==> !accepted,
{
    match (VerifyingKey::from_bytes(public), Signature::from_slice(signature)) {
        (Ok(key), Ok(parsed)) => key.verify(message, &parsed).is_ok(),
        _ => false,
    }
}

/// Calls `ed25519_dalek::SigningKey::verifying_key` on the key made from the
/// secret bytes and returns the bytes of the public key.
#[verifier::external_body]
fn public_key_ed25519(secret: &[u8; 32]) -> (public: [u8; 32])
    ensures
        public@ == ed25519_public_key(secret@),
{
    SigningKey::from_bytes(secret).verifying_key().to_bytes()
}

/// The signing key of a node and the key that its signatures are verified
/// with.
#[derive(Debug, Clone, Copy)]
pub struct NodeCredentials {
    pub signing: [u8; 32],
    pub verifying: [u8; 32],
}

impl NodeCredentials {
    /// The credentials that belong to a secret key.
    pub fn from_secret(secret: [u8; 32]) -> (creds: Self)
        ensures
            creds.signing@ == secret@,
            creds.verifying@ == ed25519_public_key(secret@),
    {
        let verifying = public_key_ed25519(&secret);
        Self { signing: secret, verifying }
    }

    /// Signs a message with the signing key.
    pub fn sign(&self, message: &[u8]) -> (signature: Vec<u8>)
        ensures
            signature@ == ed25519_signature(self.signing@, message@),
            signature@.len() == 64,
    {
        sign_ed25519(&self.signing, message)
    }

    /// Verifies a signature for a message with the verifying key.
    pub fn verify(&self, message: &[u8], signature: &[u8]) -> (accepted: bool)
        ensures
            accepted == ed25519_accepts(self.verifying@, message@, signature@),
            signature@.len() != 64 ==> !accepted,
    {
        verify_ed25519(&self.verifying, message, signature)
    }
}

} // verus!
