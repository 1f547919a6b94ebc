//! Challenge authentication: with a shared secret, and with Ed25519
//! credentials.

use vstd::prelude::*;
use vstd::string::StringSliceAdditionalSpecFns;
use crate::crypto::identity::{ed25519_accepts, ed25519_signature, NodeCredentials};

verus! {

/// Signs handshake challenges and verifies the signatures of the peer.
pub trait ChallengeAuthenticator {
    /// The signature over a nonce.
    fn sign_challenge(&self, nonce: &[u8]) -> Vec<u8>;

    /// Whether `signature` is a signature over `nonce`.
    fn verify_challenge(&self, nonce: &[u8], signature: &[u8]) -> bool;
}

/// The signature of a shared secret over a nonce: the secret, then the nonce.
pub open spec fn static_signature(secret: Seq<u8>, nonce: Seq<u8>) -> Seq<u8> {
    secret + nonce
}

/// A signature is accepted if it begins with the secret and ends with the
/// nonce.
pub open spec fn static_signature_accepted(secret: Seq<u8>, nonce: Seq<u8>, signature: Seq<u8>) -> bool {
    secret.is_prefix_of(signature) && nonce.is_suffix_of(signature)
}

/// Every signature that is made with a secret is accepted with that secret.
pub proof fn static_signature_roundtrip(secret: Seq<u8>, nonce: Seq<u8>)
    ensures
        static_signature_accepted(secret, nonce, static_signature(secret, nonce)),
{
    let signature = secret + nonce;
    assert(signature.subrange(0, secret.len() as int) =~= secret);
    assert(signature.subrange(signature.len() - nonce.len(), signature.len() as int) =~= nonce);
}

/// Tests whether `part` stands in `whole` from position `at` on.
fn matches_at(whole: &[u8], part: &[u8], at: usize) -> (found: bool)
    requires
        at + part@.len() <= whole@.len(),
    ensures
        found == (whole@.subrange(at as int, at + part@.len()) == part@),
{
    let total: usize = whole.len();
    let mut i: usize = 0;
    while i < part.len()
        invariant
            i <= part@.len(),
            total == whole@.len(),
            at + part@.len() <= whole@.len(),
            whole@.subrange(at as int, at + i) == part@.take(i as int),
        decreases part@.len() - i,
    {
        if whole[at + i] != part[i] {
            proof {
                let window = whole@.subrange(at as int, at + part@.len());
                assert(window[i as int] != part@[i as int]);
            }
            return false;
        }
        proof {
            assert(whole@.subrange(at as int, at + i + 1) =~= whole@.subrange(
                at as int,
                at + i,
            ).push(whole@[at + i]));
            assert(part@.take(i + 1) =~= part@.take(i as int).push(part@[i as int]));
        }
        i = i + 1;
    }
    proof {
        assert(part@.take(i as int) =~= part@);
    }
    true
}

/// Shared-secret authenticator for signing and verification.
pub struct StaticKeyAuthenticator {
    secret: Vec<u8>,
}

impl View for StaticKeyAuthenticator {
    type V = Seq<u8>;

    /// The shared secret.
    closed spec fn view(&self) -> Seq<u8> {
        self.secret@
    }
}

impl StaticKeyAuthenticator {
    /// An authenticator for the given secret.
    pub fn new(secret: Vec<u8>) -> (auth: Self)
        ensures
            auth@ == secret@,
    {
        Self { secret }
    }

    /// Signs a nonce: the secret followed by the nonce.
    pub fn sign_challenge(&self, nonce: &[u8]) -> (signature: Vec<u8>)
        ensures
            signature@ == static_signature(self@, nonce@),
    {
        let mut signature: Vec<u8> = Vec::new();
        let mut i: usize = 0;
        while i < self.secret.len()
            invariant
                i <= self.secret@.len(),
                signature@ == self.secret@.take(i as int),
            decreases self.secret@.len() - i,
        {
            signature.push(self.secret[i]);
            proof {
                assert(signature@ =~= self.secret@.take(i + 1));
            }
            i = i + 1;
        }
        let mut j: usize = 0;
        while j < nonce.len()
            invariant
                j <= nonce@.len(),
                signature@ == self.secret@ + nonce@.take(j as int),
            decreases nonce@.len() - j,
        {
            signature.push(nonce[j]);
            proof {
                assert(signature@ =~= self.secret@ + nonce@.take(j + 1));
            }
            j = j + 1;
        }
        proof {
            assert(nonce@.take(j as int) =~= nonce@);
        }
        signature
    }

    /// Accepts a signature that begins with the secret and ends with the
    /// nonce.
    pub fn verify_challenge(&self, nonce: &[u8], signature: &[u8]) -> (accepted: bool)
        ensures
            accepted == static_signature_accepted(self@, nonce@, signature@),
    {
        let secret = self.secret.as_slice();
        if secret.len() > signature.len() || nonce.len() > signature.len() {
            return false;
        }
        let tail: usize = signature.len() - nonce.len();
        matches_at(signature, secret, 0) && matches_at(signature, nonce, tail)
    }
}

impl Default for StaticKeyAuthenticator {
    /// The authenticator of the well-known default secret.
    fn default() -> (auth: Self)
        ensures
            auth@ == "default-alnp-secret".spec_bytes(),
    {
        let text = "default-alnp-secret";
        let bytes = text.as_bytes();
        let mut secret: Vec<u8> = Vec::new();
        let mut i: usize = 0;
        while i < bytes.len()
            invariant
                i <= bytes@.len(),
                secret@ == bytes@.take(i as int),
            decreases bytes@.len() - i,
        {
            secret.push(bytes[i]);
            proof {
                assert(secret@ =~= bytes@.take(i + 1));
            }
            i = i + 1;
        }
        proof {
            assert(bytes@.take(i as int) =~= bytes@);
        }
        Self::new(secret)
    }
}

/// Ed25519-based authenticator using loaded credentials.
pub struct Ed25519Authenticator {
    creds: NodeCredentials,
}

impl View for Ed25519Authenticator {
    type V = NodeCredentials;

    /// The credentials that the authenticator signs and verifies with.
    closed spec fn view(&self) -> NodeCredentials {
        self.creds
    }
}

impl Ed25519Authenticator {
    /// An authenticator for the given credentials.
    pub fn new(creds: NodeCredentials) -> (auth: Self)
        ensures
            auth@ == creds,
    {
        Self { creds }
    }

    /// Signs a nonce with the signing key: an Ed25519 signature of 64 bytes.
    pub fn sign_challenge(&self, nonce: &[u8]) -> (signature: Vec<u8>)
        ensures
            signature@ == ed25519_signature(self@.signing@, nonce@),
            signature@.len() == 64,
    {
        self.creds.sign(nonce)
    }

    /// Accepts what Ed25519 verification with the verifying key accepts;
    /// bytes that are no signature are not accepted.
    pub fn verify_challenge(&self, nonce: &[u8], signature: &[u8]) -> (accepted: bool)
        ensures
            accepted == ed25519_accepts(self@.verifying@, nonce@, signature@),
            signature@.len() != 64 ==> !accepted,
    {
        self.creds.verify(nonce, signature)
    }
}

impl ChallengeAuthenticator for Ed25519Authenticator {
    fn sign_challenge(&self, nonce: &[u8]) -> (signature: Vec<u8>)
        ensures
            signature@ == ed25519_signature(self@.signing@, nonce@),
    {
        Ed25519Authenticator::sign_challenge(self, nonce)
    }

    fn verify_challenge(&self, nonce: &[u8], signature: &[u8]) -> (accepted: bool)
        ensures
            accepted == ed25519_accepts(self@.verifying@, nonce@, signature@),
    {
        Ed25519Authenticator::verify_challenge(self, nonce, signature)
    }
}

impl ChallengeAuthenticator for StaticKeyAuthenticator {
    fn sign_challenge(&self, nonce: &[u8]) -> (signature: Vec<u8>)
        ensures
            signature@ == static_signature(self@, nonce@),
    {
        StaticKeyAuthenticator::sign_challenge(self, nonce)
    }

    fn verify_challenge(&self, nonce: &[u8], signature: &[u8]) -> (accepted: bool)
        ensures
            accepted == static_signature_accepted(self@, nonce@, signature@),
    {
        StaticKeyAuthenticator::verify_challenge(self, nonce, signature)
    }
}

} // verus!
