use alpine::crypto::identity::NodeCredentials;
use alpine::messages::{CapabilitySet, DiscoveryReply, MessageType, ProtocolVersion};
use alpine::sdk::discovery::{identity_of, validate_reply, DiscoveryClientError};
use alpine::session::{ChallengeAuthenticator, Ed25519Authenticator};

fn hex(text: &str) -> Vec<u8> {
    (0..text.len())
        .step_by(2)
        .map(|i| u8::from_str_radix(&text[i..i + 2], 16).unwrap())
        .collect()
}

fn secret(seed: u8) -> [u8; 32] {
    let mut bytes = [0u8; 32];
    for (i, byte) in bytes.iter_mut().enumerate() {
        *byte = seed.wrapping_mul(31).wrapping_add(i as u8 * 7);
    }
    bytes
}

fn reply(creds: &NodeCredentials, server_nonce: Vec<u8>, client_nonce: &[u8]) -> DiscoveryReply {
    let mut data = server_nonce.clone();
    data.extend_from_slice(client_nonce);
    DiscoveryReply {
        message_type: MessageType::AlpineDiscoverReply,
        alpine_version: ProtocolVersion::current(),
        device_id: "device-id".into(),
        manufacturer_id: "device-manu".into(),
        model_id: "device-model".into(),
        hardware_rev: "rev1".into(),
        firmware_rev: "1.0.6".into(),
        capabilities: CapabilitySet::default(),
        server_nonce,
        signature: creds.sign(&data),
    }
}

#[test]
fn ed25519_signature_roundtrip() {
    for seed in [0u8, 1, 77, 255] {
        let creds = NodeCredentials::from_secret(secret(seed));
        let auth = Ed25519Authenticator::new(creds);
        let nonce = b"hello-nonce";
        let sig = auth.sign_challenge(nonce);
        assert!(auth.verify_challenge(nonce, &sig));
    }
}

#[test]
fn ed25519_known_answers() {
    let creds = NodeCredentials::from_secret([1u8; 32]);
    assert_eq!(
        creds.verifying.to_vec(),
        hex("8a88e3dd7409f195fd52db2d3cba5d72ca6709bf1d94121bf3748801b40f6f5c")
    );
    assert_eq!(
        creds.sign(b"hello-nonce"),
        hex("dcfbaf392a854eb1605d6610ee80accbf59faa1fb047d7f82da38fd5b9e4df02bbe865746a04f92e8e5573c2f66711856ab4bb04eefecd53791eb1cf7b2a030a")
    );

    let mut rfc_secret = [0u8; 32];
    rfc_secret.copy_from_slice(&hex(
        "9d61b19deffd5a60ba844af492ec2cc44449c5697b326919703bac031cae7f60",
    ));
    let rfc = NodeCredentials::from_secret(rfc_secret);
    assert_eq!(
        rfc.verifying.to_vec(),
        hex("d75a980182b10ab7d54bfed3c964073a0ee172f3daa62325af021a68f707511a")
    );
    let signature = rfc.sign(b"");
    assert_eq!(
        signature,
        hex("e5564300c360ac729086e2cc806e828a84877f1eb8e5d974d873e065224901555fb8821590a33bacc61e39701cf9b46bd25bf5f0595bbe24655141438e7a100b")
    );
    assert!(rfc.verify(b"", &signature));
}

#[test]
fn ed25519_rejects_what_was_not_signed() {
    let creds = NodeCredentials::from_secret(secret(3));
    let other = NodeCredentials::from_secret(secret(4));
    let auth = Ed25519Authenticator::new(creds);
    let sig = auth.sign_challenge(b"nonce");
    assert_eq!(sig.len(), 64);
    assert!(!auth.verify_challenge(b"other", &sig));
    assert!(!Ed25519Authenticator::new(other).verify_challenge(b"nonce", &sig));
    let mut tampered = sig.clone();
    tampered[10] ^= 1;
    assert!(!auth.verify_challenge(b"nonce", &tampered));
    assert!(!auth.verify_challenge(b"nonce", &sig[..63]));
    assert!(!auth.verify_challenge(b"nonce", &[]));
    let mut long = sig.clone();
    long.push(0);
    assert!(!auth.verify_challenge(b"nonce", &long));
}

#[test]
fn authenticators_work_through_the_trait() {
    fn roundtrip<A: ChallengeAuthenticator>(auth: &A) -> bool {
        let sig = auth.sign_challenge(b"n");
        auth.verify_challenge(b"n", &sig)
    }
    assert!(roundtrip(&Ed25519Authenticator::new(NodeCredentials::from_secret(secret(9)))));
    assert!(roundtrip(&alpine::session::StaticKeyAuthenticator::default()));
}

#[test]
fn discovery_reply_is_signed_and_verifiable() {
    let creds = NodeCredentials::from_secret(secret(21));
    let server_nonce = vec![0u8; 32];
    let client_nonce = vec![1u8; 32];
    let reply = reply(&creds, server_nonce.clone(), &client_nonce);
    assert_eq!(reply.message_type, MessageType::AlpineDiscoverReply);
    assert_eq!(reply.signature.len(), 64);
    let mut data = server_nonce;
    data.extend_from_slice(&client_nonce);
    assert!(creds.verify(&data, &reply.signature));
    assert!(matches!(
        validate_reply(&reply, &client_nonce, Some(&creds.verifying)),
        Ok(true)
    ));
}

#[test]
fn discovery_reply_validation() {
    let creds = NodeCredentials::from_secret(secret(21));
    let other = NodeCredentials::from_secret(secret(22));
    let client_nonce = vec![1u8; 32];
    let good = reply(&creds, vec![5u8; 16], &client_nonce);

    assert!(matches!(validate_reply(&good, &client_nonce, None), Ok(false)));
    assert!(matches!(
        validate_reply(&good, &[2u8; 32], Some(&creds.verifying)),
        Err(DiscoveryClientError::SignatureInvalid)
    ));
    assert!(matches!(
        validate_reply(&good, &client_nonce, Some(&other.verifying)),
        Err(DiscoveryClientError::SignatureInvalid)
    ));

    let mut unsigned = good.clone();
    unsigned.signature = vec![1, 2, 3];
    assert!(matches!(
        validate_reply(&unsigned, &client_nonce, Some(&creds.verifying)),
        Err(DiscoveryClientError::SignatureInvalid)
    ));
    assert!(matches!(validate_reply(&unsigned, &client_nonce, None), Ok(false)));

    let mut wrong_type = good.clone();
    wrong_type.message_type = MessageType::AlpineDiscoverRequest;
    assert!(matches!(
        validate_reply(&wrong_type, &client_nonce, Some(&creds.verifying)),
        Err(DiscoveryClientError::UnsupportedVersion)
    ));
    let mut wrong_version = good.clone();
    wrong_version.alpine_version = ProtocolVersion { major: 2, minor: 0 };
    assert!(matches!(
        validate_reply(&wrong_version, &client_nonce, None),
        Err(DiscoveryClientError::UnsupportedVersion)
    ));

    let identity = identity_of(&good);
    assert_eq!(identity.device_id, "device-id");
    assert_eq!(identity.manufacturer_id, "device-manu");
    assert_eq!(identity.model_id, "device-model");
    assert_eq!(identity.hardware_rev, "rev1");
    assert_eq!(identity.firmware_rev, "1.0.6");
}
