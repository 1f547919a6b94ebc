use alpine::control::{mac_input, ControlClient, ControlCrypto, ControlResponder};
use alpine::handshake::{HandshakeError, SessionKeys};
use alpine::messages::{ControlEnvelope, ControlOp, MessageType};
use alpine::sdk::ClientError;
use alpine::stream::StreamError;

fn keys() -> SessionKeys {
    SessionKeys { material: vec![3; 32] }
}

fn envelope(seq: u64) -> ControlEnvelope {
    ControlClient::new(1, 2, ControlCrypto::new(keys()))
        .envelope(seq, ControlOp::Identify, vec![0xa1], Ok(vec![9, 9]))
        .unwrap()
}

#[test]
fn envelope_carries_what_it_was_built_from() {
    let client = ControlClient::new(11, 22, ControlCrypto::new(keys()));
    assert_eq!(client.device_id, 11);
    assert_eq!(client.crypto.keys().material, vec![3; 32]);
    let env = client
        .envelope(5, ControlOp::SetConfig, vec![1, 2, 3], Ok(vec![7, 8]))
        .unwrap();
    assert_eq!(env.message_type, MessageType::AlpineControl);
    assert_eq!(env.session_id, 22);
    assert_eq!(env.seq, 5);
    assert_eq!(env.op, ControlOp::SetConfig);
    assert_eq!(env.payload, vec![1, 2, 3]);
    assert_eq!(env.mac, vec![7, 8]);
    assert!(matches!(
        client.envelope(5, ControlOp::SetConfig, vec![], Err("no key".into())),
        Err(HandshakeError::Authentication(reason)) if reason == "no key"
    ));
}

#[test]
fn responder_refuses_bad_macs_and_replays() {
    let mut responder = ControlResponder::new(2, ControlCrypto::new(keys()));
    assert!(matches!(
        responder.verify(&envelope(1), false),
        Err(HandshakeError::Authentication(reason)) if reason == "control MAC validation failed"
    ));
    // A refused envelope does not use up its sequence number.
    assert!(responder.verify(&envelope(1), true).is_ok());
    assert!(matches!(
        responder.verify(&envelope(1), true),
        Err(HandshakeError::Authentication(reason)) if reason == "control sequence replayed"
    ));
    assert!(responder.verify(&envelope(5), true).is_ok());
    assert!(responder.verify(&envelope(4), true).is_err());
    assert!(responder.verify(&envelope(5), true).is_err());
    assert!(responder.verify(&envelope(6), false).is_err());
    assert!(responder.verify(&envelope(6), true).is_ok());
    assert!(responder.verify(&envelope(u64::MAX), true).is_ok());
    assert!(responder.verify(&envelope(0), true).is_err());
}

#[test]
fn first_envelope_may_carry_any_sequence_number() {
    let mut responder = ControlResponder::new(2, ControlCrypto::new(keys()));
    assert!(responder.verify(&envelope(0), true).is_ok());
    assert!(responder.verify(&envelope(0), true).is_err());
}

#[test]
fn ack_echoes_the_sequence_number() {
    let responder = ControlResponder::new(2, ControlCrypto::new(keys()));
    let ack = responder
        .ack(9, true, Some("ok".into()), Ok(vec![4, 4, 4]))
        .unwrap();
    assert_eq!(ack.message_type, MessageType::AlpineControlAck);
    assert_eq!(ack.session_id, 2);
    assert_eq!(ack.seq, 9);
    assert!(ack.ok);
    assert_eq!(ack.detail.as_deref(), Some("ok"));
    assert_eq!(ack.mac, vec![4, 4, 4]);
    assert!(matches!(
        responder.ack(9, false, None, Err("mac failed".into())),
        Err(HandshakeError::Authentication(reason)) if reason == "mac failed"
    ));
}

#[test]
fn mac_answers_become_results() {
    let crypto = ControlCrypto::new(keys());
    assert_eq!(crypto.mac_for_payload(Ok(vec![1])).unwrap(), vec![1]);
    assert!(crypto.mac_for_payload(Err("x".into())).is_err());
    assert!(crypto.verify_mac(true).is_ok());
    assert!(crypto.verify_mac(false).is_err());
}

#[test]
fn client_errors_wrap_their_cause() {
    assert!(matches!(
        ClientError::from_handshake(HandshakeError::Transport("t".into())),
        ClientError::Handshake(HandshakeError::Transport(reason)) if reason == "t"
    ));
    assert!(matches!(
        ClientError::from_stream(StreamError::StreamingDisabled),
        ClientError::Stream(StreamError::StreamingDisabled)
    ));
}

fn toy_mac(keys: &SessionKeys, seq: u64, payload: &[u8], session_id: u128) -> Vec<u8> {
    let message = mac_input(seq, session_id, payload);
    let mut state = 0xcbf2_9ce4_8422_2325_u64;
    for byte in keys.material.iter().chain(message.iter()) {
        state = state.rotate_left(7) ^ (*byte as u64);
        state = state.wrapping_mul(0x100_0000_01b3);
    }
    state.to_be_bytes().to_vec()
}

fn cbor(value: &serde_json::Value) -> Vec<u8> {
    serde_cbor::to_vec(value).unwrap()
}

#[test]
fn control_mac_roundtrip() {
    let session_id = 0x1234_5678_9abc_def0_u128;
    let controller_keys = keys();
    let mut status = serde_json::Map::new();
    status.insert("status".to_string(), serde_json::Value::String("ping".to_string()));
    let payload = cbor(&serde_json::Value::Object(status));

    let client = ControlClient::new(7, session_id, ControlCrypto::new(controller_keys.clone()));
    let mut responder = ControlResponder::new(session_id, ControlCrypto::new(controller_keys.clone()));
    let mac = toy_mac(client.crypto.keys(), 1, &payload, client.session_id);
    let envelope = client
        .envelope(1, ControlOp::Identify, payload.clone(), Ok(mac))
        .unwrap();
    let verified = toy_mac(
        responder.crypto.keys(),
        envelope.seq,
        &envelope.payload,
        envelope.session_id,
    ) == envelope.mac;
    responder.verify(&envelope, verified).unwrap();

    let mut fields = serde_json::Map::new();
    fields.insert("ok".to_string(), serde_json::Value::Bool(true));
    fields.insert("detail".to_string(), serde_json::Value::String("ok".to_string()));
    let ack_payload = cbor(&serde_json::Value::Object(fields));
    let ack_mac = toy_mac(responder.crypto.keys(), envelope.seq, &ack_payload, session_id);
    let ack = responder
        .ack(envelope.seq, true, Some("ok".into()), Ok(ack_mac))
        .unwrap();
    let expected_mac = toy_mac(&controller_keys, ack.seq, &ack_payload, session_id);
    assert_eq!(expected_mac, ack.mac);

    // A tampered payload does not verify and is refused.
    let mut tampered = envelope.clone();
    tampered.seq = 2;
    tampered.payload.push(0);
    let verified = toy_mac(
        responder.crypto.keys(),
        tampered.seq,
        &tampered.payload,
        tampered.session_id,
    ) == tampered.mac;
    assert!(responder.verify(&tampered, verified).is_err());
}

#[test]
fn mac_input_is_sequence_then_session_then_payload() {
    assert_eq!(
        mac_input(0x0102_0304_0506_0708, 0x1112_1314_1516_1718_191a_1b1c_1d1e_1f20, &[0xaa, 0xbb]),
        vec![
            0x01, 0x02, 0x03, 0x04, 0x05, 0x06, 0x07, 0x08, 0x11, 0x12, 0x13, 0x14, 0x15, 0x16,
            0x17, 0x18, 0x19, 0x1a, 0x1b, 0x1c, 0x1d, 0x1e, 0x1f, 0x20, 0xaa, 0xbb
        ]
    );
    assert_eq!(mac_input(0, 0, &[]), vec![0u8; 24]);
    let mut expected = vec![0xffu8; 24];
    expected.push(7);
    assert_eq!(mac_input(u64::MAX, u128::MAX, &[7]), expected);
    assert_eq!(mac_input(1, 2, &[])[7], 1);
    assert_eq!(mac_input(1, 2, &[])[23], 2);
}
