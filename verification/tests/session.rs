use alpine::handshake::{HandshakeError, HandshakeOutcome, SessionKeys};
use alpine::messages::{
    CapabilitySet, ChannelFormat, DeviceIdentity, ErrorCode, ProtocolVersion, SessionEstablished,
};
use alpine::profile::StreamProfile;
use alpine::session::state::{SessionState, SessionStateError};
use alpine::session::{AlnpRole, AlnpSession, JitterStrategy, StaticKeyAuthenticator};

fn outcome(session_id: u128) -> HandshakeOutcome {
    HandshakeOutcome {
        established: SessionEstablished {
            session_id,
            device_identity: DeviceIdentity {
                device_id: "00000000-0000-0000-0000-00000000002a".into(),
                manufacturer_id: "node-manu".into(),
                model_id: "node-model".into(),
                hardware_rev: "rev1".into(),
                firmware_rev: "1.0.6".into(),
            },
            capabilities: CapabilitySet::default(),
            negotiated_version: ProtocolVersion::current(),
        },
        keys: SessionKeys { material: vec![7; 32] },
    }
}

fn ready_session(now_ms: u64) -> AlnpSession {
    let mut session = AlnpSession::start_handshake(AlnpRole::Controller, now_ms);
    session.finish_handshake(outcome(42), now_ms).unwrap();
    session
}

#[test]
fn session_state_transitions() {
    let init = SessionState::Init;
    let handshake = init.transition(SessionState::Handshake).unwrap();
    let auth = handshake
        .transition(SessionState::Authenticated { since: 0 })
        .unwrap();
    let ready = auth.transition(SessionState::Ready { since: 0 }).unwrap();
    assert!(ready
        .transition(SessionState::Streaming { since: 0 })
        .is_ok());
}

#[test]
fn static_key_authenticator_roundtrip() {
    let auth = StaticKeyAuthenticator::default();
    let nonce = b"bytes";
    let sig = auth.sign_challenge(nonce);
    assert!(auth.verify_challenge(nonce, &sig));
}

#[test]
fn static_signature_is_secret_then_nonce() {
    let auth = StaticKeyAuthenticator::new(vec![1, 2, 3]);
    assert_eq!(auth.sign_challenge(&[9, 8]), vec![1, 2, 3, 9, 8]);
    assert_eq!(auth.sign_challenge(&[]), vec![1, 2, 3]);
    let default = StaticKeyAuthenticator::default();
    assert_eq!(default.sign_challenge(b"n"), b"default-alnp-secretn".to_vec());
}

#[test]
fn static_verification_tests_prefix_and_suffix() {
    let auth = StaticKeyAuthenticator::new(vec![1, 2, 3]);
    assert!(auth.verify_challenge(&[9, 8], &[1, 2, 3, 9, 8]));
    assert!(auth.verify_challenge(&[9, 8], &[1, 2, 3, 0, 9, 8]));
    assert!(auth.verify_challenge(&[3], &[1, 2, 3]));
    assert!(!auth.verify_challenge(&[9, 8], &[1, 2, 3, 9, 7]));
    assert!(!auth.verify_challenge(&[9, 8], &[0, 2, 3, 9, 8]));
    assert!(!auth.verify_challenge(&[9, 8], &[1, 2]));
    assert!(!auth.verify_challenge(&[1, 2, 3, 9, 8, 7], &[1, 2, 3, 9, 8]));
}

#[test]
fn illegal_transitions_are_refused() {
    assert_eq!(
        SessionState::Init.transition(SessionState::Ready { since: 0 }).unwrap_err(),
        SessionStateError::InvalidTransition
    );
    assert!(SessionState::Streaming { since: 0 }
        .transition(SessionState::Ready { since: 1 })
        .is_err());
    assert!(SessionState::Closed.transition(SessionState::Handshake).is_err());
    assert!(SessionState::Closed.transition(SessionState::Closed).is_err());
    assert!(SessionState::Failed("x".into())
        .transition(SessionState::Closed)
        .is_err());
    assert!(SessionState::Handshake.transition(SessionState::Handshake).is_err());
    assert!(matches!(
        SessionState::Handshake.transition(SessionState::Closed),
        Ok(SessionState::Closed)
    ));
    assert!(matches!(
        SessionState::Streaming { since: 3 }.transition(SessionState::Failed("lost".into())),
        Ok(SessionState::Failed(reason)) if reason == "lost"
    ));
    assert_eq!(
        SessionStateError::InvalidTransition.message(),
        "invalid session state transition"
    );
}

#[test]
fn new_session_is_initial() {
    let session = AlnpSession::new(AlnpRole::Node, 5);
    assert_eq!(session.role, AlnpRole::Node);
    assert!(matches!(session.state(), SessionState::Init));
    assert!(session.established().is_none());
    assert!(session.keys().is_none());
    assert!(session.compiled_profile().is_none());
    assert_eq!(session.profile_config_id(), None);
    assert_eq!(session.jitter_strategy(), JitterStrategy::HoldLast);
    assert_eq!(session.jitter_override(), None);
    assert!(session.streaming_enabled());
}

#[test]
fn handshake_completion_makes_the_session_ready() {
    let mut session = AlnpSession::start_handshake(AlnpRole::Controller, 100);
    assert!(matches!(session.state(), SessionState::Handshake));
    assert!(matches!(
        session.ensure_streaming_ready(),
        Err(HandshakeError::Authentication(reason)) if reason == "session not ready; streaming blocked"
    ));
    session.finish_handshake(outcome(42), 150).unwrap();
    assert!(matches!(session.state(), SessionState::Ready { since: 150 }));
    assert_eq!(session.established().unwrap().session_id, 42);
    assert_eq!(session.keys().unwrap().material, vec![7; 32]);
    assert_eq!(session.ensure_streaming_ready().unwrap().session_id, 42);

    let mut fresh = AlnpSession::new(AlnpRole::Node, 0);
    assert!(matches!(
        fresh.finish_handshake(outcome(1), 0),
        Err(HandshakeError::Protocol(reason)) if reason == "invalid session state transition"
    ));
    assert!(matches!(fresh.state(), SessionState::Init));
    assert!(fresh.established().is_none());
}

#[test]
fn ready_state_without_established_session_is_refused() {
    let mut session = AlnpSession::new(AlnpRole::Controller, 0);
    session.transition(SessionState::Handshake).unwrap();
    session.transition(SessionState::Authenticated { since: 1 }).unwrap();
    session.transition(SessionState::Ready { since: 2 }).unwrap();
    assert!(matches!(
        session.ensure_streaming_ready(),
        Err(HandshakeError::Authentication(reason))
            if reason == "session missing even though state is ready"
    ));
    assert_eq!(
        session.transition(SessionState::Handshake),
        Err(SessionStateError::InvalidTransition)
    );
    assert!(matches!(session.state(), SessionState::Ready { since: 2 }));
}

#[test]
fn profile_is_locked_once_streaming_is_marked() {
    let mut session = ready_session(0);
    let auto = StreamProfile::auto().compile().unwrap();
    let realtime = StreamProfile::realtime().compile().unwrap();
    let auto_id = auto.config_id().to_string();
    session.set_stream_profile(realtime).unwrap();
    session.set_stream_profile(auto).unwrap();
    assert_eq!(session.profile_config_id(), Some(auto_id.clone()));

    session.mark_streaming(10);
    assert!(matches!(session.state(), SessionState::Streaming { since: 10 }));
    let install = StreamProfile::install().compile().unwrap();
    assert!(matches!(
        session.set_stream_profile(install),
        Err(HandshakeError::Protocol(reason))
            if reason == "stream profile cannot be changed after streaming starts"
    ));
    assert_eq!(session.profile_config_id(), Some(auto_id.clone()));

    // The lock outlasts everything that follows.
    session.update_keepalive(20);
    session.set_streaming_enabled(false);
    session.set_jitter_strategy(JitterStrategy::Drop);
    session.mark_streaming(30);
    session.close();
    assert!(session
        .set_stream_profile(StreamProfile::install().compile().unwrap())
        .is_err());
    assert_eq!(session.compiled_profile().unwrap().config_id(), auto_id);
}

#[test]
fn mark_streaming_locks_the_profile_in_any_state() {
    let mut session = AlnpSession::new(AlnpRole::Controller, 0);
    session.mark_streaming(1);
    assert!(matches!(session.state(), SessionState::Init));
    assert!(session
        .set_stream_profile(StreamProfile::auto().compile().unwrap())
        .is_err());
    assert!(session.compiled_profile().is_none());
}

#[test]
fn session_times_out_without_keepalive() {
    let mut session = ready_session(1_000);
    assert!(session.check_timeouts(11_000).is_ok());
    assert!(matches!(session.state(), SessionState::Ready { .. }));
    assert!(matches!(
        session.check_timeouts(11_001),
        Err(HandshakeError::Transport(reason)) if reason == "session timeout"
    ));
    assert!(matches!(session.state(), SessionState::Failed(reason) if reason == "session timeout"));
    assert!(matches!(
        session.ensure_streaming_ready(),
        Err(HandshakeError::Authentication(reason)) if reason == "session timeout"
    ));
}

#[test]
fn keepalive_postpones_the_timeout() {
    let mut session = ready_session(0);
    session.update_keepalive(9_000);
    assert!(session.check_timeouts(19_000).is_ok());
    assert!(session.check_timeouts(5_000).is_ok());
    assert!(session.check_timeouts(19_001).is_err());
}

#[test]
fn close_and_fail_are_unconditional() {
    let mut session = ready_session(0);
    session.close();
    assert!(matches!(session.state(), SessionState::Closed));
    assert!(session.keys().is_none());
    assert!(session.established().is_some());
    assert!(session.ensure_streaming_ready().is_err());
    session.fail("state poisoned".into());
    assert!(matches!(session.state(), SessionState::Failed(reason) if reason == "state poisoned"));
    session.close();
    assert!(matches!(session.state(), SessionState::Closed));
}

#[test]
fn jitter_strategy_and_streaming_flag_are_kept() {
    let mut session = AlnpSession::new(AlnpRole::Controller, 0);
    session.set_jitter_strategy(JitterStrategy::Lerp);
    assert_eq!(session.jitter_strategy(), JitterStrategy::Lerp);
    assert_eq!(session.jitter_override(), Some(JitterStrategy::Lerp));
    session.set_streaming_enabled(false);
    assert!(!session.streaming_enabled());
    session.set_streaming_enabled(true);
    assert!(session.streaming_enabled());
}

#[test]
fn apply_outcome_stores_the_handshake_result() {
    let mut session = AlnpSession::new(AlnpRole::Node, 0);
    session.apply_outcome(outcome(77));
    assert_eq!(session.established().unwrap().session_id, 77);
    assert_eq!(session.established().unwrap().device_identity.model_id, "node-model");
    assert!(session.keys().is_some());
    assert!(matches!(session.state(), SessionState::Init));
}

#[test]
fn capability_defaults_cover_spec_requirements() {
    let caps = CapabilitySet::default();
    assert!(caps.streaming_supported);
    assert!(caps.encryption_supported);
    assert!(caps.channel_formats.contains(&ChannelFormat::U8));
    assert_eq!(caps.max_channels, 512);
}

#[test]
fn error_codes_serialize_as_expected() {
    let json = serde_json::to_string(ErrorCode::HandshakeTimeout.as_str()).unwrap();
    assert_eq!(json, "\"HANDSHAKE_TIMEOUT\"");
}

#[test]
fn error_code_names() {
    assert_eq!(ErrorCode::AuthFailed.as_str(), "AUTH_FAILED");
    assert_eq!(ErrorCode::ReplayDetected.as_str(), "REPLAY_DETECTED");
    assert_eq!(ErrorCode::ProfileLocked.as_str(), "PROFILE_LOCKED");
    assert_eq!(ErrorCode::NotReady.as_str(), "NOT_READY");
    assert_eq!(ErrorCode::StreamingDisabled.as_str(), "STREAMING_DISABLED");
    assert_eq!(ErrorCode::Transport.as_str(), "TRANSPORT");
}
