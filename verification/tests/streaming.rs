use std::cell::RefCell;

use alpine::handshake::{HandshakeOutcome, SessionKeys};
use alpine::messages::{
    CapabilitySet, ChannelFormat, DeviceIdentity, FrameEnvelope, MessageType, ProtocolVersion,
    SessionEstablished,
};
use alpine::profile::{StreamIntent, StreamProfile};
use alpine::session::{AlnpRole, AlnpSession, JitterStrategy};
use alpine::stream::{
    apply_jitter, AlnpStream, FrameTransport, NetworkConditions, RecoveryEvent, RecoveryReason,
    StreamError,
};

struct RecordingTransport {
    frames: RefCell<Vec<FrameEnvelope>>,
    fail: bool,
}

impl RecordingTransport {
    fn new() -> Self {
        Self { frames: RefCell::new(Vec::new()), fail: false }
    }

    fn failing() -> Self {
        Self { frames: RefCell::new(Vec::new()), fail: true }
    }

    fn snapshots(&self) -> Vec<FrameEnvelope> {
        self.frames.borrow().clone()
    }
}

impl FrameTransport for RecordingTransport {
    fn send_frame(&self, frame: &FrameEnvelope) -> Result<(), String> {
        if self.fail {
            return Err("wire down".to_string());
        }
        self.frames.borrow_mut().push(frame.clone());
        Ok(())
    }
}

fn ready_session() -> AlnpSession {
    let mut session = AlnpSession::start_handshake(AlnpRole::Controller, 0);
    session
        .finish_handshake(
            HandshakeOutcome {
                established: SessionEstablished {
                    session_id: 0xfeed,
                    device_identity: DeviceIdentity {
                        device_id: "id".into(),
                        manufacturer_id: "manu".into(),
                        model_id: "model".into(),
                        hardware_rev: "rev1".into(),
                        firmware_rev: "1.0.6".into(),
                    },
                    capabilities: CapabilitySet::default(),
                    negotiated_version: ProtocolVersion::current(),
                },
                keys: SessionKeys { material: vec![1; 32] },
            },
            0,
        )
        .unwrap();
    session
}

#[test]
fn streaming_frames_hold_last_when_requested() {
    let mut controller = ready_session();
    controller.set_jitter_strategy(JitterStrategy::HoldLast);
    controller.mark_streaming(1);
    let transport = RecordingTransport::new();
    let mut stream = AlnpStream::new(StreamProfile::auto().compile().unwrap());
    stream
        .send(&controller, &transport, ChannelFormat::U8, vec![10, 20], 5, 1_000)
        .unwrap();
    stream
        .send(&controller, &transport, ChannelFormat::U8, Vec::new(), 5, 2_000)
        .unwrap();
    let snapshots = transport.snapshots();
    assert_eq!(snapshots.len(), 2);
    let first = &snapshots[0];
    let second = &snapshots[1];
    assert_eq!(first.channels, vec![10, 20]);
    assert_eq!(second.channels, first.channels);
    assert_eq!(first.message_type, MessageType::AlpineFrame);
    assert!(second.timestamp_us > first.timestamp_us);
    assert_eq!(first.session_id, 0xfeed);
    assert_eq!(first.priority, 5);
    assert_eq!(first.channel_format, ChannelFormat::U8);
    assert_eq!(first.recovery, None);
}

#[test]
fn profile_decides_the_strategy_unless_the_session_sets_one() {
    let session = ready_session();
    let transport = RecordingTransport::new();

    // Resilience outweighs latency: blend.
    let mut install = AlnpStream::new(StreamProfile::install().compile().unwrap());
    assert_eq!(install.jitter_strategy_from_profile(), JitterStrategy::Lerp);
    install
        .send(&session, &transport, ChannelFormat::U16, vec![100, 200, 300], 1, 10)
        .unwrap();
    install
        .send(&session, &transport, ChannelFormat::U16, vec![200, 201, 0, 7], 1, 20)
        .unwrap();
    assert_eq!(install.last_frame().unwrap().channels, vec![150, 200, 150, 3]);

    let realtime = AlnpStream::new(StreamProfile::realtime().compile().unwrap());
    assert_eq!(realtime.jitter_strategy_from_profile(), JitterStrategy::HoldLast);
    let equal = AlnpStream::new(
        StreamProfile::with_weights(StreamIntent::Auto, 30, 30).compile().unwrap(),
    );
    assert_eq!(equal.jitter_strategy_from_profile(), JitterStrategy::HoldLast);

    // Drop, set on the session, sends an empty frame as it is.
    let mut dropping = ready_session();
    dropping.set_jitter_strategy(JitterStrategy::Drop);
    let mut stream = AlnpStream::new(StreamProfile::auto().compile().unwrap());
    stream
        .send(&dropping, &transport, ChannelFormat::U8, vec![1, 2], 0, 10)
        .unwrap();
    stream
        .send(&dropping, &transport, ChannelFormat::U8, vec![], 0, 20)
        .unwrap();
    assert_eq!(stream.last_frame().unwrap().channels, Vec::<u16>::new());
}

#[test]
fn jitter_strategies() {
    let prev = vec![10u16, 20, 65_535];
    assert_eq!(apply_jitter(JitterStrategy::HoldLast, &vec![], Some(&prev)), prev);
    assert_eq!(apply_jitter(JitterStrategy::HoldLast, &vec![1], Some(&prev)), vec![1]);
    assert_eq!(apply_jitter(JitterStrategy::HoldLast, &vec![], None), Vec::<u16>::new());
    assert_eq!(apply_jitter(JitterStrategy::Drop, &vec![], Some(&prev)), Vec::<u16>::new());
    assert_eq!(apply_jitter(JitterStrategy::Drop, &vec![4, 5], Some(&prev)), vec![4, 5]);
    assert_eq!(
        apply_jitter(JitterStrategy::Lerp, &vec![20, 21, 65_535, 9], Some(&prev)),
        vec![15, 20, 65_535, 4]
    );
    assert_eq!(apply_jitter(JitterStrategy::Lerp, &vec![20, 21], None), vec![20, 21]);
    assert_eq!(apply_jitter(JitterStrategy::Lerp, &vec![], Some(&prev)), Vec::<u16>::new());
    assert_eq!(apply_jitter(JitterStrategy::Lerp, &vec![7], Some(&vec![])), vec![3]);
}

#[test]
fn sends_are_refused_unless_the_session_streams() {
    let transport = RecordingTransport::new();
    let mut stream = AlnpStream::new(StreamProfile::auto().compile().unwrap());

    let fresh = AlnpSession::new(AlnpRole::Controller, 0);
    assert!(matches!(
        stream.send(&fresh, &transport, ChannelFormat::U8, vec![1], 0, 1),
        Err(StreamError::NotAuthenticated)
    ));

    let mut disabled = ready_session();
    disabled.set_streaming_enabled(false);
    assert!(matches!(
        stream.send(&disabled, &transport, ChannelFormat::U8, vec![1], 0, 1),
        Err(StreamError::StreamingDisabled)
    ));

    let mut closed = ready_session();
    closed.set_streaming_enabled(false);
    closed.close();
    assert!(matches!(
        stream.build_frame(&closed, ChannelFormat::U8, &vec![1], 0, 1),
        Err(StreamError::NotAuthenticated)
    ));
    assert!(transport.snapshots().is_empty());
    assert!(stream.last_frame().is_none());
}

#[test]
fn failed_transport_leaves_the_last_frame() {
    let session = ready_session();
    let good = RecordingTransport::new();
    let bad = RecordingTransport::failing();
    let mut stream = AlnpStream::new(StreamProfile::auto().compile().unwrap());
    stream.send(&session, &good, ChannelFormat::U8, vec![1, 2], 0, 5).unwrap();
    assert!(matches!(
        stream.send(&session, &bad, ChannelFormat::U8, vec![9, 9], 0, 6),
        Err(StreamError::Transport(reason)) if reason == "wire down"
    ));
    assert_eq!(stream.last_frame().unwrap().channels, vec![1, 2]);
    assert_eq!(stream.last_frame().unwrap().timestamp_us, 5);
}

#[test]
fn timestamps_never_run_backwards() {
    let session = ready_session();
    let transport = RecordingTransport::new();
    let mut stream = AlnpStream::new(StreamProfile::auto().compile().unwrap());
    stream.send(&session, &transport, ChannelFormat::U8, vec![1], 0, 500).unwrap();
    stream.send(&session, &transport, ChannelFormat::U8, vec![2], 0, 400).unwrap();
    stream.send(&session, &transport, ChannelFormat::U8, vec![3], 0, 501).unwrap();
    let stamps: Vec<u64> = transport.snapshots().iter().map(|f| f.timestamp_us).collect();
    assert_eq!(stamps, vec![500, 500, 501]);
}

#[test]
fn frames_carry_the_reason_of_an_active_recovery() {
    let session = ready_session();
    let transport = RecordingTransport::new();
    let mut stream = AlnpStream::new(StreamProfile::auto().compile().unwrap());

    let mut burst = NetworkConditions::new();
    burst.record_frame(1, 0, 0);
    burst.record_frame(5, 1_000, 0);
    assert_eq!(
        stream.observe_network_conditions(&burst),
        Some(RecoveryEvent::RecoveryStarted(RecoveryReason::BurstLoss))
    );
    assert_eq!(stream.observe_network_conditions(&burst), None);
    stream.send(&session, &transport, ChannelFormat::U8, vec![1], 0, 1).unwrap();
    assert_eq!(stream.last_frame().unwrap().recovery, Some(RecoveryReason::BurstLoss));
    let entry = stream.last_frame().unwrap().recovery_metadata().unwrap();
    assert_eq!(entry.key, "alpine_recovery");
    assert_eq!(entry.phase, "recovery");
    assert_eq!(entry.reason, "burst_loss");

    let mut clean = NetworkConditions::new();
    clean.record_frame(1, 0, 10);
    clean.record_frame(2, 1, 10);
    assert_eq!(
        stream.observe_network_conditions(&clean),
        Some(RecoveryEvent::RecoveryComplete(RecoveryReason::BurstLoss))
    );
    stream.send(&session, &transport, ChannelFormat::U8, vec![1], 0, 2).unwrap();
    assert_eq!(stream.last_frame().unwrap().recovery, None);
    assert!(stream.last_frame().unwrap().recovery_metadata().is_none());
}

#[test]
fn record_sent_keeps_or_drops_the_frame() {
    let session = ready_session();
    let mut stream = AlnpStream::new(StreamProfile::auto().compile().unwrap());
    let frame = stream
        .build_frame(&session, ChannelFormat::U16, &vec![5, 6], 3, 77)
        .unwrap();
    assert!(stream.last_frame().is_none());
    assert!(matches!(
        stream.record_sent(frame.clone(), Err("lost".into())),
        Err(StreamError::Transport(reason)) if reason == "lost"
    ));
    assert!(stream.last_frame().is_none());
    stream.record_sent(frame, Ok(())).unwrap();
    let last = stream.last_frame().unwrap();
    assert_eq!(last.channels, vec![5, 6]);
    assert_eq!(last.timestamp_us, 77);
    assert_eq!(last.priority, 3);
    assert_eq!(last.channel_format, ChannelFormat::U16);
}
