//! Streaming plane: the frame builder with its jitter handling, and the
//! arrival telemetry, recovery signalling and adaptation that steer it.

use vstd::prelude::*;
use crate::messages::{ChannelFormat, FrameEnvelope, MessageType};
use crate::profile::{CompiledSpec, CompiledStreamProfile};
use crate::session::{AlnpSession, JitterStrategy, SessionModel};

pub mod adaptive;
pub mod network;
pub mod recovery;

pub use network::{NetworkConditions, NetworkMetrics};
pub use recovery::{RecoveryEvent, RecoveryMonitor, RecoveryReason};

verus! {

/// Transport that carries finished frames to the peer. Its implementations
/// encode the frame and put it on the wire.
pub trait FrameTransport {
    /// Sends the frame, or says why it could not.
    fn send_frame(&self, frame: &FrameEnvelope) -> Result<(), String>;
}

/// Errors emitted from the streaming helper.
#[derive(Debug)]
pub enum StreamError {
    /// The session is not in a state in which frames may be sent.
    NotAuthenticated,
    /// The transport refused the frame.
    Transport(String),
    /// Streaming is disabled on the session.
    StreamingDisabled,
    /// There is no session.
    MissingSession,
}

/// The strategy that a profile calls for: hold the last frame where latency
/// weighs at least as much as resilience, blend otherwise.
pub open spec fn strategy_of_profile(profile: CompiledSpec) -> JitterStrategy {
    if profile.latency_weight >= profile.resilience_weight {
        JitterStrategy::HoldLast
    } else {
        JitterStrategy::Lerp
    }
}

/// The strategy that a send uses: the one set on the session, and the one
/// of the profile where none was set.
pub open spec fn strategy_in_force(session: SessionModel, profile: CompiledSpec) -> JitterStrategy {
    match session.jitter {
        Some(set) => set,
        None => strategy_of_profile(profile),
    }
}

/// The value of a channel in the frame before, zero where it had none.
pub open spec fn previous_value(previous: Seq<u16>, index: int) -> u16 {
    if 0 <= index < previous.len() {
        previous[index]
    } else {
        0
    }
}

/// Each channel halfway between its value in the frame before and its new
/// value, rounded down.
pub open spec fn blended(channels: Seq<u16>, previous: Seq<u16>) -> Seq<u16> {
    Seq::new(channels.len(), |i: int| ((previous_value(previous, i) + channels[i]) / 2) as u16)
}

/// The channels that go out for the given input.
///
/// Hold-last repeats the frame before when the input is empty. Drop sends
/// the input as it is. Lerp blends the input with the frame before. Without
/// a frame before, every strategy sends the input as it is.
pub open spec fn jittered(
    strategy: JitterStrategy,
    channels: Seq<u16>,
    previous: Option<Seq<u16>>,
) -> Seq<u16> {
    match (strategy, previous) {
        (JitterStrategy::HoldLast, Some(held)) => if channels.len() == 0 {
            held
        } else {
            channels
        },
        (JitterStrategy::Lerp, Some(before)) => blended(channels, before),
        _ => channels,
    }
}

/// Applies a jitter strategy to the channels of a frame.
pub fn apply_jitter(
    strategy: JitterStrategy,
    channels: &Vec<u16>,
    previous: Option<&Vec<u16>>,
) -> (adjusted: Vec<u16>)
    ensures
        adjusted@ == jittered(
            strategy,
            channels@,
            match previous {
                Some(before) => Some(before@),
                None => None,
            },
        ),
{
    match (strategy, previous) {
        (JitterStrategy::HoldLast, Some(held)) => {
            if channels.len() == 0 {
                copy_channels(held)
            } else {
                copy_channels(channels)
            }
        },
        (JitterStrategy::Lerp, Some(before)) => {
            let mut mixed: Vec<u16> = Vec::with_capacity(channels.len());
            let mut idx: usize = 0;
            while idx < channels.len()
                invariant
                    idx <= channels.len(),
                    mixed@ == blended(channels@, before@).take(idx as int),
                decreases channels.len() - idx,
            {
                let prev: u16 = if idx < before.len() {
                    before[idx]
                } else {
                    0
                };
                let value: u16 = channels[idx];
                let mean: u32 = (prev as u32 + value as u32) / 2;
                mixed.push(mean as u16);
                proof {
                    assert(mixed@ =~= blended(channels@, before@).take(idx + 1));
                }
                idx = idx + 1;
            }
            proof {
                assert(mixed@ =~= blended(channels@, before@));
            }
            mixed
        },
        _ => copy_channels(channels),
    }
}

/// A copy of a list of channel values.
fn copy_channels(channels: &Vec<u16>) -> (copy: Vec<u16>)
    ensures
        copy@ == channels@,
{
    let mut copy: Vec<u16> = Vec::with_capacity(channels.len());
    let mut idx: usize = 0;
    while idx < channels.len()
        invariant
            idx <= channels.len(),
            copy@ == channels@.take(idx as int),
        decreases channels.len() - idx,
    {
        copy.push(channels[idx]);
        proof {
            assert(copy@ =~= channels@.take(idx + 1));
        }
        idx = idx + 1;
    }
    proof {
        assert(channels@.take(idx as int) =~= channels@);
    }
    copy
}

/// The streaming side of a session as plain values.
pub struct StreamModel {
    pub profile: CompiledSpec,
    pub last_frame: Option<FrameEnvelope>,
    pub recovery: Option<RecoveryReason>,
}

/// What a frame is made from.
pub struct FrameRequest {
    pub channel_format: ChannelFormat,
    pub channels: Seq<u16>,
    pub priority: u8,
    pub now_us: u64,
}

impl StreamModel {
    /// The channels of the frame before, if there was one.
    pub open spec fn previous_channels(self) -> Option<Seq<u16>> {
        match self.last_frame {
            Some(frame) => Some(frame.channels@),
            None => None,
        }
    }

    /// The timestamp of a frame built at `now_us`: the reading of the clock,
    /// but never before the timestamp of the frame before.
    pub open spec fn timestamp_for(self, now_us: u64) -> u64 {
        match self.last_frame {
            Some(frame) if frame.timestamp_us > now_us => frame.timestamp_us,
            _ => now_us,
        }
    }

    /// Why a send on this session is refused before a frame is built, if it
    /// is.
    pub open spec fn refusal(self, session: SessionModel) -> Option<StreamError> {
        if session.refusal() is Some {
            Some(StreamError::NotAuthenticated)
        } else if !session.streaming_enabled {
            Some(StreamError::StreamingDisabled)
        } else {
            None
        }
    }

    /// The frame `frame` is the one that a request gives on this session.
    pub open spec fn is_frame_for(
        self,
        session: SessionModel,
        request: FrameRequest,
        frame: FrameEnvelope,
    ) -> bool {
        &&& session.established matches Some(established) && frame.session_id
            == established.session_id
        &&& frame.message_type == MessageType::AlpineFrame
        &&& frame.timestamp_us == self.timestamp_for(request.now_us)
        &&& frame.priority == request.priority
        &&& frame.channel_format == request.channel_format
        &&& frame.channels@ == jittered(
            strategy_in_force(session, self.profile),
            request.channels,
            self.previous_channels(),
        )
        &&& frame.recovery == self.recovery
    }
}

/// Frame builder of a session, bound to a compiled profile.
#[derive(Debug)]
pub struct AlnpStream {
    last_frame: Option<FrameEnvelope>,
    profile: CompiledStreamProfile,
    recovery: RecoveryMonitor,
}

impl View for AlnpStream {
    type V = StreamModel;

    closed spec fn view(&self) -> StreamModel {
        StreamModel {
            profile: self.profile@,
            last_frame: self.last_frame,
            recovery: self.recovery@,
        }
    }
}

impl AlnpStream {
    /// Builds a new streaming helper bound to a compiled profile. No frame
    /// has been sent and no recovery is under way.
    pub fn new(profile: CompiledStreamProfile) -> (stream: Self)
        ensures
            stream@ == (StreamModel { profile: profile@, last_frame: None, recovery: None }),
    {
        Self { last_frame: None, profile, recovery: RecoveryMonitor::new() }
    }

    /// The jitter strategy that the profile calls for.
    pub fn jitter_strategy_from_profile(&self) -> (strategy: JitterStrategy)
        ensures
            strategy == strategy_of_profile(self@.profile),
    {
        if self.profile.latency_weight() >= self.profile.resilience_weight() {
            JitterStrategy::HoldLast
        } else {
            JitterStrategy::Lerp
        }
    }

    /// The frame that was sent last, if any.
    pub fn last_frame(&self) -> (frame: Option<&FrameEnvelope>)
        ensures
            match frame {
                Some(found) => self@.last_frame == Some(*found),
                None => self@.last_frame is None,
            },
    {
        self.last_frame.as_ref()
    }

    /// Builds the frame for raw channel data without sending it.
    ///
    /// Refused unless the session may stream and streaming is enabled. The
    /// channels are adjusted by the jitter strategy in force, the reason of
    /// a recovery under way is attached, and the timestamp never runs
    /// backwards.
    pub fn build_frame(
        &self,
        session: &AlnpSession,
        channel_format: ChannelFormat,
        channels: &Vec<u16>,
        priority: u8,
        now_us: u64,
    ) -> (result: Result<FrameEnvelope, StreamError>)
        ensures
            match result {
                Ok(frame) => self@.refusal(session@) is None && self@.is_frame_for(
                    session@,
                    FrameRequest { channel_format, channels: channels@, priority, now_us },
                    frame,
                ),
                Err(error) => self@.refusal(session@) == Some(error),
            },
            match (result, self@.last_frame) {
                (Ok(frame), Some(last)) => frame.timestamp_us >= last.timestamp_us,
                _ => true,
            },
    {
        let session_id = match session.ensure_streaming_ready() {
            Ok(established) => established.session_id,
            Err(_) => {
                return Err(StreamError::NotAuthenticated);
            },
        };
        if !session.streaming_enabled() {
            return Err(StreamError::StreamingDisabled);
        }
        let strategy = match session.jitter_override() {
            Some(set) => set,
            None => self.jitter_strategy_from_profile(),
        };
        let (adjusted, timestamp_us) = match &self.last_frame {
            Some(last) => (
                apply_jitter(strategy, channels, Some(&last.channels)),
                if last.timestamp_us > now_us {
                    last.timestamp_us
                } else {
                    now_us
                },
            ),
            None => (apply_jitter(strategy, channels, None), now_us),
        };
        Ok(
            FrameEnvelope {
                message_type: MessageType::AlpineFrame,
                session_id,
                timestamp_us,
                priority,
                channel_format,
                channels: adjusted,
                recovery: self.recovery.active_reason(),
            },
        )
    }

    /// Takes note of what the transport answered for a frame: a frame that
    /// it took becomes the last frame, and a failure is reported with the
    /// transport's own words and changes nothing.
    pub fn record_sent(&mut self, frame: FrameEnvelope, sent: Result<(), String>) -> (result: Result<
        (),
        StreamError,
    >)
        ensures
            match sent {
                Ok(()) => result is Ok && final(self)@ == (StreamModel {
                    last_frame: Some(frame),
                    ..old(self)@
                }),
                Err(reason) => result == Err::<(), StreamError>(StreamError::Transport(reason))
                    && final(self)@ == old(self)@,
            },
    {
        match sent {
            Ok(()) => {
                self.last_frame = Some(frame);
                Ok(())
            },
            Err(reason) => Err(StreamError::Transport(reason)),
        }
    }

    /// Sends a streaming frame built from raw channel data.
    ///
    /// A refused send, and one that the transport fails, leave the stream as
    /// it was. A frame that the transport took becomes the last frame.
    pub fn send<T: FrameTransport>(
        &mut self,
        session: &AlnpSession,
        transport: &T,
        channel_format: ChannelFormat,
        channels: Vec<u16>,
        priority: u8,
        now_us: u64,
    ) -> (result: Result<(), StreamError>)
        ensures
            old(self)@.refusal(session@) matches Some(refusal) ==> result == Err::<(), StreamError>(
                refusal,
            ) && final(self)@ == old(self)@,
            old(self)@.refusal(session@) is None ==> match result {
                Ok(()) => final(self)@.last_frame matches Some(frame) && old(self)@.is_frame_for(
                    session@,
                    FrameRequest { channel_format, channels: channels@, priority, now_us },
                    frame,
                ) && final(self)@ == (StreamModel { last_frame: Some(frame), ..old(self)@ }),
                Err(error) => error is Transport && final(self)@ == old(self)@,
            },
            match (final(self)@.last_frame, old(self)@.last_frame) {
                (Some(frame), Some(last)) => frame.timestamp_us >= last.timestamp_us,
                _ => true,
            },
    {
        let frame = match self.build_frame(session, channel_format, &channels, priority, now_us) {
            Ok(frame) => frame,
            Err(error) => {
                return Err(error);
            },
        };
        let sent = transport.send_frame(&frame);
        self.record_sent(frame, sent)
    }

    /// Updates the recovery state from observed network conditions and
    /// returns the event, if the state changed.
    pub fn observe_network_conditions(&mut self, conditions: &NetworkConditions) -> (event: Option<
        RecoveryEvent,
    >)
        ensures
            final(self)@ == (StreamModel {
                recovery: recovery::reason_after(
                    old(self)@.recovery,
                    RecoveryMonitor::reading_of(conditions),
                ),
                ..old(self)@
            }),
            event == recovery::event_of(
                old(self)@.recovery,
                RecoveryMonitor::reading_of(conditions),
            ),
    {
        self.recovery.feed(conditions)
    }
}

} // verus!
