//! The session: lifecycle state, keepalive, profile binding.
//!
//! A session is a plain state machine. Every operation that depends on time
//! takes the reading of a monotonic clock, in milliseconds, from its caller.

use vstd::prelude::*;
use crate::handshake::{HandshakeError, HandshakeErrorSpec, HandshakeOutcome, SessionKeys};
use crate::messages::SessionEstablished;
use crate::profile::{CompiledSpec, CompiledStreamProfile};
use crate::session::state::{SessionState, SessionStateError, StateSpec};

pub mod auth;
pub mod state;

pub use auth::{ChallengeAuthenticator, Ed25519Authenticator, StaticKeyAuthenticator};

verus! {

/// Time without a keepalive after which a session fails, in milliseconds.
pub const SESSION_TIMEOUT_MS: u64 = 10_000;

/// The side of the handshake that a session took.
#[derive(Debug, Clone, Copy, PartialEq, Eq, Structural)]
pub enum AlnpRole {
    Controller,
    Node,
}

/// What to send when a frame has nothing new, or how to smooth what it has.
#[derive(Debug, Clone, Copy, PartialEq, Eq, Structural)]
pub enum JitterStrategy {
    HoldLast,
    Drop,
    Lerp,
}

/// A session as plain values.
pub struct SessionModel {
    pub role: AlnpRole,
    pub state: StateSpec,
    pub last_keepalive: u64,
    /// The strategy that was set on the session, if one was.
    pub jitter: Option<JitterStrategy>,
    pub streaming_enabled: bool,
    pub timeout_ms: u64,
    pub established: Option<SessionEstablished>,
    pub keys: Option<SessionKeys>,
    pub profile: Option<CompiledSpec>,
    pub profile_locked: bool,
}

impl SessionModel {
    /// More time than the timeout has passed since the last keepalive.
    pub open spec fn timed_out(self, now_ms: u64) -> bool {
        now_ms - self.last_keepalive > self.timeout_ms
    }

    /// The session that results from failing with the given reason.
    pub open spec fn failed(self, reason: Seq<char>) -> SessionModel {
        SessionModel { state: StateSpec::Failed { reason }, ..self }
    }

    /// The session after streaming has been marked at `now_ms`: a ready
    /// session streams, and the profile is locked in any case.
    pub open spec fn marked_streaming(self, now_ms: u64) -> SessionModel {
        SessionModel {
            state: if self.state is Ready {
                StateSpec::Streaming { since: now_ms }
            } else {
                self.state
            },
            profile_locked: true,
            ..self
        }
    }

    /// What binding a profile gives: the session with the profile bound, or
    /// the refusal if the profile is locked.
    pub open spec fn with_profile(self, profile: CompiledSpec) -> Result<
        SessionModel,
        HandshakeErrorSpec,
    > {
        if self.profile_locked {
            Err(profile_locked_error())
        } else {
            Ok(SessionModel { profile: Some(profile), ..self })
        }
    }

    /// What a request for streaming is answered with when it is refused.
    pub open spec fn refusal(self) -> Option<HandshakeErrorSpec> {
        match self.state {
            StateSpec::Ready { .. } | StateSpec::Streaming { .. } => if self.established is Some {
                None
            } else {
                Some(
                    HandshakeErrorSpec::Authentication(
                        "session missing even though state is ready"@,
                    ),
                )
            },
            StateSpec::Failed { reason } => Some(HandshakeErrorSpec::Authentication(reason)),
            _ => Some(HandshakeErrorSpec::Authentication("session not ready; streaming blocked"@)),
        }
    }
}

/// The operations that change a session.
pub enum SessionOp {
    UpdateKeepalive { now_ms: u64 },
    CheckTimeouts { now_ms: u64 },
    SetStreamProfile { profile: CompiledSpec },
    SetJitterStrategy { strat: JitterStrategy },
    Close,
    Fail { reason: Seq<char> },
    Transition { next: StateSpec },
    SetStreamingEnabled { enabled: bool },
    MarkStreaming { now_ms: u64 },
    ApplyOutcome { established: SessionEstablished, keys: SessionKeys },
}

impl SessionModel {
    /// The session after one operation.
    pub open spec fn after(self, op: SessionOp) -> SessionModel {
        match op {
            SessionOp::UpdateKeepalive { now_ms } => SessionModel { last_keepalive: now_ms, ..self },
            SessionOp::CheckTimeouts { now_ms } => if self.timed_out(now_ms) {
                self.failed("session timeout"@)
            } else {
                self
            },
            SessionOp::SetStreamProfile { profile } => match self.with_profile(profile) {
                Ok(bound) => bound,
                Err(_) => self,
            },
            SessionOp::SetJitterStrategy { strat } => SessionModel { jitter: Some(strat), ..self },
            SessionOp::Close => SessionModel { state: StateSpec::Closed, keys: None, ..self },
            SessionOp::Fail { reason } => self.failed(reason),
            SessionOp::Transition { next } => if self.state.may_become(next) {
                SessionModel { state: next, ..self }
            } else {
                self
            },
            SessionOp::SetStreamingEnabled { enabled } => SessionModel {
                streaming_enabled: enabled,
                ..self
            },
            SessionOp::MarkStreaming { now_ms } => self.marked_streaming(now_ms),
            SessionOp::ApplyOutcome { established, keys } => SessionModel {
                established: Some(established),
                keys: Some(keys),
                ..self
            },
        }
    }

    /// The session after a series of operations, in order.
    pub open spec fn after_all(self, ops: Seq<SessionOp>) -> SessionModel
        decreases ops.len(),
    {
        if ops.len() == 0 {
            self
        } else {
            self.after(ops.first()).after_all(ops.drop_first())
        }
    }
}

/// The error that refuses a change of profile once streaming has started.
pub open spec fn profile_locked_error() -> HandshakeErrorSpec {
    HandshakeErrorSpec::Protocol("stream profile cannot be changed after streaming starts"@)
}

/// The error that reports a session timeout.
pub open spec fn session_timeout_error() -> HandshakeErrorSpec {
    HandshakeErrorSpec::Transport("session timeout"@)
}

/// The error that reports a transition outside the lifecycle.
pub open spec fn invalid_transition_error() -> HandshakeErrorSpec {
    HandshakeErrorSpec::Protocol("invalid session state transition"@)
}

/// Once streaming has been marked, binding a profile is refused, whatever
/// the session, the time and the profile.
pub proof fn profile_is_locked_after_streaming(
    session: SessionModel,
    now_ms: u64,
    profile: CompiledSpec,
)
    ensures
        session.marked_streaming(now_ms).profile_locked,
        session.marked_streaming(now_ms).with_profile(profile) == Err::<
            SessionModel,
            HandshakeErrorSpec,
        >(profile_locked_error()),
        session.marked_streaming(now_ms).profile == session.profile,
{
}

/// The profile lock is never cleared: on a locked session no series of
/// operations changes the bound profile, and binding one is still refused
/// afterwards.
pub proof fn locked_profile_never_changes(
    session: SessionModel,
    ops: Seq<SessionOp>,
    profile: CompiledSpec,
)
    requires
        session.profile_locked,
    ensures
        session.after_all(ops).profile_locked,
        session.after_all(ops).profile == session.profile,
        session.after_all(ops).with_profile(profile) == Err::<SessionModel, HandshakeErrorSpec>(
            profile_locked_error(),
        ),
    decreases ops.len(),
{
    if ops.len() > 0 {
        locked_profile_never_changes(session.after(ops.first()), ops.drop_first(), profile);
    }
}

/// A protocol session with a peer.
#[derive(Debug)]
pub struct AlnpSession {
    pub role: AlnpRole,
    state: SessionState,
    last_keepalive: u64,
    jitter: Option<JitterStrategy>,
    streaming_enabled: bool,
    timeout_ms: u64,
    session_established: Option<SessionEstablished>,
    session_keys: Option<SessionKeys>,
    compiled_profile: Option<CompiledStreamProfile>,
    profile_locked: bool,
}

impl View for AlnpSession {
    type V = SessionModel;

    closed spec fn view(&self) -> SessionModel {
        SessionModel {
            role: self.role,
            state: self.state@,
            last_keepalive: self.last_keepalive,
            jitter: self.jitter,
            streaming_enabled: self.streaming_enabled,
            timeout_ms: self.timeout_ms,
            established: self.session_established,
            keys: self.session_keys,
            profile: match self.compiled_profile {
                Some(profile) => Some(profile@),
                None => None,
            },
            profile_locked: self.profile_locked,
        }
    }
}

/// Wraps a refused transition as a protocol error.
fn protocol_error(error: SessionStateError) -> (wrapped: HandshakeError)
    ensures
        wrapped@ == invalid_transition_error(),
{
    HandshakeError::Protocol(error.message())
}

impl AlnpSession {
    /// A new session in the initial state: no jitter strategy set,
    /// streaming enabled, the default timeout, nothing established and no
    /// profile bound. The keepalive clock starts at `now_ms`.
    pub fn new(role: AlnpRole, now_ms: u64) -> (session: Self)
        ensures
            session@ == Self::new_model(role, now_ms),
    {
        Self {
            role,
            state: SessionState::Init,
            last_keepalive: now_ms,
            jitter: None,
            streaming_enabled: true,
            timeout_ms: SESSION_TIMEOUT_MS,
            session_established: None,
            session_keys: None,
            compiled_profile: None,
            profile_locked: false,
        }
    }

    /// What the handshake established, if it has completed.
    pub fn established(&self) -> (established: Option<&SessionEstablished>)
        ensures
            match established {
                Some(found) => self@.established == Some(*found),
                None => self@.established is None,
            },
    {
        self.session_established.as_ref()
    }

    /// The session keys, if the handshake has completed and the session has
    /// not been closed.
    pub fn keys(&self) -> (keys: Option<&SessionKeys>)
        ensures
            match keys {
                Some(found) => self@.keys == Some(*found),
                None => self@.keys is None,
            },
    {
        self.session_keys.as_ref()
    }

    /// The current lifecycle state.
    pub fn state(&self) -> (state: SessionState)
        ensures
            state@ == self@.state,
    {
        self.state.clone()
    }

    /// Returns what the handshake established if frames may be sent, that
    /// is in the Ready and Streaming states, and an authentication error
    /// otherwise. A failed session answers with the reason of its failure.
    pub fn ensure_streaming_ready(&self) -> (result: Result<&SessionEstablished, HandshakeError>)
        ensures
            match result {
                Ok(established) => self@.refusal() is None && self@.state.allows_streaming()
                    && self@.established == Some(*established),
                Err(error) => self@.refusal() == Some(error@),
            },
    {
        match &self.state {
            SessionState::Ready { .. } | SessionState::Streaming { .. } => {
                match &self.session_established {
                    Some(established) => Ok(established),
                    None => Err(
                        HandshakeError::Authentication(
                            "session missing even though state is ready".to_owned(),
                        ),
                    ),
                }
            },
            SessionState::Failed(reason) => Err(HandshakeError::Authentication(reason.clone())),
            _ => Err(
                HandshakeError::Authentication("session not ready; streaming blocked".to_owned()),
            ),
        }
    }

    /// Notes that the peer proved liveness at `now_ms`.
    pub fn update_keepalive(&mut self, now_ms: u64)
        ensures
            final(self)@ == (SessionModel { last_keepalive: now_ms, ..old(self)@ }),
            final(self)@ == old(self)@.after(SessionOp::UpdateKeepalive { now_ms }),
    {
        self.last_keepalive = now_ms;
    }

    /// Fails the session if more time than the timeout has passed since the
    /// last keepalive, and reports that as a transport error. Otherwise
    /// nothing changes.
    pub fn check_timeouts(&mut self, now_ms: u64) -> (result: Result<(), HandshakeError>)
        ensures
            old(self)@.timed_out(now_ms) ==> final(self)@ == old(self)@.failed("session timeout"@)
                && (result matches Err(error) && error@ == session_timeout_error()),
            !old(self)@.timed_out(now_ms) ==> final(self)@ == old(self)@ && result is Ok,
            final(self)@ == old(self)@.after(SessionOp::CheckTimeouts { now_ms }),
    {
        if now_ms > self.last_keepalive && now_ms - self.last_keepalive > self.timeout_ms {
            self.fail("session timeout".to_owned());
            return Err(HandshakeError::Transport("session timeout".to_owned()));
        }
        Ok(())
    }

    /// Binds the stream profile that determines runtime behavior.
    ///
    /// Allowed until streaming has been marked; from then on the profile is
    /// locked, the call is refused and the session stays as it is.
    pub fn set_stream_profile(&mut self, profile: CompiledStreamProfile) -> (result: Result<
        (),
        HandshakeError,
    >)
        ensures
            match (result, old(self)@.with_profile(profile@)) {
                (Ok(()), Ok(bound)) => final(self)@ == bound,
                (Err(error), Err(refusal)) => error@ == refusal && final(self)@ == old(self)@,
                _ => false,
            },
            old(self)@.profile_locked ==> (result matches Err(error) && error@
                == profile_locked_error()),
            final(self)@ == old(self)@.after(SessionOp::SetStreamProfile { profile: profile@ }),
    {
        if self.profile_locked {
            return Err(
                HandshakeError::Protocol(
                    "stream profile cannot be changed after streaming starts".to_owned(),
                ),
            );
        }
        self.compiled_profile = Some(profile);
        Ok(())
    }

    /// Returns the bound profile's config ID, if one is bound.
    pub fn profile_config_id(&self) -> (id: Option<String>)
        ensures
            match id {
                Some(text) => self@.profile matches Some(profile) && text@ == profile.config_id,
                None => self@.profile is None,
            },
    {
        match &self.compiled_profile {
            Some(profile) => Some(profile.config_id().to_owned()),
            None => None,
        }
    }

    /// The bound profile, if one is bound.
    pub fn compiled_profile(&self) -> (profile: Option<&CompiledStreamProfile>)
        ensures
            match profile {
                Some(found) => self@.profile == Some(found@),
                None => self@.profile is None,
            },
    {
        self.compiled_profile.as_ref()
    }

    /// Sets the jitter strategy of the session. A strategy that is set here
    /// takes precedence over the one that a stream derives from its profile.
    pub fn set_jitter_strategy(&mut self, strat: JitterStrategy)
        ensures
            final(self)@ == (SessionModel { jitter: Some(strat), ..old(self)@ }),
            final(self)@ == old(self)@.after(SessionOp::SetJitterStrategy { strat }),
    {
        self.jitter = Some(strat);
    }

    /// The jitter strategy of the session: the one that was set, and
    /// hold-last if none was.
    pub fn jitter_strategy(&self) -> (strat: JitterStrategy)
        ensures
            strat == match self@.jitter {
                Some(set) => set,
                None => JitterStrategy::HoldLast,
            },
    {
        match self.jitter {
            Some(set) => set,
            None => JitterStrategy::HoldLast,
        }
    }

    /// The jitter strategy that was set on the session, if one was.
    pub fn jitter_override(&self) -> (strat: Option<JitterStrategy>)
        ensures
            strat == self@.jitter,
    {
        self.jitter
    }

    /// Closes the session, whatever its state, and drops its key material.
    pub fn close(&mut self)
        ensures
            final(self)@ == (SessionModel { state: StateSpec::Closed, keys: None, ..old(self)@ }),
            final(self)@ == old(self)@.after(SessionOp::Close),
    {
        self.state = SessionState::Closed;
        self.session_keys = None;
    }

    /// Fails the session with a reason, whatever its state.
    pub fn fail(&mut self, reason: String)
        ensures
            final(self)@ == old(self)@.failed(reason@),
            final(self)@ == old(self)@.after(SessionOp::Fail { reason: reason@ }),
    {
        self.state = SessionState::Failed(reason);
    }

    /// Takes a step of the lifecycle. A step that the lifecycle does not
    /// allow is refused and leaves the session as it is.
    pub fn transition(&mut self, next: SessionState) -> (result: Result<(), SessionStateError>)
        ensures
            old(self)@.state.may_become(next@) ==> final(self)@ == (SessionModel {
                state: next@,
                ..old(self)@
            }) && result is Ok,
            !old(self)@.state.may_become(next@) ==> final(self)@ == old(self)@ && result == Err::<
                (),
                SessionStateError,
            >(SessionStateError::InvalidTransition),
            final(self)@ == old(self)@.after(SessionOp::Transition { next: next@ }),
    {
        let current = self.state.clone();
        match current.transition(next) {
            Ok(state) => {
                self.state = state;
                Ok(())
            },
            Err(error) => Err(error),
        }
    }

    /// Enables or disables the sending of frames.
    pub fn set_streaming_enabled(&mut self, enabled: bool)
        ensures
            final(self)@ == (SessionModel { streaming_enabled: enabled, ..old(self)@ }),
            final(self)@ == old(self)@.after(SessionOp::SetStreamingEnabled { enabled }),
    {
        self.streaming_enabled = enabled;
    }

    /// Marks the start of streaming: a ready session moves to Streaming,
    /// and the profile is locked from now on in any case.
    pub fn mark_streaming(&mut self, now_ms: u64)
        ensures
            final(self)@ == old(self)@.marked_streaming(now_ms),
            final(self)@ == old(self)@.after(SessionOp::MarkStreaming { now_ms }),
            final(self)@.profile_locked,
    {
        if let SessionState::Ready { .. } = self.state {
            self.state = SessionState::Streaming { since: now_ms };
        }
        self.profile_locked = true;
    }

    /// Whether frames may be sent.
    pub fn streaming_enabled(&self) -> (enabled: bool)
        ensures
            enabled == self@.streaming_enabled,
    {
        self.streaming_enabled
    }

    /// Stores what a completed handshake produced.
    pub fn apply_outcome(&mut self, outcome: HandshakeOutcome)
        ensures
            final(self)@ == (SessionModel {
                established: Some(outcome.established),
                keys: Some(outcome.keys),
                ..old(self)@
            }),
            final(self)@ == old(self)@.after(
                SessionOp::ApplyOutcome { established: outcome.established, keys: outcome.keys },
            ),
    {
        self.session_established = Some(outcome.established);
        self.session_keys = Some(outcome.keys);
    }

    /// A new session that has entered the handshake.
    pub fn start_handshake(role: AlnpRole, now_ms: u64) -> (session: Self)
        ensures
            session@ == (SessionModel { state: StateSpec::Handshake, ..Self::new_model(role, now_ms) }),
    {
        let mut session = Self::new(role, now_ms);
        session.state = SessionState::Handshake;
        session
    }

    /// The model of a new session.
    pub open spec fn new_model(role: AlnpRole, now_ms: u64) -> SessionModel {
        SessionModel {
            role,
            state: StateSpec::Init,
            last_keepalive: now_ms,
            jitter: None,
            streaming_enabled: true,
            timeout_ms: SESSION_TIMEOUT_MS,
            established: None,
            keys: None,
            profile: None,
            profile_locked: false,
        }
    }

    /// Completes the handshake: the session becomes authenticated, then
    /// ready, and takes over the outcome. A session that is not in the
    /// handshake refuses with a protocol error and stays as it is.
    pub fn finish_handshake(&mut self, outcome: HandshakeOutcome, now_ms: u64) -> (result: Result<
        (),
        HandshakeError,
    >)
        ensures
            old(self)@.state is Handshake ==> result is Ok && final(self)@ == (SessionModel {
                state: StateSpec::Ready { since: now_ms },
                established: Some(outcome.established),
                keys: Some(outcome.keys),
                ..old(self)@
            }),
            !(old(self)@.state is Handshake) ==> final(self)@ == old(self)@ && (result matches Err(
                error,
            ) && error@ == invalid_transition_error()),
            old(self)@.profile_locked ==> final(self)@.profile_locked && final(self)@.profile
                == old(self)@.profile,
    {
        match self.transition(SessionState::Authenticated { since: now_ms }) {
            Ok(()) => {},
            Err(error) => {
                return Err(protocol_error(error));
            },
        }
        match self.transition(SessionState::Ready { since: now_ms }) {
            Ok(()) => {},
            Err(error) => {
                return Err(protocol_error(error));
            },
        }
        self.apply_outcome(outcome);
        Ok(())
    }
}

} // verus!
