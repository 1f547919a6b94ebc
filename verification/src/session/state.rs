//! The states of a session and the transitions between them.

use vstd::prelude::*;

verus! {

/// The lifecycle of a session. Time anchors are readings of a monotonic
/// clock, in milliseconds.
#[derive(Debug)]
pub enum SessionState {
    Init,
    Handshake,
    Authenticated { since: u64 },
    Ready { since: u64 },
    Streaming { since: u64 },
    Closed,
    Failed(String),
}

/// A session state as plain values.
pub enum StateSpec {
    Init,
    Handshake,
    Authenticated { since: u64 },
    Ready { since: u64 },
    Streaming { since: u64 },
    Closed,
    Failed { reason: Seq<char> },
}

impl StateSpec {
    /// Closed and failed sessions are at their end.
    pub open spec fn is_terminal(self) -> bool {
        self is Closed || self is Failed
    }

    /// Frames may be sent in this state.
    pub open spec fn allows_streaming(self) -> bool {
        self is Ready || self is Streaming
    }

    /// The step from `self` to `next` is legal: one step forward along
    /// Init, Handshake, Authenticated, Ready, Streaming, or from any state
    /// that is not terminal to Closed or Failed.
    pub open spec fn may_become(self, next: StateSpec) -> bool {
        match (self, next) {
            (StateSpec::Init, StateSpec::Handshake) => true,
            (StateSpec::Handshake, StateSpec::Authenticated { .. }) => true,
            (StateSpec::Authenticated { .. }, StateSpec::Ready { .. }) => true,
            (StateSpec::Ready { .. }, StateSpec::Streaming { .. }) => true,
            (_, StateSpec::Closed) => !self.is_terminal(),
            (_, StateSpec::Failed { .. }) => !self.is_terminal(),
            _ => false,
        }
    }
}

impl View for SessionState {
    type V = StateSpec;

    open spec fn view(&self) -> StateSpec {
        match *self {
            SessionState::Init => StateSpec::Init,
            SessionState::Handshake => StateSpec::Handshake,
            SessionState::Authenticated { since } => StateSpec::Authenticated { since },
            SessionState::Ready { since } => StateSpec::Ready { since },
            SessionState::Streaming { since } => StateSpec::Streaming { since },
            SessionState::Closed => StateSpec::Closed,
            SessionState::Failed(reason) => StateSpec::Failed { reason: reason@ },
        }
    }
}

/// A transition that the lifecycle does not allow.
#[derive(Debug, Clone, Copy, PartialEq, Eq, Structural)]
pub enum SessionStateError {
    InvalidTransition,
}

impl SessionStateError {
    /// The error in words.
    pub fn message(&self) -> (text: String)
        ensures
            text@ == "invalid session state transition"@,
    {
        "invalid session state transition".to_owned()
    }
}

impl Clone for SessionState {
    fn clone(&self) -> (copy: Self)
        ensures
            copy@ == self@,
    {
        match self {
            SessionState::Init => SessionState::Init,
            SessionState::Handshake => SessionState::Handshake,
            SessionState::Authenticated { since } => SessionState::Authenticated { since: *since },
            SessionState::Ready { since } => SessionState::Ready { since: *since },
            SessionState::Streaming { since } => SessionState::Streaming { since: *since },
            SessionState::Closed => SessionState::Closed,
            SessionState::Failed(reason) => SessionState::Failed(reason.clone()),
        }
    }
}

impl SessionState {
    /// Closed and failed sessions are at their end.
    pub fn is_terminal(&self) -> (terminal: bool)
        ensures
            terminal == self@.is_terminal(),
    {
        matches!(self, SessionState::Closed | SessionState::Failed(_))
    }

    /// Moves to `next` if the lifecycle allows the step, and refuses it
    /// otherwise.
    pub fn transition(self, next: SessionState) -> (result: Result<SessionState, SessionStateError>)
        ensures
            self@.may_become(next@) ==> result == Ok::<SessionState, SessionStateError>(next),
            !self@.may_become(next@) ==> result == Err::<SessionState, SessionStateError>(
                SessionStateError::InvalidTransition,
            ),
    {
        let allowed = match (&self, &next) {
            (SessionState::Init, SessionState::Handshake) => true,
            (SessionState::Handshake, SessionState::Authenticated { .. }) => true,
            (SessionState::Authenticated { .. }, SessionState::Ready { .. }) => true,
            (SessionState::Ready { .. }, SessionState::Streaming { .. }) => true,
            (_, SessionState::Closed) => !self.is_terminal(),
            (_, SessionState::Failed(_)) => !self.is_terminal(),
            _ => false,
        };
        if allowed {
            Ok(next)
        } else {
            Err(SessionStateError::InvalidTransition)
        }
    }
}

} // verus!
