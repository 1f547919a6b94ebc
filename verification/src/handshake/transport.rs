//! Reliability layer of the control plane.
//!
//! The channel owns the sequence counter of its direction and the
//! retransmission policy: exponential backoff up to a cap, a limit on the
//! attempts, and a fresh start whenever the peer proves liveness. It decides;
//! sending and waiting are done by whoever drives it.

use vstd::prelude::*;
use crate::handshake::{HandshakeError, HandshakeErrorSpec, HandshakeMessage};
use crate::messages::ControlEnvelope;

verus! {

/// Attempts after which a send is given up.
pub const DEFAULT_MAX_ATTEMPTS: u8 = 5;

/// Time to wait for the answer to the first attempt, in milliseconds.
pub const DEFAULT_BASE_TIMEOUT_MS: u64 = 200;

/// Largest factor by which backoff stretches the base timeout.
pub const BACKOFF_CAP: u64 = 4;

/// What came back while the channel waited for an acknowledgement.
#[derive(Debug, Clone, Copy, PartialEq, Eq, Structural)]
pub enum Response {
    /// An acknowledgement, with the sequence number it echoes.
    Ack { seq: u64, ok: bool },
    /// A keepalive of the peer.
    Keepalive,
    /// Nothing of use: the wait timed out, the transport failed, or another
    /// message arrived.
    Nothing,
}

/// What the channel does next.
#[derive(Debug, Clone, Copy, PartialEq, Eq, Structural)]
pub enum Verdict {
    /// The envelope was acknowledged.
    Delivered,
    /// Send the same bytes again, as the attempt of the given number, and
    /// wait up to the given time.
    Retransmit { attempt: u8, timeout_ms: u64 },
    /// The retransmit limit is exceeded.
    GiveUp,
}

/// How a series of responses ends.
pub enum Outcome {
    /// The envelope was acknowledged.
    Delivered,
    /// The send failed with a transport error.
    Failed,
    /// The responses ran out while the attempt of the given number waited.
    Waiting { attempt: u8 },
}

/// The channel as plain values.
pub struct ChannelModel {
    pub seq: u64,
    pub max_attempts: u8,
    pub base_timeout_ms: u64,
    pub drop_threshold: u8,
}

/// The sequence number after `seq`; the counter wraps around.
pub open spec fn seq_after(seq: u64) -> u64 {
    if seq == u64::MAX {
        0
    } else {
        (seq + 1) as u64
    }
}

/// The factor of the timeout for an attempt: it doubles with each attempt,
/// from one for the first, and stays at four.
pub open spec fn backoff_factor(attempt: u8) -> int {
    if attempt <= 1 {
        1
    } else if attempt == 2 {
        2
    } else {
        BACKOFF_CAP as int
    }
}

/// The response acknowledges the envelope with the given sequence number.
pub open spec fn acknowledges(response: Response, seq: u64) -> bool {
    response matches Response::Ack { seq: echoed, ok } && echoed == seq && ok
}

/// The response counts as a failed attempt.
pub open spec fn is_failure(response: Response, seq: u64) -> bool {
    !acknowledges(response, seq) && !(response is Keepalive)
}

/// The number of failed attempts in a series of responses.
pub open spec fn failures(responses: Seq<Response>, seq: u64) -> nat
    decreases responses.len(),
{
    if responses.len() == 0 {
        0
    } else {
        failures(responses.drop_first(), seq) + if is_failure(responses.first(), seq) {
            1nat
        } else {
            0nat
        }
    }
}

impl ChannelModel {
    /// The number of the attempt after which no further one is made.
    pub open spec fn limit(self) -> u8 {
        if self.max_attempts <= self.drop_threshold {
            self.max_attempts
        } else {
            self.drop_threshold
        }
    }

    /// The time to wait for an answer to an attempt.
    pub open spec fn timeout_for(self, attempt: u8) -> u64 {
        if self.base_timeout_ms * backoff_factor(attempt) > u64::MAX {
            u64::MAX
        } else {
            (self.base_timeout_ms * backoff_factor(attempt)) as u64
        }
    }

    /// The verdict on one response to the attempt of the given number.
    pub open spec fn verdict(self, seq: u64, attempt: u8, response: Response) -> Verdict {
        if acknowledges(response, seq) {
            Verdict::Delivered
        } else if response is Keepalive {
            Verdict::Retransmit { attempt: 1, timeout_ms: self.timeout_for(1) }
        } else if attempt >= self.limit() {
            Verdict::GiveUp
        } else {
            Verdict::Retransmit {
                attempt: (attempt + 1) as u8,
                timeout_ms: self.timeout_for((attempt + 1) as u8),
            }
        }
    }

    /// How a send ends that is at the attempt of the given number and gets
    /// the given responses, one per attempt, in order.
    pub open spec fn run(self, seq: u64, attempt: u8, responses: Seq<Response>) -> Outcome
        decreases responses.len(),
    {
        if responses.len() == 0 {
            Outcome::Waiting { attempt }
        } else {
            match self.verdict(seq, attempt, responses.first()) {
                Verdict::Delivered => Outcome::Delivered,
                Verdict::GiveUp => Outcome::Failed,
                Verdict::Retransmit { attempt: next, .. } => self.run(
                    seq,
                    next,
                    responses.drop_first(),
                ),
            }
        }
    }
}

/// A transport that acknowledges in time gets its envelope delivered: if
/// response number `k` acknowledges the envelope and the failed attempts
/// before it leave the attempt within the limit, the send ends delivered.
pub proof fn ack_within_limit_delivers(
    channel: ChannelModel,
    seq: u64,
    attempt: u8,
    responses: Seq<Response>,
    k: int,
)
    requires
        1 <= attempt,
        0 <= k < responses.len(),
        acknowledges(responses[k], seq),
        forall|i: int| 0 <= i < k ==> !acknowledges(#[trigger] responses[i], seq),
        attempt + failures(responses.take(k), seq) <= channel.limit(),
    ensures
        channel.run(seq, attempt, responses) == Outcome::Delivered,
    decreases responses.len(),
{
    if k == 0 {
        assert(acknowledges(responses.first(), seq));
    } else {
        let head = responses.first();
        let rest = responses.drop_first();
        assert(!acknowledges(responses[0], seq));
        assert(responses.take(k).first() == head);
        assert(responses.take(k).drop_first() =~= rest.take(k - 1));
        assert(rest[k - 1] == responses[k]);
        assert forall|i: int| 0 <= i < k - 1 implies !acknowledges(#[trigger] rest[i], seq) by {
            assert(rest[i] == responses[i + 1]);
        }
        let next: u8 = if head is Keepalive {
            1
        } else {
            (attempt + 1) as u8
        };
        ack_within_limit_delivers(channel, seq, next, rest, k - 1);
    }
}

/// A send ends delivered only on an acknowledgement that echoes its
/// sequence number and reports success.
pub proof fn delivery_needs_matching_ack(
    channel: ChannelModel,
    seq: u64,
    attempt: u8,
    responses: Seq<Response>,
)
    requires
        channel.run(seq, attempt, responses) == Outcome::Delivered,
    ensures
        exists|k: int| 0 <= k < responses.len() && acknowledges(#[trigger] responses[k], seq),
    decreases responses.len(),
{
    if responses.len() > 0 {
        if acknowledges(responses.first(), seq) {
            assert(acknowledges(responses[0], seq));
        } else {
            let rest = responses.drop_first();
            match channel.verdict(seq, attempt, responses.first()) {
                Verdict::Retransmit { attempt: next, .. } => {
                    delivery_needs_matching_ack(channel, seq, next, rest);
                    let k = choose|k: int| 0 <= k < rest.len() && acknowledges(#[trigger] rest[k], seq);
                    assert(rest[k] == responses[k + 1]);
                    assert(acknowledges(responses[k + 1], seq));
                },
                _ => {},
            }
        }
    }
}

/// A transport that neither acknowledges nor proves liveness exhausts the
/// attempts: once every attempt up to the limit has failed, the send ends
/// with the one transport error, whatever follows.
pub proof fn silence_exhausts_attempts(
    channel: ChannelModel,
    seq: u64,
    attempt: u8,
    responses: Seq<Response>,
)
    requires
        responses.len() > 0,
        responses.len() + attempt > channel.limit(),
        forall|i: int|
            0 <= i < responses.len() && (i == 0 || i + attempt <= channel.limit()) ==> is_failure(
                #[trigger] responses[i],
                seq,
            ),
    ensures
        channel.run(seq, attempt, responses) == Outcome::Failed,
    decreases responses.len(),
{
    assert(is_failure(responses[0], seq));
    if attempt < channel.limit() {
        let rest = responses.drop_first();
        assert forall|i: int|
            0 <= i < rest.len() && (i == 0 || i + (attempt + 1) <= channel.limit())
                implies is_failure(#[trigger] rest[i], seq) by {
            assert(rest[i] == responses[i + 1]);
        }
        silence_exhausts_attempts(channel, seq, (attempt + 1) as u8, rest);
    }
}

/// Reliability layer for control envelopes: sequence numbers and the
/// retransmission policy.
#[derive(Debug)]
pub struct ReliableControlChannel {
    seq: u64,
    max_attempts: u8,
    base_timeout_ms: u64,
    drop_threshold: u8,
}

impl View for ReliableControlChannel {
    type V = ChannelModel;

    closed spec fn view(&self) -> ChannelModel {
        ChannelModel {
            seq: self.seq,
            max_attempts: self.max_attempts,
            base_timeout_ms: self.base_timeout_ms,
            drop_threshold: self.drop_threshold,
        }
    }
}

impl ReliableControlChannel {
    /// A channel that has sent nothing, with the default policy.
    pub fn new() -> (channel: Self)
        ensures
            channel@ == (ChannelModel {
                seq: 0,
                max_attempts: DEFAULT_MAX_ATTEMPTS,
                base_timeout_ms: DEFAULT_BASE_TIMEOUT_MS,
                drop_threshold: DEFAULT_MAX_ATTEMPTS,
            }),
    {
        Self {
            seq: 0,
            max_attempts: DEFAULT_MAX_ATTEMPTS,
            base_timeout_ms: DEFAULT_BASE_TIMEOUT_MS,
            drop_threshold: DEFAULT_MAX_ATTEMPTS,
        }
    }

    /// Advances the sequence counter by one, wrapping around, and returns
    /// the new value.
    pub fn next_seq(&mut self) -> (seq: u64)
        ensures
            seq == seq_after(old(self)@.seq),
            final(self)@ == (ChannelModel { seq, ..old(self)@ }),
    {
        self.seq = self.seq.wrapping_add(1);
        self.seq
    }

    /// Stamps an envelope with the next sequence number. Nothing else of the
    /// envelope changes.
    pub fn stamp(&mut self, envelope: ControlEnvelope) -> (stamped: ControlEnvelope)
        ensures
            stamped == (ControlEnvelope { seq: seq_after(old(self)@.seq), ..envelope }),
            final(self)@ == (ChannelModel { seq: seq_after(old(self)@.seq), ..old(self)@ }),
    {
        let mut stamped = envelope;
        stamped.seq = self.next_seq();
        stamped
    }

    /// The time to wait for an answer to the attempt of the given number:
    /// the base timeout, doubled with each attempt up to four times.
    pub fn timeout_for(&self, attempt: u8) -> (timeout_ms: u64)
        ensures
            timeout_ms == self@.timeout_for(attempt),
    {
        let factor: u64 = if attempt <= 1 {
            1
        } else if attempt == 2 {
            2
        } else {
            BACKOFF_CAP
        };
        match self.base_timeout_ms.checked_mul(factor) {
            Some(timeout_ms) => timeout_ms,
            None => u64::MAX,
        }
    }

    /// The first attempt of a send and the time to wait for its answer.
    pub fn first_attempt(&self) -> (verdict: Verdict)
        ensures
            verdict == (Verdict::Retransmit { attempt: 1, timeout_ms: self@.timeout_for(1) }),
    {
        Verdict::Retransmit { attempt: 1, timeout_ms: self.timeout_for(1) }
    }

    /// Decides what follows a response to the attempt of the given number.
    ///
    /// An acknowledgement that echoes `seq` and reports success delivers. A
    /// keepalive starts the attempts anew. Anything else is a failed
    /// attempt: at the limit the send is given up, below it the envelope is
    /// sent again with the next timeout.
    pub fn on_response(&self, seq: u64, attempt: u8, response: Response) -> (verdict: Verdict)
        ensures
            verdict == self@.verdict(seq, attempt, response),
    {
        match response {
            Response::Ack { seq: echoed, ok } => {
                if echoed == seq && ok {
                    return Verdict::Delivered;
                }
            },
            Response::Keepalive => {
                return Verdict::Retransmit { attempt: 1, timeout_ms: self.timeout_for(1) };
            },
            Response::Nothing => {},
        }
        if attempt >= self.max_attempts || attempt >= self.drop_threshold {
            Verdict::GiveUp
        } else {
            Verdict::Retransmit { attempt: attempt + 1, timeout_ms: self.timeout_for(attempt + 1) }
        }
    }

    /// Plays a send against a finite series of responses, one per attempt,
    /// and says how it ends.
    pub fn replay(&self, seq: u64, responses: &Vec<Response>) -> (outcome: Outcome)
        ensures
            outcome == self@.run(seq, 1, responses@),
    {
        let mut attempt: u8 = 1;
        let mut i: usize = 0;
        proof {
            assert(responses@.skip(0) =~= responses@);
        }
        while i < responses.len()
            invariant
                i <= responses.len(),
                self@.run(seq, 1, responses@) == self@.run(
                    seq,
                    attempt,
                    responses@.skip(i as int),
                ),
            decreases responses.len() - i,
        {
            proof {
                assert(responses@.skip(i as int).first() == responses@[i as int]);
                assert(responses@.skip(i as int).drop_first() =~= responses@.skip(i + 1));
            }
            match self.on_response(seq, attempt, responses[i]) {
                Verdict::Delivered => {
                    return Outcome::Delivered;
                },
                Verdict::GiveUp => {
                    return Outcome::Failed;
                },
                Verdict::Retransmit { attempt: next, .. } => {
                    attempt = next;
                },
            }
            i = i + 1;
        }
        proof {
            assert(responses@.skip(i as int).len() == 0);
        }
        Outcome::Waiting { attempt }
    }

    /// The error that a given-up send is reported with.
    pub fn retransmit_limit_error() -> (error: HandshakeError)
        ensures
            error@ == HandshakeErrorSpec::Transport("retransmit limit exceeded"@),
    {
        HandshakeError::Transport("retransmit limit exceeded".to_owned())
    }
}

/// Reads a received message as a response to a pending send.
pub fn response_of(message: &HandshakeMessage) -> (response: Response)
    ensures
        response == match *message {
            HandshakeMessage::Ack(ack) => Response::Ack { seq: ack.seq, ok: ack.ok },
            HandshakeMessage::Keepalive(_) => Response::Keepalive,
            _ => Response::Nothing,
        },
{
    match message {
        HandshakeMessage::Ack(ack) => Response::Ack { seq: ack.seq, ok: ack.ok },
        HandshakeMessage::Keepalive(_) => Response::Keepalive,
        _ => Response::Nothing,
    }
}

/// A transport together with the time that a receive on it may take.
#[derive(Debug)]
pub struct TimeoutTransport<T> {
    pub inner: T,
    pub recv_timeout_ms: u64,
}

impl<T> TimeoutTransport<T> {
    /// Bounds every receive on `inner` by `recv_timeout_ms`.
    pub fn new(inner: T, recv_timeout_ms: u64) -> (transport: Self)
        ensures
            transport.inner == inner,
            transport.recv_timeout_ms == recv_timeout_ms,
    {
        Self { inner, recv_timeout_ms }
    }
}

/// In-memory transport: what is sent is received again, first in, first out.
#[derive(Debug)]
pub struct LoopbackTransport {
    inbox: Vec<HandshakeMessage>,
}

impl View for LoopbackTransport {
    type V = Seq<HandshakeMessage>;

    closed spec fn view(&self) -> Seq<HandshakeMessage> {
        self.inbox@
    }
}

impl LoopbackTransport {
    /// A transport with nothing in flight.
    pub fn new() -> (transport: Self)
        ensures
            transport@ == Seq::<HandshakeMessage>::empty(),
    {
        Self { inbox: Vec::new() }
    }

    /// Queues a message behind those in flight.
    pub fn send(&mut self, msg: HandshakeMessage) -> (result: Result<(), HandshakeError>)
        ensures
            result is Ok,
            final(self)@ == old(self)@.push(msg),
    {
        self.inbox.push(msg);
        Ok(())
    }

    /// Takes the message that has waited longest, or reports a transport
    /// error if none is in flight.
    pub fn recv(&mut self) -> (result: Result<HandshakeMessage, HandshakeError>)
        ensures
            match result {
                Ok(msg) => old(self)@.len() > 0 && msg == old(self)@.first() && final(self)@
                    == old(self)@.drop_first(),
                Err(error) => old(self)@.len() == 0 && final(self)@ == old(self)@ && error@
                    == HandshakeErrorSpec::Transport("loopback queue empty"@),
            },
    {
        if self.inbox.len() == 0 {
            return Err(HandshakeError::Transport("loopback queue empty".to_owned()));
        }
        let msg = self.inbox.remove(0);
        assert(self.inbox@ =~= old(self)@.drop_first());
        Ok(msg)
    }
}

} // verus!
