//! Control plane: authenticated envelopes, their acknowledgements and replay
//! protection.
//!
//! The MAC itself is computed by the crypto capability of the session keys.
//! The functions here frame the bytes that it is computed over, take what
//! the capability answered and decide what follows from it.

use vstd::prelude::*;
use crate::handshake::{HandshakeError, HandshakeErrorSpec, SessionKeys};
use crate::messages::{Acknowledge, ControlEnvelope, ControlOp, MessageType};

verus! {

/// The `width` low-order bytes of a number, most significant first.
pub open spec fn be_bytes(value: nat, width: nat) -> Seq<u8>
    decreases width,
{
    if width == 0 {
        Seq::empty()
    } else {
        be_bytes(value / 256, (width - 1) as nat).push((value % 256) as u8)
    }
}

/// The bytes that the MAC of a control message is computed over: the
/// sequence number in eight bytes, the session identifier in sixteen, both
/// most significant byte first, then the payload in its canonical encoding.
pub open spec fn mac_message(seq: u64, session_id: u128, payload: Seq<u8>) -> Seq<u8> {
    be_bytes(seq as nat, 8) + be_bytes(session_id as nat, 16) + payload
}

/// Writes the `width` low-order bytes of a number, most significant first.
fn be_encode(value: u128, width: usize) -> (bytes: Vec<u8>)
    ensures
        bytes@ == be_bytes(value as nat, width as nat),
{
    let mut bytes: Vec<u8> = Vec::new();
    let mut rest: u128 = value;
    let mut done: usize = 0;
    while done < width
        invariant
            done <= width,
            be_bytes(value as nat, width as nat) == be_bytes(rest as nat, (width - done) as nat)
                + bytes@,
        decreases width - done,
    {
        let ghost before = bytes@;
        let digit: u8 = (rest % 256) as u8;
        bytes.insert(0, digit);
        proof {
            let shorter = be_bytes((rest / 256) as nat, (width - done - 1) as nat);
            assert(bytes@ =~= seq![digit] + before);
            assert(shorter.push(digit) + before =~= shorter + bytes@);
        }
        rest = rest / 256;
        done = done + 1;
    }
    proof {
        assert(be_bytes(rest as nat, 0) + bytes@ =~= bytes@);
    }
    bytes
}

/// Appends a run of bytes to a buffer.
fn append_bytes(buffer: &mut Vec<u8>, bytes: &[u8])
    ensures
        final(buffer)@ == old(buffer)@ + bytes@,
{
    let mut i: usize = 0;
    while i < bytes.len()
        invariant
            i <= bytes@.len(),
            buffer@ == old(buffer)@ + bytes@.take(i as int),
        decreases bytes@.len() - i,
    {
        buffer.push(bytes[i]);
        proof {
            assert(buffer@ =~= old(buffer)@ + bytes@.take(i + 1));
        }
        i = i + 1;
    }
    proof {
        assert(bytes@.take(i as int) =~= bytes@);
    }
}

/// Frames the bytes that the MAC of a control message is computed over.
pub fn mac_input(seq: u64, session_id: u128, payload: &[u8]) -> (message: Vec<u8>)
    ensures
        message@ == mac_message(seq, session_id, payload@),
        message@.len() == 24 + payload@.len(),
{
    let mut message = be_encode(seq as u128, 8);
    let session = be_encode(session_id, 16);
    proof {
        be_bytes_len(seq as nat, 8);
        be_bytes_len(session_id as nat, 16);
    }
    append_bytes(&mut message, session.as_slice());
    append_bytes(&mut message, payload);
    message
}

/// A number written in `width` bytes has that many bytes.
proof fn be_bytes_len(value: nat, width: nat)
    ensures
        be_bytes(value, width).len() == width,
    decreases width,
{
    if width > 0 {
        be_bytes_len(value / 256, (width - 1) as nat);
    }
}

/// The error that reports a MAC that did not verify.
pub open spec fn mac_mismatch_error() -> HandshakeErrorSpec {
    HandshakeErrorSpec::Authentication("control MAC validation failed"@)
}

/// The error that reports a sequence number that was seen before.
pub open spec fn replay_error() -> HandshakeErrorSpec {
    HandshakeErrorSpec::Authentication("control sequence replayed"@)
}

/// Holds the session keys that control messages are authenticated with.
#[derive(Debug)]
pub struct ControlCrypto {
    keys: SessionKeys,
}

impl View for ControlCrypto {
    type V = SessionKeys;

    closed spec fn view(&self) -> SessionKeys {
        self.keys
    }
}

impl ControlCrypto {
    /// Takes over the session keys.
    pub fn new(keys: SessionKeys) -> (crypto: Self)
        ensures
            crypto@ == keys,
    {
        Self { keys }
    }

    /// The session keys.
    pub fn keys(&self) -> (keys: &SessionKeys)
        ensures
            *keys == self@,
    {
        &self.keys
    }

    /// Turns the answer of the MAC computation into the MAC of a message: a
    /// failure becomes an authentication error with the same words.
    pub fn mac_for_payload(&self, computed: Result<Vec<u8>, String>) -> (result: Result<
        Vec<u8>,
        HandshakeError,
    >)
        ensures
            match (computed, result) {
                (Ok(mac), Ok(taken)) => taken == mac,
                (Err(reason), Err(error)) => error@ == HandshakeErrorSpec::Authentication(
                    reason@,
                ),
                _ => false,
            },
    {
        match computed {
            Ok(mac) => Ok(mac),
            Err(reason) => Err(HandshakeError::Authentication(reason)),
        }
    }

    /// Turns the answer of the MAC verification into a result: a MAC that
    /// did not verify is an authentication error.
    pub fn verify_mac(&self, verified: bool) -> (result: Result<(), HandshakeError>)
        ensures
            verified ==> result is Ok,
            !verified ==> (result matches Err(error) && error@ == mac_mismatch_error()),
    {
        if verified {
            Ok(())
        } else {
            Err(HandshakeError::Authentication("control MAC validation failed".to_owned()))
        }
    }
}

/// Control-plane client: builds authenticated envelopes.
#[derive(Debug)]
pub struct ControlClient {
    pub device_id: u128,
    pub crypto: ControlCrypto,
    pub session_id: u128,
}

impl ControlClient {
    /// A client for a device in a session.
    pub fn new(device_id: u128, session_id: u128, crypto: ControlCrypto) -> (client: Self)
        ensures
            client.device_id == device_id,
            client.session_id == session_id,
            client.crypto == crypto,
    {
        Self { device_id, crypto, session_id }
    }

    /// Builds the envelope for an operation from its sequence number, its
    /// payload and the answer of the MAC computation over them. A failed
    /// computation is an authentication error.
    pub fn envelope(
        &self,
        seq: u64,
        op: ControlOp,
        payload: Vec<u8>,
        computed_mac: Result<Vec<u8>, String>,
    ) -> (result: Result<ControlEnvelope, HandshakeError>)
        ensures
            match (computed_mac, result) {
                (Ok(mac), Ok(envelope)) => envelope == (ControlEnvelope {
                    message_type: MessageType::AlpineControl,
                    session_id: self.session_id,
                    seq,
                    op,
                    payload,
                    mac,
                }),
                (Err(reason), Err(error)) => error@ == HandshakeErrorSpec::Authentication(
                    reason@,
                ),
                _ => false,
            },
    {
        match self.crypto.mac_for_payload(computed_mac) {
            Ok(mac) => Ok(
                ControlEnvelope {
                    message_type: MessageType::AlpineControl,
                    session_id: self.session_id,
                    seq,
                    op,
                    payload,
                    mac,
                },
            ),
            Err(error) => Err(error),
        }
    }
}

/// Control responder: accepts envelopes and builds authenticated
/// acknowledgements. It remembers the last sequence number it accepted.
#[derive(Debug)]
pub struct ControlResponder {
    pub crypto: ControlCrypto,
    pub session_id: u128,
    last_accepted: Option<u64>,
}

impl ControlResponder {
    /// The last sequence number that was accepted, if any was.
    pub closed spec fn last_accepted(&self) -> Option<u64> {
        self.last_accepted
    }

    /// The session that the responder answers in.
    pub closed spec fn session(&self) -> u128 {
        self.session_id
    }

    /// The session keys that the responder holds.
    pub closed spec fn keys(&self) -> SessionKeys {
        self.crypto@
    }

    /// The sequence number lies beyond every accepted one.
    pub open spec fn is_fresh(&self, seq: u64) -> bool {
        match self.last_accepted() {
            Some(last) => seq > last,
            None => true,
        }
    }

    /// A responder for a session that has accepted nothing yet.
    pub fn new(session_id: u128, crypto: ControlCrypto) -> (responder: Self)
        ensures
            responder.last_accepted() is None,
            responder.session() == session_id,
            responder.keys() == crypto@,
    {
        Self { crypto, session_id, last_accepted: None }
    }

    /// Accepts or refuses an envelope, given whether its MAC verified.
    ///
    /// An envelope whose MAC did not verify is refused. So is one whose
    /// sequence number is not beyond the last accepted one. An accepted
    /// envelope moves the last accepted sequence number to its own; a
    /// refused one changes nothing.
    pub fn verify(&mut self, env: &ControlEnvelope, mac_verified: bool) -> (result: Result<
        (),
        HandshakeError,
    >)
        ensures
            final(self).session() == old(self).session(),
            final(self).keys() == old(self).keys(),
            !mac_verified ==> (result matches Err(error) && error@ == mac_mismatch_error())
                && final(self).last_accepted() == old(self).last_accepted(),
            mac_verified && !old(self).is_fresh(env.seq) ==> (result matches Err(error) && error@
                == replay_error()) && final(self).last_accepted() == old(self).last_accepted(),
            mac_verified && old(self).is_fresh(env.seq) ==> result is Ok
                && final(self).last_accepted() == Some(env.seq),
    {
        match self.crypto.verify_mac(mac_verified) {
            Ok(()) => {},
            Err(error) => {
                return Err(error);
            },
        }
        if let Some(last) = self.last_accepted {
            if env.seq <= last {
                return Err(HandshakeError::Authentication("control sequence replayed".to_owned()));
            }
        }
        self.last_accepted = Some(env.seq);
        Ok(())
    }

    /// Builds the acknowledgement of a sequence number from the answer of
    /// the MAC computation over its payload. A failed computation is an
    /// authentication error.
    pub fn ack(
        &self,
        seq: u64,
        ok: bool,
        detail: Option<String>,
        computed_mac: Result<Vec<u8>, String>,
    ) -> (result: Result<Acknowledge, HandshakeError>)
        ensures
            match (computed_mac, result) {
                (Ok(mac), Ok(ack)) => ack == (Acknowledge {
                    message_type: MessageType::AlpineControlAck,
                    session_id: self.session(),
                    seq,
                    ok,
                    detail,
                    mac,
                }),
                (Err(reason), Err(error)) => error@ == HandshakeErrorSpec::Authentication(
                    reason@,
                ),
                _ => false,
            },
    {
        match self.crypto.mac_for_payload(computed_mac) {
            Ok(mac) => Ok(
                Acknowledge {
                    message_type: MessageType::AlpineControlAck,
                    session_id: self.session_id,
                    seq,
                    ok,
                    detail,
                    mac,
                },
            ),
            Err(error) => Err(error),
        }
    }
}

} // verus!
