//! Recovery signals for deterministic resynchronization.
//!
//! The monitor decides when a session must force a recovery keyframe and
//! reports the start and the completion of each recovery. Recovery starts on
//! a sustained loss ratio or a large burst gap, and completes only when both
//! figures have returned to safe values.

use vstd::prelude::*;
use crate::ratio::Ratio;
use crate::stream::network::NetworkConditions;

verus! {

/// Loss ratio, in percent, from which sustained loss starts a recovery.
pub const SUSTAINED_LOSS_PERCENT: u16 = 25;

/// Loss ratio, in percent, up to which a recovery may complete.
pub const RECOVERY_CLEAR_LOSS_PERCENT: u16 = 5;

/// Loss gap from which a burst starts a recovery.
pub const BURST_LOSS_THRESHOLD: u64 = 3;

/// Loss gap up to which a recovery may complete.
pub const RECOVERY_CLEAR_BURST_THRESHOLD: u64 = 1;

/// Represents why recovery was triggered.
#[derive(Debug, Clone, Copy, PartialEq, Eq, Structural)]
pub enum RecoveryReason {
    /// Sustained loss ratio across many frames.
    SustainedLoss,
    /// Burst loss gap (skipped sequences) exceeded the safe window.
    BurstLoss,
}

impl RecoveryReason {
    /// The name of the reason as it is written into frame metadata.
    pub fn as_str(&self) -> (name: &'static str)
        ensures
            name@ == match *self {
                RecoveryReason::SustainedLoss => "sustained_loss"@,
                RecoveryReason::BurstLoss => "burst_loss"@,
            },
    {
        match self {
            RecoveryReason::SustainedLoss => "sustained_loss",
            RecoveryReason::BurstLoss => "burst_loss",
        }
    }
}

/// Events emitted while evaluating recovery state.
#[derive(Debug, Clone, Copy, PartialEq, Eq, Structural)]
pub enum RecoveryEvent {
    /// Recovery just started for the given reason.
    RecoveryStarted(RecoveryReason),
    /// Recovery completed once metrics returned to safe bounds.
    RecoveryComplete(RecoveryReason),
}

#[derive(Debug, Clone, Copy, PartialEq, Eq, Structural)]
enum RecoveryState {
    Idle,
    Recovering(RecoveryReason),
}

/// One reading of the figures that the monitor looks at.
pub struct Reading {
    pub loss_ratio: Ratio,
    pub max_loss_gap: u64,
}

/// The reason for which these figures start a recovery, if they do. A burst
/// gap is looked at before the loss ratio.
pub open spec fn trigger_of(reading: Reading) -> Option<RecoveryReason> {
    if reading.max_loss_gap >= BURST_LOSS_THRESHOLD {
        Some(RecoveryReason::BurstLoss)
    } else if reading.loss_ratio.at_least(SUSTAINED_LOSS_PERCENT as int, 100) {
        Some(RecoveryReason::SustainedLoss)
    } else {
        None
    }
}

/// These figures let a recovery complete.
pub open spec fn is_clear(reading: Reading) -> bool {
    reading.loss_ratio.at_most(RECOVERY_CLEAR_LOSS_PERCENT as int, 100) && reading.max_loss_gap
        <= RECOVERY_CLEAR_BURST_THRESHOLD
}

/// The active reason after a reading, given the active reason before it.
pub open spec fn reason_after(active: Option<RecoveryReason>, reading: Reading) -> Option<
    RecoveryReason,
> {
    match active {
        None => trigger_of(reading),
        Some(reason) => if is_clear(reading) {
            None
        } else {
            Some(reason)
        },
    }
}

/// The event that a reading gives rise to, given the active reason before it.
pub open spec fn event_of(active: Option<RecoveryReason>, reading: Reading) -> Option<
    RecoveryEvent,
> {
    match active {
        None => match trigger_of(reading) {
            Some(reason) => Some(RecoveryEvent::RecoveryStarted(reason)),
            None => None,
        },
        Some(reason) => if is_clear(reading) {
            Some(RecoveryEvent::RecoveryComplete(reason))
        } else {
            None
        },
    }
}

/// The active reason after the first `n` of a series of readings.
pub open spec fn reason_at(start: Option<RecoveryReason>, readings: Seq<Reading>, n: nat) -> Option<
    RecoveryReason,
>
    decreases n,
{
    if n == 0 || n > readings.len() {
        start
    } else {
        reason_after(reason_at(start, readings, (n - 1) as nat), readings[n - 1])
    }
}

/// The event that reading number `n` of a series gives rise to.
pub open spec fn event_at(start: Option<RecoveryReason>, readings: Seq<Reading>, n: nat) -> Option<
    RecoveryEvent,
> {
    event_of(reason_at(start, readings, n), readings[n as int])
}

/// An event that completes a recovery.
pub open spec fn is_complete(event: Option<RecoveryEvent>) -> bool {
    event matches Some(RecoveryEvent::RecoveryComplete(_))
}

/// An event that starts a recovery.
pub open spec fn is_started(event: Option<RecoveryEvent>) -> bool {
    event matches Some(RecoveryEvent::RecoveryStarted(_))
}

/// While no reading from `from` up to `to` completes the recovery, the
/// reason that was active before reading `from` is still active before
/// reading `to`.
proof fn reason_persists(
    start: Option<RecoveryReason>,
    readings: Seq<Reading>,
    from: nat,
    to: nat,
    reason: RecoveryReason,
)
    requires
        from <= to <= readings.len(),
        reason_at(start, readings, from) == Some(reason),
        forall|k: nat| from <= k < to ==> !is_complete(#[trigger] event_at(start, readings, k)),
    ensures
        reason_at(start, readings, to) == Some(reason),
    decreases to - from,
{
    if from < to {
        let before = (to - 1) as nat;
        reason_persists(start, readings, from, before, reason);
        assert(!is_complete(event_at(start, readings, before)));
    }
}

/// Between the start of a recovery and its completion no second start is
/// reported: if reading `i` starts a recovery for `reason` and no reading
/// after it and before reading `j` completes one, then reading `j` either
/// reports nothing or completes the recovery for that same reason.
pub proof fn no_second_start_before_completion(
    start: Option<RecoveryReason>,
    readings: Seq<Reading>,
    i: nat,
    j: nat,
    reason: RecoveryReason,
)
    requires
        i < j < readings.len(),
        event_at(start, readings, i) == Some(RecoveryEvent::RecoveryStarted(reason)),
        forall|k: nat| i < k < j ==> !is_complete(#[trigger] event_at(start, readings, k)),
    ensures
        !is_started(event_at(start, readings, j)),
        event_at(start, readings, j) matches Some(event) ==> event
            == RecoveryEvent::RecoveryComplete(reason),
{
    assert(reason_at(start, readings, i + 1) == reason_after(
        reason_at(start, readings, i),
        readings[i as int],
    ));
    reason_persists(start, readings, i + 1, j, reason);
}

/// Monitor that enforces deterministic recovery transitions.
#[derive(Debug)]
pub struct RecoveryMonitor {
    state: RecoveryState,
}

impl View for RecoveryMonitor {
    type V = Option<RecoveryReason>;

    /// The reason of the recovery that is under way, if one is.
    closed spec fn view(&self) -> Option<RecoveryReason> {
        match self.state {
            RecoveryState::Idle => None,
            RecoveryState::Recovering(reason) => Some(reason),
        }
    }
}

impl RecoveryMonitor {
    /// Creates a fresh monitor in the idle state.
    pub fn new() -> (monitor: Self)
        ensures
            monitor@ == None::<RecoveryReason>,
    {
        Self { state: RecoveryState::Idle }
    }

    /// The figures of a tracker that the monitor looks at.
    pub open spec fn reading_of(conditions: &NetworkConditions) -> Reading {
        Reading {
            loss_ratio: conditions@.metrics().loss_ratio,
            max_loss_gap: conditions@.max_loss_gap,
        }
    }

    /// Feeds fresh metrics and returns the matching recovery event, if any.
    ///
    /// A start is reported only on the step from idle to recovering and a
    /// completion only on the step back; while a recovery is under way,
    /// figures that do not clear it report nothing and change nothing.
    pub fn feed(&mut self, conditions: &NetworkConditions) -> (event: Option<RecoveryEvent>)
        ensures
            final(self)@ == reason_after(old(self)@, Self::reading_of(conditions)),
            event == event_of(old(self)@, Self::reading_of(conditions)),
            old(self)@ is Some ==> !is_started(event),
    {
        let metrics = conditions.metrics();
        let gap = conditions.max_loss_gap();
        match self.state {
            RecoveryState::Idle => {
                if gap >= BURST_LOSS_THRESHOLD {
                    self.state = RecoveryState::Recovering(RecoveryReason::BurstLoss);
                    return Some(RecoveryEvent::RecoveryStarted(RecoveryReason::BurstLoss));
                }
                if metrics.loss_ratio.ge(SUSTAINED_LOSS_PERCENT, 100) {
                    self.state = RecoveryState::Recovering(RecoveryReason::SustainedLoss);
                    return Some(RecoveryEvent::RecoveryStarted(RecoveryReason::SustainedLoss));
                }
            },
            RecoveryState::Recovering(reason) => {
                if metrics.loss_ratio.le(RECOVERY_CLEAR_LOSS_PERCENT, 100) && gap
                    <= RECOVERY_CLEAR_BURST_THRESHOLD {
                    self.state = RecoveryState::Idle;
                    return Some(RecoveryEvent::RecoveryComplete(reason));
                }
            },
        }
        None
    }

    /// Returns `true` while recovery is active so callers can force keyframes.
    pub fn is_recovering(&self) -> (active: bool)
        ensures
            active == (self@ is Some),
    {
        matches!(self.state, RecoveryState::Recovering(_))
    }

    /// Returns the active recovery reason, if present.
    pub fn active_reason(&self) -> (reason: Option<RecoveryReason>)
        ensures
            reason == self@,
    {
        match self.state {
            RecoveryState::Recovering(reason) => Some(reason),
            RecoveryState::Idle => None,
        }
    }
}

} // verus!
