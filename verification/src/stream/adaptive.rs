//! The adaptation state machine.
//!
//! A pure decision: from the current adaptation state, the network metrics,
//! the active recovery reason and the bounds of the profile it produces the
//! next, conservative state and at most one event. Rules are tried in a fixed
//! order and the first that applies wins. A change is made only after the
//! state has rested for a number of frames, and a change that would leave the
//! bounds of the profile latches the degraded-safe fallback instead.

use vstd::prelude::*;
use crate::profile::{StreamIntent, StreamProfile};
use crate::ratio::Ratio;
use crate::stream::network::{NetworkConditions, NetworkMetrics};
use crate::stream::recovery::RecoveryReason;

verus! {

/// Frames that a state must last before a parameter may change again.
pub const DWELL_FRAMES: u32 = 8;

/// Loss ratio, in percent, from which the keyframe cadence is tightened.
pub const LOSS_KEYFRAME_PERCENT: u16 = 30;

/// Loss ratio, in percent, up to which the degraded-safe fallback may end.
pub const LOSS_DISABLE_PERCENT: u16 = 50;

/// Loss ratio, in percent, from which a burst is taken to be unrecoverable.
pub const LOSS_DEGRADE_PERCENT: u16 = 60;

/// Late-frame rate, in percent, from which the delta depth is reduced.
pub const LATE_DELTA_PERCENT: u16 = 20;

/// Jitter, in milliseconds, above which the delta depth is reduced.
pub const JITTER_DELTA_MS: u16 = 5;

/// Jitter, in milliseconds, above which the deadline is tightened.
pub const JITTER_TIGHTEN_MS: u16 = 8;

/// Jitter, in milliseconds, below which the deadline is relaxed.
pub const JITTER_RELAX_MS: u16 = 3;

/// Loss gap from which the keyframe cadence is tightened.
pub const BURST_KEYFRAME: u64 = 5;

/// Loss gap from which delta encoding is disabled during burst recovery.
pub const BURST_DISABLE: u64 = 8;

/// Loss gap from which a burst is taken to be unrecoverable.
pub const BURST_DEGRADE: u64 = 10;

/// Step by which the deadline offset moves, in milliseconds.
pub const DEADLINE_STEP_MS: i16 = 10;

/// The three tunable parameters, as they were when the fallback latched.
#[derive(Debug, Clone, Copy, PartialEq, Eq, Structural)]
pub struct AdaptationSnapshot {
    pub keyframe_interval: u8,
    pub delta_depth: u8,
    pub deadline_offset_ms: i16,
}

impl AdaptationSnapshot {
    /// The parameters of a state.
    pub open spec fn of(state: AdaptationState) -> AdaptationSnapshot {
        AdaptationSnapshot {
            keyframe_interval: state.keyframe_interval,
            delta_depth: state.delta_depth,
            deadline_offset_ms: state.deadline_offset_ms,
        }
    }

    /// Takes the parameters of a state.
    pub fn from_state(state: &AdaptationState) -> (snapshot: Self)
        ensures
            snapshot == Self::of(*state),
    {
        Self {
            keyframe_interval: state.keyframe_interval,
            delta_depth: state.delta_depth,
            deadline_offset_ms: state.deadline_offset_ms,
        }
    }
}

/// The range that a profile allows for each parameter, and the values that a
/// session starts from.
#[derive(Debug, Clone, Copy, PartialEq, Eq, Structural)]
pub struct ProfileBounds {
    pub min_keyframe_interval: u8,
    pub base_keyframe_interval: u8,
    pub min_delta_depth: u8,
    pub base_delta_depth: u8,
    pub max_deadline_offset: i16,
    pub min_deadline_offset: i16,
}

impl ProfileBounds {
    /// The bounds of each intent.
    pub open spec fn of(intent: StreamIntent) -> ProfileBounds {
        match intent {
            StreamIntent::Auto => ProfileBounds {
                min_keyframe_interval: 6,
                base_keyframe_interval: 10,
                min_delta_depth: 1,
                base_delta_depth: 3,
                max_deadline_offset: 15,
                min_deadline_offset: -15i16,
            },
            StreamIntent::Realtime => ProfileBounds {
                min_keyframe_interval: 8,
                base_keyframe_interval: 12,
                min_delta_depth: 1,
                base_delta_depth: 2,
                max_deadline_offset: 0,
                min_deadline_offset: -20i16,
            },
            StreamIntent::Install => ProfileBounds {
                min_keyframe_interval: 4,
                base_keyframe_interval: 8,
                min_delta_depth: 0,
                base_delta_depth: 3,
                max_deadline_offset: 25,
                min_deadline_offset: -10i16,
            },
        }
    }

    /// The three values lie inside the bounds.
    pub open spec fn admits(self, keyframe_interval: int, delta_depth: int, deadline_offset: int) -> bool {
        &&& keyframe_interval >= self.min_keyframe_interval
        &&& delta_depth >= self.min_delta_depth
        &&& self.min_deadline_offset <= deadline_offset <= self.max_deadline_offset
    }

    /// Returns the bounds of an intent.
    pub fn for_intent(intent: StreamIntent) -> (bounds: Self)
        ensures
            bounds == Self::of(intent),
    {
        match intent {
            StreamIntent::Auto => Self {
                min_keyframe_interval: 6,
                base_keyframe_interval: 10,
                min_delta_depth: 1,
                base_delta_depth: 3,
                max_deadline_offset: 15,
                min_deadline_offset: -15,
            },
            StreamIntent::Realtime => Self {
                min_keyframe_interval: 8,
                base_keyframe_interval: 12,
                min_delta_depth: 1,
                base_delta_depth: 2,
                max_deadline_offset: 0,
                min_deadline_offset: -20,
            },
            StreamIntent::Install => Self {
                min_keyframe_interval: 4,
                base_keyframe_interval: 8,
                min_delta_depth: 0,
                base_delta_depth: 3,
                max_deadline_offset: 25,
                min_deadline_offset: -10,
            },
        }
    }
}

/// The adaptation state of a stream.
#[derive(Debug, Clone, Copy, PartialEq, Eq, Structural)]
pub struct AdaptationState {
    pub profile_intent: StreamIntent,
    pub keyframe_interval: u8,
    pub delta_depth: u8,
    pub deadline_offset_ms: i16,
    pub frames_in_state: u32,
    pub degraded_safe: bool,
    pub last_safe_snapshot: Option<AdaptationSnapshot>,
}

impl AdaptationState {
    /// The state that a stream of the given intent starts from.
    pub open spec fn initial(intent: StreamIntent) -> AdaptationState {
        AdaptationState {
            profile_intent: intent,
            keyframe_interval: ProfileBounds::of(intent).base_keyframe_interval,
            delta_depth: ProfileBounds::of(intent).base_delta_depth,
            deadline_offset_ms: 0,
            frames_in_state: DWELL_FRAMES,
            degraded_safe: false,
            last_safe_snapshot: None,
        }
    }

    /// The parameters lie inside the bounds.
    pub open spec fn in_bounds(self, bounds: ProfileBounds) -> bool {
        bounds.admits(
            self.keyframe_interval as int,
            self.delta_depth as int,
            self.deadline_offset_ms as int,
        )
    }

    /// The parameters that the state has, or will return to when the
    /// degraded-safe fallback ends.
    pub open spec fn resting_parameters(self) -> AdaptationSnapshot {
        match self.last_safe_snapshot {
            Some(snapshot) if self.degraded_safe => snapshot,
            _ => AdaptationSnapshot::of(self),
        }
    }

    /// Outside the degraded-safe fallback the parameters lie inside the
    /// bounds; in it, the parameters that the state will return to do.
    pub open spec fn settled(self, bounds: ProfileBounds) -> bool {
        bounds.admits(
            self.resting_parameters().keyframe_interval as int,
            self.resting_parameters().delta_depth as int,
            self.resting_parameters().deadline_offset_ms as int,
        )
    }

    /// The number of frames in the state, this one counted.
    pub open spec fn frames_counted(self) -> u32 {
        if self.frames_in_state == u32::MAX {
            u32::MAX
        } else {
            (self.frames_in_state + 1) as u32
        }
    }

    /// The starting state for a profile: the base values of its intent, no
    /// deadline offset, and free to change at once.
    pub fn baseline(profile: &StreamProfile) -> (state: Self)
        ensures
            state == Self::initial(profile@.intent),
            state.settled(ProfileBounds::of(profile@.intent)),
    {
        let intent = profile.intent();
        let bounds = ProfileBounds::for_intent(intent);
        Self {
            profile_intent: intent,
            keyframe_interval: bounds.base_keyframe_interval,
            delta_depth: bounds.base_delta_depth,
            deadline_offset_ms: 0,
            frames_in_state: DWELL_FRAMES,
            degraded_safe: false,
            last_safe_snapshot: None,
        }
    }

    /// Counts one more frame in the current state.
    pub fn record_frame(&mut self)
        ensures
            *final(self) == (AdaptationState {
                frames_in_state: old(self).frames_counted(),
                ..*old(self)
            }),
    {
        self.frames_in_state = self.frames_in_state.saturating_add(1);
    }

    /// Starts the count of frames anew.
    pub fn reset_frames(&mut self)
        ensures
            *final(self) == (AdaptationState { frames_in_state: 0, ..*old(self) }),
    {
        self.frames_in_state = 0;
    }

    /// Tests whether the proposed values leave the bounds.
    pub fn would_violate_bounds(
        &self,
        bounds: &ProfileBounds,
        next_interval: u8,
        next_delta: u8,
        next_deadline: i16,
    ) -> (violates: bool)
        ensures
            violates == !bounds.admits(next_interval as int, next_delta as int, next_deadline as int),
    {
        next_interval < bounds.min_keyframe_interval || next_delta < bounds.min_delta_depth
            || next_deadline < bounds.min_deadline_offset || next_deadline
            > bounds.max_deadline_offset
    }
}

/// Why the degraded-safe fallback latched.
#[derive(Debug, Clone, Copy, PartialEq, Eq, Structural)]
pub enum DegradedReason {
    /// A change was called for that the bounds of the profile do not allow.
    ExceededProfileBounds,
    /// Loss ratio and loss gap were both beyond recovery.
    UnrecoverableBurst,
}

/// What a decision did.
#[derive(Debug, Clone, Copy, PartialEq, Eq, Structural)]
pub enum AdaptationEvent {
    KeyframeCadenceIncreased,
    DeltaDepthReduced,
    DeltaDisabled,
    DeadlineAdjusted,
    EnteredDegradedSafe(DegradedReason),
    ExitedDegradedSafe,
}

/// The next state, and the event if the decision changed anything.
#[derive(Debug, Clone, Copy, PartialEq, Eq, Structural)]
pub struct AdaptationDecision {
    pub state: AdaptationState,
    pub event: Option<AdaptationEvent>,
}

/// What a decision looks at besides the current state.
pub struct Conditions {
    pub metrics: NetworkMetrics,
    pub max_loss_gap: u64,
    pub recovery: Option<RecoveryReason>,
}

/// The rules of the adaptation engine, in the order in which they are tried.
pub enum Rule {
    /// In the fallback, and the conditions allow leaving it.
    LeaveDegraded,
    /// In the fallback, and the conditions do not allow leaving it.
    StayDegraded,
    /// Loss beyond recovery: latch the fallback.
    Catastrophe,
    /// The state has not rested long enough to be changed.
    Dwell,
    /// Disable delta encoding.
    DisableDelta,
    /// Send keyframes more often.
    TightenKeyframe,
    /// Reduce the delta depth by one.
    ReduceDelta,
    /// Move the deadline offset down by one step.
    TightenDeadline,
    /// Move the deadline offset up by one step.
    RelaxDeadline,
    /// Nothing calls for a change.
    Hold,
}

impl Conditions {
    /// The jitter figure, zero where there is none.
    pub open spec fn jitter(self) -> Ratio {
        match self.metrics.jitter_ms {
            Some(jitter) => jitter,
            None => Ratio { num: 0, den: 1 },
        }
    }

    /// The conditions allow leaving the degraded-safe fallback.
    pub open spec fn allow_exit(self) -> bool {
        &&& self.metrics.loss_ratio.at_most(LOSS_DISABLE_PERCENT as int, 100)
        &&& self.max_loss_gap <= BURST_DISABLE
        &&& self.recovery is None
    }

    /// Loss ratio and loss gap are both beyond recovery.
    pub open spec fn catastrophic(self) -> bool {
        &&& self.metrics.loss_ratio.at_least(LOSS_DEGRADE_PERCENT as int, 100)
        &&& self.max_loss_gap >= BURST_DEGRADE
    }

    /// A burst recovery is under way with a gap that calls for disabling
    /// delta encoding.
    pub open spec fn burst_recovery(self) -> bool {
        self.max_loss_gap >= BURST_DISABLE && self.recovery == Some(RecoveryReason::BurstLoss)
    }

    /// Loss calls for more keyframes.
    pub open spec fn lossy(self) -> bool {
        self.metrics.loss_ratio.at_least(LOSS_KEYFRAME_PERCENT as int, 100) || self.max_loss_gap
            >= BURST_KEYFRAME
    }

    /// Late frames together with jitter call for a smaller delta depth.
    pub open spec fn late_and_jittery(self) -> bool {
        &&& self.metrics.late_frame_rate.at_least(LATE_DELTA_PERCENT as int, 100)
        &&& self.jitter().above(JITTER_DELTA_MS as int, 1)
    }
}

/// The rule that applies: the first in order whose condition holds.
pub open spec fn rule_for(current: AdaptationState, conditions: Conditions, bounds: ProfileBounds) -> Rule {
    if current.degraded_safe {
        if conditions.allow_exit() {
            Rule::LeaveDegraded
        } else {
            Rule::StayDegraded
        }
    } else if conditions.catastrophic() {
        Rule::Catastrophe
    } else if current.frames_counted() < DWELL_FRAMES {
        Rule::Dwell
    } else if conditions.burst_recovery() && current.delta_depth > bounds.min_delta_depth {
        Rule::DisableDelta
    } else if conditions.lossy() {
        Rule::TightenKeyframe
    } else if conditions.late_and_jittery() && current.delta_depth > bounds.min_delta_depth {
        Rule::ReduceDelta
    } else if conditions.jitter().above(JITTER_TIGHTEN_MS as int, 1) {
        Rule::TightenDeadline
    } else if conditions.jitter().below(JITTER_RELAX_MS as int, 1) {
        Rule::RelaxDeadline
    } else {
        Rule::Hold
    }
}

/// Nothing changes but the count of frames.
pub open spec fn held(current: AdaptationState) -> AdaptationDecision {
    AdaptationDecision {
        state: AdaptationState { frames_in_state: current.frames_counted(), ..current },
        event: None,
    }
}

/// The fallback latches: the parameters stay, and are remembered as the ones
/// to return to.
pub open spec fn latched(current: AdaptationState, reason: DegradedReason) -> AdaptationDecision {
    AdaptationDecision {
        state: AdaptationState {
            degraded_safe: true,
            last_safe_snapshot: Some(AdaptationSnapshot::of(current)),
            frames_in_state: 0,
            ..current
        },
        event: Some(AdaptationEvent::EnteredDegradedSafe(reason)),
    }
}

/// The fallback ends: the remembered parameters, if any, come back.
pub open spec fn restored(current: AdaptationState) -> AdaptationDecision {
    AdaptationDecision {
        state: AdaptationState {
            keyframe_interval: current.resting_parameters().keyframe_interval,
            delta_depth: current.resting_parameters().delta_depth,
            deadline_offset_ms: current.resting_parameters().deadline_offset_ms,
            degraded_safe: false,
            frames_in_state: 0,
            ..current
        },
        event: Some(AdaptationEvent::ExitedDegradedSafe),
    }
}

/// What a rule does to a state. A rule that changes a parameter applies the
/// change and starts the count of frames anew; where the new value would
/// leave its bound, the fallback latches instead and the parameters stay.
pub open spec fn outcome(rule: Rule, current: AdaptationState, bounds: ProfileBounds) -> AdaptationDecision {
    match rule {
        Rule::LeaveDegraded => restored(current),
        Rule::StayDegraded => held(current),
        Rule::Catastrophe => latched(current, DegradedReason::UnrecoverableBurst),
        Rule::Dwell => held(current),
        Rule::DisableDelta => if 0 < bounds.min_delta_depth {
            latched(current, DegradedReason::ExceededProfileBounds)
        } else {
            AdaptationDecision {
                state: AdaptationState { delta_depth: 0, frames_in_state: 0, ..current },
                event: Some(AdaptationEvent::DeltaDisabled),
            }
        },
        Rule::TightenKeyframe => if current.keyframe_interval - 1 < bounds.min_keyframe_interval {
            latched(current, DegradedReason::ExceededProfileBounds)
        } else {
            AdaptationDecision {
                state: AdaptationState {
                    keyframe_interval: (current.keyframe_interval - 1) as u8,
                    frames_in_state: 0,
                    ..current
                },
                event: Some(AdaptationEvent::KeyframeCadenceIncreased),
            }
        },
        Rule::ReduceDelta => if current.delta_depth - 1 < bounds.min_delta_depth {
            latched(current, DegradedReason::ExceededProfileBounds)
        } else {
            AdaptationDecision {
                state: AdaptationState {
                    delta_depth: (current.delta_depth - 1) as u8,
                    frames_in_state: 0,
                    ..current
                },
                event: Some(AdaptationEvent::DeltaDepthReduced),
            }
        },
        Rule::TightenDeadline => if current.deadline_offset_ms - DEADLINE_STEP_MS
            < bounds.min_deadline_offset {
            latched(current, DegradedReason::ExceededProfileBounds)
        } else {
            AdaptationDecision {
                state: AdaptationState {
                    deadline_offset_ms: (current.deadline_offset_ms - DEADLINE_STEP_MS) as i16,
                    frames_in_state: 0,
                    ..current
                },
                event: Some(AdaptationEvent::DeadlineAdjusted),
            }
        },
        Rule::RelaxDeadline => if current.deadline_offset_ms + DEADLINE_STEP_MS
            > bounds.max_deadline_offset {
            latched(current, DegradedReason::ExceededProfileBounds)
        } else {
            AdaptationDecision {
                state: AdaptationState {
                    deadline_offset_ms: (current.deadline_offset_ms + DEADLINE_STEP_MS) as i16,
                    frames_in_state: 0,
                    ..current
                },
                event: Some(AdaptationEvent::DeadlineAdjusted),
            }
        },
        Rule::Hold => held(current),
    }
}

/// The decision of the adaptation engine.
pub open spec fn decision_for(
    current: AdaptationState,
    conditions: Conditions,
    bounds: ProfileBounds,
) -> AdaptationDecision {
    outcome(rule_for(current, conditions, bounds), current, bounds)
}

/// After a decision the parameters lie inside the bounds of the profile, or
/// the state is in the degraded-safe fallback, provided the same held before
/// and the parameters that an ending fallback brings back lie inside the
/// bounds.
pub proof fn decision_stays_in_bounds_or_degraded(
    current: AdaptationState,
    conditions: Conditions,
    bounds: ProfileBounds,
)
    requires
        current.in_bounds(bounds) || current.degraded_safe,
        current.degraded_safe && conditions.allow_exit() ==> current.settled(bounds),
    ensures
        decision_for(current, conditions, bounds).state.in_bounds(bounds) || decision_for(
            current,
            conditions,
            bounds,
        ).state.degraded_safe,
{
}

/// A decision keeps a settled state settled: what holds of the parameters
/// of a session at its start holds after every decision.
pub proof fn decision_keeps_state_settled(
    current: AdaptationState,
    conditions: Conditions,
    bounds: ProfileBounds,
)
    requires
        current.settled(bounds),
    ensures
        decision_for(current, conditions, bounds).state.settled(bounds),
{
}

/// Before the state has rested for the dwell, no parameter changes. The one
/// exception is the end of the degraded-safe fallback, which brings back
/// remembered parameters however short the fallback lasted.
pub proof fn no_change_before_dwell(
    current: AdaptationState,
    conditions: Conditions,
    bounds: ProfileBounds,
)
    requires
        current.frames_counted() < DWELL_FRAMES,
        !(current.degraded_safe && conditions.allow_exit() && current.resting_parameters()
            != AdaptationSnapshot::of(current)),
    ensures
        AdaptationSnapshot::of(decision_for(current, conditions, bounds).state)
            == AdaptationSnapshot::of(current),
{
}

/// Decides on plain values: the metrics, the largest loss gap and the active
/// recovery reason.
pub fn decide(
    current: &AdaptationState,
    metrics: &NetworkMetrics,
    max_loss_gap: u64,
    recovery: Option<RecoveryReason>,
    bounds: &ProfileBounds,
) -> (decision: AdaptationDecision)
    requires
        metrics.wf(),
    ensures
        decision == decision_for(
            *current,
            Conditions { metrics: *metrics, max_loss_gap, recovery },
            *bounds,
        ),
        current.settled(*bounds) ==> decision.state.settled(*bounds) && (decision.state.in_bounds(
            *bounds,
        ) || decision.state.degraded_safe),
{
    let ghost conditions = Conditions { metrics: *metrics, max_loss_gap, recovery };
    let mut next = *current;
    next.record_frame();
    let gap = max_loss_gap;

    if current.degraded_safe {
        if metrics.loss_ratio.le(LOSS_DISABLE_PERCENT, 100) && gap <= BURST_DISABLE
            && recovery.is_none() {
            if let Some(snapshot) = current.last_safe_snapshot {
                next.keyframe_interval = snapshot.keyframe_interval;
                next.delta_depth = snapshot.delta_depth;
                next.deadline_offset_ms = snapshot.deadline_offset_ms;
            }
            next.degraded_safe = false;
            next.reset_frames();
            return AdaptationDecision {
                state: next,
                event: Some(AdaptationEvent::ExitedDegradedSafe),
            };
        }
        return AdaptationDecision { state: next, event: None };
    }
    if metrics.loss_ratio.ge(LOSS_DEGRADE_PERCENT, 100) && gap >= BURST_DEGRADE {
        return enter_degraded_safe(current, DegradedReason::UnrecoverableBurst);
    }
    if next.frames_in_state < DWELL_FRAMES {
        return AdaptationDecision { state: next, event: None };
    }
    let jitter = match metrics.jitter_ms {
        Some(jitter) => jitter,
        None => Ratio::zero(),
    };
    let in_burst_recovery = matches!(recovery, Some(RecoveryReason::BurstLoss));

    if gap >= BURST_DISABLE && in_burst_recovery && current.delta_depth > bounds.min_delta_depth {
        if 0 < bounds.min_delta_depth {
            return enter_degraded_safe(current, DegradedReason::ExceededProfileBounds);
        }
        next.delta_depth = 0;
        next.reset_frames();
        return AdaptationDecision { state: next, event: Some(AdaptationEvent::DeltaDisabled) };
    }
    if metrics.loss_ratio.ge(LOSS_KEYFRAME_PERCENT, 100) || gap >= BURST_KEYFRAME {
        if current.keyframe_interval == 0 || current.keyframe_interval - 1
            < bounds.min_keyframe_interval {
            return enter_degraded_safe(current, DegradedReason::ExceededProfileBounds);
        }
        next.keyframe_interval = current.keyframe_interval - 1;
        next.reset_frames();
        return AdaptationDecision {
            state: next,
            event: Some(AdaptationEvent::KeyframeCadenceIncreased),
        };
    }
    if metrics.late_frame_rate.ge(LATE_DELTA_PERCENT, 100) && jitter.gt(JITTER_DELTA_MS, 1)
        && current.delta_depth > bounds.min_delta_depth {
        next.delta_depth = current.delta_depth - 1;
        next.reset_frames();
        return AdaptationDecision { state: next, event: Some(AdaptationEvent::DeltaDepthReduced) };
    }
    if jitter.gt(JITTER_TIGHTEN_MS, 1) {
        let lowered: i32 = current.deadline_offset_ms as i32 - DEADLINE_STEP_MS as i32;
        if lowered < bounds.min_deadline_offset as i32 {
            return enter_degraded_safe(current, DegradedReason::ExceededProfileBounds);
        }
        next.deadline_offset_ms = lowered as i16;
        next.reset_frames();
        return AdaptationDecision { state: next, event: Some(AdaptationEvent::DeadlineAdjusted) };
    }
    if jitter.lt(JITTER_RELAX_MS, 1) {
        let raised: i32 = current.deadline_offset_ms as i32 + DEADLINE_STEP_MS as i32;
        if raised > bounds.max_deadline_offset as i32 {
            return enter_degraded_safe(current, DegradedReason::ExceededProfileBounds);
        }
        next.deadline_offset_ms = raised as i16;
        next.reset_frames();
        return AdaptationDecision { state: next, event: Some(AdaptationEvent::DeadlineAdjusted) };
    }
    AdaptationDecision { state: next, event: None }
}

/// Latches the degraded-safe fallback on a state.
fn enter_degraded_safe(current: &AdaptationState, reason: DegradedReason) -> (decision:
    AdaptationDecision)
    ensures
        decision == latched(*current, reason),
{
    let mut next = *current;
    next.degraded_safe = true;
    next.last_safe_snapshot = Some(AdaptationSnapshot::from_state(current));
    next.reset_frames();
    AdaptationDecision { state: next, event: Some(AdaptationEvent::EnteredDegradedSafe(reason)) }
}

/// The conditions that a tracker and a recovery reason amount to.
pub open spec fn conditions_of(network: &NetworkConditions, recovery: Option<RecoveryReason>) -> Conditions {
    Conditions {
        metrics: network@.metrics(),
        max_loss_gap: network@.max_loss_gap,
        recovery,
    }
}

/// Decides the next adaptation state from the current one, the tracked
/// network conditions, the active recovery reason and the profile.
pub fn decide_next_state(
    current: &AdaptationState,
    network: &NetworkConditions,
    recovery: Option<RecoveryReason>,
    profile: &StreamProfile,
) -> (decision: AdaptationDecision)
    ensures
        decision == decision_for(
            *current,
            conditions_of(network, recovery),
            ProfileBounds::of(profile@.intent),
        ),
        current.settled(ProfileBounds::of(profile@.intent)) ==> decision.state.settled(
            ProfileBounds::of(profile@.intent),
        ) && (decision.state.in_bounds(ProfileBounds::of(profile@.intent))
            || decision.state.degraded_safe),
        current.frames_counted() < DWELL_FRAMES && !current.degraded_safe
            ==> AdaptationSnapshot::of(decision.state) == AdaptationSnapshot::of(*current),
{
    let bounds = ProfileBounds::for_intent(profile.intent());
    let metrics = network.metrics();
    let gap = network.max_loss_gap();
    decide(current, &metrics, gap, recovery, &bounds)
}

} // verus!
