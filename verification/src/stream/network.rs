//! Network condition detection for a streaming session.
//!
//! The tracker turns an arrival timeline into exact loss, lateness and jitter
//! figures. It depends on nothing but the arrivals it is given, in the order
//! in which they are given.

use vstd::prelude::*;
use crate::ratio::Ratio;

verus! {

/// Snapshot of the observed network metrics for a single session.
#[derive(Debug, Clone, Copy, PartialEq, Eq, Structural)]
pub struct NetworkMetrics {
    /// Fraction of expected frames that never arrived.
    pub loss_ratio: Ratio,
    /// Fraction of observed frames that missed their delivery deadline.
    pub late_frame_rate: Ratio,
    /// Mean change between consecutive arrival intervals, in milliseconds.
    pub jitter_ms: Option<Ratio>,
}

impl NetworkMetrics {
    /// Every ratio of the snapshot is well formed.
    pub open spec fn wf(self) -> bool {
        &&& self.loss_ratio.wf()
        &&& self.late_frame_rate.wf()
        &&& self.jitter_ms matches Some(j) ==> j.wf()
    }
}

/// The counters of a tracker, as plain values.
pub struct Tally {
    pub last_sequence: Option<u64>,
    pub total_expected: u64,
    pub observed_frames: u64,
    pub lost_frames: u64,
    pub late_frames: u64,
    pub last_arrival: Option<u64>,
    pub last_interval: Option<u64>,
    pub total_jitter_us: u128,
    pub jitter_samples: u64,
    pub max_loss_gap: u64,
}

/// `a + b`, held at the largest 64-bit value.
pub open spec fn sat_add(a: u64, b: u64) -> u64 {
    if a + b > u64::MAX {
        u64::MAX
    } else {
        (a + b) as u64
    }
}

/// `a + b`, held at the largest 128-bit value.
pub open spec fn sat_add_wide(a: u128, b: u128) -> u128 {
    if a + b > u128::MAX {
        u128::MAX
    } else {
        (a + b) as u128
    }
}

/// The distance between two interval lengths.
pub open spec fn interval_change(a: u64, b: u64) -> u64 {
    if a > b {
        (a - b) as u64
    } else {
        (b - a) as u64
    }
}

impl Tally {
    /// The tally of a tracker that has seen nothing.
    pub open spec fn empty() -> Tally {
        Tally {
            last_sequence: None,
            total_expected: 0,
            observed_frames: 0,
            lost_frames: 0,
            late_frames: 0,
            last_arrival: None,
            last_interval: None,
            total_jitter_us: 0,
            jitter_samples: 0,
            max_loss_gap: 0,
        }
    }

    /// An arrival that the tracker ignores: its sequence number is not
    /// beyond the last one counted.
    pub open spec fn is_stale(self, sequence: u64) -> bool {
        self.last_sequence matches Some(last) && sequence <= last
    }

    /// How far `sequence` lies beyond the last counted sequence number; one
    /// for the first arrival.
    pub open spec fn advance(self, sequence: u64) -> u64 {
        match self.last_sequence {
            Some(last) => (sequence - last) as u64,
            None => 1,
        }
    }

    /// The interval between this arrival and the one before, if there was one.
    pub open spec fn interval_to(self, arrival_us: u64) -> Option<u64> {
        match self.last_arrival {
            Some(last) => Some(if arrival_us >= last { (arrival_us - last) as u64 } else { 0 }),
            None => None,
        }
    }

    /// The jitter sample that this arrival contributes, if two consecutive
    /// intervals exist.
    pub open spec fn jitter_sample(self, arrival_us: u64) -> Option<u64> {
        match (self.interval_to(arrival_us), self.last_interval) {
            (Some(interval), Some(previous)) => Some(interval_change(interval, previous)),
            _ => None,
        }
    }

    /// The tally after one arrival has been recorded.
    pub open spec fn record(self, sequence: u64, arrival_us: u64, deadline_us: u64) -> Tally {
        if self.is_stale(sequence) {
            self
        } else {
            let step = self.advance(sequence);
            let missing = (step - 1) as u64;
            Tally {
                last_sequence: Some(sequence),
                total_expected: sat_add(self.total_expected, step),
                observed_frames: sat_add(self.observed_frames, 1),
                lost_frames: sat_add(self.lost_frames, missing),
                late_frames: if arrival_us > deadline_us {
                    sat_add(self.late_frames, 1)
                } else {
                    self.late_frames
                },
                last_arrival: Some(arrival_us),
                last_interval: match self.interval_to(arrival_us) {
                    Some(interval) => Some(interval),
                    None => self.last_interval,
                },
                total_jitter_us: match self.jitter_sample(arrival_us) {
                    Some(sample) => sat_add_wide(self.total_jitter_us, sample as u128),
                    None => self.total_jitter_us,
                },
                jitter_samples: match self.jitter_sample(arrival_us) {
                    Some(_) => sat_add(self.jitter_samples, 1),
                    None => self.jitter_samples,
                },
                max_loss_gap: if missing > self.max_loss_gap {
                    missing
                } else {
                    self.max_loss_gap
                },
            }
        }
    }

    /// The number of frames that loss is measured against.
    pub open spec fn expected(self) -> u64 {
        if self.total_expected >= self.observed_frames {
            self.total_expected
        } else {
            self.observed_frames
        }
    }

    /// The metrics that this tally stands for. A quotient with divisor zero
    /// is zero; without jitter samples there is no jitter figure.
    pub open spec fn metrics(self) -> NetworkMetrics {
        NetworkMetrics {
            loss_ratio: if self.expected() == 0 {
                Ratio { num: 0, den: 1 }
            } else {
                Ratio { num: self.lost_frames as u128, den: self.expected() as u128 }
            },
            late_frame_rate: if self.observed_frames == 0 {
                Ratio { num: 0, den: 1 }
            } else {
                Ratio { num: self.late_frames as u128, den: self.observed_frames as u128 }
            },
            jitter_ms: if self.jitter_samples == 0 {
                None
            } else {
                Some(Ratio { num: self.total_jitter_us, den: (self.jitter_samples * 1000) as u128 })
            },
        }
    }

    /// No more frames are counted lost than were expected, nor late than
    /// were observed. Every tally reached from the empty one is consistent.
    pub open spec fn consistent(self) -> bool {
        &&& self.lost_frames <= self.total_expected
        &&& self.late_frames <= self.observed_frames
    }
}

/// Determines the network conditions for a streaming session.
pub struct NetworkConditions {
    last_sequence: Option<u64>,
    total_expected: u64,
    observed_frames: u64,
    lost_frames: u64,
    late_frames: u64,
    last_arrival: Option<u64>,
    last_interval: Option<u64>,
    total_jitter_us: u128,
    jitter_samples: u64,
    max_loss_gap: u64,
}

impl View for NetworkConditions {
    type V = Tally;

    closed spec fn view(&self) -> Tally {
        Tally {
            last_sequence: self.last_sequence,
            total_expected: self.total_expected,
            observed_frames: self.observed_frames,
            lost_frames: self.lost_frames,
            late_frames: self.late_frames,
            last_arrival: self.last_arrival,
            last_interval: self.last_interval,
            total_jitter_us: self.total_jitter_us,
            jitter_samples: self.jitter_samples,
            max_loss_gap: self.max_loss_gap,
        }
    }
}

impl NetworkConditions {
    /// Creates a fresh tracker.
    pub fn new() -> (tracker: Self)
        ensures
            tracker@ == Tally::empty(),
    {
        Self {
            last_sequence: None,
            total_expected: 0,
            observed_frames: 0,
            lost_frames: 0,
            late_frames: 0,
            last_arrival: None,
            last_interval: None,
            total_jitter_us: 0,
            jitter_samples: 0,
            max_loss_gap: 0,
        }
    }

    /// Records an observed frame arrival.
    ///
    /// An arrival whose sequence number is not beyond the last one counted
    /// leaves the tracker as it was.
    pub fn record_frame(&mut self, sequence: u64, arrival_us: u64, deadline_us: u64)
        ensures
            final(self)@ == old(self)@.record(sequence, arrival_us, deadline_us),
            old(self)@.is_stale(sequence) ==> final(self)@ == old(self)@ && final(self)@.metrics()
                == old(self)@.metrics(),
            old(self)@.consistent() ==> final(self)@.consistent(),
    {
        if let Some(last_seq) = self.last_sequence {
            if sequence <= last_seq {
                return ;
            }
            let delta: u64 = sequence - last_seq;
            self.total_expected = self.total_expected.saturating_add(delta);
            if delta > 1 {
                self.lost_frames = self.lost_frames.saturating_add(delta - 1);
                if delta - 1 > self.max_loss_gap {
                    self.max_loss_gap = delta - 1;
                }
            }
        } else {
            self.total_expected = self.total_expected.saturating_add(1);
        }

        self.last_sequence = Some(sequence);
        self.observed_frames = self.observed_frames.saturating_add(1);

        if arrival_us > deadline_us {
            self.late_frames = self.late_frames.saturating_add(1);
        }

        if let Some(last) = self.last_arrival {
            let interval: u64 = arrival_us.saturating_sub(last);
            if let Some(prev_interval) = self.last_interval {
                let jitter: u64 = if interval > prev_interval {
                    interval - prev_interval
                } else {
                    prev_interval - interval
                };
                self.total_jitter_us = self.total_jitter_us.saturating_add(jitter as u128);
                self.jitter_samples = self.jitter_samples.saturating_add(1);
            }
            self.last_interval = Some(interval);
        }
        self.last_arrival = Some(arrival_us);
    }

    /// Returns the latest metrics snapshot.
    pub fn metrics(&self) -> (m: NetworkMetrics)
        ensures
            m == self@.metrics(),
            m.wf(),
            self@.consistent() ==> m.loss_ratio.is_fraction() && m.late_frame_rate.is_fraction(),
    {
        let total_expected: u64 = if self.total_expected >= self.observed_frames {
            self.total_expected
        } else {
            self.observed_frames
        };
        let loss_ratio = if total_expected == 0 {
            Ratio::zero()
        } else {
            Ratio { num: self.lost_frames as u128, den: total_expected as u128 }
        };
        let late_frame_rate = if self.observed_frames == 0 {
            Ratio::zero()
        } else {
            Ratio { num: self.late_frames as u128, den: self.observed_frames as u128 }
        };
        let jitter_ms = if self.jitter_samples == 0 {
            None
        } else {
            Some(Ratio { num: self.total_jitter_us, den: (self.jitter_samples as u128) * 1000 })
        };
        NetworkMetrics { loss_ratio, late_frame_rate, jitter_ms }
    }

    /// Returns the largest run of missing sequence numbers observed.
    pub fn max_loss_gap(&self) -> (gap: u64)
        ensures
            gap == self@.max_loss_gap,
    {
        self.max_loss_gap
    }
}

} // verus!
