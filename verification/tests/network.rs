use alpine::ratio::Ratio;
use alpine::stream::network::NetworkConditions;

fn value(ratio: Ratio) -> f64 {
    ratio.num as f64 / ratio.den as f64
}

#[test]
fn loss_ratio_accounts_for_missing_sequences() {
    let mut net = NetworkConditions::new();
    net.record_frame(1, 0, 1);
    net.record_frame(2, 1_000, 2_000);
    net.record_frame(4, 3_000, 4_000);
    let metrics = net.metrics();
    assert!((value(metrics.loss_ratio) - (1.0 / 4.0)).abs() < f64::EPSILON);
}

#[test]
fn late_frame_rate_counts_deadlines() {
    let mut net = NetworkConditions::new();
    net.record_frame(1, 0, 0);
    net.record_frame(2, 5_000, 3_000);
    net.record_frame(3, 6_000, 6_000);
    let metrics = net.metrics();
    assert!((value(metrics.late_frame_rate) - (1.0 / 3.0)).abs() < f64::EPSILON);
}

#[test]
fn jitter_ms_average() {
    let mut net = NetworkConditions::new();
    net.record_frame(1, 0, 0);
    net.record_frame(2, 1_000, 2_000);
    net.record_frame(3, 2_500, 4_000);
    net.record_frame(4, 3_900, 5_000);
    let metrics = net.metrics();
    // intervals: 1000, 1500, 1400 -> diffs: 500, 100 -> avg = 300 us => 0.3 ms
    assert_eq!(metrics.jitter_ms.map(value), Some(0.3));
}

#[test]
fn fresh_tracker_reports_zero() {
    let net = NetworkConditions::new();
    let metrics = net.metrics();
    assert_eq!(metrics.loss_ratio, Ratio { num: 0, den: 1 });
    assert_eq!(metrics.late_frame_rate, Ratio { num: 0, den: 1 });
    assert_eq!(metrics.jitter_ms, None);
    assert_eq!(net.max_loss_gap(), 0);
}

#[test]
fn metrics_are_exact_fractions() {
    let mut net = NetworkConditions::new();
    net.record_frame(1, 0, 1);
    net.record_frame(2, 1_000, 2_000);
    net.record_frame(4, 3_000, 4_000);
    let metrics = net.metrics();
    assert_eq!(metrics.loss_ratio, Ratio { num: 1, den: 4 });
    assert_eq!(metrics.late_frame_rate, Ratio { num: 0, den: 3 });
    assert_eq!(metrics.jitter_ms, Some(Ratio { num: 1_000, den: 1_000 }));
    assert_eq!(net.max_loss_gap(), 1);
}

#[test]
fn stale_and_duplicate_arrivals_change_nothing() {
    let mut net = NetworkConditions::new();
    net.record_frame(5, 0, 10);
    net.record_frame(8, 1_000, 10);
    net.record_frame(9, 2_500, 10_000);
    let before = net.metrics();
    let gap = net.max_loss_gap();
    net.record_frame(9, 9_000, 0);
    net.record_frame(3, 9_500, 0);
    net.record_frame(0, 20_000, 0);
    assert_eq!(net.metrics(), before);
    assert_eq!(net.max_loss_gap(), gap);
    net.record_frame(10, 3_000, 10_000);
    let mut twin = NetworkConditions::new();
    twin.record_frame(5, 0, 10);
    twin.record_frame(8, 1_000, 10);
    twin.record_frame(9, 2_500, 10_000);
    twin.record_frame(10, 3_000, 10_000);
    assert_eq!(net.metrics(), twin.metrics());
}

#[test]
fn max_loss_gap_is_the_largest_run_of_missing_frames() {
    let mut net = NetworkConditions::new();
    net.record_frame(1, 0, 0);
    net.record_frame(5, 10, 0);
    assert_eq!(net.max_loss_gap(), 3);
    net.record_frame(7, 20, 0);
    assert_eq!(net.max_loss_gap(), 3);
    net.record_frame(20, 30, 0);
    assert_eq!(net.max_loss_gap(), 12);
    assert_eq!(net.metrics().loss_ratio, Ratio { num: 16, den: 20 });
}

#[test]
fn first_arrival_counts_once_whatever_its_sequence() {
    let mut net = NetworkConditions::new();
    net.record_frame(1_000, 50, 10);
    let metrics = net.metrics();
    assert_eq!(metrics.loss_ratio, Ratio { num: 0, den: 1 });
    assert_eq!(metrics.late_frame_rate, Ratio { num: 1, den: 1 });
    assert_eq!(metrics.jitter_ms, None);
}

#[test]
fn arrival_on_the_deadline_is_not_late() {
    let mut net = NetworkConditions::new();
    net.record_frame(1, 100, 100);
    assert_eq!(net.metrics().late_frame_rate, Ratio { num: 0, den: 1 });
    net.record_frame(2, 201, 200);
    assert_eq!(net.metrics().late_frame_rate, Ratio { num: 1, den: 2 });
}

#[test]
fn counters_saturate() {
    let mut net = NetworkConditions::new();
    net.record_frame(0, 0, 0);
    net.record_frame(u64::MAX, 1, 0);
    let metrics = net.metrics();
    assert_eq!(net.max_loss_gap(), u64::MAX - 1);
    assert_eq!(
        metrics.loss_ratio,
        Ratio { num: (u64::MAX - 1) as u128, den: u64::MAX as u128 }
    );
}

#[test]
fn ratio_comparisons_are_exact() {
    let quarter = Ratio { num: 1, den: 4 };
    assert!(quarter.ge(25, 100));
    assert!(quarter.le(25, 100));
    assert!(!quarter.gt(25, 100));
    assert!(!quarter.lt(25, 100));
    assert!(quarter.gt(24, 100));
    assert!(quarter.lt(26, 100));
    let huge = Ratio { num: u128::MAX, den: 1 };
    assert!(huge.gt(65_535, 1));
    assert!(huge.ge(65_535, 1));
    assert!(!huge.le(65_535, 1));
    let zero = Ratio::zero();
    assert!(zero.le(0, 1));
    assert!(zero.ge(0, 1));
    assert!(zero.lt(3, 1));
}
