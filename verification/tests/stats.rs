use bench_ingest::ItemError;
use bench_ingest::SynthesisPolicy;
use bench_ingest::synthesize;

/// A report value in units becomes the library's fixed-point i64 in
/// thousandths, the way the surrounding binary converts it.
fn fixed(value: f64) -> i64 {
    (value * 1000.0).round() as i64
}

fn unfixed(value: i64) -> f64 {
    value as f64 / 1000.0
}

#[test]
fn three_point_policy_reference_values() {
    let points = synthesize(SynthesisPolicy::ThreePoint, fixed(100.0), fixed(5.0)).unwrap();
    assert_eq!(points, vec![95_000, 100_000, 105_000]);
    let back: Vec<f64> = points.into_iter().map(unfixed).collect();
    assert_eq!(back, vec![95.0, 100.0, 105.0]);
}

#[test]
fn negative_standard_error_is_rejected() {
    for estimate in [fixed(0.0), fixed(100.0), fixed(-3.5), i64::MAX, i64::MIN] {
        let r = synthesize(SynthesisPolicy::ThreePoint, estimate, fixed(-1.0));
        assert_eq!(r, Err(ItemError::InvalidStatistic));
    }
}

#[test]
fn zero_standard_error_gives_constant_sequence() {
    let points = synthesize(SynthesisPolicy::ThreePoint, fixed(42.0), 0).unwrap();
    assert_eq!(points, vec![42_000, 42_000, 42_000]);
}

#[test]
fn n_point_policy_repeats_shifted_estimate() {
    let points = synthesize(SynthesisPolicy::NPoint(2), fixed(10.0), fixed(1.0)).unwrap();
    assert_eq!(points, vec![10_500, 10_500, 10_500, 10_500]);
}

#[test]
fn n_point_policy_truncates_the_shift() {
    let points = synthesize(SynthesisPolicy::NPoint(3), 0, 1_000).unwrap();
    assert_eq!(points, vec![333, 333, 333, 333, 333, 333]);
}

#[test]
fn n_point_policy_rejects_zero_count() {
    let r = synthesize(SynthesisPolicy::NPoint(0), fixed(10.0), fixed(1.0));
    assert_eq!(r, Err(ItemError::InvalidStatistic));
}
