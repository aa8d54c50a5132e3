use pq_channel::admission::AdmissionScore;
use pq_channel::admission::THRESHOLD_BITS;
use pq_channel::error::ProtocolError;

fn score(value: f64) -> AdmissionScore {
    AdmissionScore::from_bits(value.to_bits())
}

#[test]
fn threshold_is_the_bit_pattern_of_one_tenth() {
    assert_eq!(THRESHOLD_BITS, 0.1f64.to_bits());
}

#[test]
fn admission_agrees_with_the_comparison_of_doubles() {
    let samples = [
        0.0,
        -0.0,
        0.05,
        0.099_999_999_999_999_99,
        0.1,
        0.100_000_000_000_000_02,
        0.5,
        1.0,
        -1.0,
        -0.1,
        f64::MIN_POSITIVE,
        f64::MAX,
        f64::MIN,
        f64::INFINITY,
        f64::NEG_INFINITY,
        f64::NAN,
        -f64::NAN,
    ];
    for value in samples {
        assert_eq!(score(value).is_admitted(), !(value < 0.1), "value {value}");
    }
}

#[test]
fn admission_passes_at_the_threshold() {
    assert_eq!(score(0.1).gate(), Ok(()));
    assert_eq!(score(1.0).gate(), Ok(()));
}

#[test]
fn admission_refuses_under_the_threshold() {
    assert_eq!(score(0.09).gate(), Err(ProtocolError::AdmissionDenied));
    assert_eq!(score(0.0).gate(), Err(ProtocolError::AdmissionDenied));
}

#[test]
fn score_keeps_its_bits() {
    assert_eq!(score(0.75).to_bits(), 0.75f64.to_bits());
}
