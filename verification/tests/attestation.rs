use pq_channel::error::ProtocolError;
use pq_channel::stark_valence::StarkValence;

#[test]
fn trace_interleaves_values_and_running_totals() {
    assert_eq!(StarkValence::trace(&vec![3, 4, 5], 12), Ok(vec![3, 3, 4, 7, 5, 12]));
    assert_eq!(StarkValence::trace(&vec![3, 4, 5], 0), Ok(vec![3, 3, 4, 7, 5, 12]));
    assert_eq!(StarkValence::trace(&vec![], 0), Ok(vec![]));
    assert_eq!(StarkValence::trace(&vec![u64::MAX], u64::MAX), Ok(vec![u64::MAX, u64::MAX]));
}

#[test]
fn trace_is_refused_when_the_sum_is_under_the_threshold() {
    assert_eq!(StarkValence::trace(&vec![3, 4, 5], 13), Err(ProtocolError::AdmissionDenied));
    assert_eq!(StarkValence::trace(&vec![], 1), Err(ProtocolError::AdmissionDenied));
}
