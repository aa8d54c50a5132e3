//! The execution trace behind a transparent proof that a sum of private
//! scores reaches a threshold: each score followed by the running total.
//! Proving and verifying belong to an external prover; the trace and the
//! threshold test are decided here.

use vstd::prelude::*;
use crate::error::ProtocolError;

verus! {

/// The sum of `values`.
pub open spec fn total(values: Seq<u64>) -> int
    decreases values.len(),
{
    if values.len() == 0 {
        0
    } else {
        total(values.drop_last()) + values.last()
    }
}

/// The trace of `values`: at each even index a value, at the odd index
/// after it the sum of the values up to and including that one.
pub open spec fn trace_of(values: Seq<u64>) -> Seq<u64> {
    Seq::new(
        2 * values.len(),
        |i: int|
            if i % 2 == 0 {
                values[i / 2]
            } else {
                total(values.take(i / 2 + 1)) as u64
            },
    )
}

/// A running total never exceeds the whole sum.
pub proof fn lemma_total_grows(values: Seq<u64>, n: int)
    requires
        0 <= n <= values.len(),
    ensures
        0 <= total(values.take(n)) <= total(values),
    decreases values.len() - n,
{
    if n == values.len() {
        assert(values.take(n) =~= values);
        lemma_total_nonnegative(values);
    } else {
        lemma_total_grows(values, n + 1);
        assert(values.take(n + 1).drop_last() =~= values.take(n));
        lemma_total_nonnegative(values.take(n));
    }
}

/// A sum of unsigned values is not negative.
pub proof fn lemma_total_nonnegative(values: Seq<u64>)
    ensures
        0 <= total(values),
    decreases values.len(),
{
    if values.len() > 0 {
        lemma_total_nonnegative(values.drop_last());
    }
}

/// The prover's side of threshold attestations over integer scores.
#[derive(Clone, Copy, Debug)]
pub struct StarkValence;

impl StarkValence {
    /// Builds the trace of `valences`, or refuses with `AdmissionDenied`
    /// when their sum is under `threshold`.
    pub fn trace(valences: &Vec<u64>, threshold: u64) -> (res: Result<Vec<u64>, ProtocolError>)
        requires
            total(valences@) <= u64::MAX,
        ensures
            total(valences@) < threshold ==> res == Err::<Vec<u64>, ProtocolError>(
                ProtocolError::AdmissionDenied,
            ),
            total(valences@) >= threshold ==> (res matches Ok(trace) && trace@ == trace_of(
                valences@,
            )),
    {
        let mut trace: Vec<u64> = Vec::new();
        let mut sum: u64 = 0;
        let mut i: usize = 0;
        while i < valences.len()
            invariant
                i <= valences@.len(),
                total(valences@) <= u64::MAX,
                sum as int == total(valences@.take(i as int)),
                trace@.len() == 2 * i,
                forall|k: int| 0 <= k < trace@.len() ==> trace@[k] == trace_of(valences@)[k],
            decreases valences@.len() - i,
        {
            proof {
                lemma_total_grows(valences@, i + 1);
                assert(valences@.take(i + 1).drop_last() =~= valences@.take(i as int));
            }
            trace.push(valences[i]);
            sum = sum + valences[i];
            trace.push(sum);
            i = i + 1;
        }
        proof {
            assert(valences@.take(i as int) =~= valences@);
        }
        if sum < threshold {
            Err(ProtocolError::AdmissionDenied)
        } else {
            Ok(trace)
        }
    }
}

} // verus!
