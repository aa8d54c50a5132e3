//! The admission gate: a cheap test that precedes every expensive step.
//!
//! A score is a real number between zero and one, handed over as the bit
//! pattern of its IEEE 754 double-precision encoding. The test needs only
//! the order of such patterns, which integer comparison decides.

use vstd::prelude::*;
use crate::error::ProtocolError;

verus! {

/// Bit pattern of the smallest double that is not under one tenth.
pub const THRESHOLD_BITS: u64 = 0x3FB9_9999_9999_999A;

/// Bit pattern of negative zero, the first pattern with the sign bit set.
pub const SIGN_BIT: u64 = 0x8000_0000_0000_0000;

/// Bit pattern of negative infinity, the last negative pattern that is a number.
pub const NEGATIVE_INFINITY_BITS: u64 = 0xFFF0_0000_0000_0000;

/// Whether the double with these bits compares as less than one tenth.
/// Non-negative numbers order as their patterns do; every negative number is
/// under the threshold; a pattern that is not a number compares as false.
pub open spec fn below_threshold(bits: u64) -> bool {
    bits < THRESHOLD_BITS || (SIGN_BIT <= bits && bits <= NEGATIVE_INFINITY_BITS)
}

/// A score supplied by the admission collaborator.
#[derive(Clone, Copy, Debug, PartialEq, Eq, Structural)]
pub struct AdmissionScore {
    pub bits: u64,
}

impl AdmissionScore {
    /// Whether a holder of this score is admitted.
    pub open spec fn admitted(self) -> bool {
        !below_threshold(self.bits)
    }

    /// Wraps the bit pattern of a double-precision score.
    pub fn from_bits(bits: u64) -> (score: AdmissionScore)
        ensures
            score.bits == bits,
    {
        AdmissionScore { bits }
    }

    /// The bit pattern this score was made from.
    pub fn to_bits(&self) -> (bits: u64)
        ensures
            bits == self.bits,
    {
        self.bits
    }

    /// Decides whether this score is admitted.
    pub fn is_admitted(&self) -> (ok: bool)
        ensures
            ok == self.admitted(),
    {
        !(self.bits < THRESHOLD_BITS || (SIGN_BIT <= self.bits && self.bits
            <= NEGATIVE_INFINITY_BITS))
    }

    /// Passes an admitted score and refuses any other.
    pub fn gate(&self) -> (res: Result<(), ProtocolError>)
        ensures
            self.admitted() ==> res == Ok::<(), ProtocolError>(()),
            !self.admitted() ==> res == Err::<(), ProtocolError>(ProtocolError::AdmissionDenied),
    {
        if self.is_admitted() {
            Ok(())
        } else {
            Err(ProtocolError::AdmissionDenied)
        }
    }
}

} // verus!
