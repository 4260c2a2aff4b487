use vstd::prelude::*;

verus! {

/// Bit pattern of positive infinity. Patterns above it with a clear sign bit are NaNs.
pub const POSITIVE_INFINITY_BITS: u64 = 0x7FF0_0000_0000_0000;

/// Bit pattern of negative zero: the sign bit alone.
pub const SIGN_BIT: u64 = 0x8000_0000_0000_0000;

/// Bit pattern of negative infinity. Patterns above it are NaNs.
pub const NEGATIVE_INFINITY_BITS: u64 = 0xFFF0_0000_0000_0000;

/// Bit pattern of 0.999: above it a sentiment counts as strong.
pub const STRONG_SENTIMENT_BITS: u64 = 0x3FEF_F7CE_D916_872B;

/// Bit pattern of 0.9: below it a negative sentiment counts as weak.
pub const WEAK_SENTIMENT_BITS: u64 = 0x3FEC_CCCC_CCCC_CCCD;

/// Bit pattern of 0.89: above it a zero-shot label is accepted.
pub const LABEL_ACCEPT_BITS: u64 = 0x3FEC_7AE1_47AE_147B;

/// A confidence reported by an inference engine.
///
/// The engines report an `f64`; the score keeps its IEEE-754 bit pattern.
/// Among patterns with a clear sign bit, up to positive infinity, the
/// order of the patterns is the order of the numbers, so comparisons with
/// a positive threshold are exact.
#[derive(Clone, Copy, Debug, PartialEq, Eq)]
pub struct Score {
    pub bits: u64,
}

/// A threshold is a positive, finite number.
pub open spec fn is_threshold(t: u64) -> bool {
    0 < t < POSITIVE_INFINITY_BITS
}

/// The number with bit pattern `bits` is greater than the threshold `t`,
/// as `>` on `f64` decides it (false for every NaN).
pub open spec fn exceeds(bits: u64, t: u64) -> bool {
    t < bits && bits <= POSITIVE_INFINITY_BITS
}

/// The number with bit pattern `bits` is less than the threshold `t`,
/// as `<` on `f64` decides it: every non-negative number under `t`, and
/// every negative number, zero and infinity included (false for every NaN).
pub open spec fn falls_below(bits: u64, t: u64) -> bool {
    bits < t || (SIGN_BIT <= bits && bits <= NEGATIVE_INFINITY_BITS)
}

impl Score {
    /// The score whose `f64` has the bit pattern `bits`.
    pub fn from_bits(bits: u64) -> (r: Score)
        ensures
            r.bits == bits,
    {
        Score { bits }
    }

    /// Whether this score is greater than the threshold `t`.
    pub fn exceeds(&self, t: u64) -> (r: bool)
        requires
            is_threshold(t),
        ensures
            r == exceeds(self.bits, t),
    {
        t < self.bits && self.bits <= POSITIVE_INFINITY_BITS
    }

    /// Whether this score is less than the threshold `t`.
    pub fn falls_below(&self, t: u64) -> (r: bool)
        requires
            is_threshold(t),
        ensures
            r == falls_below(self.bits, t),
    {
        self.bits < t || (SIGN_BIT <= self.bits && self.bits <= NEGATIVE_INFINITY_BITS)
    }
}

} // verus!
