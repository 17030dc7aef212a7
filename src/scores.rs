//! Ordering of model scores.
//!
//! The model reports one IEEE-754 binary32 score per vocabulary entry. The
//! library receives each score as its raw bit pattern and maps it to an
//! unsigned key whose natural order is the IEEE-754 `totalOrder` of the
//! scores: `-NaN < -inf < ... < -0 < +0 < ... < +inf < +NaN`.

use vstd::prelude::*;

verus! {

/// Bit pattern threshold: patterns at or above it have the sign bit set.
pub const SIGN_BIT: u32 = 0x8000_0000;

/// Whether the bit pattern `bits` encodes a negative score (sign bit set).
pub open spec fn is_negative(bits: u32) -> bool {
    bits >= SIGN_BIT
}

/// IEEE-754 `totalOrder` on binary32 bit patterns: among non-negative
/// scores a larger pattern is a larger score, among negative scores a larger
/// pattern is a smaller score, and every negative score is below every
/// non-negative one.
pub open spec fn total_order_le(a: u32, b: u32) -> bool {
    if is_negative(a) && is_negative(b) {
        b <= a
    } else if !is_negative(a) && !is_negative(b) {
        a <= b
    } else {
        is_negative(a)
    }
}

/// The ordering key of a bit pattern.
pub open spec fn order_key(bits: u32) -> u32 {
    if is_negative(bits) {
        (u32::MAX - bits) as u32
    } else {
        (bits + SIGN_BIT) as u32
    }
}

/// Comparing keys is comparing scores by `totalOrder`.
pub proof fn lemma_order_key_is_total_order(a: u32, b: u32)
    ensures
        order_key(a) <= order_key(b) <==> total_order_le(a, b),
        order_key(a) == order_key(b) <==> a == b,
{
}

/// Maps the bit pattern of a score to its ordering key.
pub fn score_key(bits: u32) -> (key: u32)
    ensures
        key == order_key(bits),
        is_negative(bits) ==> key < SIGN_BIT,
        !is_negative(bits) ==> key >= SIGN_BIT,
{
    if bits >= SIGN_BIT {
        u32::MAX - bits
    } else {
        bits + SIGN_BIT
    }
}

} // verus!
