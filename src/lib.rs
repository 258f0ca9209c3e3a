//! Geometric primitives on the plane.
//!
//! The coordinates of points are IEEE-754 binary64 values. The verified part of
//! the library works on their bit encodings (as given by `f64::to_bits`), which
//! is where the rules that are more than arithmetic can be stated exactly.

use vstd::prelude::*;

verus! {

/// The sign bit of a binary64 encoding.
pub const SIGN_BIT: u64 = 0x8000_0000_0000_0000;

/// The encoding of positive infinity: exponent field all ones, fraction zero.
pub const POSITIVE_INFINITY: u64 = 0x7ff0_0000_0000_0000;

/// The encoding of negative infinity: positive infinity with the sign bit set.
pub const NEGATIVE_INFINITY: u64 = 0xfff0_0000_0000_0000;

/// The exponent field of a binary64 encoding.
pub const EXPONENT_FIELD: u64 = 0x7ff0_0000_0000_0000;

/// The fraction field of a binary64 encoding.
pub const FRACTION_FIELD: u64 = 0x000f_ffff_ffff_ffff;

/// An encoding of either infinity, of whichever sign.
pub open spec fn is_infinite_bits(b: u64) -> bool {
    b == POSITIVE_INFINITY || b == NEGATIVE_INFINITY
}

/// An encoding of a NaN: exponent field all ones, fraction not zero.
pub open spec fn is_nan_bits(b: u64) -> bool {
    b & EXPONENT_FIELD == EXPONENT_FIELD && b & FRACTION_FIELD != 0
}

/// The x-intercept of a line is reported from the raw quotient of its formula as
/// follows: an infinite quotient (the line is horizontal) is reported as positive
/// infinity, whatever its sign; every other value, NaN included, is reported as it
/// is. The argument and the result are binary64 encodings.
pub fn normalize_intercept_bits(raw: u64) -> (r: u64)
    ensures
        r == (if is_infinite_bits(raw) { POSITIVE_INFINITY } else { raw }),
        r != NEGATIVE_INFINITY,
        is_nan_bits(raw) ==> r == raw,
{
    // Clearing the sign bit leaves positive infinity exactly for the two infinities.
    let magnitude: u64 = raw & !SIGN_BIT;
    proof {
        assert(magnitude == POSITIVE_INFINITY <==> (raw == POSITIVE_INFINITY || raw
            == NEGATIVE_INFINITY)) by (bit_vector)
            requires
                magnitude == raw & !0x8000_0000_0000_0000u64,
        ;
        assert(is_nan_bits(raw) ==> raw != NEGATIVE_INFINITY) by (bit_vector);
    }
    if magnitude == POSITIVE_INFINITY {
        POSITIVE_INFINITY
    } else {
        raw
    }
}

} // verus!
