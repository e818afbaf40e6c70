//! IEEE-754 binary64 numbers carried as their 64-bit encodings.
//!
//! The agent's measurements are binary64 values. The library keeps each one as
//! its bit pattern and decides everything it needs (finiteness, order,
//! negation) on that pattern with exact integer arithmetic.
use vstd::prelude::*;

verus! {

/// The encoding of a binary64 value.
pub type Bits = u64;

/// The sign bit.
pub const SIGN_BIT: u64 = 0x8000_0000_0000_0000;

/// The encoding of positive infinity; every encoding whose magnitude exceeds it is a NaN.
pub const INFINITY_MAGNITUDE: u64 = 0x7FF0_0000_0000_0000;

/// The encoding of `1.0`.
pub const ONE: u64 = 0x3FF0_0000_0000_0000;

/// Whether the sign bit of the encoding is set.
pub open spec fn sign_set(b: u64) -> bool {
    b >= SIGN_BIT
}

/// The encoding with its sign bit cleared.
pub open spec fn magnitude(b: u64) -> u64 {
    if sign_set(b) {
        (b - SIGN_BIT) as u64
    } else {
        b
    }
}

/// NaN: all exponent bits set and a non-zero fraction.
pub open spec fn spec_is_nan(b: u64) -> bool {
    magnitude(b) > INFINITY_MAGNITUDE
}

/// Finite: not every exponent bit is set.
pub open spec fn spec_is_finite(b: u64) -> bool {
    magnitude(b) < INFINITY_MAGNITUDE
}

/// A key that orders all non-NaN values as the reals (and infinities) they stand
/// for: the magnitude encodings of non-negative values grow with the value, and
/// both zeros get the key 0.
pub open spec fn order_key(b: u64) -> int {
    if sign_set(b) {
        -(magnitude(b) as int)
    } else {
        magnitude(b) as int
    }
}

/// The IEEE-754 `<` comparison: false whenever either side is a NaN.
pub open spec fn spec_lt(a: u64, b: u64) -> bool {
    !spec_is_nan(a) && !spec_is_nan(b) && order_key(a) < order_key(b)
}

/// The IEEE-754 `==` comparison: false whenever either side is a NaN, and the
/// two zeros are equal.
pub open spec fn spec_eq(a: u64, b: u64) -> bool {
    !spec_is_nan(a) && !spec_is_nan(b) && order_key(a) == order_key(b)
}

/// IEEE-754 negation: the same encoding with the sign bit flipped.
pub open spec fn spec_neg(b: u64) -> u64 {
    if sign_set(b) {
        (b - SIGN_BIT) as u64
    } else {
        (b + SIGN_BIT) as u64
    }
}

/// Decides whether an encoded value is finite.
pub fn is_finite(b: u64) -> (r: bool)
    ensures
        r == spec_is_finite(b),
{
    let m = if b >= SIGN_BIT {
        b - SIGN_BIT
    } else {
        b
    };
    m < INFINITY_MAGNITUDE
}

/// Decides whether an encoded value is a NaN.
pub fn is_nan(b: u64) -> (r: bool)
    ensures
        r == spec_is_nan(b),
{
    let m = if b >= SIGN_BIT {
        b - SIGN_BIT
    } else {
        b
    };
    m > INFINITY_MAGNITUDE
}

/// Decides `a < b` on encoded values.
pub fn lt(a: u64, b: u64) -> (r: bool)
    ensures
        r == spec_lt(a, b),
{
    let ma = if a >= SIGN_BIT {
        a - SIGN_BIT
    } else {
        a
    };
    let mb = if b >= SIGN_BIT {
        b - SIGN_BIT
    } else {
        b
    };
    if ma > INFINITY_MAGNITUDE || mb > INFINITY_MAGNITUDE {
        return false;
    }
    let a_neg = a >= SIGN_BIT;
    let b_neg = b >= SIGN_BIT;
    if a_neg && b_neg {
        mb < ma
    } else if a_neg {
        // a <= -0 <= b; equal only when both are zeros
        !(ma == 0 && mb == 0)
    } else if b_neg {
        false
    } else {
        ma < mb
    }
}

/// Decides `a == b` on encoded values.
pub fn eq(a: u64, b: u64) -> (r: bool)
    ensures
        r == spec_eq(a, b),
{
    if is_nan(a) || is_nan(b) {
        return false;
    }
    let ma = if a >= SIGN_BIT {
        a - SIGN_BIT
    } else {
        a
    };
    let mb = if b >= SIGN_BIT {
        b - SIGN_BIT
    } else {
        b
    };
    if ma == 0 && mb == 0 {
        true
    } else {
        a == b
    }
}

/// Negates an encoded value.
pub fn neg(b: u64) -> (r: u64)
    ensures
        r == spec_neg(b),
{
    if b >= SIGN_BIT {
        b - SIGN_BIT
    } else {
        b + SIGN_BIT
    }
}

/// Negation is an involution, keeps NaNs NaN, and mirrors the order.
pub proof fn lemma_neg_properties(b: u64)
    ensures
        spec_neg(spec_neg(b)) == b,
        spec_is_nan(spec_neg(b)) == spec_is_nan(b),
        spec_is_finite(spec_neg(b)) == spec_is_finite(b),
        !spec_is_nan(b) ==> order_key(spec_neg(b)) == -order_key(b),
{
}

/// The sign is the top bit and the magnitude the other 63 bits.
pub proof fn law_sign_and_magnitude_are_bit_fields(b: u64)
    ensures
        sign_set(b) == ((b >> 63u64) == 1u64),
        magnitude(b) == b & 0x7FFF_FFFF_FFFF_FFFFu64,
{
    assert((b >= 0x8000_0000_0000_0000u64) == ((b >> 63u64) == 1u64)) by (bit_vector);
    assert(b >= 0x8000_0000_0000_0000u64 ==> (b - 0x8000_0000_0000_0000u64) as u64 == b & 0x7FFF_FFFF_FFFF_FFFFu64) by (bit_vector);
    assert(b < 0x8000_0000_0000_0000u64 ==> b == b & 0x7FFF_FFFF_FFFF_FFFFu64) by (bit_vector);
}

/// A value is finite exactly when its eleven exponent bits are not all set.
pub proof fn law_finite_by_exponent(b: u64)
    ensures
        spec_is_finite(b) <==> ((b >> 52u64) & 0x7FFu64) != 0x7FFu64,
{
    law_sign_and_magnitude_are_bit_fields(b);
    assert(((b & 0x7FFF_FFFF_FFFF_FFFFu64) < 0x7FF0_0000_0000_0000u64) <==> (((b >> 52u64) & 0x7FFu64) != 0x7FFu64)) by (bit_vector);
}

/// A value is a NaN exactly when its exponent bits are all set and its
/// fraction is not zero.
pub proof fn law_nan_by_fields(b: u64)
    ensures
        spec_is_nan(b) <==> (((b >> 52u64) & 0x7FFu64) == 0x7FFu64 && (b & 0xF_FFFF_FFFF_FFFFu64) != 0u64),
{
    law_sign_and_magnitude_are_bit_fields(b);
    assert(((b & 0x7FFF_FFFF_FFFF_FFFFu64) > 0x7FF0_0000_0000_0000u64)
        <==> (((b >> 52u64) & 0x7FFu64) == 0x7FFu64 && (b & 0xF_FFFF_FFFF_FFFFu64) != 0u64)) by (bit_vector);
}

/// Negation flips the sign bit and nothing else.
pub proof fn law_neg_flips_sign_bit(b: u64)
    ensures
        spec_neg(b) == b ^ 0x8000_0000_0000_0000u64,
{
    assert(b >= 0x8000_0000_0000_0000u64 ==> (b - 0x8000_0000_0000_0000u64) as u64 == b ^ 0x8000_0000_0000_0000u64) by (bit_vector);
    assert(b < 0x8000_0000_0000_0000u64 ==> (b + 0x8000_0000_0000_0000u64) as u64 == b ^ 0x8000_0000_0000_0000u64) by (bit_vector);
}

/// IEEE-754 `<` in sign-magnitude terms: no NaN on either side; two negatives
/// compare by reversed magnitude, a negative is below a non-negative unless
/// both are zeros, a non-negative is never below a negative, and two
/// non-negatives compare by magnitude.
pub proof fn law_lt_by_sign_and_magnitude(a: u64, b: u64)
    ensures
        spec_lt(a, b) <==> (!spec_is_nan(a) && !spec_is_nan(b) && ({
            let sa = (a >> 63u64) == 1u64;
            let sb = (b >> 63u64) == 1u64;
            let ma = a & 0x7FFF_FFFF_FFFF_FFFFu64;
            let mb = b & 0x7FFF_FFFF_FFFF_FFFFu64;
            if sa && sb {
                mb < ma
            } else if sa {
                !(ma == 0 && mb == 0)
            } else if sb {
                false
            } else {
                ma < mb
            }
        })),
{
    law_sign_and_magnitude_are_bit_fields(a);
    law_sign_and_magnitude_are_bit_fields(b);
}

/// IEEE-754 `==` in sign-magnitude terms: no NaN on either side, and either
/// both are zeros or the encodings are the same.
pub proof fn law_eq_by_sign_and_magnitude(a: u64, b: u64)
    ensures
        spec_eq(a, b) <==> (!spec_is_nan(a) && !spec_is_nan(b) && (
            ((a & 0x7FFF_FFFF_FFFF_FFFFu64) == 0 && (b & 0x7FFF_FFFF_FFFF_FFFFu64) == 0) || a == b)),
{
    law_sign_and_magnitude_are_bit_fields(a);
    law_sign_and_magnitude_are_bit_fields(b);
    if sign_set(a) != sign_set(b) && magnitude(a) == magnitude(b) && magnitude(a) != 0 {
        assert(order_key(a) != order_key(b));
    }
    if sign_set(a) == sign_set(b) && magnitude(a) == magnitude(b) {
        assert(a == b);
    }
}

} // verus!
