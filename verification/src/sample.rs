//! Audio samples as IEEE-754 single-precision bit patterns.
//!
//! A pattern has a sign bit, eight exponent bits and twenty-three fraction bits.
//! Dropping the sign bit leaves the magnitude, and among patterns that are
//! numbers a larger magnitude is a larger absolute value. Magnitudes above that
//! of infinity are not numbers.

use vstd::arithmetic::power2::{
    lemma2_to64, lemma_pow2_adds, lemma_pow2_pos, lemma_pow2_strictly_increases, pow2,
};
use vstd::prelude::*;

verus! {

/// The pattern of `+0.0`.
pub const ZERO: u32 = 0x0000_0000;

/// The pattern of `1.0`.
pub const ONE: u32 = 0x3F80_0000;

/// The pattern of `-1.0`.
pub const NEG_ONE: u32 = 0xBF80_0000;

/// The sign bit of a pattern.
pub const SIGN_BIT: u32 = 0x8000_0000;

/// Every bit of a pattern but the sign bit.
pub const MAGNITUDE_MASK: u32 = 0x7FFF_FFFF;

/// The magnitude of the two infinities.
pub const INFINITY: u32 = 0x7F80_0000;

/// The pattern without its sign bit.
pub open spec fn magnitude(bits: u32) -> u32 {
    bits & MAGNITUDE_MASK
}

/// Whether the sign bit is set.
pub open spec fn is_negative(bits: u32) -> bool {
    bits & SIGN_BIT != 0
}

/// Whether the pattern is not a number.
pub open spec fn is_nan(bits: u32) -> bool {
    magnitude(bits) > INFINITY
}

/// Whether the pattern is a number in the closed interval from -1.0 to 1.0.
pub open spec fn in_unit_range(bits: u32) -> bool {
    magnitude(bits) <= ONE
}

/// The pattern brought into the unit range: a pattern that is not a number
/// becomes `+0.0`, a number beyond the range becomes the nearer end of it, and
/// every other pattern stays as it is.
pub open spec fn clamp_unit(bits: u32) -> u32 {
    if is_nan(bits) {
        ZERO
    } else if in_unit_range(bits) {
        bits
    } else if is_negative(bits) {
        NEG_ONE
    } else {
        ONE
    }
}

/// The exponent field of a pattern, from 0 to 255.
pub open spec fn exponent(bits: u32) -> nat {
    (magnitude(bits) >> 23) as nat
}

/// The fraction field of a pattern, below 2^23.
pub open spec fn fraction(bits: u32) -> nat {
    (magnitude(bits) & 0x007F_FFFF) as nat
}

/// Whether the pattern is a number other than the infinities.
pub open spec fn is_finite(bits: u32) -> bool {
    magnitude(bits) < INFINITY
}

/// The absolute value of a finite pattern, in units of 2^-149, the smallest
/// step between single-precision numbers: the fraction alone where the
/// exponent field is zero, and otherwise the fraction with its hidden leading
/// bit, doubled once for each step of the exponent above one.
pub open spec fn abs_scaled(bits: u32) -> nat {
    if exponent(bits) == 0 {
        fraction(bits)
    } else {
        (0x0080_0000 + fraction(bits)) * pow2((exponent(bits) - 1) as nat)
    }
}

/// The value of a finite pattern in units of 2^-149.
pub open spec fn scaled(bits: u32) -> int {
    if is_negative(bits) {
        -(abs_scaled(bits) as int)
    } else {
        abs_scaled(bits) as int
    }
}

/// A magnitude is its exponent field followed by its fraction field.
proof fn lemma_fields(bits: u32)
    ensures
        magnitude(bits) == exponent(bits) * 0x0080_0000 + fraction(bits),
        exponent(bits) <= 255,
        fraction(bits) < 0x0080_0000,
        is_finite(bits) <==> exponent(bits) <= 254,
{
    let mag = magnitude(bits);
    assert(mag == (mag >> 23) * 0x0080_0000 + (mag & 0x007F_FFFF) && (mag >> 23) <= 255 && (mag
        & 0x007F_FFFF) < 0x0080_0000 && (mag < 0x7F80_0000u32 <==> (mag >> 23) <= 254))
        by (bit_vector)
        requires
            mag == bits & 0x7FFF_FFFFu32,
    ;
}

/// The absolute value of a pattern lies between the powers of two that its
/// exponent field names.
proof fn lemma_abs_scaled_bounds(bits: u32)
    ensures
        abs_scaled(bits) < pow2(exponent(bits) + 23),
        exponent(bits) >= 1 ==> abs_scaled(bits) >= pow2(exponent(bits) + 22),
{
    lemma_fields(bits);
    lemma2_to64();
    let e = exponent(bits);
    let f = fraction(bits);
    if e == 0 {
    } else {
        let p = pow2((e - 1) as nat);
        lemma_pow2_pos((e - 1) as nat);
        lemma_pow2_adds(23, (e - 1) as nat);
        lemma_pow2_adds(24, (e - 1) as nat);
        assert(0x0080_0000 * p <= (0x0080_0000 + f) * p < 0x0100_0000 * p) by (nonlinear_arith)
            requires
                0 <= f < 0x0080_0000,
                p > 0,
        ;
    }
}

/// Among finite patterns, the larger magnitude is the larger absolute value.
pub proof fn lemma_magnitude_orders_values(a: u32, b: u32)
    requires
        is_finite(a),
        is_finite(b),
    ensures
        magnitude(a) < magnitude(b) <==> abs_scaled(a) < abs_scaled(b),
        magnitude(a) == magnitude(b) <==> abs_scaled(a) == abs_scaled(b),
{
    lemma_fields(a);
    lemma_fields(b);
    lemma_strictly_larger(a, b);
    lemma_strictly_larger(b, a);
}

/// A finite pattern with the smaller magnitude has the smaller absolute value.
proof fn lemma_strictly_larger(a: u32, b: u32)
    ensures
        magnitude(a) < magnitude(b) ==> abs_scaled(a) < abs_scaled(b),
{
    lemma_fields(a);
    lemma_fields(b);
    let ea = exponent(a);
    let eb = exponent(b);
    let fa = fraction(a);
    let fb = fraction(b);
    if magnitude(a) < magnitude(b) {
        if ea == eb {
            assert(fa < fb);
            if ea > 0 {
                let p = pow2((ea - 1) as nat);
                lemma_pow2_pos((ea - 1) as nat);
                assert((0x0080_0000 + fa) * p < (0x0080_0000 + fb) * p) by (nonlinear_arith)
                    requires
                        fa < fb,
                        p > 0,
                ;
            }
        } else {
            assert(ea < eb);
            lemma_abs_scaled_bounds(a);
            lemma_abs_scaled_bounds(b);
            if ea + 23 < eb + 22 {
                lemma_pow2_strictly_increases(ea + 23, eb + 22);
            }
        }
    }
}

/// The unit range is the range of values from -1.0 to 1.0: a finite pattern is
/// in it exactly when its value, in units of 2^-149, lies between -2^149 and
/// 2^149. The infinities and the patterns that are not numbers are outside it.
pub proof fn lemma_unit_range_by_value(bits: u32)
    ensures
        abs_scaled(ONE) == pow2(149),
        scaled(ONE) == pow2(149),
        scaled(NEG_ONE) == -(pow2(149) as int),
        scaled(ZERO) == 0,
        is_finite(bits) ==> (in_unit_range(bits) <==> -(pow2(149) as int) <= scaled(bits) <= pow2(
            149,
        )),
        !is_finite(bits) ==> !in_unit_range(bits),
{
    lemma_fields(ONE);
    lemma_clamp_targets_in_range();
    assert((0x3F80_0000u32 >> 23) == 127 && (0x3F80_0000u32 & 0x007F_FFFF) == 0 && (0u32 >> 23)
        == 0 && (0u32 & 0x007F_FFFF) == 0) by (bit_vector);
    lemma2_to64();
    lemma_pow2_adds(23, 126);
    assert(magnitude(ONE) == ONE);
    assert(magnitude(NEG_ONE) == ONE);
    assert(abs_scaled(NEG_ONE) == abs_scaled(ONE));
    if is_finite(bits) {
        lemma_magnitude_orders_values(bits, ONE);
    }
}

/// Clamping a finite pattern clamps its value: what comes out has the value of
/// the pattern where that lies between -1.0 and 1.0, and otherwise the value of
/// the end of the range that the pattern lies beyond.
pub proof fn lemma_clamp_by_value(bits: u32)
    requires
        is_finite(bits),
    ensures
        scaled(clamp_unit(bits)) == if scaled(bits) > pow2(149) {
            pow2(149) as int
        } else if scaled(bits) < -(pow2(149) as int) {
            -(pow2(149) as int)
        } else {
            scaled(bits)
        },
{
    lemma_unit_range_by_value(bits);
}

/// Whether two patterns are equal as numbers: neither is not a number, and they
/// are the same pattern or both are zeros, whatever their signs.
pub open spec fn same_number(a: u32, b: u32) -> bool {
    !is_nan(a) && !is_nan(b) && (a == b || (magnitude(a) == 0 && magnitude(b) == 0))
}

/// The three patterns that clamping can produce by itself lie in the unit range.
pub proof fn lemma_clamp_targets_in_range()
    ensures
        magnitude(ZERO) == 0,
        magnitude(ONE) == ONE,
        magnitude(NEG_ONE) == ONE,
        in_unit_range(ZERO),
        in_unit_range(ONE),
        in_unit_range(NEG_ONE),
        !is_negative(ZERO),
        !is_negative(ONE),
        is_negative(NEG_ONE),
{
    assert(0x0000_0000u32 & 0x7FFF_FFFFu32 == 0 && 0x3F80_0000u32 & 0x7FFF_FFFFu32 == 0x3F80_0000u32
        && 0xBF80_0000u32 & 0x7FFF_FFFFu32 == 0x3F80_0000u32 && 0x0000_0000u32 & 0x8000_0000u32 == 0
        && 0x3F80_0000u32 & 0x8000_0000u32 == 0 && 0xBF80_0000u32 & 0x8000_0000u32
        == 0x8000_0000u32) by (bit_vector);
}

/// Brings a pattern into the unit range.
pub fn clamp(bits: u32) -> (out: u32)
    ensures
        out == clamp_unit(bits),
        in_unit_range(out),
{
    proof {
        lemma_clamp_targets_in_range();
    }
    let mag: u32 = bits & MAGNITUDE_MASK;
    if mag > INFINITY {
        ZERO
    } else if mag <= ONE {
        bits
    } else if bits & SIGN_BIT != 0 {
        NEG_ONE
    } else {
        ONE
    }
}

} // verus!
