//! The brightness formula: sensor reading scaled by a divisor, shifted by the
//! offset, clamped to the configured bounds.

use vstd::arithmetic::div_mod::{lemma_fundamental_div_mod, lemma_mod_bound};
use vstd::arithmetic::mul::{lemma_mul_is_commutative, lemma_mul_unary_negation};
use vstd::prelude::*;

verus! {

/// Quotient of `a` by `b` rounded toward zero, for a divisor `b` other than zero.
pub open spec fn trunc_div(a: int, b: int) -> int {
    if a >= 0 {
        a / b
    } else {
        -((-a) / b)
    }
}

/// `x` capped at `hi` from above, then raised to `lo` from below. When the bounds
/// cross (`lo > hi`) the lower bound wins and the result is `lo`.
pub open spec fn clamp(x: int, lo: int, hi: int) -> int {
    let capped = if x > hi { hi } else { x };
    if capped < lo { lo } else { capped }
}

/// The brightness that a sensor reading and an offset call for.
pub open spec fn brightness(sensor: int, divide: int, offset: int, minimum: int, maximum: int) -> int {
    clamp(trunc_div(sensor, divide) + offset, minimum, maximum)
}

/// Computes the brightness for one sensor reading.
///
/// The sum of the scaled reading and the offset is formed without wrapping, so the
/// clamp is exact however far the sum lies outside the bounds.
pub fn compute_brightness(sensor: i32, divide: i32, offset: i32, minimum: u32, maximum: u32) -> (output: u32)
    requires
        divide >= 1,
    ensures
        output == brightness(sensor as int, divide as int, offset as int, minimum as int, maximum as int),
{
    let scaled: i64 = (sensor as i64) / (divide as i64);
    let raw: i64 = scaled + (offset as i64);
    let capped: i64 = if raw > maximum as i64 { maximum as i64 } else { raw };
    if capped < minimum as i64 {
        minimum
    } else {
        capped as u32
    }
}

/// Truncating division rounds toward zero: what is left over has the sign of the
/// dividend and is smaller in magnitude than the divisor. For `-7` and `2` the
/// quotient is `-3` and `-1` is left over.
pub proof fn lemma_trunc_div_rounds_toward_zero(a: int, b: int)
    requires
        b >= 1,
    ensures
        a >= 0 ==> 0 <= a - trunc_div(a, b) * b < b,
        a <= 0 ==> -b < a - trunc_div(a, b) * b <= 0,
{
    if a >= 0 {
        lemma_fundamental_div_mod(a, b);
        lemma_mod_bound(a, b);
        lemma_mul_is_commutative(a / b, b);
    } else {
        lemma_fundamental_div_mod(-a, b);
        lemma_mod_bound(-a, b);
        lemma_mul_is_commutative((-a) / b, b);
        lemma_mul_unary_negation((-a) / b, b);
    }
}

/// With bounds that do not cross, the brightness lies within them, however far the
/// scaled reading plus the offset lies outside.
pub proof fn lemma_brightness_within_bounds(sensor: int, divide: int, offset: int, minimum: int, maximum: int)
    requires
        minimum <= maximum,
    ensures
        minimum <= brightness(sensor, divide, offset, minimum, maximum) <= maximum,
{
}

/// A sum that already lies within the bounds is passed through unchanged.
pub proof fn lemma_brightness_passes_through(sensor: int, divide: int, offset: int, minimum: int, maximum: int)
    requires
        minimum <= trunc_div(sensor, divide) + offset <= maximum,
    ensures
        brightness(sensor, divide, offset, minimum, maximum) == trunc_div(sensor, divide) + offset,
{
}

} // verus!
