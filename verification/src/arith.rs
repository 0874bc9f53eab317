//! Small integer helpers shared by the input processing code: saturating
//! arithmetic on signed integers, clamping between widths, and the
//! truncating division that Rust's `/` and `%` perform on signed values.

use vstd::prelude::*;

verus! {

/// `v` limited to the closed range `[lo, hi]`.
pub open spec fn clamp_int(v: int, lo: int, hi: int) -> int {
    if v < lo {
        lo
    } else if v > hi {
        hi
    } else {
        v
    }
}

/// Truncating (round toward zero) quotient, as Rust's `/` computes it for a
/// positive divisor.
pub open spec fn tdiv(a: int, b: int) -> int {
    if a >= 0 {
        a / b
    } else {
        -((-a) / b)
    }
}

/// Absolute value of a mathematical integer.
pub open spec fn abs_int(a: int) -> int {
    if a < 0 {
        -a
    } else {
        a
    }
}

/// The truncating quotient never moves away from zero and leaves a
/// remainder of the dividend's sign that is smaller than the divisor.
pub proof fn lemma_tdiv_bounds(a: int, b: int)
    requires
        b > 0,
    ensures
        abs_int(tdiv(a, b) * b) <= abs_int(a),
        abs_int(a - tdiv(a, b) * b) < b,
        a >= 0 ==> 0 <= a - tdiv(a, b) * b,
        a <= 0 ==> a - tdiv(a, b) * b <= 0,
        a >= 0 ==> tdiv(a, b) >= 0,
        a <= 0 ==> tdiv(a, b) <= 0,
        abs_int(tdiv(a, b)) <= abs_int(a),
{
    if a >= 0 {
        vstd::arithmetic::div_mod::lemma_fundamental_div_mod(a, b);
        vstd::arithmetic::div_mod::lemma_div_pos_is_pos(a, b);
        assert((a / b) * b == b * (a / b)) by (nonlinear_arith);
        assert(a % b < b && a % b >= 0) by {
            vstd::arithmetic::div_mod::lemma_mod_bound(a, b);
        }
        vstd::arithmetic::div_mod::lemma_div_is_ordered_by_denominator(a, 1, b);
    } else {
        let na = -a;
        vstd::arithmetic::div_mod::lemma_fundamental_div_mod(na, b);
        vstd::arithmetic::div_mod::lemma_div_pos_is_pos(na, b);
        assert((na / b) * b == b * (na / b)) by (nonlinear_arith);
        assert(na % b < b && na % b >= 0) by {
            vstd::arithmetic::div_mod::lemma_mod_bound(na, b);
        }
        assert(-(na / b) * b == -((na / b) * b)) by (nonlinear_arith);
        vstd::arithmetic::div_mod::lemma_div_is_ordered_by_denominator(na, 1, b);
    }
}

/// `a + b` saturated to the `i16` range.
pub fn sat_add_i16(a: i16, b: i16) -> (r: i16)
    ensures
        r == clamp_int(a + b, i16::MIN as int, i16::MAX as int),
{
    let s: i32 = a as i32 + b as i32;
    if s < -32768 {
        -32768
    } else if s > 32767 {
        32767
    } else {
        s as i16
    }
}

/// `a + b` saturated to the `i32` range.
pub fn sat_add_i32(a: i32, b: i32) -> (r: i32)
    ensures
        r == clamp_int(a + b, i32::MIN as int, i32::MAX as int),
{
    let s: i64 = a as i64 + b as i64;
    if s < -2147483648 {
        -2147483648
    } else if s > 2147483647 {
        2147483647
    } else {
        s as i32
    }
}

/// `a + b` saturated to the `i8` range.
pub fn sat_add_i8(a: i8, b: i8) -> (r: i8)
    ensures
        r == clamp_int(a + b, i8::MIN as int, i8::MAX as int),
{
    let s: i16 = a as i16 + b as i16;
    if s < -128 {
        -128
    } else if s > 127 {
        127
    } else {
        s as i8
    }
}

/// `a - b` saturated to the `i8` range.
pub fn sat_sub_i8(a: i8, b: i8) -> (r: i8)
    ensures
        r == clamp_int(a - b, i8::MIN as int, i8::MAX as int),
{
    let s: i16 = a as i16 - b as i16;
    if s < -128 {
        -128
    } else if s > 127 {
        127
    } else {
        s as i8
    }
}

/// An `i16` clamped into the `i8` range.
pub fn clamp_i16_to_i8(v: i16) -> (r: i8)
    ensures
        r == clamp_int(v as int, i8::MIN as int, i8::MAX as int),
{
    if v < -128 {
        -128
    } else if v > 127 {
        127
    } else {
        v as i8
    }
}

/// An `i32` clamped into the `i16` range.
pub fn clamp_i32_to_i16(v: i32) -> (r: i16)
    ensures
        r == clamp_int(v as int, i16::MIN as int, i16::MAX as int),
{
    if v < -32768 {
        -32768
    } else if v > 32767 {
        32767
    } else {
        v as i16
    }
}

} // verus!
