//! Saturating and flooring integer helpers shared by the simulation's
//! timers, counters and damage formula.

use vstd::prelude::*;

verus! {

/// Clamp a mathematical integer into the range of `i64`.
pub open spec fn sat_i64(x: int) -> int {
    if x > i64::MAX {
        i64::MAX as int
    } else if x < i64::MIN {
        i64::MIN as int
    } else {
        x
    }
}

/// Clamp a mathematical integer into the range of `u64`.
pub open spec fn sat_u64(x: int) -> int {
    if x > u64::MAX {
        u64::MAX as int
    } else {
        x
    }
}

/// Saturating addition of two times or durations.
pub fn sat_add_u64(a: u64, b: u64) -> (r: u64)
    ensures
        r == sat_u64(a + b),
{
    match a.checked_add(b) {
        Some(v) => v,
        None => u64::MAX,
    }
}

/// Saturating addition of two signed amounts.
pub fn sat_add_i64(a: i64, b: i64) -> (r: i64)
    ensures
        r == sat_i64(a + b),
{
    match a.checked_add(b) {
        Some(v) => v,
        None => if b >= 0 {
            i64::MAX
        } else {
            i64::MIN
        },
    }
}

/// Division rounding toward negative infinity, as every bracketed step of
/// the damage formula demands.  (For a positive divisor this agrees with
/// the Euclidean division that specifications use.)
pub fn floor_div_i64(a: i64, b: i64) -> (r: i64)
    requires
        b > 0,
    ensures
        r == a as int / b as int,
{
    proof {
        lemma_floor_div_in_i64_range(a as int, b as int);
    }
    match a.checked_div_euclid(b) {
        Some(v) => v,
        None => 0,
    }
}

/// The same, on the wider type used for the external-multiplier stage.
pub fn floor_div_i128(a: i128, b: i128) -> (r: i128)
    requires
        b > 0,
    ensures
        r == a as int / b as int,
{
    proof {
        lemma_floor_div_in_i128_range(a as int, b as int);
    }
    match a.checked_div_euclid(b) {
        Some(v) => v,
        None => 0,
    }
}

/// Clamp a wide intermediate back into `i64`.
pub fn clamp_i128_to_i64(x: i128) -> (r: i64)
    ensures
        r == sat_i64(x as int),
{
    if x > i64::MAX as i128 {
        i64::MAX
    } else if x < i64::MIN as i128 {
        i64::MIN
    } else {
        x as i64
    }
}

/// Flooring by a positive divisor shrinks a symmetric bound by the same
/// factor.
pub proof fn lemma_floor_div_bound(a: int, b: int, m: int)
    requires
        b > 0,
        m >= 0,
        -(m * b) <= a <= m * b,
    ensures
        -m <= a / b <= m,
{
    assert(-m <= a / b <= m) by (nonlinear_arith)
        requires
            b > 0,
            m >= 0,
            -(m * b) <= a <= m * b,
    ;
}

/// A product of two symmetrically bounded factors is bounded by the
/// product of the bounds.
pub proof fn lemma_mul_bound(x: int, y: int, a: int, b: int)
    requires
        -a <= x <= a,
        -b <= y <= b,
    ensures
        -(a * b) <= x * y <= a * b,
{
    assert(-(a * b) <= x * y <= a * b) by (nonlinear_arith)
        requires
            -a <= x <= a,
            -b <= y <= b,
    ;
}

proof fn lemma_floor_div_in_i64_range(a: int, b: int)
    requires
        b > 0,
        i64::MIN <= a <= i64::MAX,
    ensures
        i64::MIN <= a / b <= i64::MAX,
{
    lemma_floor_div_bounds(a, b, i64::MIN as int, i64::MAX as int);
}

proof fn lemma_floor_div_in_i128_range(a: int, b: int)
    requires
        b > 0,
        i128::MIN <= a <= i128::MAX,
    ensures
        i128::MIN <= a / b <= i128::MAX,
{
    lemma_floor_div_bounds(a, b, i128::MIN as int, i128::MAX as int);
}

proof fn lemma_floor_div_bounds(a: int, b: int, lo: int, hi: int)
    requires
        b > 0,
        lo <= a <= hi,
        lo < 0 <= hi,
    ensures
        lo <= a / b <= hi,
{
    assert(lo <= a / b <= hi) by (nonlinear_arith)
        requires
            b > 0,
            lo <= a <= hi,
            lo < 0 <= hi,
    ;
}

} // verus!
