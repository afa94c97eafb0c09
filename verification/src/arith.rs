//! Saturating and clamping integer arithmetic with exact contracts.

use vstd::prelude::*;

verus! {

/// `value` limited to the range `[lo, hi]` (assuming `lo <= hi`).
pub open spec fn spec_clamp(value: int, lo: int, hi: int) -> int {
    if value < lo {
        lo
    } else if value > hi {
        hi
    } else {
        value
    }
}

/// `value` saturated to the range of `i32`.
pub open spec fn spec_sat_i32(value: int) -> int {
    spec_clamp(value, i32::MIN as int, i32::MAX as int)
}

/// Saturating `a + b` on `i32`.
pub fn sat_add_i32(a: i32, b: i32) -> (r: i32)
    ensures
        r == spec_sat_i32(a + b),
{
    let sum: i64 = a as i64 + b as i64;
    if sum > i32::MAX as i64 {
        i32::MAX
    } else if sum < i32::MIN as i64 {
        i32::MIN
    } else {
        sum as i32
    }
}

/// Saturating `a - b` on `i32`.
pub fn sat_sub_i32(a: i32, b: i32) -> (r: i32)
    ensures
        r == spec_sat_i32(a - b),
{
    let diff: i64 = a as i64 - b as i64;
    if diff > i32::MAX as i64 {
        i32::MAX
    } else if diff < i32::MIN as i64 {
        i32::MIN
    } else {
        diff as i32
    }
}

/// `value` clamped into `[lo, hi]` on `i32`.
pub fn clamp_i32(value: i32, lo: i32, hi: i32) -> (r: i32)
    requires
        lo <= hi,
    ensures
        r == spec_clamp(value as int, lo as int, hi as int),
{
    if value < lo {
        lo
    } else if value > hi {
        hi
    } else {
        value
    }
}

/// The smaller of two integers.
pub open spec fn spec_min(a: int, b: int) -> int {
    if a <= b {
        a
    } else {
        b
    }
}

/// The larger of two integers.
pub open spec fn spec_max(a: int, b: int) -> int {
    if a >= b {
        a
    } else {
        b
    }
}

} // verus!
