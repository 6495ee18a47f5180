//! Debounce (deadband) policy for continuous sensors.
//!
//! A noisy sensor produces a stream of readings that differ by tiny amounts.
//! The update task publishes a reading only when it is significant: the
//! reading, rounded to the configured coarser scale, differs from the last
//! published reading rounded the same way. Readings are fixed-point
//! integers in hundredths of a unit (centi-units); the significance scale is
//! one tenth of a unit, so two readings are equivalent when they round to
//! the same tenth.

use vstd::prelude::*;

verus! {

/// Readings within the same multiple of this many centi-units (one tenth of
/// a unit) are insignificant noise.
pub const DEBOUNCE_DIVISOR: u32 = 10;

/// Rounding of `c` to the nearest multiple of `d`, halves away from zero,
/// expressed as the signed multiple.
pub open spec fn round_scaled_spec(c: int, d: int) -> int
    recommends
        d >= 1,
{
    if c >= 0 {
        (c + d / 2) / d
    } else {
        -((-c + d / 2) / d)
    }
}

/// A reading rounded to tenths of a unit from centi-units.
pub open spec fn round_deci_spec(c: int) -> int {
    round_scaled_spec(c, DEBOUNCE_DIVISOR as int)
}

/// The quotient does not exceed the dividend when the added half-divisor
/// stays below the divisor.
proof fn lemma_rounding_bound(m: int, h: int, d: int)
    requires
        0 <= m,
        0 <= h < d,
    ensures
        0 <= (m + h) / d <= m,
{
    assert(m + h < d * (m + 1)) by (nonlinear_arith)
        requires
            0 <= m,
            0 <= h < d,
    ;
    vstd::arithmetic::div_mod::lemma_multiply_divide_lt(m + h, d, m + 1);
    vstd::arithmetic::div_mod::lemma_div_pos_is_pos(m + h, d);
}

/// Divide with rounding to nearest, halves away from zero.
pub fn rounded_div(c: i32, d: u32) -> (r: i32)
    requires
        1 <= d,
    ensures
        r as int == round_scaled_spec(c as int, d as int),
{
    if c >= 0 {
        let m: u64 = c as u64;
        let q: u64 = (m + (d as u64) / 2) / (d as u64);
        proof {
            lemma_rounding_bound(m as int, (d as int) / 2, d as int);
        }
        q as i32
    } else {
        let m: u64 = (-(c as i64)) as u64;
        let q: u64 = (m + (d as u64) / 2) / (d as u64);
        proof {
            lemma_rounding_bound(m as int, (d as int) / 2, d as int);
        }
        (-(q as i64)) as i32
    }
}

/// A reading rounded to tenths of a unit from centi-units.
pub fn round_deci(c: i32) -> (r: i32)
    ensures
        r as int == round_deci_spec(c as int),
{
    rounded_div(c, DEBOUNCE_DIVISOR)
}

/// The debounce decision: a new reading is published exactly when it rounds
/// to a different tenth than the last published reading.
pub open spec fn significant_change(last: int, reading: int) -> bool {
    round_deci_spec(reading) != round_deci_spec(last)
}

/// Decide whether `reading` is a significant change over `last`, the last
/// published reading.
pub fn should_publish(last: i32, reading: i32) -> (b: bool)
    ensures
        b == significant_change(last as int, reading as int),
{
    round_deci(reading) != round_deci(last)
}

} // verus!
