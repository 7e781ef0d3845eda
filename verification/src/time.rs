//! Timestamps: from a count of samples to microseconds.
//!
//! An encoder that runs on the time base `1 / rate` counts time in samples.
//! The output of a transcoder counts it in microseconds. The conversion
//! multiplies by a million and divides by the rate, and the division drops
//! the fraction: it rounds toward zero, for negative timestamps too.

use vstd::prelude::*;
use vstd::arithmetic::div_mod::lemma_div_is_ordered;
use vstd::arithmetic::div_mod::lemma_div_pos_is_pos;
use vstd::arithmetic::div_mod::lemma_div_nonincreasing;

verus! {

/// Microseconds in a second.
pub const MICROS_PER_SECOND: i64 = 1_000_000;

/// The quotient of `a` by a positive `b`, rounded toward zero.
pub open spec fn truncated_div(a: int, b: int) -> int
    recommends
        b > 0,
{
    if a >= 0 {
        a / b
    } else {
        -((-a) / b)
    }
}

/// The timestamp `pts`, counted in samples at `rate` samples per second,
/// in microseconds.
pub open spec fn micros(pts: int, rate: int) -> int
    recommends
        rate > 0,
{
    truncated_div(pts * 1_000_000, rate)
}

/// Whether `pts` can be multiplied by a million within 64 bits.
pub open spec fn convertible(pts: int) -> bool {
    i64::MIN <= pts * 1_000_000 <= i64::MAX
}

/// A quotient rounded toward zero is no further from zero than the dividend.
pub proof fn lemma_truncated_div_bounds(a: int, b: int)
    requires
        b > 0,
    ensures
        a >= 0 ==> 0 <= truncated_div(a, b) <= a,
        a <= 0 ==> a <= truncated_div(a, b) <= 0,
{
    if a >= 0 {
        lemma_div_pos_is_pos(a, b);
        lemma_div_nonincreasing(a, b);
    } else {
        lemma_div_pos_is_pos(-a, b);
        lemma_div_nonincreasing(-a, b);
    }
}

/// Division that rounds toward zero keeps the order of the dividends.
pub proof fn lemma_truncated_div_is_ordered(a: int, b: int, d: int)
    requires
        a <= b,
        d > 0,
    ensures
        truncated_div(a, d) <= truncated_div(b, d),
{
    if a >= 0 {
        lemma_div_is_ordered(a, b, d);
    } else if b >= 0 {
        lemma_truncated_div_bounds(a, d);
        lemma_truncated_div_bounds(b, d);
    } else {
        lemma_div_is_ordered(-b, -a, d);
    }
}

/// Zero samples are zero microseconds, at any rate.
pub proof fn lemma_micros_of_zero(rate: int)
    requires
        rate > 0,
    ensures
        micros(0, rate) == 0,
{
    lemma_truncated_div_bounds(0, rate);
}

/// A later timestamp in samples is no earlier a timestamp in microseconds,
/// and a timestamp that is not negative stays so.
pub proof fn lemma_micros_is_ordered(a: int, b: int, rate: int)
    requires
        a <= b,
        rate > 0,
    ensures
        micros(a, rate) <= micros(b, rate),
        0 <= a ==> 0 <= micros(a, rate),
{
    lemma_truncated_div_is_ordered(a * 1_000_000, b * 1_000_000, rate);
    lemma_truncated_div_bounds(a * 1_000_000, rate);
}

/// A timestamp that can be converted gives microseconds that fit 64 bits.
pub proof fn lemma_micros_fits(pts: int, rate: int)
    requires
        rate > 0,
        convertible(pts),
    ensures
        i64::MIN <= micros(pts, rate) <= i64::MAX,
{
    lemma_truncated_div_bounds(pts * 1_000_000, rate);
}

/// Converts `pts`, counted in samples at `rate` samples per second, to
/// microseconds. There is no result for a rate of zero, nor for a timestamp
/// that leaves the range of 64 bits when it is multiplied by a million.
pub fn to_micros(pts: i64, rate: u32) -> (ts: Option<i64>)
    ensures
        match ts {
            Some(ts) => rate > 0 && convertible(pts as int) && ts == micros(pts as int, rate as int),
            None => rate == 0 || !convertible(pts as int),
        },
{
    if rate == 0 {
        return None;
    }
    match pts.checked_mul(MICROS_PER_SECOND) {
        Some(scaled) => {
            proof {
                lemma_micros_fits(pts as int, rate as int);
            }
            Some(scaled / (rate as i64))
        },
        None => None,
    }
}

} // verus!
