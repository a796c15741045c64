//! Fixed-point arithmetic shared by the rule sets.
//!
//! A speed is an `i64` number of thousandths of a unit per second, a duration
//! a `u64` number of nanoseconds. Products are formed in 128 bits and brought
//! back into `i64` by saturation, so no operation here can overflow.

use vstd::prelude::*;

verus! {

/// One whole unit, in thousandths.
pub const UNIT: i64 = 1_000;

/// Nanoseconds in one second.
pub const NANOS_PER_SECOND: u64 = 1_000_000_000;

/// `v` brought into the range of `i64`.
pub open spec fn saturated(v: int) -> int {
    if v < i64::MIN {
        i64::MIN as int
    } else if v > i64::MAX {
        i64::MAX as int
    } else {
        v
    }
}

/// The direction that a pair of opposed buttons asks for: 1, 0 or -1.
pub open spec fn axis(positive: bool, negative: bool) -> int {
    (if positive { 1int } else { 0int }) - (if negative { 1int } else { 0int })
}

/// What a quantity that changes by `rate` per second gains in `dt`
/// nanoseconds, rounded toward zero.
pub open spec fn accrued(rate: int, dt: int) -> int {
    if rate >= 0 {
        (rate * dt) / 1_000_000_000
    } else {
        -(((-rate) * dt) / 1_000_000_000)
    }
}

/// Brings a 128-bit value into the range of `i64`.
pub fn saturate(v: i128) -> (r: i64)
    ensures
        r as int == saturated(v as int),
{
    if v < i64::MIN as i128 {
        i64::MIN
    } else if v > i64::MAX as i128 {
        i64::MAX
    } else {
        v as i64
    }
}

/// The speed along an axis whose two buttons are `positive` and `negative`.
pub fn directed(positive: bool, negative: bool, speed: i64) -> (r: i64)
    ensures
        r as int == saturated(axis(positive, negative) * speed),
{
    if positive == negative {
        assert(axis(positive, negative) * speed == 0) by (nonlinear_arith)
            requires
                axis(positive, negative) == 0,
        ;
        0
    } else if positive {
        assert(axis(positive, negative) * speed == speed) by (nonlinear_arith)
            requires
                axis(positive, negative) == 1,
        ;
        speed
    } else {
        assert(axis(positive, negative) * speed == -speed) by (nonlinear_arith)
            requires
                axis(positive, negative) == -1,
        ;
        saturate(-(speed as i128))
    }
}

/// The gain of a quantity that changes by `rate` per second over `dt`
/// nanoseconds.
pub fn accrue(rate: i64, dt: u64) -> (delta: i128)
    ensures
        delta as int == accrued(rate as int, dt as int),
{
    let negative: bool = rate < 0;
    let magnitude: u128 = if negative {
        (-(rate as i128)) as u128
    } else {
        rate as u128
    };
    assert(magnitude * dt <= 0x8000_0000_0000_0000 * 0xFFFF_FFFF_FFFF_FFFF) by (nonlinear_arith)
        requires
            0 <= magnitude <= 0x8000_0000_0000_0000,
            0 <= dt <= 0xFFFF_FFFF_FFFF_FFFF,
    ;
    let product: u128 = magnitude * (dt as u128);
    let quotient: u128 = product / (NANOS_PER_SECOND as u128);
    if negative {
        -(quotient as i128)
    } else {
        quotient as i128
    }
}

/// `value` after it has changed by `rate` per second for `dt` nanoseconds.
pub fn integrate(value: i64, rate: i64, dt: u64) -> (r: i64)
    ensures
        r as int == saturated(value + accrued(rate as int, dt as int)),
{
    let delta: i128 = accrue(rate, dt);
    proof {
        lemma_accrued_bound(rate as int, dt as int);
        assert(-(0x8000_0000_0000_0000 * 0xFFFF_FFFF_FFFF_FFFF) <= rate * dt
            <= 0x8000_0000_0000_0000 * 0xFFFF_FFFF_FFFF_FFFF) by (nonlinear_arith)
            requires
                -0x8000_0000_0000_0000 <= rate <= 0x8000_0000_0000_0000,
                0 <= dt <= 0xFFFF_FFFF_FFFF_FFFF,
        ;
    }
    saturate(value as i128 + delta)
}

/// The gain is never larger in magnitude than rate times duration.
pub proof fn lemma_accrued_bound(rate: int, dt: int)
    requires
        dt >= 0,
    ensures
        rate >= 0 ==> 0 <= accrued(rate, dt) <= rate * dt,
        rate <= 0 ==> rate * dt <= accrued(rate, dt) <= 0,
{
    if rate >= 0 {
        assert(0 <= rate * dt) by (nonlinear_arith)
            requires
                rate >= 0,
                dt >= 0,
        ;
    } else {
        assert(0 <= (-rate) * dt && (-rate) * dt == -(rate * dt)) by (nonlinear_arith)
            requires
                rate < 0,
                dt >= 0,
        ;
    }
}

} // verus!
