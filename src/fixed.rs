//! Fixed-point helpers: snapshot quantities arrive in thousandths of a unit, and
//! the renderer turns them into whole cells with the truncating, saturating
//! conversion of a number to a narrower integer.
use vstd::prelude::*;

verus! {

/// `a / b` rounded toward zero.
pub open spec fn trunc_div(a: int, b: int) -> int {
    if a >= 0 { a / b } else { -((-a) / b) }
}

/// `v` clamped into `[lo, hi]`.
pub open spec fn saturate(v: int, lo: int, hi: int) -> int {
    if v < lo { lo } else if v > hi { hi } else { v }
}

pub fn div_trunc(a: i128, b: i128) -> (r: i128)
    requires
        b > 0,
        a > i128::MIN,
    ensures
        r == trunc_div(a as int, b as int),
{
    if a >= 0 {
        a / b
    } else {
        let q = (-a) / b;
        -q
    }
}

pub fn sat_u8(v: i128) -> (r: u8)
    ensures
        r == saturate(v as int, 0, 255),
{
    if v < 0 {
        0
    } else if v > 255 {
        255
    } else {
        v as u8
    }
}

pub fn sat_i16(v: i128) -> (r: i16)
    ensures
        r == saturate(v as int, -0x8000, 0x7fff),
{
    if v < -0x8000 {
        -0x8000
    } else if v > 0x7fff {
        0x7fff
    } else {
        v as i16
    }
}

/// The whole units of a thousandths quantity, rounded toward zero.
pub open spec fn whole_units(milli: int) -> int {
    trunc_div(milli, 1000)
}

/// The phase of a scroll animation: `k` times the whole units of `milli`, taken
/// modulo `period` into `[0, period)`.
pub fn scroll_phase(milli: i64, k: i128, period: i128) -> (r: u32)
    requires
        1 <= k <= 2,
        1 <= period <= 15,
    ensures
        r == (whole_units(milli as int) * k) % (period as int),
{
    let q = div_trunc(milli as i128, 1000);
    assert(-0x8000_0000_0000_0000 * 2 <= q * k <= 0x8000_0000_0000_0000 * 2) by (nonlinear_arith)
        requires
            -0x8000_0000_0000_0000 <= q <= 0x8000_0000_0000_0000,
            1 <= k <= 2,
    ;
    let v: i128 = q * k;
    let shift: i128 = 0x1_0000_0000_0000_0000;
    let w: i128 = v + period * shift;
    proof {
        vstd::arithmetic::div_mod::lemma_mod_multiples_vanish(shift as int, v as int, period as int);
        assert(period * shift == shift * period) by (nonlinear_arith);
        assert(w >= 0) by (nonlinear_arith)
            requires
                w == v + period * shift,
                v >= -0x1_0000_0000_0000_0000,
                period >= 1,
                shift == 0x1_0000_0000_0000_0000,
        ;
    }
    (w % period) as u32
}

} // verus!

verus! {

/// A light level `full * (1 - darkness)` for a darkness in thousandths, truncated
/// and saturated into a byte.
pub open spec fn light_of(darkness: i64, full: int) -> u8 {
    saturate(trunc_div((1000 - darkness) * full, 1000), 0, 255) as u8
}

pub fn light_level(darkness: i64, full: i64) -> (r: u8)
    requires
        0 <= full <= 255,
    ensures
        r == light_of(darkness, full as int),
{
    let v: i128 = 1000 - darkness as i128;
    assert(-0x1_0000_0000_0000_0000 * 255 <= v * full <= 0x1_0000_0000_0000_0000 * 255)
        by (nonlinear_arith)
        requires
            -0x8000_0000_0000_0000 <= v <= 0x8000_0000_0000_1000,
            0 <= full <= 255,
    ;
    sat_u8(div_trunc(v * full as i128, 1000))
}

} // verus!
