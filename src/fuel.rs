use vstd::prelude::*;

use crate::ratio::{correct, corrected_ratio, round_half_up, Ratio, RATIO_SCALE};

verus! {

/// Pull-up resistor between the reference rail and the sender, in tenths of an ohm.
pub const PULL_DECI_OHM: i64 = 10_000;

/// Sender resistance with a full tank, in tenths of an ohm.
pub const FULL_DECI_OHM: i64 = 38;

/// Sender resistance with an empty tank, in tenths of an ohm.
pub const EMPTY_DECI_OHM: i64 = 930;

/// Numerator of the fill fraction
/// `(ratio_empty - n/d) / (ratio_empty - ratio_full)`, where
/// `ratio_full = F / (P + F)` and `ratio_empty = E / (P + E)`.
pub open spec fn fill_num(n: int, d: int) -> int {
    (EMPTY_DECI_OHM * d - (PULL_DECI_OHM + EMPTY_DECI_OHM) * n) * (PULL_DECI_OHM + FULL_DECI_OHM)
}

/// Denominator of the fill fraction, over the same common factor as `fill_num`.
pub open spec fn fill_den(d: int) -> int {
    PULL_DECI_OHM * (EMPTY_DECI_OHM - FULL_DECI_OHM) * d
}

/// The fuel level in percent for the ratio `n / d`: the fill fraction clamped
/// to `[0, 1]`, times 100, rounded half up.
pub open spec fn fuel_percent_of(n: int, d: int) -> int {
    if fill_num(n, d) <= 0 {
        0
    } else if fill_num(n, d) >= fill_den(d) {
        100
    } else {
        round_half_up(100 * fill_num(n, d), fill_den(d))
    }
}

/// The fuel level in percent for a sender code and its reference-rail code.
pub open spec fn fuel_percent_of_codes(adc: int, v33_adc: int) -> int {
    let r = corrected_ratio(adc, v33_adc);
    fuel_percent_of(r.num as int, r.den as int)
}

proof fn lemma_round_in_percent(x: int, y: int)
    requires
        0 < x < y,
    ensures
        0 <= round_half_up(100 * x, y) <= 100,
{
    assert(0 <= (2 * (100 * x) + y) / (2 * y) <= 100) by (nonlinear_arith)
        requires
            0 < x < y,
    ;
}

proof fn lemma_div_monotone(a1: int, b1: int, a2: int, b2: int)
    requires
        0 <= a1,
        0 <= a2,
        0 < b1,
        0 < b2,
        a1 * b2 >= a2 * b1,
    ensures
        a1 / b1 >= a2 / b2,
{
    let q2 = a2 / b2;
    vstd::arithmetic::div_mod::lemma_fundamental_div_mod(a2, b2);
    vstd::arithmetic::div_mod::lemma_div_pos_is_pos(a2, b2);
    assert(q2 * b1 <= a1) by (nonlinear_arith)
        requires
            a2 == b2 * q2 + a2 % b2,
            0 <= a2 % b2,
            0 <= q2,
            0 < b1,
            0 < b2,
            a1 * b2 >= a2 * b1,
    ;
    vstd::arithmetic::div_mod::lemma_div_is_ordered(q2 * b1, a1, b1);
    vstd::arithmetic::div_mod::lemma_div_by_multiple(q2, b1);
}

proof fn lemma_percent_bounds(n: int, d: int)
    requires
        0 < d,
    ensures
        0 <= fuel_percent_of(n, d) <= 100,
{
    if 0 < fill_num(n, d) < fill_den(d) {
        lemma_round_in_percent(fill_num(n, d), fill_den(d));
    }
}

/// The full-tank ratio reads 100 %, and the empty-tank ratio reads 0 %.
pub proof fn lemma_fuel_endpoints(r: Ratio)
    requires
        r.wf(),
    ensures
        r.num * (PULL_DECI_OHM + FULL_DECI_OHM) == FULL_DECI_OHM * r.den
            ==> fuel_percent_of(r.num as int, r.den as int) == 100,
        r.num * (PULL_DECI_OHM + EMPTY_DECI_OHM) == EMPTY_DECI_OHM * r.den
            ==> fuel_percent_of(r.num as int, r.den as int) == 0,
{
    let n = r.num as int;
    let d = r.den as int;
    if n * (PULL_DECI_OHM + FULL_DECI_OHM) == FULL_DECI_OHM * d {
        assert(fill_num(n, d) == fill_den(d)) by (nonlinear_arith)
            requires
                n * 10038 == 38 * d,
        ;
    }
    if n * (PULL_DECI_OHM + EMPTY_DECI_OHM) == EMPTY_DECI_OHM * d {
        assert(fill_num(n, d) == 0) by (nonlinear_arith)
            requires
                n * 10930 == 930 * d,
        ;
    }
}

/// The fuel level never rises as the ratio rises.
pub proof fn lemma_fuel_monotone(r1: Ratio, r2: Ratio)
    requires
        r1.wf(),
        r2.wf(),
        r1.num * r2.den <= r2.num * r1.den,
    ensures
        fuel_percent_of(r1.num as int, r1.den as int) >= fuel_percent_of(r2.num as int, r2.den as int),
{
    let (n1, d1, n2, d2) = (r1.num as int, r1.den as int, r2.num as int, r2.den as int);
    let (x1, y1, x2, y2) = (fill_num(n1, d1), fill_den(d1), fill_num(n2, d2), fill_den(d2));
    assert(x1 * y2 >= x2 * y1) by (nonlinear_arith)
        requires
            n1 * d2 <= n2 * d1,
            x1 == (930 * d1 - 10930 * n1) * 10038,
            x2 == (930 * d2 - 10930 * n2) * 10038,
            y1 == 8_920_000 * d1,
            y2 == 8_920_000 * d2,
    ;
    lemma_percent_bounds(n1, d1);
    lemma_percent_bounds(n2, d2);
    if x2 > 0 && x1 < y1 {
        assert(0 < x1 && x2 < y2) by (nonlinear_arith)
            requires
                x1 * y2 >= x2 * y1,
                x2 > 0,
                x1 < y1,
                y1 > 0,
                y2 > 0,
        ;
        assert((2 * (100 * x1) + y1) * (2 * y2) >= (2 * (100 * x2) + y2) * (2 * y1)) by (nonlinear_arith)
            requires
                x1 * y2 >= x2 * y1,
        ;
        lemma_div_monotone(2 * (100 * x1) + y1, 2 * y1, 2 * (100 * x2) + y2, 2 * y2);
    }
}

/// Two readings of the same pair of codes give the same fuel level.
pub proof fn lemma_fuel_repeatable(adc1: i16, v1: i16, adc2: i16, v2: i16)
    requires
        adc1 == adc2,
        v1 == v2,
    ensures
        fuel_percent_of_codes(adc1 as int, v1 as int) == fuel_percent_of_codes(adc2 as int, v2 as int),
{
}

/// The fuel level in percent for a corrected ratio.
pub fn fuel_percent(r: Ratio) -> (pct: u8)
    requires
        r.wf(),
    ensures
        pct as int == fuel_percent_of(r.num as int, r.den as int),
        pct <= 100,
{
    let n = r.num as i64;
    let d = r.den as i64;
    assert(d <= RATIO_SCALE && n < d);
    let t: i64 = EMPTY_DECI_OHM * d - (PULL_DECI_OHM + EMPTY_DECI_OHM) * n;
    if t <= 0 {
        assert(fill_num(n as int, d as int) <= 0) by (nonlinear_arith)
            requires
                t <= 0,
                t == EMPTY_DECI_OHM * d - (PULL_DECI_OHM + EMPTY_DECI_OHM) * n,
        ;
        return 0;
    }
    assert(t <= 930 * 1_000_000);
    let num: i64 = t * (PULL_DECI_OHM + FULL_DECI_OHM);
    assert(0 < 8_920_000 * d <= 8_920_000 * 1_000_000) by (nonlinear_arith)
        requires
            0 < d <= 1_000_000,
    ;
    let den: i64 = PULL_DECI_OHM * (EMPTY_DECI_OHM - FULL_DECI_OHM) * d;
    assert(num == fill_num(n as int, d as int));
    if num >= den {
        return 100;
    }
    proof {
        lemma_round_in_percent(num as int, den as int);
    }
    ((200 * num + den) / (2 * den)) as u8
}

/// The fuel level in percent for a sender code and its reference-rail code.
pub fn fuel_percent_from_codes(adc: i16, v33_adc: i16) -> (pct: u8)
    ensures
        pct as int == fuel_percent_of_codes(adc as int, v33_adc as int),
        pct <= 100,
{
    fuel_percent(correct(adc, v33_adc))
}

} // verus!
