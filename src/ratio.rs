use vstd::prelude::*;

verus! {

/// Largest code the converter reports for a non-negative input.
pub const CODE_MAX: i16 = 32767;

/// Denominator of the two clamp bounds below.
pub const RATIO_SCALE: u32 = 1_000_000;

/// Lower clamp bound, in millionths: keeps logarithms of the ratio finite.
pub const RATIO_LOW: u32 = 1;

/// Upper clamp bound, in millionths: keeps `1 - ratio` away from zero.
pub const RATIO_HIGH: u32 = 999_999;

/// A dimensionless sensor-to-reference ratio, held exactly as `num / den`.
#[derive(Clone, Copy, Debug, PartialEq, Eq)]
pub struct Ratio {
    pub num: u32,
    pub den: u32,
}

pub open spec fn clamp(x: int, lo: int, hi: int) -> int {
    if x < lo {
        lo
    } else if x > hi {
        hi
    } else {
        x
    }
}

/// `p / q` rounded to the nearest integer, halves upward (for `q > 0`).
pub open spec fn round_half_up(p: int, q: int) -> int {
    (2 * p + q) / (2 * q)
}

impl Ratio {
    /// The ratio lies strictly inside (0, 1), and no closer to either end
    /// than the clamp bounds allow.
    pub open spec fn wf(self) -> bool {
        &&& 0 < self.num < self.den <= RATIO_SCALE
        &&& self.num * RATIO_SCALE >= RATIO_LOW * self.den
        &&& self.num * RATIO_SCALE <= RATIO_HIGH * self.den
    }
}

/// The corrected ratio for a sensor code and a reference-rail code: the
/// sensor code clamped to `[0, CODE_MAX]` over the reference code clamped
/// to `[1, CODE_MAX]`, then clamped to `[RATIO_LOW, RATIO_HIGH] / RATIO_SCALE`.
pub open spec fn corrected_ratio(sensor: int, reference: int) -> Ratio {
    let a = clamp(sensor, 0, CODE_MAX as int);
    let v = clamp(reference, 1, CODE_MAX as int);
    if a * RATIO_SCALE < RATIO_LOW * v {
        Ratio { num: RATIO_LOW, den: RATIO_SCALE }
    } else if a * RATIO_SCALE > RATIO_HIGH * v {
        Ratio { num: RATIO_HIGH, den: RATIO_SCALE }
    } else {
        Ratio { num: a as u32, den: v as u32 }
    }
}

/// Ratiometric correction of a sensor code against a reference-rail code.
pub fn correct(sensor: i16, reference: i16) -> (r: Ratio)
    ensures
        r == corrected_ratio(sensor as int, reference as int),
        r.wf(),
{
    let a: u64 = if sensor < 0 { 0 } else { sensor as u64 };
    let v: u64 = if reference < 1 { 1 } else { reference as u64 };
    assert(a <= 32767 && 1 <= v <= 32767);
    if a * (RATIO_SCALE as u64) < (RATIO_LOW as u64) * v {
        Ratio { num: RATIO_LOW, den: RATIO_SCALE }
    } else if a * (RATIO_SCALE as u64) > (RATIO_HIGH as u64) * v {
        Ratio { num: RATIO_HIGH, den: RATIO_SCALE }
    } else {
        assert(a < v) by (nonlinear_arith)
            requires
                a * 1_000_000 <= 999_999 * v,
                v >= 1,
        ;
        Ratio { num: a as u32, den: v as u32 }
    }
}

} // verus!
