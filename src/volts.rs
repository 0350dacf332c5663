use vstd::prelude::*;

use crate::ratio::{clamp, round_half_up, CODE_MAX};

verus! {

/// The converter's full-scale input, in millivolts.
pub const FULL_SCALE_MV: u64 = 4096;

/// Upper resistor of the battery divider, in kilo-ohms.
pub const DIVIDER_TOP_KOHM: u64 = 100;

/// Lower resistor of the battery divider, in kilo-ohms.
pub const DIVIDER_BOTTOM_KOHM: u64 = 22;

/// Volts at the converter input for `code`, times `code_volts_den()`.
pub open spec fn code_volts_num(code: int) -> int {
    clamp(code, 0, CODE_MAX as int) * FULL_SCALE_MV
}

pub open spec fn code_volts_den() -> int {
    CODE_MAX * 1000
}

/// Battery volts for a code on the divider tap, times `battery_volts_den()`:
/// the input voltage scaled by `(R1 + R2) / R2`.
pub open spec fn battery_volts_num(code: int) -> int {
    code_volts_num(code) * (DIVIDER_TOP_KOHM + DIVIDER_BOTTOM_KOHM)
}

pub open spec fn battery_volts_den() -> int {
    code_volts_den() * DIVIDER_BOTTOM_KOHM
}

/// Converter input voltage for `code`, in hundredths of a volt, rounded half up.
pub fn code_to_centivolts(code: i16) -> (cv: u32)
    ensures
        cv as int == round_half_up(100 * code_volts_num(code as int), code_volts_den()),
{
    let c: u64 = if code < 0 { 0 } else { code as u64 };
    let num: u64 = 100 * c * FULL_SCALE_MV;
    let den: u64 = (CODE_MAX as u64) * 1000;
    let q = (2 * num + den) / (2 * den);
    assert(q <= 410) by (nonlinear_arith)
        requires
            q == (2 * num + den) / (2 * den),
            num <= 100 * 32767 * 4096,
            den == 32767 * 1000,
    ;
    q as u32
}

/// Battery voltage for a code on the divider tap, in hundredths of a volt,
/// rounded half up.
pub fn battery_centivolts(code: i16) -> (cv: u32)
    ensures
        cv as int == round_half_up(100 * battery_volts_num(code as int), battery_volts_den()),
{
    let c: u64 = if code < 0 { 0 } else { code as u64 };
    assert(100 * c * 4096 * 122 <= 100 * 32767 * 4096 * 122) by (nonlinear_arith)
        requires
            c <= 32767,
    ;
    let num: u64 = 100 * c * FULL_SCALE_MV * (DIVIDER_TOP_KOHM + DIVIDER_BOTTOM_KOHM);
    let den: u64 = (CODE_MAX as u64) * 1000 * DIVIDER_BOTTOM_KOHM;
    let q = (2 * num + den) / (2 * den);
    assert(q <= 2272) by (nonlinear_arith)
        requires
            q == (2 * num + den) / (2 * den),
            num <= 100 * 32767 * 4096 * 122,
            den == 32767 * 1000 * 22,
    ;
    q as u32
}

/// The battery voltage is linear in the code: zero at code 0, full scale
/// times `(R1 + R2) / R2` at `CODE_MAX`, and additive in between.
pub proof fn lemma_battery_linear(a: int, b: int)
    requires
        0 <= a,
        0 <= b,
        a + b <= CODE_MAX,
    ensures
        battery_volts_num(0) == 0,
        battery_volts_num(CODE_MAX as int) * 1000 * DIVIDER_BOTTOM_KOHM
            == battery_volts_den() * FULL_SCALE_MV * (DIVIDER_TOP_KOHM + DIVIDER_BOTTOM_KOHM),
        battery_volts_num(a + b) == battery_volts_num(a) + battery_volts_num(b),
        battery_volts_num(a) == a * battery_volts_num(1),
{
    assert(battery_volts_num(a) == a * battery_volts_num(1)) by (nonlinear_arith)
        requires
            0 <= a <= 32767,
            battery_volts_num(a) == a * 4096 * 122,
            battery_volts_num(1) == 4096 * 122,
    ;
}

} // verus!
