use vstd::prelude::*;

use crate::ratio::Ratio;

verus! {

/// Pull-up resistor between the reference rail and the thermistor, in ohms.
pub const PULL_OHM: u64 = 1_000;

/// A resistance in ohms, held exactly as `num / den`.
#[derive(Clone, Copy, Debug, PartialEq, Eq)]
pub struct Resistance {
    pub num: u64,
    pub den: u64,
}

/// The thermistor resistance for a divider ratio `r`:
/// `PULL_OHM * r / (1 - r)`, written over the ratio's own denominator.
pub open spec fn thermistor_resistance_of(r: Ratio) -> Resistance {
    Resistance { num: (PULL_OHM * r.num) as u64, den: (r.den - r.num) as u64 }
}

/// The thermistor resistance for a corrected divider ratio; it is positive
/// and finite.
pub fn thermistor_resistance(r: Ratio) -> (res: Resistance)
    requires
        r.wf(),
    ensures
        res == thermistor_resistance_of(r),
        res.num > 0,
        res.den > 0,
{
    Resistance { num: PULL_OHM * (r.num as u64), den: (r.den - r.num) as u64 }
}

/// A larger divider ratio means a strictly larger thermistor resistance.
pub proof fn lemma_resistance_increasing(r1: Ratio, r2: Ratio)
    requires
        r1.wf(),
        r2.wf(),
        r1.num * r2.den < r2.num * r1.den,
    ensures
        ({
            let a = thermistor_resistance_of(r1);
            let b = thermistor_resistance_of(r2);
            a.num * b.den < b.num * a.den
        }),
{
    let (n1, d1, n2, d2) = (r1.num as int, r1.den as int, r2.num as int, r2.den as int);
    assert(1000 * n1 * (d2 - n2) < 1000 * n2 * (d1 - n1)) by (nonlinear_arith)
        requires
            n1 * d2 < n2 * d1,
    ;
}

} // verus!
