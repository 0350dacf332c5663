use vstd::prelude::*;

verus! {

/// The ASCII decimal digit for `d < 10`.
pub open spec fn digit(d: int) -> u8 {
    (48 + d) as u8
}

/// The decimal digits of `n`, most significant first, without leading zeros.
pub open spec fn decimal(n: nat) -> Seq<u8>
    decreases n,
{
    if n < 10 {
        seq![digit(n as int)]
    } else {
        decimal(n / 10).push(digit((n % 10) as int))
    }
}

/// `x` in decimal, with a leading `-` when negative.
pub open spec fn signed_decimal(x: int) -> Seq<u8> {
    if x < 0 {
        seq![45u8] + decimal((-x) as nat)
    } else {
        decimal(x as nat)
    }
}

/// `cv / 100` written with exactly two fractional digits.
pub open spec fn hundredths(cv: nat) -> Seq<u8> {
    decimal(cv / 100) + seq![46u8, digit(((cv % 100) / 10) as int), digit((cv % 10) as int)]
}

/// Appends the decimal digits of `n` to `out`.
pub fn push_decimal(out: &mut Vec<u8>, n: u32)
    ensures
        final(out)@ == old(out)@ + decimal(n as nat),
    decreases n,
{
    if n >= 10 {
        push_decimal(out, n / 10);
    }
    out.push(48 + (n % 10) as u8);
    assert(final(out)@ =~= old(out)@ + decimal(n as nat));
}

/// Appends `x` in decimal to `out`, with a leading `-` when negative.
pub fn push_signed_decimal(out: &mut Vec<u8>, x: i32)
    ensures
        final(out)@ == old(out)@ + signed_decimal(x as int),
{
    if x < 0 {
        out.push(45);
        push_decimal(out, (-(x as i64)) as u32);
        assert(final(out)@ =~= old(out)@ + signed_decimal(x as int));
    } else {
        push_decimal(out, x as u32);
    }
}

/// Appends `cv / 100` with two fractional digits to `out`.
pub fn push_hundredths(out: &mut Vec<u8>, cv: u32)
    ensures
        final(out)@ == old(out)@ + hundredths(cv as nat),
{
    push_decimal(out, cv / 100);
    out.push(46);
    out.push(48 + ((cv % 100) / 10) as u8);
    out.push(48 + (cv % 10) as u8);
    assert(final(out)@ =~= old(out)@ + hundredths(cv as nat));
}

} // verus!
