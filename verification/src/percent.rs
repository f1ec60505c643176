//! Fixed-point percentages.
//!
//! A percentage is kept as a whole number of hundredths of a percent, so that
//! `12.34%` is the number `1234`. Ratios are rounded to the nearest hundredth,
//! halves upwards.

use vstd::prelude::*;

verus! {

/// The ratio `part / whole` as hundredths of a percent, rounded to the nearest
/// hundredth. A `whole` of zero gives zero.
pub open spec fn ratio_hundredths(part: nat, whole: nat) -> nat {
    if whole == 0 {
        0
    } else {
        (part * 10000 + whole / 2) / whole
    }
}

/// A load average, given in hundredths, as a percentage of `cores` fully busy
/// cores, in hundredths of a percent. A core count of zero counts as one.
pub open spec fn load_hundredths(load: nat, cores: nat) -> nat {
    let c = if cores == 0 { 1 } else { cores };
    (load * 100 + c / 2) / c
}

/// A percentage with two decimal places.
#[derive(Clone, Copy, Debug, PartialEq, Eq, Structural)]
pub struct Percent {
    /// The value in hundredths of a percent.
    pub hundredths: u128,
}

impl Percent {
    /// The percentage that is `hundredths` hundredths of a percent.
    pub fn from_hundredths(hundredths: u64) -> (p: Percent)
        ensures
            p.hundredths == hundredths,
    {
        Percent { hundredths: hundredths as u128 }
    }

    /// `part` as a percentage of `whole`; zero when `whole` is zero.
    pub fn of(part: u64, whole: u64) -> (p: Percent)
        ensures
            p.hundredths == ratio_hundredths(part as nat, whole as nat),
            whole == 0 ==> p.hundredths == 0,
            part <= whole ==> p.hundredths <= 10000,
    {
        if whole == 0 {
            Percent { hundredths: 0 }
        } else {
            let p: u128 = part as u128;
            let w: u128 = whole as u128;
            assert(p * 10000 <= 0xFFFF_FFFF_FFFF_FFFF * 10000) by (nonlinear_arith)
                requires
                    p <= 0xFFFF_FFFF_FFFF_FFFF,
            ;
            proof {
                if part <= whole {
                    lemma_ratio_bounded(part as nat, whole as nat);
                }
            }
            Percent { hundredths: (p * 10000 + w / 2) / w }
        }
    }

    /// A load average of `load` hundredths on a machine of `cores` logical
    /// cores; a core count of zero counts as one.
    pub fn of_load(load: u64, cores: u64) -> (p: Percent)
        ensures
            p.hundredths == load_hundredths(load as nat, cores as nat),
    {
        let c: u128 = if cores == 0 { 1 } else { cores as u128 };
        let l: u128 = load as u128;
        assert(l * 100 <= 0xFFFF_FFFF_FFFF_FFFF * 100) by (nonlinear_arith)
            requires
                l <= 0xFFFF_FFFF_FFFF_FFFF,
        ;
        Percent { hundredths: (l * 100 + c / 2) / c }
    }
}

/// A ratio over a whole of zero is zero.
pub proof fn lemma_ratio_zero_whole(part: nat)
    ensures
        ratio_hundredths(part, 0) == 0,
{
}

/// A part that does not exceed the whole is at most one hundred percent.
pub proof fn lemma_ratio_bounded(part: nat, whole: nat)
    requires
        part <= whole,
    ensures
        ratio_hundredths(part, whole) <= 10000,
{
    if whole > 0 {
        assert((part * 10000 + whole / 2) / whole <= 10000) by (nonlinear_arith)
            requires
                part <= whole,
                whole > 0,
        ;
    }
}

/// The ratio is the hundredth nearest to the exact quotient: it lies at most
/// half a hundredth above it and less than half a hundredth below it.
pub proof fn lemma_ratio_nearest(part: nat, whole: nat)
    requires
        whole > 0,
    ensures
        2 * ratio_hundredths(part, whole) * whole <= 2 * part * 10000 + whole,
        2 * part * 10000 < 2 * ratio_hundredths(part, whole) * whole + whole,
{
    let n = part * 10000 + whole / 2;
    let q = n / whole;
    assert(q * whole <= n && n < q * whole + whole) by (nonlinear_arith)
        requires
            whole > 0,
            q == n / whole,
    ;
    assert(2 * q * whole == 2 * (q * whole)) by (nonlinear_arith);
}

/// A larger part of the same whole is no smaller a percentage.
pub proof fn lemma_ratio_monotonic(smaller: nat, larger: nat, whole: nat)
    requires
        smaller <= larger,
    ensures
        ratio_hundredths(smaller, whole) <= ratio_hundredths(larger, whole),
{
    if whole > 0 {
        assert((smaller * 10000 + whole / 2) / whole <= (larger * 10000 + whole / 2) / whole)
            by (nonlinear_arith)
            requires
                smaller <= larger,
                whole > 0,
        ;
    }
}

/// The whole of a whole is exactly one hundred percent.
pub proof fn lemma_ratio_full(whole: nat)
    requires
        whole > 0,
    ensures
        ratio_hundredths(whole, whole) == 10000,
{
    assert((whole * 10000 + whole / 2) / whole == 10000) by (nonlinear_arith)
        requires
            whole > 0,
    ;
}

/// A load equal to the core count is exactly one hundred percent.
pub proof fn lemma_load_saturated(cores: nat)
    requires
        cores > 0,
    ensures
        load_hundredths(cores * 100, cores) == 10000,
{
    assert((cores * 100 * 100 + cores / 2) / cores == 10000) by (nonlinear_arith)
        requires
            cores > 0,
    ;
}

} // verus!
