//! Fixed-point arithmetic in millionths.
//!
//! Ratios and means are real numbers. This crate holds each of them as the
//! number of millionths it amounts to, rounded down: `500_000` stands for
//! one half and `1_000_000` for one.

use vstd::arithmetic::div_mod::lemma_div_is_ordered;
use vstd::arithmetic::div_mod::lemma_div_multiples_vanish;
use vstd::arithmetic::div_mod::lemma_fundamental_div_mod;
use vstd::arithmetic::div_mod::lemma_hoist_over_denominator;
use vstd::prelude::*;

verus! {

/// The number of millionths in one.
pub const SCALE: u64 = 1_000_000;

/// `num / den` in millionths, rounded down.
pub open spec fn scaled_quotient(num: nat, den: nat) -> nat
    recommends
        den > 0,
{
    num * (SCALE as nat) / den
}

/// The value itself where it fits in 64 bits, the largest 64-bit value where
/// it does not.
pub open spec fn saturated(value: nat) -> u64 {
    if value > u64::MAX {
        u64::MAX
    } else {
        value as u64
    }
}

/// A scaled quotient is the true quotient rounded down: it is at most the
/// true quotient, and less than one millionth below it.
pub proof fn lemma_scaled_quotient_brackets(num: nat, den: nat)
    requires
        den > 0,
    ensures
        scaled_quotient(num, den) * den <= num * SCALE < (scaled_quotient(num, den) + 1) * den,
{
    let scaled: int = (num * (SCALE as nat)) as int;
    let d: int = den as int;
    lemma_fundamental_div_mod(scaled, d);
    assert(0 <= scaled % d < d) by (nonlinear_arith)
        requires
            d > 0,
    ;
    assert((scaled / d) * d == d * (scaled / d)) by (nonlinear_arith);
    assert((scaled / d + 1) * d == d * (scaled / d) + d) by (nonlinear_arith);
}

/// A quotient whose numerator and denominator agree is one.
pub proof fn lemma_scaled_quotient_of_equal(n: nat)
    requires
        n > 0,
    ensures
        scaled_quotient(n, n) == SCALE,
{
    assert(n * (SCALE as nat) == (n as int) * (SCALE as int));
    lemma_div_multiples_vanish(SCALE as int, n as int);
}

/// A scaled quotient splits into the whole part and the scaled remainder.
pub proof fn lemma_scaled_quotient_split(num: nat, den: nat)
    requires
        den > 0,
    ensures
        scaled_quotient(num, den) == (num / den) * SCALE + ((num % den) * SCALE) / (den as int),
{
    let d: int = den as int;
    let whole: int = num as int / d;
    let rest: int = num as int % d;
    let s: int = SCALE as int;
    lemma_fundamental_div_mod(num as int, d);
    assert(num * s == rest * s + (whole * s) * d) by (nonlinear_arith)
        requires
            num == d * whole + rest,
    ;
    lemma_hoist_over_denominator(rest * s, whole * s, den);
}

/// A quotient of a numerator that is at most `bound` times the denominator
/// is at most `bound`.
pub proof fn lemma_quotient_bound(num: nat, den: nat, bound: nat)
    requires
        den > 0,
        num <= den * bound,
    ensures
        num / den <= bound,
{
    lemma_div_is_ordered(num as int, (den * bound) as int, den as int);
    lemma_div_multiples_vanish(bound as int, den as int);
}

/// A scaled quotient of a numerator that is at most `bound` times the
/// denominator is at most the scale times `bound`.
pub proof fn lemma_scaled_quotient_bound(num: nat, den: nat, bound: nat)
    requires
        den > 0,
        num <= den * bound,
    ensures
        scaled_quotient(num, den) <= SCALE * bound,
{
    assert(num * (SCALE as nat) <= den * ((SCALE as nat) * bound)) by (nonlinear_arith)
        requires
            num <= den * bound,
    ;
    lemma_quotient_bound(num * (SCALE as nat), den, (SCALE as nat) * bound);
}

/// Narrows a 128-bit value to 64 bits, saturating.
pub fn saturate(value: u128) -> (out: u64)
    ensures
        out == saturated(value as nat),
{
    if value > u64::MAX as u128 {
        u64::MAX
    } else {
        value as u64
    }
}

/// `num / den` in millionths, rounded down, for a numerator that is at most
/// `u64::MAX` times the denominator.
pub fn scaled_div(num: u128, den: u64) -> (out: u128)
    requires
        den > 0,
        num <= den * u64::MAX,
    ensures
        out == scaled_quotient(num as nat, den as nat),
{
    let whole: u128 = num / (den as u128);
    let rest: u128 = num % (den as u128);
    proof {
        lemma_quotient_bound(num as nat, den as nat, u64::MAX as nat);
        lemma_scaled_quotient_split(num as nat, den as nat);
        assert(whole * SCALE <= u64::MAX * SCALE) by (nonlinear_arith)
            requires
                whole <= u64::MAX,
        ;
        assert(rest * SCALE <= u64::MAX * SCALE) by (nonlinear_arith)
            requires
                rest <= u64::MAX,
        ;
        assert(rest * SCALE <= den * SCALE) by (nonlinear_arith)
            requires
                rest <= den,
        ;
        lemma_quotient_bound((rest * SCALE) as nat, den as nat, SCALE as nat);
    }
    let scaled_rest: u128 = rest * (SCALE as u128) / (den as u128);
    whole * (SCALE as u128) + scaled_rest
}

} // verus!
