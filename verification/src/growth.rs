//! The growth of a sustained burst.
//!
//! Round after round a sustained burst pulls further: round `k` moves the base
//! displacement times the growth factor to the power `k`. The factor is
//! counted in thousandths and the displacement in millionths. Each round is
//! worked out from the one before it, rounded to the nearest millionth (halves
//! away from zero) and held to the range of `i64`.

use crate::scheduler::{divide_to_nearest, lemma_round_is_nearest, round_half_away};
use crate::types::{Micro, Milli, MILLI_PER_UNIT};
use vstd::prelude::*;

verus! {

/// `value` held to the range of `i64`.
pub open spec fn clamp_i64(value: int) -> int {
    if value > i64::MAX {
        i64::MAX as int
    } else if value < i64::MIN {
        i64::MIN as int
    } else {
        value
    }
}

/// `value` after one round of growth by `factor` thousandths.
pub open spec fn grown_once(value: int, factor: int) -> int {
    clamp_i64(round_half_away(value * factor, MILLI_PER_UNIT as int))
}

/// `base` after `rounds` rounds of growth by `factor` thousandths each.
pub open spec fn grown(base: int, factor: int, rounds: nat) -> int
    decreases rounds,
{
    if rounds == 0 {
        base
    } else {
        grown_once(grown(base, factor, (rounds - 1) as nat), factor)
    }
}

/// `base` to the power `exponent`.
pub open spec fn power(base: int, exponent: nat) -> int
    decreases exponent,
{
    if exponent == 0 {
        1
    } else {
        base * power(base, (exponent - 1) as nat)
    }
}

/// The size of `factor`, and no less than a factor of one.
pub open spec fn reach(factor: int) -> int {
    if factor >= MILLI_PER_UNIT {
        factor
    } else if factor <= -MILLI_PER_UNIT {
        -factor
    } else {
        MILLI_PER_UNIT as int
    }
}

/// None of the first `rounds` rounds has met the limits of `i64`.
pub open spec fn grows_freely(base: int, factor: int, rounds: nat) -> bool {
    forall|k: nat| k <= rounds ==> i64::MIN < #[trigger] grown(base, factor, k) < i64::MAX
}

/// Growth can be taken in two legs: `more` rounds after `first` rounds are
/// `first + more` rounds.
pub proof fn lemma_growth_continues(base: int, factor: int, first: nat, more: nat)
    ensures
        grown(base, factor, first + more) == grown(grown(base, factor, first), factor, more),
    decreases more,
{
    if more > 0 {
        lemma_growth_continues(base, factor, first, (more - 1) as nat);
        assert((first + more - 1) as nat == first + (more - 1) as nat);
    }
}

/// A value that one round leaves as it is stays as it is for good.
pub proof fn lemma_growth_at_rest(value: int, factor: int, rounds: nat)
    requires
        grown_once(value, factor) == value,
    ensures
        grown(value, factor, rounds) == value,
    decreases rounds,
{
    if rounds > 0 {
        lemma_growth_at_rest(value, factor, (rounds - 1) as nat);
    }
}

/// A factor of one or more never shrinks a displacement that points down:
/// every round moves at least as far as the one before it.
pub proof fn lemma_growth_never_shrinks(base: int, factor: int, rounds: nat)
    requires
        0 <= base <= i64::MAX,
        factor >= MILLI_PER_UNIT,
    ensures
        base <= grown(base, factor, rounds) <= grown(base, factor, rounds + 1) <= i64::MAX,
    decreases rounds,
{
    if rounds > 0 {
        lemma_growth_never_shrinks(base, factor, (rounds - 1) as nat);
    }
    let value = grown(base, factor, rounds);
    let next = round_half_away(value * factor, MILLI_PER_UNIT as int);
    assert(grown(base, factor, rounds + 1) == clamp_i64(next));
    lemma_round_is_nearest(value * factor, MILLI_PER_UNIT as int);
    assert(value * factor >= value * 1000) by (nonlinear_arith)
        requires
            value >= 0,
            factor >= 1000,
    ;
}

/// A factor above one makes every round move further than the one before it,
/// as long as the growth of the base is at least half a millionth and the
/// limit of `i64` is not met.
pub proof fn lemma_growth_is_strict(base: int, factor: int, rounds: nat)
    requires
        0 <= base <= i64::MAX,
        factor > MILLI_PER_UNIT,
        2 * base * (factor - MILLI_PER_UNIT) >= MILLI_PER_UNIT,
        grown(base, factor, rounds + 1) < i64::MAX,
    ensures
        grown(base, factor, rounds) < grown(base, factor, rounds + 1),
{
    lemma_growth_never_shrinks(base, factor, rounds);
    let value = grown(base, factor, rounds);
    let next = round_half_away(value * factor, MILLI_PER_UNIT as int);
    assert(grown(base, factor, rounds + 1) == clamp_i64(next));
    lemma_round_is_nearest(value * factor, MILLI_PER_UNIT as int);
    assert(value * factor >= value * 1000 + 500) by (nonlinear_arith)
        requires
            value >= base,
            base >= 0,
            factor > 1000,
            2 * base * (factor - 1000) >= 1000,
    ;
    let num = value * factor;
    assert(num >= 0);
    if next <= value {
        assert(next * 1000 <= value * 1000) by (nonlinear_arith)
            requires
                next <= value,
        ;
        assert(next * 1000 == value * 1000 && num == value * 1000 + 500);
        assert(next == value) by (nonlinear_arith)
            requires
                next * 1000 == value * 1000,
        ;
        vstd::arithmetic::div_mod::lemma_fundamental_div_mod_converse(num, 1000, value, 500);
        assert(false);
    }
}

proof fn lemma_power_grows_with_base(small: int, large: int, exponent: nat)
    requires
        0 <= small <= large,
    ensures
        0 <= power(small, exponent) <= power(large, exponent),
    decreases exponent,
{
    if exponent > 0 {
        lemma_power_grows_with_base(small, large, (exponent - 1) as nat);
        let a = power(small, (exponent - 1) as nat);
        let b = power(large, (exponent - 1) as nat);
        assert(0 <= small * a <= large * b) by (nonlinear_arith)
            requires
                0 <= small <= large,
                0 <= a <= b,
        ;
    }
}

/// What the rounding of each round costs: after `rounds` rounds the
/// displacement differs from the base times the factor to the power `rounds`
/// by at most half a millionth for each round, grown like a displacement
/// itself, as long as no round has met the limits of `i64`.
///
/// With the factor as `factor / 1000`, the claim is that
/// `|grown - base * (factor / 1000)^rounds|` is at most
/// `rounds / 2 * (reach(factor) / 1000)^rounds`.
pub proof fn lemma_growth_is_near_power(base: int, factor: int, rounds: nat)
    requires
        grows_freely(base, factor, rounds),
    ensures
        -(rounds * power(reach(factor), rounds)) <= 2 * (grown(base, factor, rounds) * power(
            MILLI_PER_UNIT as int,
            rounds,
        ) - base * power(factor, rounds)) <= rounds * power(reach(factor), rounds),
    decreases rounds,
{
    if rounds > 0 {
        let before = (rounds - 1) as nat;
        assert(grows_freely(base, factor, before)) by {
            assert forall|k: nat| k <= before implies i64::MIN < #[trigger] grown(base, factor, k)
                < i64::MAX by {
                assert(k <= rounds);
            }
        }
        lemma_growth_is_near_power(base, factor, before);
        let value = grown(base, factor, before);
        let next = grown(base, factor, rounds);
        assert(next == round_half_away(value * factor, 1000));
        lemma_round_is_nearest(value * factor, 1000);
        let lost = next * 1000 - value * factor;
        assert(-1000 <= 2 * lost <= 1000);
        let unit = power(1000, before);
        let exact = power(factor, before);
        let span = power(reach(factor), before);
        let error = value * unit - base * exact;
        assert(power(1000, rounds) == 1000 * unit);
        assert(power(factor, rounds) == factor * exact);
        assert(power(reach(factor), rounds) == reach(factor) * span);
        lemma_power_grows_with_base(1000, reach(factor), before);
        assert(0 <= unit <= span);
        let kept = value * unit;
        let due = base * exact;
        assert(next * (1000 * unit) == (next * 1000) * unit) by (nonlinear_arith);
        assert((next * 1000) * unit == unit * lost + (value * factor) * unit) by (nonlinear_arith)
            requires
                next * 1000 == lost + value * factor,
        ;
        assert((value * factor) * unit == factor * kept) by (nonlinear_arith)
            requires
                kept == value * unit,
        ;
        assert(base * (factor * exact) == factor * due) by (nonlinear_arith)
            requires
                due == base * exact,
        ;
        assert(factor * error == factor * kept - factor * due) by (nonlinear_arith)
            requires
                error == kept - due,
        ;
        assert(next * (1000 * unit) - base * (factor * exact) == unit * lost + factor * error);
        let m = reach(factor);
        assert(-m <= factor <= m && m >= 1000);
        assert(-(unit * 1000) <= unit * (2 * lost) <= unit * 1000) by (nonlinear_arith)
            requires
                -1000 <= 2 * lost <= 1000,
                unit >= 0,
        ;
        assert(unit * 1000 <= m * span) by (nonlinear_arith)
            requires
                0 <= unit <= span,
                m >= 1000,
        ;
        assert(-(m * (before * span)) <= factor * (2 * error) <= m * (before * span))
            by (nonlinear_arith)
            requires
                -m <= factor <= m,
                -(before * span) <= 2 * error <= before * span,
                before * span >= 0,
        ;
        assert(before * span >= 0) by (nonlinear_arith)
            requires
                before >= 0,
                span >= 0,
        ;
        assert(rounds * (m * span) == m * span + m * (before * span)) by (nonlinear_arith)
            requires
                rounds == before + 1,
        ;
        assert(2 * (unit * lost + factor * error) == unit * (2 * lost) + factor * (2 * error))
            by (nonlinear_arith);
    }
}

/// Grows `value` by one round of `factor` thousandths.
pub fn grow_once(value: Micro, factor: Milli) -> (next: Micro)
    ensures
        next == grown_once(value as int, factor as int),
{
    assert(-0x4000_0000_0000_0000_0000_0000 <= value * factor <= 0x4000_0000_0000_0000_0000_0000)
        by (nonlinear_arith)
        requires
            -0x8000_0000_0000_0000 <= value <= 0x8000_0000_0000_0000,
            -0x8000_0000 <= factor <= 0x8000_0000,
    ;
    let product: i128 = (value as i128) * (factor as i128);
    let nearest: i128 = divide_to_nearest(product, 1000);
    if nearest > 0x7fff_ffff_ffff_ffff {
        i64::MAX
    } else if nearest < -0x8000_0000_0000_0000 {
        i64::MIN
    } else {
        nearest as i64
    }
}

/// Grows `base` by `rounds` rounds of `factor` thousandths each.
///
/// The result is `base` times `factor / 1000` to the power `rounds`, worked
/// out round by round as [`grown`] says.
pub fn grow(base: Micro, factor: Milli, rounds: u64) -> (value: Micro)
    ensures
        value == grown(base as int, factor as int, rounds as nat),
{
    let mut value: Micro = base;
    let mut done: u64 = 0;
    while done < rounds
        invariant
            done <= rounds,
            value == grown(base as int, factor as int, done as nat),
        decreases rounds - done,
    {
        let next = grow_once(value, factor);
        if next == value {
            proof {
                lemma_growth_at_rest(value as int, factor as int, (rounds - done) as nat);
                lemma_growth_continues(
                    base as int,
                    factor as int,
                    done as nat,
                    (rounds - done) as nat,
                );
            }
            return value;
        }
        value = next;
        done += 1;
    }
    value
}

} // verus!
