//! The movement scheduler: a fractional displacement spread over whole steps.
//!
//! A displacement is a fraction `num / den` of a unit. It is delivered in
//! `splits` steps of whole units. Each step adds its share to an accumulator,
//! sends the accumulator rounded to the nearest whole number (halves away from
//! zero, held to the range of `i32`) and keeps what was not sent for the next
//! step, so that nothing is lost to repeated rounding.

use crate::types::{Command, Micro, Milli};
use vstd::prelude::*;

verus! {

/// Denominator of a [`crate::types::Micro`] displacement scaled by a [`crate::types::Milli`] factor.
pub const NANO_PER_UNIT: u64 = 1_000_000_000;

/// `num / den` rounded to the nearest integer, halves away from zero.
pub open spec fn round_half_away(num: int, den: int) -> int
    recommends
        den > 0,
{
    if num >= 0 {
        if 2 * (num % den) >= den {
            num / den + 1
        } else {
            num / den
        }
    } else {
        if 2 * ((-num) % den) >= den {
            -((-num) / den + 1)
        } else {
            -((-num) / den)
        }
    }
}

/// `value` held to the range of `i32`.
pub open spec fn clamp_i32(value: int) -> int {
    if value > i32::MAX {
        i32::MAX as int
    } else if value < i32::MIN {
        i32::MIN as int
    } else {
        value
    }
}

/// What a step sends when the accumulator, in units of `1 / unit`, holds `acc`.
pub open spec fn sent(acc: int, unit: int) -> int {
    clamp_i32(round_half_away(acc, unit))
}

/// The accumulator before step `k`: what the steps before it did not send.
pub open spec fn carried(num: int, unit: int, k: nat) -> int
    decreases k,
{
    if k == 0 {
        0
    } else {
        let acc = carried(num, unit, (k - 1) as nat) + num;
        acc - sent(acc, unit) * unit
    }
}

/// What step `k` sends.
pub open spec fn emitted(num: int, unit: int, k: nat) -> int {
    sent(carried(num, unit, k) + num, unit)
}

/// The sum of what the first `k` steps send.
pub open spec fn delivered(num: int, unit: int, k: nat) -> int
    decreases k,
{
    if k == 0 {
        0
    } else {
        delivered(num, unit, (k - 1) as nat) + emitted(num, unit, (k - 1) as nat)
    }
}

/// The whole steps that deliver `num / den` in `splits` steps.
pub open spec fn schedule(num: int, den: int, splits: nat) -> Seq<int> {
    Seq::new(splits, |k: int| emitted(num, den * splits, k as nat))
}

/// Rounding to the nearest integer misses by at most half a unit.
pub proof fn lemma_round_is_nearest(num: int, den: int)
    requires
        den > 0,
    ensures
        2 * (num - round_half_away(num, den) * den) <= den,
        2 * (round_half_away(num, den) * den - num) <= den,
        num >= 0 ==> round_half_away(num, den) >= 0,
        num <= 0 ==> round_half_away(num, den) <= 0,
{
    let m = if num >= 0 {
        num
    } else {
        -num
    };
    vstd::arithmetic::div_mod::lemma_fundamental_div_mod(m, den);
    vstd::arithmetic::div_mod::lemma_mod_bound(m, den);
    vstd::arithmetic::div_mod::lemma_div_pos_is_pos(m, den);
    let q = m / den;
    assert(m == den * q + m % den);
    assert(den * (q + 1) == den * q + den) by (nonlinear_arith);
    assert((q + 1) * den == den * (q + 1)) by (nonlinear_arith);
    assert(q * den == den * q) by (nonlinear_arith);
    assert((-(q + 1)) * den == -(den * (q + 1))) by (nonlinear_arith);
    assert((-q) * den == -(den * q)) by (nonlinear_arith);
}

/// A step sends a number of the accumulator's sign, and what it keeps is no
/// larger than the accumulator; without the `i32` limit it keeps at most half a unit.
pub proof fn lemma_step_keeps_little(acc: int, unit: int)
    requires
        unit > 0,
    ensures
        -i32::MAX - 1 <= sent(acc, unit) <= i32::MAX,
        acc >= 0 ==> 0 <= sent(acc, unit) * unit && -unit <= 2 * (acc - sent(acc, unit) * unit)
            && acc - sent(acc, unit) * unit <= acc,
        acc <= 0 ==> sent(acc, unit) * unit <= 0 && 2 * (acc - sent(acc, unit) * unit) <= unit
            && acc <= acc - sent(acc, unit) * unit,
        sent(acc, unit) == round_half_away(acc, unit) ==> -unit <= 2 * (acc - sent(acc, unit)
            * unit) <= unit,
{
    lemma_round_is_nearest(acc, unit);
    let r = round_half_away(acc, unit);
    let s = sent(acc, unit);
    if acc >= 0 {
        assert(0 <= s <= r);
        assert(0 <= s * unit <= r * unit) by (nonlinear_arith)
            requires
                0 <= s <= r,
                unit > 0,
        ;
        if s == 0 {
            assert(s * unit == 0) by (nonlinear_arith)
                requires
                    s == 0,
            ;
        } else {
            assert(s * unit >= unit) by (nonlinear_arith)
                requires
                    s >= 1,
                    unit > 0,
            ;
        }
    } else {
        assert(r <= s <= 0);
        assert(r * unit <= s * unit <= 0) by (nonlinear_arith)
            requires
                r <= s <= 0,
                unit > 0,
        ;
        if s == 0 {
            assert(s * unit == 0) by (nonlinear_arith)
                requires
                    s == 0,
            ;
        } else {
            assert(s * unit <= -unit) by (nonlinear_arith)
                requires
                    s <= -1,
                    unit > 0,
            ;
        }
    }
}

/// The sum of the entries of `steps`.
pub open spec fn total(steps: Seq<int>) -> int
    decreases steps.len(),
{
    if steps.len() == 0 {
        0
    } else {
        total(steps.drop_last()) + steps.last()
    }
}

/// The largest displacement, as a numerator over `unit`, whose steps stay inside `i32`.
pub open spec fn within_reach(num: int, unit: int) -> bool {
    -(i32::MAX - 1) * unit <= num <= (i32::MAX - 1) * unit
}

/// While no step meets the `i32` limit, what was sent and what is carried add
/// up to what was due, and the carry is at most half a unit.
pub proof fn lemma_nothing_is_lost(num: int, unit: int, k: nat)
    requires
        unit > 0,
        within_reach(num, unit),
    ensures
        delivered(num, unit, k) * unit + carried(num, unit, k) == k * num,
        -unit <= 2 * carried(num, unit, k) <= unit,
        emitted(num, unit, k) == round_half_away(carried(num, unit, k) + num, unit),
    decreases k,
{
    if k > 0 {
        let j = (k - 1) as nat;
        lemma_nothing_is_lost(num, unit, j);
        let acc = carried(num, unit, j) + num;
        lemma_step_keeps_little(acc, unit);
        let out = emitted(num, unit, j);
        assert(out == sent(acc, unit));
        assert(carried(num, unit, k) == acc - out * unit);
        assert(delivered(num, unit, k) == delivered(num, unit, j) + out);
        assert((delivered(num, unit, j) + out) * unit == delivered(num, unit, j) * unit + out
            * unit) by (nonlinear_arith);
        assert(k * num == j * num + num) by (nonlinear_arith)
            requires
                k == j + 1,
        ;
    }
    let acc = carried(num, unit, k) + num;
    lemma_round_is_nearest(acc, unit);
    let r = round_half_away(acc, unit);
    assert(-i32::MAX <= r <= i32::MAX) by (nonlinear_arith)
        requires
            unit > 0,
            2 * (acc - r * unit) <= unit,
            2 * (r * unit - acc) <= unit,
            -unit <= 2 * (acc - num) <= unit,
            -(i32::MAX - 1) * unit <= num <= (i32::MAX - 1) * unit,
    ;
}

/// The steps of a schedule sum to what [`delivered`] counts.
pub proof fn lemma_schedule_total(num: int, den: int, splits: nat, k: nat)
    requires
        k <= splits,
    ensures
        total(schedule(num, den, splits).take(k as int)) == delivered(num, den * splits, k),
    decreases k,
{
    let steps = schedule(num, den, splits);
    if k > 0 {
        lemma_schedule_total(num, den, splits, (k - 1) as nat);
        assert(steps.take(k as int).drop_last() =~= steps.take(k - 1));
        assert(steps.take(k as int).last() == emitted(num, den * splits, (k - 1) as nat));
    }
}

/// The steps of a schedule sum to the displacement with an error of at most
/// half a unit, however many steps there are, as long as no step meets the
/// `i32` limit.
pub proof fn lemma_schedule_error_below_one_unit(num: int, den: int, splits: nat)
    requires
        den > 0,
        splits >= 1,
        within_reach(num, den * splits),
    ensures
        2 * (total(schedule(num, den, splits)) * den - num) <= den,
        2 * (num - total(schedule(num, den, splits)) * den) <= den,
{
    let unit = den * splits;
    assert(unit > 0) by (nonlinear_arith)
        requires
            den > 0,
            splits >= 1,
            unit == den * splits,
    ;
    lemma_nothing_is_lost(num, unit, splits);
    lemma_schedule_total(num, den, splits, splits);
    assert(schedule(num, den, splits).take(splits as int) =~= schedule(num, den, splits));
    let sum = total(schedule(num, den, splits));
    let rest = carried(num, unit, splits);
    assert(sum * unit + rest == splits * num);
    assert(2 * (sum * den - num) <= den && 2 * (num - sum * den) <= den) by (nonlinear_arith)
        requires
            den > 0,
            splits >= 1,
            unit == den * splits,
            sum * unit + rest == splits * num,
            -unit <= 2 * rest <= unit,
    ;
}

/// Every step of a schedule is within one unit of an even share of the
/// displacement, as long as no step meets the `i32` limit.
pub proof fn lemma_step_near_even_share(num: int, den: int, splits: nat, k: nat)
    requires
        den > 0,
        splits >= 1,
        k < splits,
        within_reach(num, den * splits),
    ensures
        schedule(num, den, splits)[k as int] * (den * splits) - num <= den * splits,
        num - schedule(num, den, splits)[k as int] * (den * splits) <= den * splits,
{
    let unit = den * splits;
    assert(unit > 0) by (nonlinear_arith)
        requires
            den > 0,
            splits >= 1,
            unit == den * splits,
    ;
    lemma_nothing_is_lost(num, unit, k);
    lemma_round_is_nearest(carried(num, unit, k) + num, unit);
}

/// Divides `num` by `den` to the nearest whole number, halves away from zero.
pub fn divide_to_nearest(num: i128, den: i128) -> (nearest: i128)
    requires
        den > 0,
        num > i128::MIN,
    ensures
        nearest == round_half_away(num as int, den as int),
{
    let size: u128 = if num >= 0 {
        num as u128
    } else {
        (-num) as u128
    };
    let whole: u128 = size / (den as u128);
    let part: u128 = size % (den as u128);
    proof {
        vstd::arithmetic::div_mod::lemma_fundamental_div_mod(size as int, den as int);
        assert(whole * den >= whole) by (nonlinear_arith)
            requires
                whole >= 0,
                den >= 1,
        ;
        assert(den * whole == whole * den) by (nonlinear_arith);
    }
    let up: bool = part >= (den as u128) - part;
    let rounded: u128 = if up {
        whole + 1
    } else {
        whole
    };
    if num >= 0 {
        rounded as i128
    } else {
        -(rounded as i128)
    }
}

/// Spreads the displacement `total * multiplier / 10^9` over `splits` whole steps.
///
/// The result is the schedule of that displacement: step by step what
/// [`schedule`] says, and nothing for `splits == 0`.
pub fn distribute(total: Micro, multiplier: Milli, splits: u32) -> (steps: Vec<i32>)
    ensures
        steps@.len() == splits,
        forall|k: int|
            0 <= k < splits ==> steps@[k] as int == #[trigger] schedule(
                total * multiplier,
                NANO_PER_UNIT as int,
                splits as nat,
            )[k],
{
    let ghost bound: int = 0x4000_0000_0000_0000_0000_0000;
    assert(-bound <= total * multiplier <= bound) by (nonlinear_arith)
        requires
            -0x8000_0000_0000_0000 <= total <= 0x8000_0000_0000_0000,
            -0x8000_0000 <= multiplier <= 0x8000_0000,
            bound == 0x4000_0000_0000_0000_0000_0000,
    ;
    assert(0 <= NANO_PER_UNIT * splits <= 0x4000_0000_0000_0000) by (nonlinear_arith)
        requires
            NANO_PER_UNIT == 1_000_000_000,
            0 <= splits <= 0xffff_ffff,
    ;
    let num: i128 = (total as i128) * (multiplier as i128);
    let unit: i128 = (NANO_PER_UNIT as i128) * (splits as i128);
    let mut steps: Vec<i32> = Vec::new();
    let mut acc: i128 = 0;
    let mut k: u32 = 0;
    while k < splits
        invariant
            k <= splits,
            splits > 0 ==> unit == NANO_PER_UNIT * splits && 0 < unit <= 0x4000_0000_0000_0000,
            num == total * multiplier,
            bound == 0x4000_0000_0000_0000_0000_0000,
            -bound <= num <= bound,
            acc == carried(num as int, unit as int, k as nat),
            -(k * bound + unit) <= acc <= k * bound + unit,
            steps@.len() == k,
            forall|j: int|
                0 <= j < k ==> steps@[j] as int == emitted(num as int, unit as int, j as nat),
        decreases splits - k,
    {
        let due: i128 = acc + num;
        let nearest: i128 = divide_to_nearest(due, unit);
        let out: i32 = if nearest > 0x7fff_ffff {
            i32::MAX
        } else if nearest < -0x8000_0000 {
            i32::MIN
        } else {
            nearest as i32
        };
        proof {
            assert(out as int == sent(due as int, unit as int));
            lemma_step_keeps_little(due as int, unit as int);
            assert(-0x8000_0000 * unit <= out * unit <= 0x8000_0000 * unit) by (nonlinear_arith)
                requires
                    -0x8000_0000 <= out <= 0x8000_0000,
                    unit > 0,
            ;
        }
        acc = due - (out as i128) * unit;
        steps.push(out);
        k += 1;
    }
    proof {
        assert forall|j: int| 0 <= j < splits implies steps@[j] as int == #[trigger] schedule(
            total * multiplier,
            NANO_PER_UNIT as int,
            splits as nat,
        )[j] by {
            assert(unit == NANO_PER_UNIT * splits);
        }
    }
    steps
}

/// The timed steps that deliver two displacements side by side.
///
/// The horizontal displacement is `dx_num / 10^9`, the vertical one
/// `dy_num / 10^9`. Each of the `splits` steps is a movement and a pause of an
/// even share of `total_interval`; the pause comes before the movement when
/// `wait_first` is set and after it otherwise.
pub open spec fn movement_plan(
    dx_num: int,
    dy_num: int,
    splits: nat,
    total_interval: u64,
    wait_first: bool,
) -> Seq<Command> {
    Seq::new(
        2 * splits,
        |i: int|
            if (i % 2 == 0) == wait_first {
                Command::Wait { nanos: (total_interval as int / splits as int) as u64 }
            } else {
                Command::Move {
                    dx: schedule(dx_num, NANO_PER_UNIT as int, splits)[i / 2] as i32,
                    dy: schedule(dy_num, NANO_PER_UNIT as int, splits)[i / 2] as i32,
                }
            },
    )
}

/// Plans a movement of `dx_total` by `dy_total`, each scaled by its multiplier.
///
/// Returns the plan of [`movement_plan`] for the displacements
/// `dx_total * horizontal_multiplier` and `dy_total * vertical_multiplier`:
/// `splits` movements with their pauses, and nothing for `splits == 0`.
pub fn plan_movement(
    dx_total: Micro,
    dy_total: Micro,
    horizontal_multiplier: Milli,
    vertical_multiplier: Milli,
    splits: u32,
    total_interval: u64,
    wait_first: bool,
) -> (commands: Vec<Command>)
    ensures
        commands@ == movement_plan(
            dx_total * horizontal_multiplier,
            dy_total * vertical_multiplier,
            splits as nat,
            total_interval,
            wait_first,
        ),
{
    let mut commands: Vec<Command> = Vec::new();
    if splits == 0 {
        return commands;
    }
    let across = distribute(dx_total, horizontal_multiplier, splits);
    let down = distribute(dy_total, vertical_multiplier, splits);
    let pause: u64 = total_interval / (splits as u64);
    let ghost plan = movement_plan(
        dx_total * horizontal_multiplier,
        dy_total * vertical_multiplier,
        splits as nat,
        total_interval,
        wait_first,
    );
    let mut k: usize = 0;
    while k < across.len()
        invariant
            k <= splits,
            across@.len() == splits,
            down@.len() == splits,
            splits > 0,
            pause == total_interval / (splits as u64),
            plan == movement_plan(
                dx_total * horizontal_multiplier,
                dy_total * vertical_multiplier,
                splits as nat,
                total_interval,
                wait_first,
            ),
            forall|j: int|
                0 <= j < splits ==> across@[j] as int == #[trigger] schedule(
                    dx_total * horizontal_multiplier,
                    NANO_PER_UNIT as int,
                    splits as nat,
                )[j],
            forall|j: int|
                0 <= j < splits ==> down@[j] as int == #[trigger] schedule(
                    dy_total * vertical_multiplier,
                    NANO_PER_UNIT as int,
                    splits as nat,
                )[j],
            commands@.len() == 2 * k,
            forall|i: int| 0 <= i < 2 * k ==> commands@[i] == plan[i],
        decreases splits - k,
    {
        let step = Command::Move { dx: across[k], dy: down[k] };
        let rest = Command::Wait { nanos: pause };
        proof {
            let i = 2 * k as int;
            assert(i % 2 == 0 && (i + 1) % 2 == 1);
            assert(i / 2 == k && (i + 1) / 2 == k);
            assert(schedule(dx_total * horizontal_multiplier, NANO_PER_UNIT as int, splits as nat)[k as int]
                == across@[k as int]);
            assert(schedule(dy_total * vertical_multiplier, NANO_PER_UNIT as int, splits as nat)[k as int]
                == down@[k as int]);
        }
        if wait_first {
            commands.push(rest);
            commands.push(step);
        } else {
            commands.push(step);
            commands.push(rest);
        }
        k += 1;
    }
    assert(commands@ =~= plan);
    commands
}

} // verus!
