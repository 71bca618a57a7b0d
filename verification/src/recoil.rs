//! Movement for a weapon: which multipliers apply and what is sent.

use crate::scheduler::{movement_plan, plan_movement};
use crate::types::{Command, GlobalConfig, Micro, Milli, Weapon};
use vstd::prelude::*;

verus! {

/// Whether `text` holds the letters A, C, O, G in a row at `at`, in either case.
pub open spec fn acog_at(text: Seq<char>, at: int) -> bool {
    &&& 0 <= at
    &&& at + 4 <= text.len()
    &&& (text[at] == 'A' || text[at] == 'a')
    &&& (text[at + 1] == 'C' || text[at + 1] == 'c')
    &&& (text[at + 2] == 'O' || text[at + 2] == 'o')
    &&& (text[at + 3] == 'G' || text[at + 3] == 'g')
}

/// Whether `text` names a magnified optic: it holds "ACOG", in any mix of cases.
pub open spec fn mentions_acog(text: Seq<char>) -> bool {
    exists|at: int| acog_at(text, at)
}

/// Whether the weapon's description names a magnified optic.
pub open spec fn weapon_has_acog(weapon: &Weapon) -> bool {
    match weapon.spec_description() {
        Some(text) => mentions_acog(text@),
        None => false,
    }
}

/// The horizontal and vertical multiplier that apply to the weapon.
pub open spec fn multipliers_for(config: &GlobalConfig, weapon: &Weapon) -> (Milli, Milli) {
    if weapon_has_acog(weapon) {
        (
            config.mouse_config.acog_horizontal_multiplier,
            config.mouse_config.acog_vertical_multiplier,
        )
    } else {
        (config.mouse_config.horizontal_multiplier, config.mouse_config.vertical_multiplier)
    }
}

/// Says whether `text` holds "ACOG" in any mix of upper and lower case.
pub fn contains_acog(text: &str) -> (found: bool)
    ensures
        found == mentions_acog(text@),
{
    let length: usize = text.unicode_len();
    if length < 4 {
        assert(forall|at: int| !acog_at(text@, at));
        return false;
    }
    let mut at: usize = 0;
    while at <= length - 4
        invariant
            length == text@.len(),
            4 <= length,
            at <= length - 3,
            forall|before: int| 0 <= before < at ==> !acog_at(text@, before),
        decreases length - at,
    {
        let first: char = text.get_char(at);
        let second: char = text.get_char(at + 1);
        let third: char = text.get_char(at + 2);
        let fourth: char = text.get_char(at + 3);
        if (first == 'A' || first == 'a') && (second == 'C' || second == 'c') && (third == 'O'
            || third == 'o') && (fourth == 'G' || fourth == 'g') {
            assert(acog_at(text@, at as int));
            return true;
        }
        at += 1;
    }
    assert(forall|other: int| !acog_at(text@, other));
    false
}

/// Says whether the weapon's description names a magnified optic.
pub fn has_acog(weapon: &Weapon) -> (found: bool)
    ensures
        found == weapon_has_acog(weapon),
{
    match weapon.description() {
        Some(text) => contains_acog(text.as_str()),
        None => false,
    }
}

/// Picks the multipliers for the weapon: the magnified pair if its
/// description names a magnified optic, the standard pair otherwise.
pub fn effective_multipliers(config: &GlobalConfig, weapon: &Weapon) -> (pair: (Milli, Milli))
    ensures
        pair == multipliers_for(config, weapon),
{
    if has_acog(weapon) {
        (
            config.mouse_config.acog_horizontal_multiplier,
            config.mouse_config.acog_vertical_multiplier,
        )
    } else {
        (config.mouse_config.horizontal_multiplier, config.mouse_config.vertical_multiplier)
    }
}

/// Plans the movement that compensates `dx_total` by `dy_total` for the weapon.
///
/// The displacement is scaled by the multipliers that apply to the weapon and
/// spread over `splits` steps across `total_interval`, as [`movement_plan`] says.
pub fn move_down(
    config: &GlobalConfig,
    weapon: &Weapon,
    dx_total: Micro,
    dy_total: Micro,
    splits: u32,
    total_interval: u64,
    wait_first: bool,
) -> (commands: Vec<Command>)
    ensures
        commands@ == movement_plan(
            dx_total * multipliers_for(config, weapon).0,
            dy_total * multipliers_for(config, weapon).1,
            splits as nat,
            total_interval,
            wait_first,
        ),
{
    let (horizontal, vertical) = effective_multipliers(config, weapon);
    plan_movement(dx_total, dy_total, horizontal, vertical, splits, total_interval, wait_first)
}

} // verus!
