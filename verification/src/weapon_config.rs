//! Editing one field of a weapon.
//!
//! A field is named by text and its new value comes as a loosely typed
//! [`FieldValue`]. The edit is checked first, against the weapon's firing
//! model, and applied only if the field exists for that model and the value
//! has the type that the field asks for.

use crate::scheduler::{clamp_i32, round_half_away};
use crate::selection::{current_weapon, current_weapon_id, get_weapon, weapon_named, SelectionError};
use crate::types::{AppState, Game, Milli, Model, Weapon};
use vstd::prelude::*;

verus! {

/// A loosely typed value, as a user interface hands it over.
#[derive(Clone, Debug)]
pub enum FieldValue {
    /// A text.
    Text(String),
    /// A truth value.
    Flag(bool),
    /// A number: as an unsigned integer where it is one, and in thousandths.
    Number { unsigned: Option<u64>, thousandths: Milli },
    /// Anything else.
    Other,
}

/// A field of a weapon that can be edited.
#[derive(Clone, Copy, Debug, PartialEq, Eq, Structural)]
pub enum Field {
    Name,
    Description,
    TriggerDelayMs,
    RecoilCompletionMs,
    ReleaseDelayMs,
    Rpm,
    FirstShotScale,
    ExponentialFactor,
    Dx,
    Dy,
    Autofire,
    Enabled,
}

/// Why a weapon was not edited.
#[derive(Clone, Copy, Debug, PartialEq, Eq, Structural)]
pub enum WeaponConfigError {
    /// The weapon was not found.
    Lookup(SelectionError),
    /// The weapon's firing model has no field of that name.
    UnknownField,
    /// The value has not the type that the field asks for.
    InvalidValue,
}

/// An edit that has passed its checks.
#[derive(Clone, Debug)]
pub enum Patch {
    Name(String),
    Description(Option<String>),
    TriggerDelayMs(u32),
    RecoilCompletionMs(u32),
    ReleaseDelayMs(u32),
    Rpm(u64),
    FirstShotScale(Milli),
    ExponentialFactor(Milli),
    Dx(Milli),
    Dy(Milli),
    Autofire(bool),
    Enabled(bool),
    /// Both components of the displacement at once.
    Displacement { dx: Milli, dy: Milli },
}

/// The field that `name` stands for.
pub open spec fn field_named(name: Seq<char>) -> Option<Field> {
    if name == "name"@ {
        Some(Field::Name)
    } else if name == "description"@ {
        Some(Field::Description)
    } else if name == "trigger_delay_ms"@ {
        Some(Field::TriggerDelayMs)
    } else if name == "recoil_completion_ms"@ {
        Some(Field::RecoilCompletionMs)
    } else if name == "release_delay_ms"@ {
        Some(Field::ReleaseDelayMs)
    } else if name == "rpm"@ {
        Some(Field::Rpm)
    } else if name == "first_shot_scale"@ {
        Some(Field::FirstShotScale)
    } else if name == "exponential_factor"@ {
        Some(Field::ExponentialFactor)
    } else if name == "dx"@ {
        Some(Field::Dx)
    } else if name == "dy"@ {
        Some(Field::Dy)
    } else if name == "autofire"@ {
        Some(Field::Autofire)
    } else if name == "enabled"@ {
        Some(Field::Enabled)
    } else {
        None
    }
}

/// Whether a weapon of firing model `model` has the field.
pub open spec fn model_has_field(model: Model, field: Field) -> bool {
    match field {
        Field::Name | Field::Description | Field::Dx | Field::Dy | Field::Enabled => true,
        Field::RecoilCompletionMs => model != Model::FullAuto,
        Field::TriggerDelayMs | Field::ReleaseDelayMs | Field::Autofire => model
            == Model::SingleFire,
        Field::Rpm | Field::FirstShotScale | Field::ExponentialFactor => model == Model::FullAuto,
    }
}

/// The low 32 bits of `value`.
pub open spec fn low_word(value: u64) -> u32 {
    (value % 0x1_0000_0000) as u32
}

/// The edit that sets `field` to `value`, if the value has the type that the field asks for.
pub open spec fn patch_of(field: Field, value: FieldValue) -> Option<Patch> {
    match field {
        Field::Name => match value {
            FieldValue::Text(text) => Some(Patch::Name(text)),
            _ => None,
        },
        Field::Description => match value {
            FieldValue::Text(text) => Some(Patch::Description(Some(text))),
            _ => Some(Patch::Description(None)),
        },
        Field::TriggerDelayMs => match value {
            FieldValue::Number { unsigned: Some(n), .. } => Some(
                Patch::TriggerDelayMs(low_word(n)),
            ),
            _ => None,
        },
        Field::RecoilCompletionMs => match value {
            FieldValue::Number { unsigned: Some(n), .. } => Some(
                Patch::RecoilCompletionMs(low_word(n)),
            ),
            _ => None,
        },
        Field::ReleaseDelayMs => match value {
            FieldValue::Number { unsigned: Some(n), .. } => Some(
                Patch::ReleaseDelayMs(low_word(n)),
            ),
            _ => None,
        },
        Field::Rpm => match value {
            FieldValue::Number { unsigned: Some(n), .. } => Some(Patch::Rpm(n)),
            _ => None,
        },
        Field::FirstShotScale => match value {
            FieldValue::Number { thousandths, .. } => Some(Patch::FirstShotScale(thousandths)),
            _ => None,
        },
        Field::ExponentialFactor => match value {
            FieldValue::Number { thousandths, .. } => Some(Patch::ExponentialFactor(thousandths)),
            _ => None,
        },
        Field::Dx => match value {
            FieldValue::Number { thousandths, .. } => Some(Patch::Dx(thousandths)),
            _ => None,
        },
        Field::Dy => match value {
            FieldValue::Number { thousandths, .. } => Some(Patch::Dy(thousandths)),
            _ => None,
        },
        Field::Autofire => match value {
            FieldValue::Flag(flag) => Some(Patch::Autofire(flag)),
            _ => None,
        },
        Field::Enabled => match value {
            FieldValue::Flag(flag) => Some(Patch::Enabled(flag)),
            _ => None,
        },
    }
}

/// The edit that sets the field named `name` of a weapon of firing model
/// `model` to `value`, or why there is none.
pub open spec fn checked_patch(model: Model, name: Seq<char>, value: FieldValue) -> Result<
    Patch,
    WeaponConfigError,
> {
    match field_named(name) {
        None => Err(WeaponConfigError::UnknownField),
        Some(field) => if !model_has_field(model, field) {
            Err(WeaponConfigError::UnknownField)
        } else {
            match patch_of(field, value) {
                None => Err(WeaponConfigError::InvalidValue),
                Some(patch) => Ok(patch),
            }
        },
    }
}

/// The weapon with the edit applied; an edit of a field that the weapon lacks changes nothing.
pub open spec fn patched(weapon: Weapon, patch: Patch) -> Weapon {
    match weapon {
        Weapon::SingleFire(c) => Weapon::SingleFire(
            match patch {
                Patch::Name(name) => crate::types::SingleFireConfig { name, ..c },
                Patch::Description(description) => crate::types::SingleFireConfig {
                    description,
                    ..c
                },
                Patch::TriggerDelayMs(trigger_delay_ms) => crate::types::SingleFireConfig {
                    trigger_delay_ms,
                    ..c
                },
                Patch::RecoilCompletionMs(recoil_completion_ms) => crate::types::SingleFireConfig {
                    recoil_completion_ms,
                    ..c
                },
                Patch::ReleaseDelayMs(release_delay_ms) => crate::types::SingleFireConfig {
                    release_delay_ms,
                    ..c
                },
                Patch::Dx(dx) => crate::types::SingleFireConfig { dx, ..c },
                Patch::Dy(dy) => crate::types::SingleFireConfig { dy, ..c },
                Patch::Autofire(autofire) => crate::types::SingleFireConfig { autofire, ..c },
                Patch::Enabled(enabled) => crate::types::SingleFireConfig { enabled, ..c },
                Patch::Displacement { dx, dy } => crate::types::SingleFireConfig { dx, dy, ..c },
                _ => c,
            },
        ),
        Weapon::FullAutoStandard(c) => Weapon::FullAutoStandard(
            match patch {
                Patch::Name(name) => crate::types::FullAutoStandardConfig { name, ..c },
                Patch::Description(description) => crate::types::FullAutoStandardConfig {
                    description,
                    ..c
                },
                Patch::Rpm(rpm) => crate::types::FullAutoStandardConfig { rpm, ..c },
                Patch::FirstShotScale(first_shot_scale) => crate::types::FullAutoStandardConfig {
                    first_shot_scale,
                    ..c
                },
                Patch::ExponentialFactor(exponential_factor) => crate::types::FullAutoStandardConfig {
                    exponential_factor,
                    ..c
                },
                Patch::Dx(dx) => crate::types::FullAutoStandardConfig { dx, ..c },
                Patch::Dy(dy) => crate::types::FullAutoStandardConfig { dy, ..c },
                Patch::Enabled(enabled) => crate::types::FullAutoStandardConfig { enabled, ..c },
                Patch::Displacement { dx, dy } => crate::types::FullAutoStandardConfig { dx, dy, ..c },
                _ => c,
            },
        ),
        Weapon::SingleShot(c) => Weapon::SingleShot(
            match patch {
                Patch::Name(name) => crate::types::SingleShotConfig { name, ..c },
                Patch::Description(description) => crate::types::SingleShotConfig {
                    description,
                    ..c
                },
                Patch::RecoilCompletionMs(recoil_completion_ms) => crate::types::SingleShotConfig {
                    recoil_completion_ms,
                    ..c
                },
                Patch::Dx(dx) => crate::types::SingleShotConfig { dx, ..c },
                Patch::Dy(dy) => crate::types::SingleShotConfig { dy, ..c },
                Patch::Enabled(enabled) => crate::types::SingleShotConfig { enabled, ..c },
                Patch::Displacement { dx, dy } => crate::types::SingleShotConfig { dx, dy, ..c },
                _ => c,
            },
        ),
    }
}

/// Finds the field that `name` stands for.
pub fn find_field(name: &String) -> (field: Option<Field>)
    ensures
        field == field_named(name@),
{
    if *name == String::from_str("name") {
        Some(Field::Name)
    } else if *name == String::from_str("description") {
        Some(Field::Description)
    } else if *name == String::from_str("trigger_delay_ms") {
        Some(Field::TriggerDelayMs)
    } else if *name == String::from_str("recoil_completion_ms") {
        Some(Field::RecoilCompletionMs)
    } else if *name == String::from_str("release_delay_ms") {
        Some(Field::ReleaseDelayMs)
    } else if *name == String::from_str("rpm") {
        Some(Field::Rpm)
    } else if *name == String::from_str("first_shot_scale") {
        Some(Field::FirstShotScale)
    } else if *name == String::from_str("exponential_factor") {
        Some(Field::ExponentialFactor)
    } else if *name == String::from_str("dx") {
        Some(Field::Dx)
    } else if *name == String::from_str("dy") {
        Some(Field::Dy)
    } else if *name == String::from_str("autofire") {
        Some(Field::Autofire)
    } else if *name == String::from_str("enabled") {
        Some(Field::Enabled)
    } else {
        None
    }
}

/// Says whether a weapon of firing model `model` has the field.
pub fn has_field(model: Model, field: Field) -> (has: bool)
    ensures
        has == model_has_field(model, field),
{
    match field {
        Field::Name | Field::Description | Field::Dx | Field::Dy | Field::Enabled => true,
        Field::RecoilCompletionMs => model != Model::FullAuto,
        Field::TriggerDelayMs | Field::ReleaseDelayMs | Field::Autofire => model
            == Model::SingleFire,
        Field::Rpm | Field::FirstShotScale | Field::ExponentialFactor => model == Model::FullAuto,
    }
}

/// Keeps the low 32 bits of `value`.
fn keep_low_word(value: u64) -> (word: u32)
    ensures
        word == low_word(value),
{
    (value % 0x1_0000_0000) as u32
}

/// Turns a field and a value into an edit, if the value has the type that the field asks for.
pub fn make_patch(field: Field, value: FieldValue) -> (patch: Option<Patch>)
    ensures
        patch == patch_of(field, value),
{
    match field {
        Field::Name => match value {
            FieldValue::Text(text) => Some(Patch::Name(text)),
            _ => None,
        },
        Field::Description => match value {
            FieldValue::Text(text) => Some(Patch::Description(Some(text))),
            _ => Some(Patch::Description(None)),
        },
        Field::TriggerDelayMs => match value {
            FieldValue::Number { unsigned: Some(n), .. } => Some(
                Patch::TriggerDelayMs(keep_low_word(n)),
            ),
            _ => None,
        },
        Field::RecoilCompletionMs => match value {
            FieldValue::Number { unsigned: Some(n), .. } => Some(
                Patch::RecoilCompletionMs(keep_low_word(n)),
            ),
            _ => None,
        },
        Field::ReleaseDelayMs => match value {
            FieldValue::Number { unsigned: Some(n), .. } => Some(
                Patch::ReleaseDelayMs(keep_low_word(n)),
            ),
            _ => None,
        },
        Field::Rpm => match value {
            FieldValue::Number { unsigned: Some(n), .. } => Some(Patch::Rpm(n)),
            _ => None,
        },
        Field::FirstShotScale => match value {
            FieldValue::Number { thousandths, .. } => Some(Patch::FirstShotScale(thousandths)),
            _ => None,
        },
        Field::ExponentialFactor => match value {
            FieldValue::Number { thousandths, .. } => Some(Patch::ExponentialFactor(thousandths)),
            _ => None,
        },
        Field::Dx => match value {
            FieldValue::Number { thousandths, .. } => Some(Patch::Dx(thousandths)),
            _ => None,
        },
        Field::Dy => match value {
            FieldValue::Number { thousandths, .. } => Some(Patch::Dy(thousandths)),
            _ => None,
        },
        Field::Autofire => match value {
            FieldValue::Flag(flag) => Some(Patch::Autofire(flag)),
            _ => None,
        },
        Field::Enabled => match value {
            FieldValue::Flag(flag) => Some(Patch::Enabled(flag)),
            _ => None,
        },
    }
}

/// Checks an edit of the field named `name` against the firing model `model`.
///
/// Fails with `UnknownField` where the model has no field of that name and
/// with `InvalidValue` where the value has the wrong type.
pub fn check_patch(model: Model, name: &String, value: FieldValue) -> (result: Result<
    Patch,
    WeaponConfigError,
>)
    ensures
        result == checked_patch(model, name@, value),
{
    match find_field(name) {
        None => Err(WeaponConfigError::UnknownField),
        Some(field) => {
            if !has_field(model, field) {
                Err(WeaponConfigError::UnknownField)
            } else {
                match make_patch(field, value) {
                    None => Err(WeaponConfigError::InvalidValue),
                    Some(patch) => Ok(patch),
                }
            }
        },
    }
}

/// Applies an edit to a weapon.
pub fn apply_patch(weapon: &mut Weapon, patch: Patch)
    ensures
        *final(weapon) == patched(*old(weapon), patch),
{
    match weapon {
        Weapon::SingleFire(c) => match patch {
            Patch::Name(name) => {
                c.name = name;
            },
            Patch::Description(description) => {
                c.description = description;
            },
            Patch::TriggerDelayMs(value) => {
                c.trigger_delay_ms = value;
            },
            Patch::RecoilCompletionMs(value) => {
                c.recoil_completion_ms = value;
            },
            Patch::ReleaseDelayMs(value) => {
                c.release_delay_ms = value;
            },
            Patch::Dx(value) => {
                c.dx = value;
            },
            Patch::Dy(value) => {
                c.dy = value;
            },
            Patch::Autofire(value) => {
                c.autofire = value;
            },
            Patch::Enabled(value) => {
                c.enabled = value;
            },
            Patch::Displacement { dx, dy } => {
                c.dx = dx;
                c.dy = dy;
            },
            _ => {},
        },
        Weapon::FullAutoStandard(c) => match patch {
            Patch::Name(name) => {
                c.name = name;
            },
            Patch::Description(description) => {
                c.description = description;
            },
            Patch::Rpm(value) => {
                c.rpm = value;
            },
            Patch::FirstShotScale(value) => {
                c.first_shot_scale = value;
            },
            Patch::ExponentialFactor(value) => {
                c.exponential_factor = value;
            },
            Patch::Dx(value) => {
                c.dx = value;
            },
            Patch::Dy(value) => {
                c.dy = value;
            },
            Patch::Enabled(value) => {
                c.enabled = value;
            },
            Patch::Displacement { dx, dy } => {
                c.dx = dx;
                c.dy = dy;
            },
            _ => {},
        },
        Weapon::SingleShot(c) => match patch {
            Patch::Name(name) => {
                c.name = name;
            },
            Patch::Description(description) => {
                c.description = description;
            },
            Patch::RecoilCompletionMs(value) => {
                c.recoil_completion_ms = value;
            },
            Patch::Dx(value) => {
                c.dx = value;
            },
            Patch::Dy(value) => {
                c.dy = value;
            },
            Patch::Enabled(value) => {
                c.enabled = value;
            },
            Patch::Displacement { dx, dy } => {
                c.dx = dx;
                c.dy = dy;
            },
            _ => {},
        },
    }
}

/// `after` is `before` with the weapon `id` of the current game replaced by `weapon`.
pub open spec fn weapon_replaced(
    before: &AppState,
    after: &AppState,
    id: Seq<char>,
    weapon: Weapon,
) -> bool {
    let g = before.current_game_index as int;
    let game_before: Game = before.games@[g];
    let game_after: Game = after.games@[g];
    &&& weapon_named(before, id) is Ok
    &&& *after == (AppState { games: after.games, ..*before })
    &&& after.games@.len() == before.games@.len()
    &&& forall|i: int| 0 <= i < before.games@.len() && i != g ==> after.games@[i] == before.games@[i]
    &&& game_after.weapons is Some
    &&& game_after == (Game { weapons: game_after.weapons, ..game_before })
    &&& game_after.weapons->Some_0@ == game_before.weapons->Some_0@.insert(id, weapon)
}

/// What [`change_weapon_config`] makes of the weapon `weapon_id`, or why it leaves it.
pub open spec fn edited_weapon(
    state: &AppState,
    weapon_id: Seq<char>,
    field: Seq<char>,
    new_value: FieldValue,
) -> Result<Weapon, WeaponConfigError> {
    match weapon_named(state, weapon_id) {
        Err(error) => Err(WeaponConfigError::Lookup(error)),
        Ok(weapon) => match checked_patch(weapon.spec_model(), field, new_value) {
            Err(error) => Err(error),
            Ok(patch) => Ok(patched(weapon, patch)),
        },
    }
}

/// Sets one field of the weapon `weapon_id` of the current game.
///
/// Succeeds exactly when the weapon exists, its firing model has a field of
/// that name and the value has the type that the field asks for. Then the
/// weapon is what [`patched`] says and nothing else differs; otherwise
/// nothing changes.
pub fn change_weapon_config(
    state: &mut AppState,
    weapon_id: &String,
    field: &String,
    new_value: FieldValue,
) -> (result: Result<(), WeaponConfigError>)
    ensures
        match edited_weapon(old(state), weapon_id@, field@, new_value) {
            Err(error) => result == Err::<(), WeaponConfigError>(error) && *final(state) == *old(
                state,
            ),
            Ok(weapon) => result is Ok && weapon_replaced(
                old(state),
                final(state),
                weapon_id@,
                weapon,
            ),
        },
{
    let model: Model = match crate::selection::find_weapon(state, weapon_id) {
        Ok(weapon) => weapon.model(),
        Err(error) => {
            return Err(WeaponConfigError::Lookup(error));
        },
    };
    let patch = match check_patch(model, field, new_value) {
        Ok(patch) => patch,
        Err(error) => {
            return Err(error);
        },
    };
    patch_weapon(state, weapon_id, patch);
    Ok(())
}

/// Applies an edit to the weapon `weapon_id` of the current game, which exists.
fn patch_weapon(state: &mut AppState, weapon_id: &String, patch: Patch)
    requires
        weapon_named(old(state), weapon_id@) is Ok,
    ensures
        weapon_replaced(
            old(state),
            final(state),
            weapon_id@,
            patched(weapon_named(old(state), weapon_id@)->Ok_0, patch),
        ),
{
    let g: usize = state.current_game_index;
    let ghost before = *state;
    let ghost stored = state.games@[g as int].weapons->Some_0@;
    match &mut state.games[g].weapons {
        None => {},
        Some(weapons) => {
            match weapons.remove(weapon_id) {
                None => {},
                Some(weapon) => {
                    let mut weapon = weapon;
                    apply_patch(&mut weapon, patch);
                    weapons.insert(weapon_id.clone(), weapon);
                },
            }
        },
    }
    proof {
        let edited = patched(stored[weapon_id@], patch);
        assert(state.games@[g as int].weapons->Some_0@ =~= stored.insert(weapon_id@, edited));
        assert(state.games@[g as int] == (Game {
            weapons: state.games@[g as int].weapons,
            ..before.games@[g as int]
        }));
    }
}

/// A key that tunes the displacement of the current weapon by a tenth of a unit.
#[derive(Clone, Copy, Debug, PartialEq, Eq, Structural)]
pub enum TuneKey {
    /// More to the right.
    Right,
    /// More to the left.
    Left,
    /// Further down.
    Down,
    /// Further up.
    Up,
}

/// A tenth of a unit, in thousandths.
pub const TUNE_STEP: i32 = 100;

/// A hundredth of a unit, in thousandths.
pub const TUNE_GRAIN: i32 = 10;

/// `value` moved by `step` and rounded to hundredths of a unit, held to the range of `i32`.
pub open spec fn tuned(value: Milli, step: int) -> Milli {
    clamp_i32(round_half_away(value + step, TUNE_GRAIN as int) * TUNE_GRAIN) as i32
}

/// The horizontal and vertical step of a tune key, in thousandths.
pub open spec fn tune_steps(key: TuneKey) -> (int, int) {
    match key {
        TuneKey::Right => (TUNE_STEP as int, 0),
        TuneKey::Left => (-TUNE_STEP, 0),
        TuneKey::Down => (0, TUNE_STEP as int),
        TuneKey::Up => (0, -TUNE_STEP),
    }
}

/// The horizontal and vertical displacement of a weapon.
pub open spec fn displacement_of(weapon: Weapon) -> (Milli, Milli) {
    match weapon {
        Weapon::SingleFire(c) => (c.dx, c.dy),
        Weapon::FullAutoStandard(c) => (c.dx, c.dy),
        Weapon::SingleShot(c) => (c.dx, c.dy),
    }
}

/// Moves `value` by `step` and rounds it to hundredths of a unit.
fn tune(value: Milli, step: i32) -> (result: Milli)
    requires
        -TUNE_STEP <= step <= TUNE_STEP,
    ensures
        result == tuned(value, step as int),
{
    let moved: i64 = value as i64 + step as i64;
    let size: i64 = if moved >= 0 {
        moved
    } else {
        -moved
    };
    let whole: i64 = size / 10;
    let part: i64 = size % 10;
    let nearest: i64 = if 2 * part >= 10 {
        whole + 1
    } else {
        whole
    };
    let rounded: i64 = if moved >= 0 {
        nearest * 10
    } else {
        -(nearest * 10)
    };
    if rounded > i32::MAX as i64 {
        i32::MAX
    } else if rounded < i32::MIN as i64 {
        i32::MIN
    } else {
        rounded as i32
    }
}

/// Tunes the displacement of the weapon that the cursors select.
///
/// Fails where the cursors lead to no weapon. Otherwise the component that
/// the key stands for moves by a tenth of a unit, both components are
/// rounded to hundredths, and nothing else differs.
pub fn tune_current_weapon(state: &mut AppState, key: TuneKey) -> (result: Result<
    (),
    SelectionError,
>)
    ensures
        match current_weapon(old(state)) {
            Err(error) => result == Err::<(), SelectionError>(error) && *final(state) == *old(
                state,
            ),
            Ok(weapon) => result is Ok && weapon_replaced(
                old(state),
                final(state),
                current_weapon_id(old(state))->Ok_0,
                patched(
                    weapon,
                    Patch::Displacement {
                        dx: tuned(displacement_of(weapon).0, tune_steps(key).0),
                        dy: tuned(displacement_of(weapon).1, tune_steps(key).1),
                    },
                ),
            ),
        },
{
    let (id, dx, dy): (String, Milli, Milli) = match get_weapon(state) {
        Err(error) => {
            return Err(error);
        },
        Ok((id, weapon)) => match weapon {
            Weapon::SingleFire(c) => (id, c.dx, c.dy),
            Weapon::FullAutoStandard(c) => (id, c.dx, c.dy),
            Weapon::SingleShot(c) => (id, c.dx, c.dy),
        },
    };
    let (across, down): (i32, i32) = match key {
        TuneKey::Right => (TUNE_STEP, 0),
        TuneKey::Left => (-TUNE_STEP, 0),
        TuneKey::Down => (0, TUNE_STEP),
        TuneKey::Up => (0, -TUNE_STEP),
    };
    let patch = Patch::Displacement { dx: tune(dx, across), dy: tune(dy, down) };
    patch_weapon(state, &id, patch);
    Ok(())
}

} // verus!
