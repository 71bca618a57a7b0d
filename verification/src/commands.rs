//! Commands of the user interface that move a cursor or change a setting.
//!
//! Each command checks its argument against the shared state, changes the
//! state where the argument is in order and says exactly what it changed.
//! Persisting the change is left to the caller.

use crate::selection::{current_categories, current_loadout, current_loadouts, SelectionError};
use crate::types::{AppEvent, AppState, Category, Game, GridLayoutInfo, Loadout, Milli};
use vstd::prelude::*;

verus! {

/// Why a setting was not changed.
#[derive(Clone, Copy, Debug, PartialEq, Eq, Structural)]
pub enum SettingError {
    /// A multiplier must be greater than zero.
    InvalidMultiplier { value: Milli },
    /// A key binding must be given as text.
    NotText,
    /// A key binding must be a single one-byte character.
    NotOneCharacter,
    /// The setting is none of the key bindings.
    UnknownSetting,
}

/// Which of the four multipliers a command changes.
#[derive(Clone, Copy, Debug, PartialEq, Eq, Structural)]
pub enum Multiplier {
    Horizontal,
    Vertical,
    AcogHorizontal,
    AcogVertical,
}

/// Makes `new_game_index` the current game.
///
/// Succeeds exactly when that game exists. The category, loadout and weapon
/// slot cursors go back to zero; nothing else changes.
pub fn change_game(state: &mut AppState, new_game_index: usize) -> (result: Result<
    usize,
    SelectionError,
>)
    ensures
        result == (if new_game_index < old(state).games@.len() {
            Ok::<usize, SelectionError>(new_game_index)
        } else {
            Err::<usize, SelectionError>(SelectionError::GameIndex { index: new_game_index })
        }),
        match result {
            Ok(_) => *final(state) == (AppState {
                current_game_index: new_game_index,
                current_category_index: 0,
                current_loadout_index: 0,
                current_weapon_index: 0,
                ..*old(state)
            }),
            Err(_) => *final(state) == *old(state),
        },
{
    if new_game_index < state.games.len() {
        state.current_game_index = new_game_index;
        state.current_category_index = 0;
        state.current_loadout_index = 0;
        state.current_weapon_index = 0;
        Ok(new_game_index)
    } else {
        Err(SelectionError::GameIndex { index: new_game_index })
    }
}

/// What [`change_category`] answers.
pub open spec fn category_choice(state: &AppState, new_category_index: usize) -> Result<
    usize,
    SelectionError,
> {
    match current_categories(state) {
        Err(SelectionError::GameIndex { index }) => Err(SelectionError::GameIndex { index }),
        Err(_) => Err(SelectionError::CategoryIndex { index: new_category_index }),
        Ok(categories) => if new_category_index < categories.len() {
            Ok(new_category_index)
        } else {
            Err(SelectionError::CategoryIndex { index: new_category_index })
        },
    }
}

/// Makes `new_category_index` the current category of the current game.
///
/// Succeeds exactly when the game has that category. The loadout cursor goes
/// back to zero; nothing else changes.
pub fn change_category(state: &mut AppState, new_category_index: usize) -> (result: Result<
    usize,
    SelectionError,
>)
    ensures
        result == category_choice(old(state), new_category_index),
        match result {
            Ok(_) => *final(state) == (AppState {
                current_category_index: new_category_index,
                current_loadout_index: 0,
                ..*old(state)
            }),
            Err(_) => *final(state) == *old(state),
        },
{
    if state.current_game_index >= state.games.len() {
        return Err(SelectionError::GameIndex { index: state.current_game_index });
    }
    let count: usize = match &state.games[state.current_game_index].categories {
        Some(categories) => categories.len(),
        None => 0,
    };
    if new_category_index < count {
        state.current_category_index = new_category_index;
        state.current_loadout_index = 0;
        Ok(new_category_index)
    } else {
        Err(SelectionError::CategoryIndex { index: new_category_index })
    }
}

/// What [`change_loadout`] answers.
pub open spec fn loadout_choice(state: &AppState, new_loadout_index: usize) -> Result<
    usize,
    SelectionError,
> {
    match current_loadouts(state) {
        Err(error) => Err(error),
        Ok(loadouts) => if new_loadout_index < loadouts.len() {
            Ok(new_loadout_index)
        } else {
            Err(SelectionError::LoadoutIndex { index: new_loadout_index })
        },
    }
}

/// Makes `new_loadout_index` the current loadout of the current category.
///
/// Succeeds exactly when the cursors lead to a category that has that
/// loadout. The change is announced; nothing else changes.
pub fn change_loadout(state: &mut AppState, new_loadout_index: usize) -> (result: Result<
    usize,
    SelectionError,
>)
    ensures
        result == loadout_choice(old(state), new_loadout_index),
        match result {
            Ok(_) => {
                &&& final(state).events@ == old(state).events@.push(
                    AppEvent::SwitchedLoadout { loadout_ind: new_loadout_index },
                )
                &&& *final(state) == (AppState {
                    current_loadout_index: new_loadout_index,
                    events: final(state).events,
                    ..*old(state)
                })
            },
            Err(_) => *final(state) == *old(state),
        },
{
    if state.current_game_index >= state.games.len() {
        return Err(SelectionError::GameIndex { index: state.current_game_index });
    }
    let count: usize = match &state.games[state.current_game_index].categories {
        None => {
            return Err(SelectionError::CategoriesNotLoaded);
        },
        Some(categories) => {
            if state.current_category_index >= categories.len() {
                return Err(
                    SelectionError::CategoryIndex { index: state.current_category_index },
                );
            }
            categories[state.current_category_index].loadouts.len()
        },
    };
    if new_loadout_index < count {
        state.current_loadout_index = new_loadout_index;
        state.events.push(AppEvent::SwitchedLoadout { loadout_ind: new_loadout_index });
        Ok(new_loadout_index)
    } else {
        Err(SelectionError::LoadoutIndex { index: new_loadout_index })
    }
}

/// Puts every cursor back to zero, as after a reload of the catalog.
pub fn reset_selection(state: &mut AppState)
    ensures
        *final(state) == (AppState {
            current_game_index: 0,
            current_category_index: 0,
            current_loadout_index: 0,
            current_weapon_index: 0,
            ..*old(state)
        }),
{
    state.current_game_index = 0;
    state.current_category_index = 0;
    state.current_loadout_index = 0;
    state.current_weapon_index = 0;
}

/// Tells the engine how many loadouts the user interface shows per row.
pub fn change_grid_layout(state: &mut AppState, loadouts_per_row: usize)
    ensures
        *final(state) == (AppState {
            grid_layout_info: (GridLayoutInfo { loadouts_per_row }),
            ..*old(state)
        }),
{
    state.grid_layout_info = GridLayoutInfo { loadouts_per_row };
}

/// Sets one of the four multipliers.
///
/// Succeeds exactly when `new_multiplier` is greater than zero; then that
/// multiplier, and nothing else, has the new value.
pub fn change_multiplier(state: &mut AppState, which: Multiplier, new_multiplier: Milli) -> (result:
    Result<(), SettingError>)
    ensures
        result == (if new_multiplier > 0 {
            Ok::<(), SettingError>(())
        } else {
            Err::<(), SettingError>(SettingError::InvalidMultiplier { value: new_multiplier })
        }),
        match result {
            Ok(_) => {
                let mouse = old(state).global_config.mouse_config;
                final(state).global_config.mouse_config == match which {
                    Multiplier::Horizontal => (crate::types::MouseConfig {
                        horizontal_multiplier: new_multiplier,
                        ..mouse
                    }),
                    Multiplier::Vertical => (crate::types::MouseConfig {
                        vertical_multiplier: new_multiplier,
                        ..mouse
                    }),
                    Multiplier::AcogHorizontal => (crate::types::MouseConfig {
                        acog_horizontal_multiplier: new_multiplier,
                        ..mouse
                    }),
                    Multiplier::AcogVertical => (crate::types::MouseConfig {
                        acog_vertical_multiplier: new_multiplier,
                        ..mouse
                    }),
                } && final(state).global_config.keybinds == old(state).global_config.keybinds
                    && *final(state) == (AppState {
                    global_config: final(state).global_config,
                    ..*old(state)
                })
            },
            Err(_) => *final(state) == *old(state),
        },
{
    if new_multiplier <= 0 {
        return Err(SettingError::InvalidMultiplier { value: new_multiplier });
    }
    match which {
        Multiplier::Horizontal => {
            state.global_config.mouse_config.horizontal_multiplier = new_multiplier;
        },
        Multiplier::Vertical => {
            state.global_config.mouse_config.vertical_multiplier = new_multiplier;
        },
        Multiplier::AcogHorizontal => {
            state.global_config.mouse_config.acog_horizontal_multiplier = new_multiplier;
        },
        Multiplier::AcogVertical => {
            state.global_config.mouse_config.acog_vertical_multiplier = new_multiplier;
        },
    }
    Ok(())
}

/// Sets the horizontal multiplier; see [`change_multiplier`].
pub fn change_horizontal_multiplier(state: &mut AppState, new_multiplier: Milli) -> (result: Result<
    (),
    SettingError,
>)
    ensures
        result is Ok <==> new_multiplier > 0,
        result is Err ==> result == Err::<(), SettingError>(
            SettingError::InvalidMultiplier { value: new_multiplier },
        ) && *final(state) == *old(state),
        result is Ok ==> final(state).global_config.mouse_config == (crate::types::MouseConfig {
            horizontal_multiplier: new_multiplier,
            ..old(state).global_config.mouse_config
        }) && final(state).global_config.keybinds == old(state).global_config.keybinds
            && *final(state) == (AppState {
            global_config: final(state).global_config,
            ..*old(state)
        }),
{
    change_multiplier(state, Multiplier::Horizontal, new_multiplier)
}

/// Sets the vertical multiplier; see [`change_multiplier`].
pub fn change_vertical_multiplier(state: &mut AppState, new_multiplier: Milli) -> (result: Result<
    (),
    SettingError,
>)
    ensures
        result is Ok <==> new_multiplier > 0,
        result is Err ==> result == Err::<(), SettingError>(
            SettingError::InvalidMultiplier { value: new_multiplier },
        ) && *final(state) == *old(state),
        result is Ok ==> final(state).global_config.mouse_config == (crate::types::MouseConfig {
            vertical_multiplier: new_multiplier,
            ..old(state).global_config.mouse_config
        }) && final(state).global_config.keybinds == old(state).global_config.keybinds
            && *final(state) == (AppState {
            global_config: final(state).global_config,
            ..*old(state)
        }),
{
    change_multiplier(state, Multiplier::Vertical, new_multiplier)
}

/// Sets the horizontal multiplier for magnified optics; see [`change_multiplier`].
pub fn change_acog_horizontal_multiplier(state: &mut AppState, new_multiplier: Milli) -> (result:
    Result<(), SettingError>)
    ensures
        result is Ok <==> new_multiplier > 0,
        result is Err ==> result == Err::<(), SettingError>(
            SettingError::InvalidMultiplier { value: new_multiplier },
        ) && *final(state) == *old(state),
        result is Ok ==> final(state).global_config.mouse_config == (crate::types::MouseConfig {
            acog_horizontal_multiplier: new_multiplier,
            ..old(state).global_config.mouse_config
        }) && final(state).global_config.keybinds == old(state).global_config.keybinds
            && *final(state) == (AppState {
            global_config: final(state).global_config,
            ..*old(state)
        }),
{
    change_multiplier(state, Multiplier::AcogHorizontal, new_multiplier)
}

/// Sets the vertical multiplier for magnified optics; see [`change_multiplier`].
pub fn change_acog_vertical_multiplier(state: &mut AppState, new_multiplier: Milli) -> (result:
    Result<(), SettingError>)
    ensures
        result is Ok <==> new_multiplier > 0,
        result is Err ==> result == Err::<(), SettingError>(
            SettingError::InvalidMultiplier { value: new_multiplier },
        ) && *final(state) == *old(state),
        result is Ok ==> final(state).global_config.mouse_config == (crate::types::MouseConfig {
            acog_vertical_multiplier: new_multiplier,
            ..old(state).global_config.mouse_config
        }) && final(state).global_config.keybinds == old(state).global_config.keybinds
            && *final(state) == (AppState {
            global_config: final(state).global_config,
            ..*old(state)
        }),
{
    change_multiplier(state, Multiplier::AcogVertical, new_multiplier)
}

/// Switches weapon swapping by scroll wheel on or off.
pub fn change_scroll_wheel_weapon_swap(state: &mut AppState, enabled: bool)
    ensures
        final(state).global_config.mouse_config == (crate::types::MouseConfig {
            scroll_wheel_weapon_swap: enabled,
            ..old(state).global_config.mouse_config
        }),
        final(state).global_config.keybinds == old(state).global_config.keybinds,
        *final(state) == (AppState { global_config: final(state).global_config, ..*old(state) }),
{
    state.global_config.mouse_config.scroll_wheel_weapon_swap = enabled;
}

/// `after` is `before` with the loadout under the cursors replaced by `loadout`.
///
/// The cursors of `before` lead to a loadout, and nothing but that loadout differs.
pub open spec fn current_loadout_replaced(
    before: &AppState,
    after: &AppState,
    loadout: Loadout,
) -> bool {
    let g = before.current_game_index as int;
    let c = before.current_category_index as int;
    let l = before.current_loadout_index as int;
    let game_before: Game = before.games@[g];
    let game_after: Game = after.games@[g];
    let categories_before: Seq<Category> = game_before.categories->Some_0@;
    let categories_after: Seq<Category> = game_after.categories->Some_0@;
    &&& current_loadout(before) is Ok
    &&& *after == (AppState { games: after.games, ..*before })
    &&& after.games@.len() == before.games@.len()
    &&& forall|i: int| 0 <= i < before.games@.len() && i != g ==> after.games@[i] == before.games@[i]
    &&& game_after.categories is Some
    &&& game_after == (Game { categories: game_after.categories, ..game_before })
    &&& categories_after.len() == categories_before.len()
    &&& forall|i: int|
        0 <= i < categories_before.len() && i != c ==> categories_after[i] == categories_before[i]
    &&& categories_after[c].name == categories_before[c].name
    &&& categories_after[c].loadouts@ == categories_before[c].loadouts@.update(l, loadout)
}

/// Which of a loadout's two choices a command changes.
#[derive(Clone, Copy, Debug, PartialEq, Eq, Structural)]
pub enum WeaponKind {
    Primary,
    Secondary,
}

/// What choosing weapon `index` of `kind` answers on `state`.
pub open spec fn weapon_choice(state: &AppState, kind: WeaponKind, index: usize) -> Result<
    (),
    SelectionError,
> {
    match current_loadout(state) {
        Err(error) => Err(error),
        Ok(loadout) => match kind {
            WeaponKind::Primary => if index < loadout.primaries@.len() {
                Ok(())
            } else {
                Err(SelectionError::SelectedPrimary { index })
            },
            WeaponKind::Secondary => if index < loadout.secondaries@.len() {
                Ok(())
            } else {
                Err(SelectionError::SelectedSecondary { index })
            },
        },
    }
}

/// The loadout with weapon `index` of `kind` chosen.
pub open spec fn with_choice(loadout: Loadout, kind: WeaponKind, index: usize) -> Loadout {
    match kind {
        WeaponKind::Primary => Loadout { selected_primary: index, ..loadout },
        WeaponKind::Secondary => Loadout { selected_secondary: index, ..loadout },
    }
}

/// Chooses weapon `index` among the primaries or secondaries of the current loadout.
///
/// Succeeds exactly when the cursors lead to a loadout that offers that
/// weapon. Then the loadout's choice is `index` and nothing else differs;
/// otherwise nothing changes.
pub fn choose_weapon(state: &mut AppState, kind: WeaponKind, index: usize) -> (result: Result<
    (),
    SelectionError,
>)
    ensures
        result == weapon_choice(old(state), kind, index),
        match result {
            Ok(_) => current_loadout_replaced(
                old(state),
                final(state),
                with_choice(current_loadout(old(state))->Ok_0, kind, index),
            ),
            Err(_) => *final(state) == *old(state),
        },
{
    let g: usize = state.current_game_index;
    let c: usize = state.current_category_index;
    let l: usize = state.current_loadout_index;
    if g >= state.games.len() {
        return Err(SelectionError::GameIndex { index: g });
    }
    let offered: usize = match &state.games[g].categories {
        None => {
            return Err(SelectionError::CategoriesNotLoaded);
        },
        Some(categories) => {
            if c >= categories.len() {
                return Err(SelectionError::CategoryIndex { index: c });
            }
            if l >= categories[c].loadouts.len() {
                return Err(SelectionError::LoadoutIndex { index: l });
            }
            match kind {
                WeaponKind::Primary => categories[c].loadouts[l].primaries.len(),
                WeaponKind::Secondary => categories[c].loadouts[l].secondaries.len(),
            }
        },
    };
    if index >= offered {
        return Err(
            match kind {
                WeaponKind::Primary => SelectionError::SelectedPrimary { index },
                WeaponKind::Secondary => SelectionError::SelectedSecondary { index },
            },
        );
    }
    match &mut state.games[g].categories {
        None => {},
        Some(categories) => {
            match kind {
                WeaponKind::Primary => {
                    categories[c].loadouts[l].selected_primary = index;
                },
                WeaponKind::Secondary => {
                    categories[c].loadouts[l].selected_secondary = index;
                },
            }
        },
    }
    Ok(())
}

/// Chooses primary weapon `new_primary_index` of the current loadout; see [`choose_weapon`].
pub fn change_primary_weapon(state: &mut AppState, new_primary_index: usize) -> (result: Result<
    (),
    SelectionError,
>)
    ensures
        result == weapon_choice(old(state), WeaponKind::Primary, new_primary_index),
        match result {
            Ok(_) => current_loadout_replaced(
                old(state),
                final(state),
                (Loadout {
                    selected_primary: new_primary_index,
                    ..current_loadout(old(state))->Ok_0
                }),
            ),
            Err(_) => *final(state) == *old(state),
        },
{
    choose_weapon(state, WeaponKind::Primary, new_primary_index)
}

/// Chooses secondary weapon `new_secondary_index` of the current loadout; see [`choose_weapon`].
pub fn change_secondary_weapon(state: &mut AppState, new_secondary_index: usize) -> (result: Result<
    (),
    SelectionError,
>)
    ensures
        result == weapon_choice(old(state), WeaponKind::Secondary, new_secondary_index),
        match result {
            Ok(_) => current_loadout_replaced(
                old(state),
                final(state),
                (Loadout {
                    selected_secondary: new_secondary_index,
                    ..current_loadout(old(state))->Ok_0
                }),
            ),
            Err(_) => *final(state) == *old(state),
        },
{
    choose_weapon(state, WeaponKind::Secondary, new_secondary_index)
}

/// A key binding that a command can change.
#[derive(Clone, Copy, Debug, PartialEq, Eq, Structural)]
pub enum Binding {
    PrimaryWeapon,
    SecondaryWeapon,
    AlternativeFire,
}

/// The binding that a setting's name stands for.
pub open spec fn binding_named(name: Seq<char>) -> Option<Binding> {
    if name == "primary_weapon"@ {
        Some(Binding::PrimaryWeapon)
    } else if name == "secondary_weapon"@ {
        Some(Binding::SecondaryWeapon)
    } else if name == "alternative_fire"@ {
        Some(Binding::AlternativeFire)
    } else {
        None
    }
}

/// The one character of `text`, if `text` is a single character of one byte.
pub open spec fn one_byte_character(text: Seq<char>) -> Option<char> {
    if text.len() == 1 && (text[0] as u32) < 128 {
        Some(text[0])
    } else {
        None
    }
}

/// What [`change_setting`] does with `setting` and `value`: the binding to
/// set and the key to set it to, or why nothing is set.
pub open spec fn setting_change(setting: Seq<char>, value: Option<Seq<char>>) -> Result<
    (Binding, char),
    SettingError,
> {
    match binding_named(setting) {
        None => Err(SettingError::UnknownSetting),
        Some(binding) => match value {
            None => Err(SettingError::NotText),
            Some(text) => match one_byte_character(text) {
                None => Err(SettingError::NotOneCharacter),
                Some(key) => Ok((binding, key)),
            },
        },
    }
}

/// Finds the binding that a setting's name stands for.
pub fn find_binding(name: &String) -> (binding: Option<Binding>)
    ensures
        binding == binding_named(name@),
{
    if *name == String::from_str("primary_weapon") {
        Some(Binding::PrimaryWeapon)
    } else if *name == String::from_str("secondary_weapon") {
        Some(Binding::SecondaryWeapon)
    } else if *name == String::from_str("alternative_fire") {
        Some(Binding::AlternativeFire)
    } else {
        None
    }
}

/// Binds a key.
///
/// `setting` names the binding and `value` is the key as text, `None` where
/// the caller was handed something that is no text. Succeeds exactly when
/// the name is one of the three bindings and the text is a single character
/// of one byte; then that binding, and nothing else, is set to the character.
pub fn change_setting(state: &mut AppState, setting: &String, value: Option<&str>) -> (result:
    Result<(), SettingError>)
    ensures
        match setting_change(
            setting@,
            match value {
                Some(text) => Some(text@),
                None => None,
            },
        ) {
            Err(error) => result == Err::<(), SettingError>(error) && *final(state) == *old(state),
            Ok((binding, key)) => {
                let keys = old(state).global_config.keybinds;
                &&& result is Ok
                &&& final(state).global_config.keybinds == match binding {
                    Binding::PrimaryWeapon => (crate::types::KeybindConfig {
                        primary_weapon: key,
                        ..keys
                    }),
                    Binding::SecondaryWeapon => (crate::types::KeybindConfig {
                        secondary_weapon: key,
                        ..keys
                    }),
                    Binding::AlternativeFire => (crate::types::KeybindConfig {
                        alternative_fire: key,
                        ..keys
                    }),
                }
                &&& final(state).global_config.mouse_config == old(
                    state,
                ).global_config.mouse_config
                &&& *final(state) == (AppState {
                    global_config: final(state).global_config,
                    ..*old(state)
                })
            },
        },
{
    let binding = match find_binding(setting) {
        Some(binding) => binding,
        None => {
            return Err(SettingError::UnknownSetting);
        },
    };
    let text = match value {
        Some(text) => text,
        None => {
            return Err(SettingError::NotText);
        },
    };
    if text.unicode_len() != 1 {
        return Err(SettingError::NotOneCharacter);
    }
    let key: char = text.get_char(0);
    if key as u32 >= 128 {
        return Err(SettingError::NotOneCharacter);
    }
    match binding {
        Binding::PrimaryWeapon => {
            state.global_config.keybinds.primary_weapon = key;
        },
        Binding::SecondaryWeapon => {
            state.global_config.keybinds.secondary_weapon = key;
        },
        Binding::AlternativeFire => {
            state.global_config.keybinds.alternative_fire = key;
        },
    }
    Ok(())
}

} // verus!
