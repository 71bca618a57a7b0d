//! The selection cursors: which game, category, loadout and weapon slot are current.
//!
//! A cursor is only meaningful against the collection it points into. Every
//! reader checks it and reports a cursor that points nowhere as an error.

use crate::types::{AppState, Category, Loadout, Weapon, PRIMARY_SLOT, SECONDARY_SLOT};
use vstd::prelude::*;

verus! {

/// Why the cursors do not lead to a weapon, or why a cursor was not moved.
#[derive(Clone, Copy, Debug, PartialEq, Eq, Structural)]
pub enum SelectionError {
    /// The game cursor is past the last game.
    GameIndex { index: usize },
    /// The current game has no categories loaded.
    CategoriesNotLoaded,
    /// The category cursor is past the last category of the game.
    CategoryIndex { index: usize },
    /// The loadout cursor is past the last loadout of the category.
    LoadoutIndex { index: usize },
    /// The weapon slot is neither primary nor secondary.
    WeaponSlot { index: usize },
    /// The primary slot is selected and the loadout has no primary weapon.
    NoPrimary,
    /// The secondary slot is selected and the loadout has no secondary weapon.
    NoSecondary,
    /// The loadout's chosen primary is past its last primary.
    SelectedPrimary { index: usize },
    /// The loadout's chosen secondary is past its last secondary.
    SelectedSecondary { index: usize },
    /// The current game has no weapons loaded.
    WeaponsNotLoaded,
    /// The loadout names a weapon that the game does not have.
    UnknownWeapon,
    /// The loadout has neither a primary nor a secondary weapon.
    NoWeapons,
    /// The current game has no category to move to.
    NoCategories,
}

/// The categories of the game under the game cursor.
pub open spec fn current_categories(state: &AppState) -> Result<Seq<Category>, SelectionError> {
    if state.current_game_index >= state.games@.len() {
        Err(SelectionError::GameIndex { index: state.current_game_index })
    } else {
        match state.games@[state.current_game_index as int].categories {
            None => Err(SelectionError::CategoriesNotLoaded),
            Some(categories) => Ok(categories@),
        }
    }
}

/// The loadouts of the category under the category cursor.
pub open spec fn current_loadouts(state: &AppState) -> Result<Seq<Loadout>, SelectionError> {
    match current_categories(state) {
        Err(error) => Err(error),
        Ok(categories) => if state.current_category_index >= categories.len() {
            Err(SelectionError::CategoryIndex { index: state.current_category_index })
        } else {
            Ok(categories[state.current_category_index as int].loadouts@)
        },
    }
}

/// The loadout under the loadout cursor.
pub open spec fn current_loadout(state: &AppState) -> Result<Loadout, SelectionError> {
    match current_loadouts(state) {
        Err(error) => Err(error),
        Ok(loadouts) => if state.current_loadout_index >= loadouts.len() {
            Err(SelectionError::LoadoutIndex { index: state.current_loadout_index })
        } else {
            Ok(loadouts[state.current_loadout_index as int])
        },
    }
}

/// The identifier that `slot` selects in `loadout`.
///
/// A loadout without secondaries is pinned to its primary slot, whatever the
/// slot cursor says.
pub open spec fn loadout_weapon_id(loadout: Loadout, slot: usize) -> Result<
    Seq<char>,
    SelectionError,
> {
    if loadout.secondaries@.len() == 0 || slot == PRIMARY_SLOT {
        if loadout.primaries@.len() == 0 {
            Err(SelectionError::NoPrimary)
        } else if loadout.selected_primary >= loadout.primaries@.len() {
            Err(SelectionError::SelectedPrimary { index: loadout.selected_primary })
        } else {
            Ok(loadout.primaries@[loadout.selected_primary as int]@)
        }
    } else if slot == SECONDARY_SLOT {
        if loadout.selected_secondary >= loadout.secondaries@.len() {
            Err(SelectionError::SelectedSecondary { index: loadout.selected_secondary })
        } else {
            Ok(loadout.secondaries@[loadout.selected_secondary as int]@)
        }
    } else {
        Err(SelectionError::WeaponSlot { index: slot })
    }
}

/// The identifier of the weapon that the four cursors select.
pub open spec fn current_weapon_id(state: &AppState) -> Result<Seq<char>, SelectionError> {
    match current_loadout(state) {
        Err(error) => Err(error),
        Ok(loadout) => loadout_weapon_id(loadout, state.current_weapon_index),
    }
}

/// The weapon that the four cursors select.
pub open spec fn current_weapon(state: &AppState) -> Result<Weapon, SelectionError> {
    match current_weapon_id(state) {
        Err(error) => Err(error),
        Ok(id) => match state.games@[state.current_game_index as int].weapons {
            None => Err(SelectionError::WeaponsNotLoaded),
            Some(weapons) => if weapons@.contains_key(id) {
                Ok(weapons@[id])
            } else {
                Err(SelectionError::UnknownWeapon)
            },
        },
    }
}

/// Follows the game, category and loadout cursors to the current loadout.
pub fn get_loadout(state: &AppState) -> (result: Result<&Loadout, SelectionError>)
    ensures
        match result {
            Ok(loadout) => current_loadout(state) == Ok::<Loadout, SelectionError>(*loadout),
            Err(error) => current_loadout(state) == Err::<Loadout, SelectionError>(error),
        },
{
    if state.current_game_index >= state.games.len() {
        return Err(SelectionError::GameIndex { index: state.current_game_index });
    }
    let game = &state.games[state.current_game_index];
    let categories = match &game.categories {
        Some(categories) => categories,
        None => {
            return Err(SelectionError::CategoriesNotLoaded);
        },
    };
    if state.current_category_index >= categories.len() {
        return Err(SelectionError::CategoryIndex { index: state.current_category_index });
    }
    let category = &categories[state.current_category_index];
    if state.current_loadout_index >= category.loadouts.len() {
        return Err(SelectionError::LoadoutIndex { index: state.current_loadout_index });
    }
    Ok(&category.loadouts[state.current_loadout_index])
}

/// Follows the four cursors to the identifier of the current weapon.
///
/// Succeeds exactly when every cursor points into its collection and the
/// selected slot holds a weapon; otherwise names the first cursor that fails.
pub fn get_weapon_id(state: &AppState) -> (result: Result<String, SelectionError>)
    ensures
        match result {
            Ok(id) => current_weapon_id(state) == Ok::<Seq<char>, SelectionError>(id@),
            Err(error) => current_weapon_id(state) == Err::<Seq<char>, SelectionError>(error),
        },
{
    let loadout = match get_loadout(state) {
        Ok(loadout) => loadout,
        Err(error) => {
            return Err(error);
        },
    };
    let slot: usize = state.current_weapon_index;
    if loadout.secondaries.len() == 0 || slot == PRIMARY_SLOT {
        if loadout.primaries.len() == 0 {
            Err(SelectionError::NoPrimary)
        } else if loadout.selected_primary >= loadout.primaries.len() {
            Err(SelectionError::SelectedPrimary { index: loadout.selected_primary })
        } else {
            Ok(loadout.primaries[loadout.selected_primary].clone())
        }
    } else if slot == SECONDARY_SLOT {
        if loadout.selected_secondary >= loadout.secondaries.len() {
            Err(SelectionError::SelectedSecondary { index: loadout.selected_secondary })
        } else {
            Ok(loadout.secondaries[loadout.selected_secondary].clone())
        }
    } else {
        Err(SelectionError::WeaponSlot { index: slot })
    }
}

/// The weapon with identifier `id` in the game under the game cursor.
pub open spec fn weapon_named(state: &AppState, id: Seq<char>) -> Result<Weapon, SelectionError> {
    if state.current_game_index >= state.games@.len() {
        Err(SelectionError::GameIndex { index: state.current_game_index })
    } else {
        match state.games@[state.current_game_index as int].weapons {
            None => Err(SelectionError::WeaponsNotLoaded),
            Some(weapons) => if weapons@.contains_key(id) {
                Ok(weapons@[id])
            } else {
                Err(SelectionError::UnknownWeapon)
            },
        }
    }
}

/// Looks the weapon with identifier `id` up in the current game.
pub fn find_weapon<'a>(state: &'a AppState, id: &String) -> (result: Result<
    &'a Weapon,
    SelectionError,
>)
    ensures
        match result {
            Ok(weapon) => weapon_named(state, id@) == Ok::<Weapon, SelectionError>(*weapon),
            Err(error) => weapon_named(state, id@) == Err::<Weapon, SelectionError>(error),
        },
{
    if state.current_game_index >= state.games.len() {
        return Err(SelectionError::GameIndex { index: state.current_game_index });
    }
    match &state.games[state.current_game_index].weapons {
        None => Err(SelectionError::WeaponsNotLoaded),
        Some(weapons) => match weapons.get(id) {
            Some(weapon) => Ok(weapon),
            None => Err(SelectionError::UnknownWeapon),
        },
    }
}

/// Follows the four cursors to the current weapon and its identifier.
pub fn get_weapon(state: &AppState) -> (result: Result<(String, &Weapon), SelectionError>)
    ensures
        match result {
            Ok((id, weapon)) => current_weapon_id(state) == Ok::<Seq<char>, SelectionError>(id@)
                && current_weapon(state) == Ok::<Weapon, SelectionError>(*weapon),
            Err(error) => current_weapon(state) == Err::<Weapon, SelectionError>(error),
        },
{
    let id = match get_weapon_id(state) {
        Ok(id) => id,
        Err(error) => {
            return Err(error);
        },
    };
    match find_weapon(state, &id) {
        Ok(weapon) => Ok((id, weapon)),
        Err(error) => Err(error),
    }
}

} // verus!
