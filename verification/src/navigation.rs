//! Navigation: moving the loadout cursor over a grid, cycling the weapon
//! slot and cycling the category.
//!
//! The loadouts of a category are laid out in rows of fixed width; the arrow
//! keys move over that grid and wrap at its edges. Every move that changes a
//! cursor is announced in the state's event queue.

use crate::cooldown::clear_shot_timing;
use crate::selection::{
    current_loadout, current_loadouts, current_weapon_id, get_loadout, get_weapon_id,
    SelectionError,
};
use crate::types::{AppEvent, AppState, Loadout, PRIMARY_SLOT, SECONDARY_SLOT};
use vstd::prelude::*;

verus! {

/// Key code of the left arrow.
pub const VK_LEFT: i32 = 0x25;

/// Key code of the up arrow.
pub const VK_UP: i32 = 0x26;

/// Key code of the right arrow.
pub const VK_RIGHT: i32 = 0x27;

/// Key code of the down arrow.
pub const VK_DOWN: i32 = 0x28;

/// Number of rows that `total` items fill when each row holds `per_row` of them.
pub open spec fn grid_rows(total: int, per_row: int) -> int {
    (total - 1) / per_row + 1
}

/// The cell reached from `current` by one press of `key`.
///
/// Left and right walk the items in order and wrap at both ends. Up and down
/// keep the column; past the top the move lands in the last row, past the
/// bottom in the first. A column that the target row lacks falls back to the
/// last item.
pub open spec fn grid_target(current: int, total: int, per_row: int, key: i32) -> Option<int> {
    let row = current / per_row;
    let col = current % per_row;
    let rows = grid_rows(total, per_row);
    if total <= 0 || per_row <= 0 {
        None
    } else if key == VK_LEFT {
        Some(if current > 0 { current - 1 } else { total - 1 })
    } else if key == VK_RIGHT {
        Some(if current + 1 < total { current + 1 } else { 0 })
    } else if key == VK_UP {
        if row > 0 {
            let above = (row - 1) * per_row + col;
            Some(if above < total { above } else { row * per_row - 1 })
        } else {
            let bottom = (rows - 1) * per_row + col;
            Some(if bottom < total { bottom } else { total - 1 })
        }
    } else if key == VK_DOWN {
        if row + 1 < rows {
            let below = (row + 1) * per_row + col;
            Some(if below < total { below } else { total - 1 })
        } else {
            Some(col)
        }
    } else {
        None
    }
}

proof fn lemma_row_col(current: int, per_row: int)
    requires
        0 <= current,
        0 < per_row,
    ensures
        0 <= current / per_row,
        0 <= current % per_row < per_row,
        current == (current / per_row) * per_row + current % per_row,
        (current / per_row) * per_row <= current,
{
    vstd::arithmetic::div_mod::lemma_fundamental_div_mod(current, per_row);
    vstd::arithmetic::div_mod::lemma_div_pos_is_pos(current, per_row);
    vstd::arithmetic::div_mod::lemma_mod_bound(current, per_row);
    vstd::arithmetic::mul::lemma_mul_is_commutative(current / per_row, per_row);
}

proof fn lemma_row_step(row: int, per_row: int)
    ensures
        (row - 1) * per_row == row * per_row - per_row,
        (row + 1) * per_row == row * per_row + per_row,
{
    vstd::arithmetic::mul::lemma_mul_is_distributive_sub_other_way(per_row, row, 1);
    vstd::arithmetic::mul::lemma_mul_is_distributive_add_other_way(per_row, row, 1);
}

proof fn lemma_row_order(a: int, b: int, per_row: int)
    requires
        a <= b,
        0 < per_row,
    ensures
        a * per_row <= b * per_row,
{
    vstd::arithmetic::mul::lemma_mul_inequality(a, b, per_row);
}

/// Computes the loadout index that an arrow key selects.
///
/// Returns `None` when there is nothing to move over (no items, no columns) or
/// when `key` is not an arrow key; otherwise the index given by
/// [`grid_target`]. From an index inside the grid the result is inside it too.
pub fn calculate_new_index(
    current_index: usize,
    total_items: usize,
    items_per_row: usize,
    key: i32,
) -> (result: Option<usize>)
    ensures
        match grid_target(current_index as int, total_items as int, items_per_row as int, key) {
            Some(target) => result == Some(target as usize) && 0 <= target <= usize::MAX,
            None => result is None,
        },
        result is Some <==> total_items > 0 && items_per_row > 0 && (key == VK_LEFT || key
            == VK_RIGHT || key == VK_UP || key == VK_DOWN),
        current_index < total_items && result is Some ==> result->Some_0 < total_items,
{
    if total_items == 0 || items_per_row == 0 {
        return None;
    }
    let current_row: usize = current_index / items_per_row;
    let current_col: usize = current_index % items_per_row;
    let last_row: usize = (total_items - 1) / items_per_row;
    proof {
        lemma_row_col(current_index as int, items_per_row as int);
        lemma_row_col(total_items - 1, items_per_row as int);
        lemma_row_step(current_row as int, items_per_row as int);
    }
    if key == VK_LEFT {
        if current_index > 0 {
            Some(current_index - 1)
        } else {
            Some(total_items - 1)
        }
    } else if key == VK_RIGHT {
        if current_index < total_items - 1 {
            Some(current_index + 1)
        } else {
            Some(0)
        }
    } else if key == VK_UP {
        if current_row > 0 {
            let above: usize = current_index - items_per_row;
            if above < total_items {
                Some(above)
            } else {
                Some(current_row * items_per_row - 1)
            }
        } else {
            let base: usize = last_row * items_per_row;
            if current_col < total_items - base {
                Some(base + current_col)
            } else {
                Some(total_items - 1)
            }
        }
    } else if key == VK_DOWN {
        if current_row < last_row {
            proof {
                lemma_row_order(current_row + 1, last_row as int, items_per_row as int);
            }
            let base: usize = (current_row + 1) * items_per_row;
            if current_col < total_items - base {
                Some(base + current_col)
            } else {
                Some(total_items - 1)
            }
        } else {
            proof {
                if current_index < total_items {
                    lemma_row_order(last_row as int, current_row as int, items_per_row as int);
                }
            }
            Some(current_col)
        }
    } else {
        None
    }
}

/// The slot that cycling moves to from `current`.
///
/// With primaries and secondaries on offer the slot toggles; with one kind
/// only it is pinned to that kind; with neither there is nowhere to go.
pub open spec fn next_weapon_slot(loadout: Loadout, current: usize) -> Result<
    usize,
    SelectionError,
> {
    let has_primary = loadout.primaries@.len() > 0;
    let has_secondary = loadout.secondaries@.len() > 0;
    if !has_primary && !has_secondary {
        Err(SelectionError::NoWeapons)
    } else if has_primary && has_secondary {
        Ok(if current == PRIMARY_SLOT {
            SECONDARY_SLOT
        } else {
            PRIMARY_SLOT
        })
    } else if has_primary {
        Ok(PRIMARY_SLOT)
    } else {
        Ok(SECONDARY_SLOT)
    }
}

/// The slot that cycling moves the state to.
pub open spec fn cycled_slot(state: &AppState) -> Result<usize, SelectionError> {
    match current_loadout(state) {
        Err(error) => Err(error),
        Ok(loadout) => next_weapon_slot(loadout, state.current_weapon_index),
    }
}

/// The state after the weapon slot was set to `slot`: the change is announced,
/// and where `slot` is another slot than before, the weapon that was current
/// is forgotten by the cooldown tracker.
pub open spec fn slot_changed(
    before: &AppState,
    after: &AppState,
    slot: usize,
) -> bool {
    &&& after.current_weapon_index == slot
    &&& after.events@ == before.events@.push(AppEvent::SwitchedWeapon { weapon_ind: slot })
    &&& after.last_shot_times@ == match current_weapon_id(before) {
        Ok(id) => if slot == before.current_weapon_index {
            before.last_shot_times@
        } else {
            before.last_shot_times@.remove(id)
        },
        Err(_) => before.last_shot_times@,
    }
    &&& *after == (AppState {
        current_weapon_index: after.current_weapon_index,
        events: after.events,
        last_shot_times: after.last_shot_times,
        ..*before
    })
}

/// Moves to the other weapon slot of the current loadout.
///
/// Fails where the cursors lead to no loadout or the loadout has no weapon.
/// Otherwise returns the slot of [`next_weapon_slot`]. If that is the current
/// slot, nothing changes and nothing is announced; if not, the state changes
/// as [`slot_changed`] says. With two slots both scroll directions lead to the
/// same slot.
pub fn cycle_weapon_type(state: &mut AppState, scroll_up: bool) -> (result: Result<
    usize,
    SelectionError,
>)
    ensures
        result == cycled_slot(old(state)),
        match result {
            Ok(slot) => if slot == old(state).current_weapon_index {
                *final(state) == *old(state)
            } else {
                slot_changed(old(state), final(state), slot)
            },
            Err(_) => *final(state) == *old(state),
        },
{
    let current: usize = state.current_weapon_index;
    let next: usize = match get_loadout(state) {
        Err(error) => {
            return Err(error);
        },
        Ok(loadout) => {
            let has_primary: bool = loadout.primaries.len() > 0;
            let has_secondary: bool = loadout.secondaries.len() > 0;
            if !has_primary && !has_secondary {
                return Err(SelectionError::NoWeapons);
            } else if has_primary && has_secondary {
                if current == PRIMARY_SLOT {
                    SECONDARY_SLOT
                } else {
                    PRIMARY_SLOT
                }
            } else if has_primary {
                PRIMARY_SLOT
            } else {
                SECONDARY_SLOT
            }
        },
    };
    if next != current {
        switch_weapon_slot(state, next);
    }
    Ok(next)
}

/// Makes `slot` the current weapon slot and announces it.
///
/// Where `slot` is another slot than the current one, the weapon that was
/// current is forgotten by the cooldown tracker; where it is the current
/// slot, the tracker keeps what it holds. The state changes as
/// [`slot_changed`] says.
pub fn switch_weapon_slot(state: &mut AppState, slot: usize)
    ensures
        slot_changed(old(state), final(state), slot),
{
    if slot != state.current_weapon_index {
        match get_weapon_id(state) {
            Ok(outgoing) => {
                clear_shot_timing(state, &outgoing);
            },
            Err(_) => {},
        }
    }
    state.current_weapon_index = slot;
    state.events.push(AppEvent::SwitchedWeapon { weapon_ind: slot });
}

/// The number of categories of the current game; none where none are loaded.
pub open spec fn category_count(state: &AppState) -> Result<nat, SelectionError> {
    if state.current_game_index >= state.games@.len() {
        Err(SelectionError::GameIndex { index: state.current_game_index })
    } else {
        match state.games@[state.current_game_index as int].categories {
            None => Ok(0),
            Some(categories) => Ok(categories@.len()),
        }
    }
}

/// The category that cycling moves the state to: the next one, the first after the last.
pub open spec fn cycled_category(state: &AppState) -> Result<usize, SelectionError> {
    match category_count(state) {
        Err(error) => Err(error),
        Ok(count) => if count == 0 {
            Err(SelectionError::NoCategories)
        } else {
            Ok(((state.current_category_index + 1) % (count as int)) as usize)
        },
    }
}

/// Moves to the next category of the current game, the first after the last.
///
/// Fails where the game cursor leads to no game or the game has no category.
/// Otherwise the category cursor moves on, the loadout cursor goes back to
/// the first loadout, and both changes are announced in that order.
pub fn cycle_category(state: &mut AppState) -> (result: Result<usize, SelectionError>)
    ensures
        result == cycled_category(old(state)),
        match result {
            Ok(next) => {
                &&& final(state).current_category_index == next
                &&& final(state).current_loadout_index == 0
                &&& final(state).events@ == old(state).events@.push(
                    AppEvent::SwitchedCategory { category_ind: next },
                ).push(AppEvent::SwitchedLoadout { loadout_ind: 0 })
                &&& *final(state) == (AppState {
                    current_category_index: final(state).current_category_index,
                    current_loadout_index: final(state).current_loadout_index,
                    events: final(state).events,
                    ..*old(state)
                })
            },
            Err(_) => *final(state) == *old(state),
        },
{
    if state.current_game_index >= state.games.len() {
        return Err(SelectionError::GameIndex { index: state.current_game_index });
    }
    let count: usize = match &state.games[state.current_game_index].categories {
        Some(categories) => categories.len(),
        None => 0,
    };
    if count == 0 {
        return Err(SelectionError::NoCategories);
    }
    let current: usize = state.current_category_index;
    let within: usize = current % count;
    let next: usize = if within < count - 1 {
        within + 1
    } else {
        0
    };
    proof {
        let q = current as int / count as int;
        vstd::arithmetic::div_mod::lemma_fundamental_div_mod(current as int, count as int);
        assert(count * q == q * count) by (nonlinear_arith);
        assert((q + 1) * count == q * count + count) by (nonlinear_arith);
        if within < count - 1 {
            vstd::arithmetic::div_mod::lemma_fundamental_div_mod_converse(
                current + 1,
                count as int,
                q,
                within + 1,
            );
        } else {
            vstd::arithmetic::div_mod::lemma_fundamental_div_mod_converse(
                current + 1,
                count as int,
                q + 1,
                0,
            );
        }
    }
    state.current_category_index = next;
    state.current_loadout_index = 0;
    state.events.push(AppEvent::SwitchedCategory { category_ind: next });
    state.events.push(AppEvent::SwitchedLoadout { loadout_ind: 0 });
    Ok(next)
}

/// The loadout that an arrow key moves the state to; `None` where there is
/// no category to move in or [`grid_target`] has no target.
pub open spec fn arrow_target(state: &AppState, key: i32) -> Option<usize> {
    match current_loadouts(state) {
        Err(_) => None,
        Ok(loadouts) => match grid_target(
            state.current_loadout_index as int,
            loadouts.len() as int,
            state.grid_layout_info.loadouts_per_row as int,
            key,
        ) {
            None => None,
            Some(target) => Some(target as usize),
        },
    }
}

/// Moves the loadout cursor over the grid as an arrow key asks.
///
/// Returns the new loadout, which the caller persists, or `None` where
/// nothing moves. A move sets the loadout cursor and announces it; nothing
/// else changes.
pub fn handle_arrow_key_navigation(state: &mut AppState, key: i32) -> (moved: Option<usize>)
    ensures
        moved == arrow_target(old(state), key),
        match moved {
            Some(target) => {
                &&& final(state).current_loadout_index == target
                &&& final(state).events@ == old(state).events@.push(
                    AppEvent::SwitchedLoadout { loadout_ind: target },
                )
                &&& *final(state) == (AppState {
                    current_loadout_index: final(state).current_loadout_index,
                    events: final(state).events,
                    ..*old(state)
                })
            },
            None => *final(state) == *old(state),
        },
{
    if state.current_game_index >= state.games.len() {
        return None;
    }
    let total: usize = match &state.games[state.current_game_index].categories {
        None => {
            return None;
        },
        Some(categories) => {
            if state.current_category_index >= categories.len() {
                return None;
            }
            categories[state.current_category_index].loadouts.len()
        },
    };
    let target = calculate_new_index(
        state.current_loadout_index,
        total,
        state.grid_layout_info.loadouts_per_row,
        key,
    );
    match target {
        Some(index) => {
            state.current_loadout_index = index;
            state.events.push(AppEvent::SwitchedLoadout { loadout_ind: index });
            Some(index)
        },
        None => None,
    }
}

/// With primaries and secondaries on offer, cycling leads to slot 0 or 1,
/// never to the slot it starts from, and twice in a row back to where it started.
pub proof fn lemma_cycling_toggles(loadout: Loadout, current: usize)
    requires
        loadout.primaries@.len() > 0,
        loadout.secondaries@.len() > 0,
    ensures
        next_weapon_slot(loadout, current) is Ok,
        next_weapon_slot(loadout, current)->Ok_0 == PRIMARY_SLOT || next_weapon_slot(
            loadout,
            current,
        )->Ok_0 == SECONDARY_SLOT,
        next_weapon_slot(loadout, current)->Ok_0 != current,
        current <= 1 ==> next_weapon_slot(loadout, next_weapon_slot(loadout, current)->Ok_0)
            == Ok::<usize, SelectionError>(current),
{
}

/// With one kind of weapon on offer, cycling always leads to the slot of
/// that kind: from that slot it moves nowhere.
pub proof fn lemma_single_kind_is_pinned(loadout: Loadout, current: usize)
    requires
        (loadout.primaries@.len() > 0) != (loadout.secondaries@.len() > 0),
    ensures
        next_weapon_slot(loadout, current) == Ok::<usize, SelectionError>(
            if loadout.primaries@.len() > 0 {
                PRIMARY_SLOT
            } else {
                SECONDARY_SLOT
            },
        ),
        next_weapon_slot(loadout, next_weapon_slot(loadout, current)->Ok_0) == next_weapon_slot(
            loadout,
            current,
        ),
{
}

/// A step to the right from the last item wraps to the first, and a step to
/// the left from the first wraps to the last.
pub proof fn lemma_grid_wraps_sideways(total: int, per_row: int)
    requires
        total > 0,
        per_row > 0,
    ensures
        grid_target(total - 1, total, per_row, VK_RIGHT) == Some(0int),
        grid_target(0, total, per_row, VK_LEFT) == Some(total - 1),
{
}

/// Inside the grid, a step to the right followed by a step to the left leads
/// back, and so does a step to the left followed by a step to the right.
pub proof fn lemma_grid_sideways_steps_undo(current: int, total: int, per_row: int)
    requires
        0 <= current < total,
        per_row > 0,
    ensures
        grid_target(grid_target(current, total, per_row, VK_RIGHT)->Some_0, total, per_row, VK_LEFT)
            == Some(current),
        grid_target(grid_target(current, total, per_row, VK_LEFT)->Some_0, total, per_row, VK_RIGHT)
            == Some(current),
{
}

/// A step down from the last row wraps to the same column of the first row.
pub proof fn lemma_grid_wraps_down(current: int, total: int, per_row: int)
    requires
        0 <= current < total,
        per_row > 0,
        current / per_row == (total - 1) / per_row,
    ensures
        grid_target(current, total, per_row, VK_DOWN) == Some(current % per_row),
        0 <= current % per_row < total,
{
    lemma_row_col(current, per_row);
}

/// Inside the grid, every arrow key leads to an item of the grid.
pub proof fn lemma_grid_target_in_grid(current: int, total: int, per_row: int, key: i32)
    requires
        0 <= current < total,
        per_row > 0,
        key == VK_LEFT || key == VK_RIGHT || key == VK_UP || key == VK_DOWN,
    ensures
        grid_target(current, total, per_row, key) is Some,
        0 <= grid_target(current, total, per_row, key)->Some_0 < total,
{
    lemma_row_col(current, per_row);
    lemma_row_col(total - 1, per_row);
    lemma_row_step(current / per_row, per_row);
    let row = current / per_row;
    let last = (total - 1) / per_row;
    if row < last {
        lemma_row_order(row + 1, last, per_row);
    }
    if row > last {
        lemma_row_order(last + 1, row, per_row);
        lemma_row_step(last, per_row);
    }
}

} // verus!
