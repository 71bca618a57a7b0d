//! Input events: what each button or key transition does to the shared state.
//!
//! The capture of raw input stays with the caller. It decodes a transition
//! into an [`InputEvent`], hands it to [`dispatch_input`] and acts on the
//! outcome: it starts a hold session where one is due and persists the
//! selection where it has moved.

use crate::navigation::{
    arrow_target, cycle_category, cycle_weapon_type, cycled_category, cycled_slot,
    handle_arrow_key_navigation, slot_changed, switch_weapon_slot,
};
use crate::selection::{current_weapon, current_weapon_id};
use crate::types::{AppEvent, AppState, PRIMARY_SLOT, SECONDARY_SLOT};
use crate::weapon_config::{
    displacement_of, patched, tune_current_weapon, tune_steps, tuned, weapon_replaced, Patch,
    TuneKey,
};
use vstd::prelude::*;

verus! {

/// A decoded transition of a button or key.
#[derive(Clone, Copy, Debug, PartialEq, Eq, Structural)]
pub enum InputEvent {
    /// The primary trigger went down.
    PrimaryDown,
    /// The primary trigger went up.
    PrimaryUp,
    /// The secondary button went down.
    SecondaryDown,
    /// The secondary button went up.
    SecondaryUp,
    /// The key bound to the primary weapon was released.
    PrimaryWeaponKey,
    /// The key bound to the secondary weapon was released.
    SecondaryWeaponKey,
    /// An arrow key was released; `key` is its key code.
    Arrow { key: i32 },
    /// The key that cycles the category was released.
    CycleCategory,
    /// The scroll wheel turned.
    Scroll { up: bool },
    /// A key that tunes the current weapon was released.
    Tune { key: TuneKey },
}

/// What the caller does after an input event.
#[derive(Clone, Copy, Debug, PartialEq, Eq, Structural)]
pub struct InputOutcome {
    /// Start a hold session.
    pub start_session: bool,
    /// Persist the selection and the catalog.
    pub persist: bool,
    /// Tell the user interface that the catalog has changed.
    pub catalog_changed: bool,
}

/// A press of the primary trigger starts a session: the trigger was up and no session is alive.
pub open spec fn press_starts_session(state: &AppState) -> bool {
    !state.left_hold_active && !state.session_active
}

/// Takes note that the primary trigger went down.
///
/// Returns whether a hold session is to be started: exactly when the trigger
/// was up and no session is alive. The trigger counts as held from now on,
/// and a session that is to be started counts as alive.
pub fn press_primary(state: &mut AppState) -> (start: bool)
    ensures
        start == press_starts_session(old(state)),
        final(state).left_hold_active,
        final(state).session_active == (old(state).session_active || start),
        *final(state) == (AppState {
            left_hold_active: final(state).left_hold_active,
            session_active: final(state).session_active,
            ..*old(state)
        }),
{
    let start: bool = !state.left_hold_active && !state.session_active;
    state.left_hold_active = true;
    if start {
        state.session_active = true;
    }
    start
}

/// Takes note that the primary trigger went up.
pub fn release_primary(state: &mut AppState)
    ensures
        !final(state).left_hold_active,
        *final(state) == (AppState { left_hold_active: final(state).left_hold_active, ..*old(state) }),
{
    state.left_hold_active = false;
}

/// Takes note that the hold session is gone, however it ended.
///
/// A session that ends in a pass clears its guard itself; this is for the
/// caller whose session came to an end in any other way.
pub fn release_session(state: &mut AppState)
    ensures
        !final(state).session_active,
        *final(state) == (AppState { session_active: final(state).session_active, ..*old(state) }),
{
    state.session_active = false;
}

/// What the caller is to do after `event` on `state`.
pub open spec fn input_outcome(state: &AppState, event: InputEvent) -> InputOutcome {
    match event {
        InputEvent::PrimaryDown => InputOutcome {
            start_session: press_starts_session(state),
            persist: false,
            catalog_changed: false,
        },
        InputEvent::Arrow { key } => InputOutcome {
            start_session: false,
            persist: arrow_target(state, key) is Some,
            catalog_changed: false,
        },
        InputEvent::Tune { .. } => InputOutcome {
            start_session: false,
            persist: current_weapon(state) is Ok,
            catalog_changed: current_weapon(state) is Ok,
        },
        _ => InputOutcome { start_session: false, persist: false, catalog_changed: false },
    }
}

/// The scroll wheel moves the weapon slot: the setting is on and there is a slot to move to.
pub open spec fn scroll_switches(state: &AppState) -> bool {
    &&& state.global_config.mouse_config.scroll_wheel_weapon_swap
    &&& cycled_slot(state) matches Ok(slot)
    &&& slot != state.current_weapon_index
}

/// The state after `event`.
pub open spec fn input_applied(before: &AppState, after: &AppState, event: InputEvent) -> bool {
    match event {
        InputEvent::PrimaryDown => *after == (AppState {
            left_hold_active: true,
            session_active: before.session_active || press_starts_session(before),
            ..*before
        }),
        InputEvent::PrimaryUp => *after == (AppState { left_hold_active: false, ..*before }),
        InputEvent::SecondaryDown => *after == (AppState { right_hold_active: true, ..*before }),
        InputEvent::SecondaryUp => *after == (AppState { right_hold_active: false, ..*before }),
        InputEvent::PrimaryWeaponKey => slot_changed(before, after, PRIMARY_SLOT),
        InputEvent::SecondaryWeaponKey => slot_changed(before, after, SECONDARY_SLOT),
        InputEvent::Arrow { key } => match arrow_target(before, key) {
            Some(target) => {
                &&& after.current_loadout_index == target
                &&& after.events@ == before.events@.push(
                    AppEvent::SwitchedLoadout { loadout_ind: target },
                )
                &&& *after == (AppState {
                    current_loadout_index: after.current_loadout_index,
                    events: after.events,
                    ..*before
                })
            },
            None => *after == *before,
        },
        InputEvent::CycleCategory => match cycled_category(before) {
            Ok(next) => {
                &&& after.current_category_index == next
                &&& after.current_loadout_index == 0
                &&& after.events@ == before.events@.push(
                    AppEvent::SwitchedCategory { category_ind: next },
                ).push(AppEvent::SwitchedLoadout { loadout_ind: 0 })
                &&& *after == (AppState {
                    current_category_index: after.current_category_index,
                    current_loadout_index: after.current_loadout_index,
                    events: after.events,
                    ..*before
                })
            },
            Err(_) => *after == *before,
        },
        InputEvent::Scroll { up } => if scroll_switches(before) {
            slot_changed(before, after, cycled_slot(before)->Ok_0)
        } else {
            *after == *before
        },
        InputEvent::Tune { key } => match current_weapon(before) {
            Ok(weapon) => weapon_replaced(
                before,
                after,
                current_weapon_id(before)->Ok_0,
                patched(
                    weapon,
                    Patch::Displacement {
                        dx: tuned(displacement_of(weapon).0, tune_steps(key).0),
                        dy: tuned(displacement_of(weapon).1, tune_steps(key).1),
                    },
                ),
            ),
            Err(_) => *after == *before,
        },
    }
}

/// Applies one input event to the shared state.
///
/// The state changes as [`input_applied`] says, and the outcome tells the
/// caller whether to start a hold session, whether to persist and whether
/// to publish the catalog, as [`input_outcome`] says. An event that cannot be acted on
/// (no category to cycle to, no loadout to move to) changes nothing.
pub fn dispatch_input(state: &mut AppState, event: InputEvent) -> (outcome: InputOutcome)
    ensures
        outcome == input_outcome(old(state), event),
        input_applied(old(state), final(state), event),
{
    match event {
        InputEvent::PrimaryDown => {
            let start = press_primary(state);
            InputOutcome { start_session: start, persist: false, catalog_changed: false }
        },
        InputEvent::PrimaryUp => {
            release_primary(state);
            InputOutcome { start_session: false, persist: false, catalog_changed: false }
        },
        InputEvent::SecondaryDown => {
            state.right_hold_active = true;
            InputOutcome { start_session: false, persist: false, catalog_changed: false }
        },
        InputEvent::SecondaryUp => {
            state.right_hold_active = false;
            InputOutcome { start_session: false, persist: false, catalog_changed: false }
        },
        InputEvent::PrimaryWeaponKey => {
            switch_weapon_slot(state, PRIMARY_SLOT);
            InputOutcome { start_session: false, persist: false, catalog_changed: false }
        },
        InputEvent::SecondaryWeaponKey => {
            switch_weapon_slot(state, SECONDARY_SLOT);
            InputOutcome { start_session: false, persist: false, catalog_changed: false }
        },
        InputEvent::Arrow { key } => {
            let moved = handle_arrow_key_navigation(state, key);
            InputOutcome { start_session: false, persist: moved.is_some(), catalog_changed: false }
        },
        InputEvent::CycleCategory => {
            let _ = cycle_category(state);
            InputOutcome { start_session: false, persist: false, catalog_changed: false }
        },
        InputEvent::Scroll { up } => {
            if state.global_config.mouse_config.scroll_wheel_weapon_swap {
                let _ = cycle_weapon_type(state, up);
            }
            InputOutcome { start_session: false, persist: false, catalog_changed: false }
        },
        InputEvent::Tune { key } => {
            let changed: bool = tune_current_weapon(state, key).is_ok();
            InputOutcome { start_session: false, persist: changed, catalog_changed: changed }
        },
    }
}

/// While a session is alive, no press of the primary trigger starts another.
pub proof fn lemma_one_session_at_a_time(state: &AppState)
    requires
        state.session_active,
    ensures
        !press_starts_session(state),
{
}

/// Of two presses of the primary trigger in a row, the second starts no
/// session, whatever the state was before the first.
pub proof fn lemma_second_press_starts_nothing(before: &AppState, between: &AppState)
    requires
        input_applied(before, between, InputEvent::PrimaryDown),
    ensures
        !press_starts_session(between),
        !input_outcome(between, InputEvent::PrimaryDown).start_session,
        press_starts_session(before) ==> between.session_active,
{
}

/// A press that follows a release starts no session either, as long as the
/// session that the first press started is alive.
pub proof fn lemma_press_after_release_waits_for_session(
    before: &AppState,
    pressed: &AppState,
    released: &AppState,
)
    requires
        press_starts_session(before),
        input_applied(before, pressed, InputEvent::PrimaryDown),
        input_applied(pressed, released, InputEvent::PrimaryUp),
    ensures
        released.session_active,
        !press_starts_session(released),
{
}

} // verus!
