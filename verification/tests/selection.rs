use recoil_engine::commands::{
    change_acog_horizontal_multiplier, change_acog_vertical_multiplier, change_category,
    change_game, change_grid_layout, change_horizontal_multiplier, change_loadout,
    change_scroll_wheel_weapon_swap, change_vertical_multiplier, reset_selection, SettingError,
};
use recoil_engine::cooldown::{
    can_fire_single_fire_weapon, clear_current_weapon_timing, clear_shot_timing,
    record_shot_fired,
};
use recoil_engine::input::{dispatch_input, InputEvent, InputOutcome};
use recoil_engine::navigation::{
    cycle_category, cycle_weapon_type, handle_arrow_key_navigation, switch_weapon_slot, VK_DOWN,
    VK_LEFT, VK_RIGHT,
};
use recoil_engine::recoil::{contains_acog, effective_multipliers, has_acog, move_down};
use recoil_engine::selection::{find_weapon, get_loadout, get_weapon, get_weapon_id, SelectionError};
use recoil_engine::table::IdTable;
use recoil_engine::types::{
    AppEvent, AppState, Category, Command, Game, GlobalConfig, GridLayoutInfo, KeybindConfig,
    Loadout, MouseConfig, SingleShotConfig, Weapon,
};

fn selection_weapon(name: &str, description: Option<&str>) -> Weapon {
    Weapon::SingleShot(SingleShotConfig {
        name: name.to_string(),
        description: description.map(|text| text.to_string()),
        recoil_completion_ms: 10,
        dx: 1000,
        dy: 2000,
        enabled: true,
    })
}

fn selection_loadout(name: &str, primaries: &[&str], secondaries: &[&str]) -> Loadout {
    Loadout {
        name: name.to_string(),
        icon_url: None,
        icon_only: false,
        primaries: primaries.iter().map(|id| id.to_string()).collect(),
        secondaries: secondaries.iter().map(|id| id.to_string()).collect(),
        selected_primary: 0,
        selected_secondary: 0,
    }
}

fn selection_state() -> AppState {
    let mut weapons = IdTable::new();
    weapons.insert("r4c".to_string(), selection_weapon("R4-C", None));
    weapons.insert("p12".to_string(), selection_weapon("P12", Some("pistol")));
    weapons.insert("417".to_string(), selection_weapon("417", Some("ACOG 2.5x")));
    let attack = Category {
        name: "attack".to_string(),
        loadouts: vec![
            selection_loadout("Ash", &["r4c"], &["p12"]),
            selection_loadout("Twitch", &["417", "r4c"], &["p12"]),
            selection_loadout("Sledge", &["r4c"], &[]),
            selection_loadout("Recruit", &[], &["p12"]),
            selection_loadout("Nobody", &[], &[]),
            selection_loadout("Ghost", &["missing"], &[]),
            selection_loadout("Seven", &["r4c"], &["p12"]),
        ],
    };
    let defence = Category {
        name: "defence".to_string(),
        loadouts: vec![selection_loadout("Rook", &["r4c"], &["p12"])],
    };
    let game = Game {
        name: "siege".to_string(),
        key: None,
        key_status: None,
        categories: Some(vec![attack, defence]),
        weapons: Some(weapons),
    };
    let bare = Game {
        name: "bare".to_string(),
        key: None,
        key_status: None,
        categories: None,
        weapons: None,
    };
    let mut state = AppState::new(GlobalConfig::default());
    state.games.push(game);
    state.games.push(bare);
    state
}

#[test]
fn defaults_match_the_documented_settings() {
    let keys = KeybindConfig::default();
    assert!(keys.require_right_hold);
    assert_eq!(keys.primary_weapon, '1');
    assert_eq!(keys.secondary_weapon, '2');
    assert_eq!(keys.alternative_fire, '3');
    let mouse = MouseConfig::default();
    assert_eq!(mouse.horizontal_multiplier, 1000);
    assert_eq!(mouse.vertical_multiplier, 1000);
    assert_eq!(mouse.acog_horizontal_multiplier, 1000);
    assert_eq!(mouse.acog_vertical_multiplier, 1000);
    assert!(!mouse.scroll_wheel_weapon_swap);
    assert_eq!(GridLayoutInfo::default().loadouts_per_row, 0);
    let state = AppState::new(GlobalConfig::default());
    assert_eq!(state.games.len(), 0);
    assert_eq!(state.events.len(), 0);
    assert!(!state.left_hold_active && !state.right_hold_active && !state.session_active);
    assert_eq!(state.current_game_index, 0);
    assert_eq!(state.current_weapon_index, 0);
}

#[test]
fn cursors_lead_to_the_selected_weapon() {
    let mut state = selection_state();
    assert_eq!(get_weapon_id(&state), Ok("r4c".to_string()));
    state.current_weapon_index = 1;
    assert_eq!(get_weapon_id(&state), Ok("p12".to_string()));
    state.current_loadout_index = 1;
    state.current_weapon_index = 0;
    assert_eq!(get_weapon_id(&state), Ok("417".to_string()));
    state.games[0].categories.as_mut().unwrap()[0].loadouts[1].selected_primary = 1;
    assert_eq!(get_weapon_id(&state), Ok("r4c".to_string()));
    assert_eq!(get_loadout(&state).unwrap().name, "Twitch");
    let (id, weapon) = get_weapon(&state).unwrap();
    assert_eq!(id, "r4c");
    assert!(matches!(weapon, Weapon::SingleShot(config) if config.name == "R4-C"));
}

#[test]
fn a_loadout_without_secondaries_is_pinned_to_its_primary() {
    let mut state = selection_state();
    state.current_loadout_index = 2;
    state.current_weapon_index = 1;
    assert_eq!(get_weapon_id(&state), Ok("r4c".to_string()));
    state.current_weapon_index = 9;
    assert_eq!(get_weapon_id(&state), Ok("r4c".to_string()));
}

#[test]
fn every_cursor_that_points_nowhere_is_reported() {
    let mut state = selection_state();
    state.current_game_index = 2;
    assert_eq!(get_weapon_id(&state), Err(SelectionError::GameIndex { index: 2 }));
    state.current_game_index = 1;
    assert_eq!(get_weapon_id(&state), Err(SelectionError::CategoriesNotLoaded));
    state.current_game_index = 0;
    state.current_category_index = 2;
    assert_eq!(get_weapon_id(&state), Err(SelectionError::CategoryIndex { index: 2 }));
    state.current_category_index = 0;
    state.current_loadout_index = 7;
    assert_eq!(get_weapon_id(&state), Err(SelectionError::LoadoutIndex { index: 7 }));
    state.current_loadout_index = 0;
    state.current_weapon_index = 2;
    assert_eq!(get_weapon_id(&state), Err(SelectionError::WeaponSlot { index: 2 }));
    state.current_loadout_index = 3;
    state.current_weapon_index = 0;
    assert_eq!(get_weapon_id(&state), Err(SelectionError::NoPrimary));
    state.current_loadout_index = 4;
    assert_eq!(get_weapon_id(&state), Err(SelectionError::NoPrimary));
    state.current_loadout_index = 0;
    state.games[0].categories.as_mut().unwrap()[0].loadouts[0].selected_primary = 1;
    assert_eq!(get_weapon_id(&state), Err(SelectionError::SelectedPrimary { index: 1 }));
    state.current_weapon_index = 1;
    state.games[0].categories.as_mut().unwrap()[0].loadouts[0].selected_secondary = 4;
    assert_eq!(get_weapon_id(&state), Err(SelectionError::SelectedSecondary { index: 4 }));
}

#[test]
fn a_weapon_that_the_game_lacks_is_reported() {
    let mut state = selection_state();
    state.current_loadout_index = 5;
    assert_eq!(get_weapon_id(&state), Ok("missing".to_string()));
    assert_eq!(get_weapon(&state).err(), Some(SelectionError::UnknownWeapon));
    assert_eq!(
        find_weapon(&state, &"missing".to_string()).err(),
        Some(SelectionError::UnknownWeapon)
    );
    state.games[0].weapons = None;
    state.current_loadout_index = 0;
    assert_eq!(get_weapon(&state).err(), Some(SelectionError::WeaponsNotLoaded));
    state.current_game_index = 9;
    assert_eq!(
        find_weapon(&state, &"r4c".to_string()).err(),
        Some(SelectionError::GameIndex { index: 9 })
    );
}

#[test]
fn cycling_toggles_between_the_two_slots() {
    let mut state = selection_state();
    assert_eq!(cycle_weapon_type(&mut state, true), Ok(1));
    assert_eq!(state.current_weapon_index, 1);
    assert_eq!(cycle_weapon_type(&mut state, true), Ok(0));
    assert_eq!(cycle_weapon_type(&mut state, false), Ok(1));
    assert_eq!(cycle_weapon_type(&mut state, false), Ok(0));
    assert_eq!(state.current_weapon_index, 0);
    assert_eq!(state.events.len(), 4);
    assert!(matches!(state.events[0], AppEvent::SwitchedWeapon { weapon_ind: 1 }));
    assert!(matches!(state.events[1], AppEvent::SwitchedWeapon { weapon_ind: 0 }));
}

#[test]
fn cycling_with_primaries_only_stays_on_the_primary_slot() {
    let mut state = selection_state();
    state.current_loadout_index = 2;
    for _ in 0..3 {
        assert_eq!(cycle_weapon_type(&mut state, true), Ok(0));
        assert_eq!(cycle_weapon_type(&mut state, false), Ok(0));
    }
    assert_eq!(state.events.len(), 0);
    assert_eq!(state.current_weapon_index, 0);
}

#[test]
fn cycling_with_secondaries_only_goes_to_the_secondary_slot() {
    let mut state = selection_state();
    state.current_loadout_index = 3;
    assert_eq!(cycle_weapon_type(&mut state, true), Ok(1));
    assert_eq!(cycle_weapon_type(&mut state, true), Ok(1));
    assert_eq!(state.events.len(), 1);
}

#[test]
fn cycling_without_weapons_or_loadout_fails() {
    let mut state = selection_state();
    state.current_loadout_index = 4;
    assert_eq!(cycle_weapon_type(&mut state, true), Err(SelectionError::NoWeapons));
    state.current_loadout_index = 70;
    assert_eq!(
        cycle_weapon_type(&mut state, true),
        Err(SelectionError::LoadoutIndex { index: 70 })
    );
    state.current_game_index = 1;
    assert_eq!(cycle_weapon_type(&mut state, true), Err(SelectionError::CategoriesNotLoaded));
    assert_eq!(state.events.len(), 0);
}

#[test]
fn a_slot_change_forgets_the_outgoing_weapon() {
    let mut state = selection_state();
    record_shot_fired(&mut state, &"r4c".to_string(), 5);
    record_shot_fired(&mut state, &"p12".to_string(), 6);
    assert_eq!(cycle_weapon_type(&mut state, true), Ok(1));
    assert!(!state.last_shot_times.contains_key(&"r4c".to_string()));
    assert!(state.last_shot_times.contains_key(&"p12".to_string()));
    switch_weapon_slot(&mut state, 0);
    assert!(!state.last_shot_times.contains_key(&"p12".to_string()));
    assert_eq!(state.current_weapon_index, 0);
    assert_eq!(state.events.len(), 2);
}

#[test]
fn the_key_of_the_current_slot_keeps_the_cooldown() {
    let mut state = selection_state();
    record_shot_fired(&mut state, &"r4c".to_string(), 5);
    // The primary weapon is current already: its last shot stays on record.
    switch_weapon_slot(&mut state, 0);
    assert_eq!(state.last_shot_times.get(&"r4c".to_string()), Some(&5));
    assert!(!can_fire_single_fire_weapon(&state, &"r4c".to_string(), 90, 10, 6));
    assert_eq!(state.current_weapon_index, 0);
    assert_eq!(state.events.len(), 1);
    assert!(matches!(state.events[0], AppEvent::SwitchedWeapon { weapon_ind: 0 }));
    dispatch_input(&mut state, InputEvent::PrimaryWeaponKey);
    assert_eq!(state.last_shot_times.get(&"r4c".to_string()), Some(&5));
    assert_eq!(state.events.len(), 2);
    // The other key changes the slot and forgets the weapon that was current.
    dispatch_input(&mut state, InputEvent::SecondaryWeaponKey);
    assert_eq!(state.current_weapon_index, 1);
    assert!(!state.last_shot_times.contains_key(&"r4c".to_string()));
}

#[test]
fn category_cycling_wraps_and_resets_the_loadout() {
    let mut state = selection_state();
    state.current_loadout_index = 3;
    assert_eq!(cycle_category(&mut state), Ok(1));
    assert_eq!(state.current_category_index, 1);
    assert_eq!(state.current_loadout_index, 0);
    assert_eq!(cycle_category(&mut state), Ok(0));
    assert_eq!(state.events.len(), 4);
    assert!(matches!(state.events[0], AppEvent::SwitchedCategory { category_ind: 1 }));
    assert!(matches!(state.events[1], AppEvent::SwitchedLoadout { loadout_ind: 0 }));
    assert!(matches!(state.events[2], AppEvent::SwitchedCategory { category_ind: 0 }));
    state.current_category_index = usize::MAX;
    assert_eq!(cycle_category(&mut state), Ok(0));
    state.current_category_index = 6;
    assert_eq!(cycle_category(&mut state), Ok(1));
}

#[test]
fn category_cycling_fails_without_categories() {
    let mut state = selection_state();
    state.current_game_index = 1;
    assert_eq!(cycle_category(&mut state), Err(SelectionError::NoCategories));
    state.current_game_index = 4;
    assert_eq!(cycle_category(&mut state), Err(SelectionError::GameIndex { index: 4 }));
    assert_eq!(state.events.len(), 0);
}

#[test]
fn arrow_keys_move_the_loadout_cursor() {
    let mut state = selection_state();
    change_grid_layout(&mut state, 3);
    state.current_loadout_index = 6;
    assert_eq!(handle_arrow_key_navigation(&mut state, VK_RIGHT), Some(0));
    assert_eq!(state.current_loadout_index, 0);
    state.current_loadout_index = 6;
    assert_eq!(handle_arrow_key_navigation(&mut state, VK_DOWN), Some(0));
    assert_eq!(handle_arrow_key_navigation(&mut state, VK_LEFT), Some(6));
    assert_eq!(state.events.len(), 3);
    assert!(matches!(state.events[2], AppEvent::SwitchedLoadout { loadout_ind: 6 }));
}

#[test]
fn arrow_keys_do_nothing_without_a_grid() {
    let mut state = selection_state();
    assert_eq!(handle_arrow_key_navigation(&mut state, VK_RIGHT), None);
    change_grid_layout(&mut state, 3);
    assert_eq!(handle_arrow_key_navigation(&mut state, 0x2D), None);
    state.current_category_index = 5;
    assert_eq!(handle_arrow_key_navigation(&mut state, VK_RIGHT), None);
    state.current_game_index = 1;
    assert_eq!(handle_arrow_key_navigation(&mut state, VK_RIGHT), None);
    state.current_game_index = 5;
    assert_eq!(handle_arrow_key_navigation(&mut state, VK_RIGHT), None);
    assert_eq!(state.events.len(), 0);
}

#[test]
fn second_shot_within_the_cap_is_delayed() {
    let mut state = selection_state();
    let id = "417".to_string();
    assert!(can_fire_single_fire_weapon(&state, &id, 90, 10, 0));
    record_shot_fired(&mut state, &id, 1_000_000);
    assert!(!can_fire_single_fire_weapon(&state, &id, 90, 10, 1_000_000));
    assert!(!can_fire_single_fire_weapon(&state, &id, 90, 10, 100_999_999));
    assert!(can_fire_single_fire_weapon(&state, &id, 90, 10, 101_000_000));
    assert!(can_fire_single_fire_weapon(&state, &id, 90, 10, 500_000_000));
    // Another weapon has its own entry.
    assert!(can_fire_single_fire_weapon(&state, &"p12".to_string(), 90, 10, 1_000_001));
    // A clock that reads earlier than the last shot counts as no time passed.
    assert!(!can_fire_single_fire_weapon(&state, &id, 90, 10, 0));
    assert!(can_fire_single_fire_weapon(&state, &id, 0, 0, 0));
    // The largest cap: both delays at their limit, 8589934590 ms.
    let cap = 8_589_934_590_000_000u64;
    assert!(!can_fire_single_fire_weapon(&state, &id, u32::MAX, u32::MAX, 1_000_000 + cap - 1));
    assert!(can_fire_single_fire_weapon(&state, &id, u32::MAX, u32::MAX, 1_000_000 + cap));
}

#[test]
fn clearing_makes_a_weapon_ready_again() {
    let mut state = selection_state();
    let id = "r4c".to_string();
    record_shot_fired(&mut state, &id, 50);
    record_shot_fired(&mut state, &"p12".to_string(), 50);
    clear_shot_timing(&mut state, &"p12".to_string());
    assert!(can_fire_single_fire_weapon(&state, &"p12".to_string(), 90, 10, 60));
    assert!(!can_fire_single_fire_weapon(&state, &id, 90, 10, 60));
    clear_current_weapon_timing(&mut state);
    assert!(can_fire_single_fire_weapon(&state, &id, 90, 10, 60));
    state.current_game_index = 7;
    record_shot_fired(&mut state, &id, 70);
    clear_current_weapon_timing(&mut state);
    assert!(state.last_shot_times.contains_key(&id));
}

#[test]
fn magnified_optics_are_found_in_any_case() {
    assert!(contains_acog("ACOG"));
    assert!(contains_acog("acog"));
    assert!(contains_acog("with AcOg 2.5x"));
    assert!(contains_acog("xxacog"));
    assert!(!contains_acog(""));
    assert!(!contains_acog("ACO"));
    assert!(!contains_acog("A COG"));
    assert!(!contains_acog("holographic"));
    assert!(!contains_acog("ACÖG"));
    assert!(has_acog(&selection_weapon("417", Some("Acog"))));
    assert!(!has_acog(&selection_weapon("417", None)));
    assert!(!has_acog(&selection_weapon("ACOG", Some("reflex"))));
}

#[test]
fn move_down_scales_by_the_multipliers_that_apply() {
    let mut config = GlobalConfig::default();
    config.mouse_config.horizontal_multiplier = 2000;
    config.mouse_config.vertical_multiplier = 3000;
    config.mouse_config.acog_horizontal_multiplier = 500;
    config.mouse_config.acog_vertical_multiplier = 250;
    let plain = selection_weapon("R4-C", None);
    let scoped = selection_weapon("417", Some("acog"));
    assert_eq!(effective_multipliers(&config, &plain), (2000, 3000));
    assert_eq!(effective_multipliers(&config, &scoped), (500, 250));
    let plan = move_down(&config, &plain, 1_000_000, 4_000_000, 1, 8, false);
    assert_eq!(plan, vec![Command::Move { dx: 2, dy: 12 }, Command::Wait { nanos: 8 }]);
    let plan = move_down(&config, &scoped, 1_000_000, 4_000_000, 1, 8, true);
    assert_eq!(plan, vec![Command::Wait { nanos: 8 }, Command::Move { dx: 1, dy: 1 }]);
}

#[test]
fn commands_move_cursors_only_to_what_exists() {
    let mut state = selection_state();
    state.current_category_index = 1;
    state.current_loadout_index = 3;
    state.current_weapon_index = 1;
    assert_eq!(change_game(&mut state, 2), Err(SelectionError::GameIndex { index: 2 }));
    assert_eq!(state.current_weapon_index, 1);
    assert_eq!(change_game(&mut state, 1), Ok(1));
    assert_eq!(
        (state.current_game_index, state.current_category_index, state.current_loadout_index, state.current_weapon_index),
        (1, 0, 0, 0)
    );
    assert_eq!(change_category(&mut state, 0), Err(SelectionError::CategoryIndex { index: 0 }));
    assert_eq!(change_loadout(&mut state, 0), Err(SelectionError::CategoriesNotLoaded));
    assert_eq!(change_game(&mut state, 0), Ok(0));
    state.current_loadout_index = 2;
    assert_eq!(change_category(&mut state, 1), Ok(1));
    assert_eq!(state.current_loadout_index, 0);
    assert_eq!(change_category(&mut state, 2), Err(SelectionError::CategoryIndex { index: 2 }));
    assert_eq!(change_loadout(&mut state, 1), Err(SelectionError::LoadoutIndex { index: 1 }));
    assert_eq!(change_category(&mut state, 0), Ok(0));
    assert_eq!(change_loadout(&mut state, 6), Ok(6));
    assert_eq!(state.current_loadout_index, 6);
    assert_eq!(state.events.len(), 1);
    assert!(matches!(state.events[0], AppEvent::SwitchedLoadout { loadout_ind: 6 }));
    state.current_category_index = 9;
    assert_eq!(change_loadout(&mut state, 0), Err(SelectionError::CategoryIndex { index: 9 }));
    state.current_game_index = 9;
    assert_eq!(change_loadout(&mut state, 0), Err(SelectionError::GameIndex { index: 9 }));
    assert_eq!(change_category(&mut state, 0), Err(SelectionError::GameIndex { index: 9 }));
    reset_selection(&mut state);
    assert_eq!(
        (state.current_game_index, state.current_category_index, state.current_loadout_index, state.current_weapon_index),
        (0, 0, 0, 0)
    );
}

#[test]
fn multipliers_must_be_positive() {
    let mut state = selection_state();
    assert_eq!(change_horizontal_multiplier(&mut state, 1500), Ok(()));
    assert_eq!(change_vertical_multiplier(&mut state, 1), Ok(()));
    assert_eq!(change_acog_horizontal_multiplier(&mut state, 700), Ok(()));
    assert_eq!(change_acog_vertical_multiplier(&mut state, i32::MAX), Ok(()));
    assert_eq!(
        change_horizontal_multiplier(&mut state, 0),
        Err(SettingError::InvalidMultiplier { value: 0 })
    );
    assert_eq!(
        change_vertical_multiplier(&mut state, -1),
        Err(SettingError::InvalidMultiplier { value: -1 })
    );
    assert_eq!(
        change_acog_horizontal_multiplier(&mut state, i32::MIN),
        Err(SettingError::InvalidMultiplier { value: i32::MIN })
    );
    assert_eq!(
        change_acog_vertical_multiplier(&mut state, 0),
        Err(SettingError::InvalidMultiplier { value: 0 })
    );
    let mouse = state.global_config.mouse_config;
    assert_eq!(mouse.horizontal_multiplier, 1500);
    assert_eq!(mouse.vertical_multiplier, 1);
    assert_eq!(mouse.acog_horizontal_multiplier, 700);
    assert_eq!(mouse.acog_vertical_multiplier, i32::MAX);
    change_scroll_wheel_weapon_swap(&mut state, true);
    assert!(state.global_config.mouse_config.scroll_wheel_weapon_swap);
}

#[test]
fn input_events_reach_the_state() {
    let mut state = selection_state();
    change_grid_layout(&mut state, 3);
    let quiet = InputOutcome { start_session: false, persist: false, catalog_changed: false };
    assert_eq!(dispatch_input(&mut state, InputEvent::SecondaryDown), quiet);
    assert!(state.right_hold_active);
    assert_eq!(dispatch_input(&mut state, InputEvent::SecondaryUp), quiet);
    assert!(!state.right_hold_active);
    assert_eq!(dispatch_input(&mut state, InputEvent::SecondaryWeaponKey), quiet);
    assert_eq!(state.current_weapon_index, 1);
    assert_eq!(dispatch_input(&mut state, InputEvent::PrimaryWeaponKey), quiet);
    assert_eq!(state.current_weapon_index, 0);
    assert_eq!(state.events.len(), 2);
    assert_eq!(
        dispatch_input(&mut state, InputEvent::Arrow { key: VK_RIGHT }),
        InputOutcome { start_session: false, persist: true, catalog_changed: false }
    );
    assert_eq!(state.current_loadout_index, 1);
    assert_eq!(dispatch_input(&mut state, InputEvent::Arrow { key: 0 }), quiet);
    assert_eq!(dispatch_input(&mut state, InputEvent::CycleCategory), quiet);
    assert_eq!(state.current_category_index, 1);
    // The scroll wheel moves the slot only where the setting is on.
    assert_eq!(dispatch_input(&mut state, InputEvent::Scroll { up: true }), quiet);
    assert_eq!(state.current_weapon_index, 0);
    change_scroll_wheel_weapon_swap(&mut state, true);
    assert_eq!(dispatch_input(&mut state, InputEvent::Scroll { up: true }), quiet);
    assert_eq!(state.current_weapon_index, 1);
    assert_eq!(dispatch_input(&mut state, InputEvent::Scroll { up: false }), quiet);
    assert_eq!(state.current_weapon_index, 0);
    assert_eq!(
        dispatch_input(&mut state, InputEvent::PrimaryDown),
        InputOutcome { start_session: true, persist: false, catalog_changed: false }
    );
    assert!(state.left_hold_active && state.session_active);
    assert_eq!(dispatch_input(&mut state, InputEvent::PrimaryUp), quiet);
    assert!(!state.left_hold_active && state.session_active);
}

#[test]
fn table_keeps_one_value_per_identifier() {
    let mut table: IdTable<u64> = IdTable::new();
    let a = "a".to_string();
    let b = "b".to_string();
    assert_eq!(table.get(&a), None);
    assert!(!table.contains_key(&a));
    assert_eq!(table.insert(a.clone(), 1), None);
    assert_eq!(table.insert(b.clone(), 2), None);
    assert_eq!(table.insert(a.clone(), 3), Some(1));
    assert_eq!(table.get(&a), Some(&3));
    assert_eq!(table.get(&b), Some(&2));
    assert_eq!(table.entries().len(), 2);
    let copy = table.clone();
    assert_eq!(table.remove(&a), Some(3));
    assert_eq!(table.remove(&a), None);
    assert!(!table.contains_key(&a));
    assert!(table.contains_key(&b));
    assert_eq!(table.entries().len(), 1);
    assert_eq!(table.entries()[0].key, "b");
    assert_eq!(copy.get(&a), Some(&3));
    assert_eq!(copy.entries().len(), 2);
}
