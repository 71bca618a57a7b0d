use recoil_engine::input::{dispatch_input, InputEvent};
use recoil_engine::session::{handle_hold_lmb, HoldSession, Progress, Stage, POLL_NANOS};
use recoil_engine::table::IdTable;
use recoil_engine::types::{
    AppEvent, AppState, Category, Command, FullAutoStandardConfig, Game, GlobalConfig, Loadout,
    SingleFireConfig, SingleShotConfig, Weapon,
};

fn session_full_auto(enabled: bool) -> Weapon {
    Weapon::FullAutoStandard(FullAutoStandardConfig {
        name: "R4-C".to_string(),
        description: None,
        rpm: 860,
        first_shot_scale: 1230,
        exponential_factor: 1007,
        dx: -5000,
        dy: 129_500,
        mag_size: 26,
        enabled,
    })
}

fn session_single_fire(enabled: bool, autofire: bool) -> Weapon {
    Weapon::SingleFire(SingleFireConfig {
        name: "417".to_string(),
        description: None,
        trigger_delay_ms: 90,
        recoil_completion_ms: 10,
        release_delay_ms: 25,
        dx: 0,
        dy: 46_500,
        mag_size: 21,
        autofire,
        enabled,
    })
}

fn session_single_shot(enabled: bool) -> Weapon {
    Weapon::SingleShot(SingleShotConfig {
        name: "BOSG".to_string(),
        description: Some("slug".to_string()),
        recoil_completion_ms: 20,
        dx: 0,
        dy: 30_000,
        enabled,
    })
}

fn session_state(primary: Weapon, secondary: Option<Weapon>) -> AppState {
    let mut weapons = IdTable::new();
    weapons.insert("primary".to_string(), primary);
    let mut secondaries = Vec::new();
    if let Some(weapon) = secondary {
        weapons.insert("secondary".to_string(), weapon);
        secondaries.push("secondary".to_string());
    }
    let loadout = Loadout {
        name: "Twitch".to_string(),
        icon_url: None,
        icon_only: false,
        primaries: vec!["primary".to_string()],
        secondaries,
        selected_primary: 0,
        selected_secondary: 0,
    };
    let game = Game {
        name: "game".to_string(),
        key: None,
        key_status: None,
        categories: Some(vec![Category { name: "attack".to_string(), loadouts: vec![loadout] }]),
        weapons: Some(weapons),
    };
    let mut config = GlobalConfig::default();
    config.keybinds.require_right_hold = false;
    let mut state = AppState::new(config);
    state.games.push(game);
    state.left_hold_active = true;
    state.session_active = true;
    state
}

fn session_moves(commands: &[Command]) -> Vec<(i32, i32)> {
    commands
        .iter()
        .filter_map(|command| match command {
            Command::Move { dx, dy } => Some((*dx, *dy)),
            _ => None,
        })
        .collect()
}

fn session_events(state: &AppState) -> Vec<String> {
    state.events.iter().map(|event| format!("{:?}", event)).collect()
}

#[test]
fn disabled_single_shot_sends_nothing_and_stops_once() {
    let mut state = session_state(session_single_shot(false), None);
    let mut session = HoldSession::new();
    let commands = handle_hold_lmb(&mut session, &mut state, 0);
    assert_eq!(commands, vec![]);
    assert!(session.finished);
    assert!(!session.shooting_started);
    assert!(!state.session_active);
    assert_eq!(
        session_events(&state),
        vec!["StartedShooting { weapon_ind: 0 }".to_string(), "StoppedShooting".to_string()]
    );
    // A finished session stays silent.
    let commands = handle_hold_lmb(&mut session, &mut state, 1);
    assert_eq!(commands, vec![]);
    assert_eq!(state.events.len(), 2);
}

#[test]
fn disabled_full_auto_sends_nothing_and_stops_once() {
    let mut state = session_state(session_full_auto(false), None);
    let mut session = HoldSession::new();
    let commands = handle_hold_lmb(&mut session, &mut state, 0);
    assert_eq!(commands, vec![]);
    assert!(session.finished);
    assert_eq!(state.events.len(), 2);
    assert!(matches!(state.events[0], AppEvent::StartedShooting { weapon_ind: 0 }));
    assert!(matches!(state.events[1], AppEvent::StoppedShooting));
}

#[test]
fn single_shot_moves_once_and_ends() {
    let mut state = session_state(session_single_shot(true), None);
    let mut session = HoldSession::new();
    let commands = handle_hold_lmb(&mut session, &mut state, 0);
    assert_eq!(commands.len(), 20);
    assert_eq!(commands[0], Command::Wait { nanos: 2_000_000 });
    let moves = session_moves(&commands);
    assert_eq!(moves.len(), 10);
    assert_eq!(moves.iter().map(|step| step.1).sum::<i32>(), 30);
    assert_eq!(session.progress, Progress::SingleShot);
    assert!(!session.finished);
    assert_eq!(session_events(&state), vec!["StartedShooting { weapon_ind: 0 }".to_string()]);
    // The trigger is still held: the model never loops.
    let commands = handle_hold_lmb(&mut session, &mut state, 20_000_000);
    assert_eq!(commands, vec![]);
    assert!(session.finished);
    assert!(!state.session_active);
    assert_eq!(state.events.len(), 2);
    assert!(matches!(state.events[1], AppEvent::StoppedShooting));
}

#[test]
fn full_auto_fires_a_scaled_first_shot_then_counted_bursts() {
    let mut state = session_state(session_full_auto(true), None);
    let mut session = HoldSession::new();
    let first = handle_hold_lmb(&mut session, &mut state, 0);
    // 60 s / 860 rounds, split in three.
    let interval = 60_000_000_000u64 / 860;
    assert_eq!(first.len(), 6);
    assert_eq!(first[0], Command::Wait { nanos: interval / 3 });
    let moves = session_moves(&first);
    // -5 * 1.23 = -6.15 and 129.5 * 1.23 = 159.285.
    assert_eq!(moves.iter().map(|step| step.0).sum::<i32>(), -6);
    assert_eq!(moves.iter().map(|step| step.1).sum::<i32>(), 159);
    assert_eq!(session.progress, Progress::FullAuto { slot: 0, iteration: 0 });
    // 129.5 * 1.007^k for k = 0, 1, ..: 129.5, 130.4065, 131.319346, 132.238581, 133.164251.
    let down: [[i32; 10]; 5] = [
        [13, 13, 13, 13, 13, 13, 13, 13, 13, 13],
        [13, 13, 13, 13, 13, 13, 13, 13, 13, 13],
        [13, 13, 13, 14, 13, 13, 13, 13, 13, 13],
        [13, 13, 14, 13, 13, 13, 14, 13, 13, 13],
        [13, 14, 13, 13, 14, 13, 13, 14, 13, 13],
    ];
    let across: [i32; 10] = [-1, 0, -1, 0, -1, 0, -1, 0, -1, 0];
    for expected in 0u64..5 {
        let burst = handle_hold_lmb(&mut session, &mut state, 0);
        assert_eq!(burst.len(), 20);
        for step in 0..10 {
            // A sustained burst moves first and waits afterwards.
            assert_eq!(
                burst[2 * step],
                Command::Move { dx: across[step], dy: down[expected as usize][step] }
            );
            assert_eq!(burst[2 * step + 1], Command::Wait { nanos: interval / 10 });
        }
        assert_eq!(session.progress, Progress::FullAuto { slot: 0, iteration: expected + 1 });
    }
    // However often the weapon is resolved anew, the start is announced once.
    assert_eq!(session_events(&state), vec!["StartedShooting { weapon_ind: 0 }".to_string()]);
    state.left_hold_active = false;
    let last = handle_hold_lmb(&mut session, &mut state, 0);
    assert_eq!(last, vec![]);
    assert!(session.finished);
    assert_eq!(state.events.len(), 2);
    assert!(matches!(state.events[1], AppEvent::StoppedShooting));
}

#[test]
fn full_auto_leaves_the_burst_when_the_weapon_slot_changes() {
    let mut state =
        session_state(session_full_auto(true), Some(session_single_shot(true)));
    let mut session = HoldSession::new();
    handle_hold_lmb(&mut session, &mut state, 0);
    handle_hold_lmb(&mut session, &mut state, 0);
    assert_eq!(session.progress, Progress::FullAuto { slot: 0, iteration: 1 });
    state.current_weapon_index = 1;
    let commands = handle_hold_lmb(&mut session, &mut state, 0);
    // No further burst: the single-shot weapon of the other slot takes over.
    assert_eq!(commands.len(), 20);
    assert_eq!(commands[0], Command::Wait { nanos: 2_000_000 });
    assert_eq!(session_moves(&commands).iter().map(|step| step.1).sum::<i32>(), 30);
    assert_eq!(session.progress, Progress::SingleShot);
    assert_eq!(state.events.len(), 1);
}

#[test]
fn full_auto_ends_when_the_weapon_is_disabled_mid_session() {
    let mut state = session_state(session_full_auto(true), None);
    let mut session = HoldSession::new();
    handle_hold_lmb(&mut session, &mut state, 0);
    handle_hold_lmb(&mut session, &mut state, 0);
    let mut weapons = IdTable::new();
    weapons.insert("primary".to_string(), session_full_auto(false));
    state.games[0].weapons = Some(weapons);
    let commands = handle_hold_lmb(&mut session, &mut state, 0);
    assert_eq!(commands, vec![]);
    assert!(session.finished);
    assert_eq!(state.events.len(), 2);
}

#[test]
fn full_auto_without_a_rate_of_fire_ends_the_session() {
    let mut weapon = session_full_auto(true);
    if let Weapon::FullAutoStandard(config) = &mut weapon {
        config.rpm = 0;
    }
    let mut state = session_state(weapon, None);
    let mut session = HoldSession::new();
    let commands = handle_hold_lmb(&mut session, &mut state, 0);
    assert_eq!(commands, vec![]);
    assert!(session.finished);
}

#[test]
fn single_fire_second_shot_waits_for_the_trigger_cap() {
    let mut state = session_state(session_single_fire(true, true), None);
    let mut session = HoldSession::new();
    let shot = handle_hold_lmb(&mut session, &mut state, 1_000_000_000);
    assert_eq!(shot[0], Command::KeyDown { key: '3' });
    assert_eq!(shot.len(), 21);
    assert_eq!(session_moves(&shot).iter().map(|step| step.1).sum::<i32>(), 47);
    assert_eq!(session.progress, Progress::SingleFire { slot: 0, stage: Stage::Recoiling });
    assert_eq!(session.weapon_id, "primary");
    assert_eq!(state.last_shot_times.get(&"primary".to_string()), Some(&1_000_000_000));
    let release = handle_hold_lmb(&mut session, &mut state, 1_010_000_000);
    assert_eq!(
        release,
        vec![
            Command::Wait { nanos: 25_000_000 },
            Command::KeyUp { key: '3' },
            Command::Wait { nanos: 90_000_000 },
        ]
    );
    assert_eq!(session.progress, Progress::SingleFire { slot: 0, stage: Stage::Cycling });
    // 99.999999 ms after the first shot: too early.
    let wait = handle_hold_lmb(&mut session, &mut state, 1_099_999_999);
    assert_eq!(wait, vec![Command::Wait { nanos: POLL_NANOS }]);
    assert_eq!(session.progress, Progress::SingleFire { slot: 0, stage: Stage::Ready });
    assert_eq!(state.last_shot_times.get(&"primary".to_string()), Some(&1_000_000_000));
    // Exactly 100 ms after the first shot: fire.
    let shot = handle_hold_lmb(&mut session, &mut state, 1_100_000_000);
    assert_eq!(shot[0], Command::KeyDown { key: '3' });
    assert_eq!(state.last_shot_times.get(&"primary".to_string()), Some(&1_100_000_000));
    assert_eq!(state.events.len(), 1);
}

#[test]
fn single_fire_without_autofire_stops_after_one_shot() {
    let mut state = session_state(session_single_fire(true, false), None);
    let mut session = HoldSession::new();
    let shot = handle_hold_lmb(&mut session, &mut state, 0);
    assert_eq!(shot.len(), 21);
    let end = handle_hold_lmb(&mut session, &mut state, 10_000_000);
    assert_eq!(end, vec![]);
    assert!(session.finished);
    assert_eq!(state.events.len(), 2);
}

#[test]
fn disabled_single_fire_fires_without_moving() {
    let mut state = session_state(session_single_fire(false, true), None);
    let mut session = HoldSession::new();
    let shot = handle_hold_lmb(&mut session, &mut state, 0);
    assert_eq!(
        shot,
        vec![Command::KeyDown { key: '3' }, Command::Wait { nanos: 10_000_000 }]
    );
    assert!(!session.finished);
}

#[test]
fn single_fire_forgets_the_weapon_it_leaves() {
    let mut state = session_state(
        session_single_fire(true, true),
        Some(session_single_shot(true)),
    );
    let mut session = HoldSession::new();
    handle_hold_lmb(&mut session, &mut state, 0);
    handle_hold_lmb(&mut session, &mut state, 10_000_000);
    assert_eq!(session.progress, Progress::SingleFire { slot: 0, stage: Stage::Cycling });
    assert!(state.last_shot_times.contains_key(&"primary".to_string()));
    state.current_weapon_index = 1;
    handle_hold_lmb(&mut session, &mut state, 125_000_000);
    assert!(!state.last_shot_times.contains_key(&"primary".to_string()));
    assert_eq!(session.progress, Progress::SingleShot);
}

#[test]
fn closed_hold_policy_idles_and_stops_once() {
    let mut state = session_state(session_full_auto(true), None);
    state.global_config.keybinds.require_right_hold = true;
    let mut session = HoldSession::new();
    // The secondary button is up: nothing was started, nothing is stopped.
    let idle = handle_hold_lmb(&mut session, &mut state, 0);
    assert_eq!(idle, vec![Command::Wait { nanos: POLL_NANOS }]);
    assert_eq!(state.events.len(), 0);
    state.right_hold_active = true;
    handle_hold_lmb(&mut session, &mut state, 0);
    handle_hold_lmb(&mut session, &mut state, 0);
    assert_eq!(state.events.len(), 1);
    state.right_hold_active = false;
    for _ in 0..3 {
        let idle = handle_hold_lmb(&mut session, &mut state, 0);
        assert_eq!(idle, vec![Command::Wait { nanos: POLL_NANOS }]);
    }
    // One stop, not one per pass.
    assert_eq!(state.events.len(), 2);
    assert!(matches!(state.events[1], AppEvent::StoppedShooting));
    assert!(!session.finished);
    state.left_hold_active = false;
    let end = handle_hold_lmb(&mut session, &mut state, 0);
    assert_eq!(end, vec![]);
    assert!(session.finished);
    assert_eq!(state.events.len(), 2);
}

#[test]
fn a_session_that_resumes_after_a_pause_announces_no_second_start() {
    let mut state = session_state(session_full_auto(true), None);
    state.global_config.keybinds.require_right_hold = true;
    state.right_hold_active = true;
    let mut session = HoldSession::new();
    handle_hold_lmb(&mut session, &mut state, 0);
    handle_hold_lmb(&mut session, &mut state, 0);
    assert_eq!(session_events(&state), vec!["StartedShooting { weapon_ind: 0 }".to_string()]);
    // The secondary button goes up: the session pauses and says so once.
    state.right_hold_active = false;
    for _ in 0..3 {
        let idle = handle_hold_lmb(&mut session, &mut state, 0);
        assert_eq!(idle, vec![Command::Wait { nanos: POLL_NANOS }]);
    }
    assert_eq!(
        session_events(&state),
        vec!["StartedShooting { weapon_ind: 0 }".to_string(), "StoppedShooting".to_string()]
    );
    assert!(session.start_announced);
    assert!(!session.shooting_started);
    assert!(!session.finished);
    // The button is held again: the session fires on, and the start is not repeated.
    state.right_hold_active = true;
    let first = handle_hold_lmb(&mut session, &mut state, 0);
    assert_eq!(first.len(), 6);
    assert_eq!(session.progress, Progress::FullAuto { slot: 0, iteration: 0 });
    for burst in 0u64..4 {
        let commands = handle_hold_lmb(&mut session, &mut state, 0);
        assert_eq!(commands.len(), 20);
        assert_eq!(session.progress, Progress::FullAuto { slot: 0, iteration: burst + 1 });
    }
    assert_eq!(state.events.len(), 2);
    // A second pause and a second resumption change nothing of that.
    state.right_hold_active = false;
    handle_hold_lmb(&mut session, &mut state, 0);
    state.right_hold_active = true;
    handle_hold_lmb(&mut session, &mut state, 0);
    assert_eq!(state.events.len(), 2);
    // No start is out, so the end of the session announces no further stop.
    state.left_hold_active = false;
    let end = handle_hold_lmb(&mut session, &mut state, 0);
    assert_eq!(end, vec![]);
    assert!(session.finished);
    assert!(!state.session_active);
    assert_eq!(
        session_events(&state),
        vec!["StartedShooting { weapon_ind: 0 }".to_string(), "StoppedShooting".to_string()]
    );
}

#[test]
fn failed_resolution_ends_the_session_quietly() {
    let mut state = session_state(session_full_auto(true), None);
    state.current_loadout_index = 5;
    let mut session = HoldSession::new();
    let commands = handle_hold_lmb(&mut session, &mut state, 0);
    assert_eq!(commands, vec![]);
    assert!(session.finished);
    assert!(!state.session_active);
    assert_eq!(state.events.len(), 0);
}

#[test]
fn failed_resolution_after_a_start_announces_the_stop() {
    let mut state = session_state(session_full_auto(true), None);
    let mut session = HoldSession::new();
    handle_hold_lmb(&mut session, &mut state, 0);
    state.games.clear();
    let commands = handle_hold_lmb(&mut session, &mut state, 0);
    assert_eq!(commands, vec![]);
    assert!(session.finished);
    assert_eq!(state.events.len(), 2);
    assert!(matches!(state.events[1], AppEvent::StoppedShooting));
}

#[test]
fn magnified_optic_uses_its_own_multipliers() {
    let mut weapon = session_single_shot(true);
    if let Weapon::SingleShot(config) = &mut weapon {
        config.description = Some("with Acog sight".to_string());
    }
    let mut state = session_state(weapon, None);
    state.global_config.mouse_config.acog_vertical_multiplier = 2000;
    state.global_config.mouse_config.vertical_multiplier = 500;
    let mut session = HoldSession::new();
    let commands = handle_hold_lmb(&mut session, &mut state, 0);
    assert_eq!(session_moves(&commands).iter().map(|step| step.1).sum::<i32>(), 60);
}

#[test]
fn two_rapid_presses_start_one_session() {
    let mut state = session_state(session_full_auto(true), None);
    state.left_hold_active = false;
    state.session_active = false;
    let first = dispatch_input(&mut state, InputEvent::PrimaryDown);
    let second = dispatch_input(&mut state, InputEvent::PrimaryDown);
    assert!(first.start_session);
    assert!(!second.start_session);
    // A release and a new press while the session is alive start nothing either.
    dispatch_input(&mut state, InputEvent::PrimaryUp);
    let third = dispatch_input(&mut state, InputEvent::PrimaryDown);
    assert!(!third.start_session);
    // Once the session has ended and the trigger was released, a press starts the next.
    let mut session = HoldSession::new();
    dispatch_input(&mut state, InputEvent::PrimaryUp);
    // The first shot of a full-auto weapon goes out before the trigger is looked at.
    let first_shot = handle_hold_lmb(&mut session, &mut state, 0);
    assert_eq!(first_shot.len(), 6);
    assert!(state.session_active);
    handle_hold_lmb(&mut session, &mut state, 0);
    assert!(session.finished);
    assert!(!state.session_active);
    let fourth = dispatch_input(&mut state, InputEvent::PrimaryDown);
    assert!(fourth.start_session);
}
