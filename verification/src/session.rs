//! The hold session: what the engine does while the primary trigger is held.
//!
//! A session is advanced pass by pass. Each pass reads the shared state as it
//! is at that moment, decides, and hands back the commands to perform; the
//! caller performs them and comes back for the next pass. Notifications are
//! appended to the state's event queue. The session ends when the trigger is
//! released, when the selection leads to no weapon, when the weapon is
//! disabled, or when the firing model has run its course.
//!
//! A session tells the user interface once that shooting has started: at the
//! first pass that reaches a weapon. It tells that shooting has stopped when
//! the hold policy blocks it or when it ends, if a start is out. A session
//! that goes on after the hold policy has blocked it sends neither again.

use crate::cooldown::{
    can_fire_single_fire_weapon, clear_shot_timing, ready_to_fire, record_shot_fired,
};
use crate::growth::{grow, grown};
use crate::recoil::{effective_multipliers, multipliers_for};
use crate::scheduler::{movement_plan, plan_movement};
use crate::selection::{current_weapon, current_weapon_id, get_weapon, SelectionError};
use crate::types::{
    AppEvent, AppState, Command, GlobalConfig, Micro, Milli, Model, Weapon, MILLI_PER_UNIT,
    NANOS_PER_MILLI, NANOS_PER_MINUTE,
};
use vstd::prelude::*;

verus! {

/// How long the session idles before it looks again, in nanoseconds.
pub const POLL_NANOS: u64 = 10_000_000;

/// Steps of the scaled first shot of a full-auto weapon.
pub const FIRST_SHOT_SPLITS: u32 = 3;

/// Steps of every other movement.
pub const SHOT_SPLITS: u32 = 10;

/// Where a single-fire weapon stands in its cycle.
#[derive(Clone, Copy, Debug, PartialEq, Eq, Structural)]
pub enum Stage {
    /// About to fire, once the trigger cap allows.
    Ready,
    /// A shot was fired and its recoil window has passed.
    Recoiling,
    /// The trigger was released and the trigger delay has passed.
    Cycling,
}

/// What the session is in the middle of.
#[derive(Clone, Copy, Debug, PartialEq, Eq, Structural)]
pub enum Progress {
    /// Nothing: the next pass looks at the hold policy and the selection.
    Idle,
    /// A full-auto burst on weapon slot `slot`; `iteration` sustained bursts were sent.
    FullAuto { slot: usize, iteration: u64 },
    /// A single-fire cycle on weapon slot `slot`.
    SingleFire { slot: usize, stage: Stage },
    /// The one shot of a single-shot weapon was sent.
    SingleShot,
}

/// One hold of the primary trigger.
#[derive(Clone, Debug)]
pub struct HoldSession {
    /// This session has sent its "started shooting" notification; it sends no other.
    pub start_announced: bool,
    /// A "started shooting" notification is out and not yet matched by a "stopped" one.
    pub shooting_started: bool,
    /// The session is over; further passes do nothing.
    pub finished: bool,
    pub progress: Progress,
    /// The single-fire weapon that fired last in this session.
    pub weapon_id: String,
}

/// A [`HoldSession`] as a plain value.
pub struct SessionModel {
    pub start_announced: bool,
    pub shooting_started: bool,
    pub finished: bool,
    pub progress: Progress,
    pub weapon_id: Seq<char>,
}

impl View for HoldSession {
    type V = SessionModel;

    open spec fn view(&self) -> SessionModel {
        SessionModel {
            start_announced: self.start_announced,
            shooting_started: self.shooting_started,
            finished: self.finished,
            progress: self.progress,
            weapon_id: self.weapon_id@,
        }
    }
}

/// What a pass needs to know of the weapon it acts on.
#[derive(Clone, Copy, Debug, PartialEq, Eq, Structural)]
pub struct Target {
    pub model: Model,
    pub enabled: bool,
    pub autofire: bool,
    pub rpm: u64,
    pub first_shot_scale: Milli,
    pub exponential_factor: Milli,
    pub dx: Milli,
    pub dy: Milli,
    pub trigger_delay_ms: u32,
    pub recoil_completion_ms: u32,
    pub release_delay_ms: u32,
    pub horizontal_multiplier: Milli,
    pub vertical_multiplier: Milli,
}

/// What a pass does.
#[derive(Clone, Copy, Debug, PartialEq, Eq, Structural)]
pub enum Decision {
    /// The session is over already.
    Nothing,
    /// End the session.
    End,
    /// The hold policy asks for the secondary button and it is not held.
    Blocked,
    /// Send the scaled first shot of a full-auto weapon.
    FirstShot,
    /// Send one sustained burst of a full-auto weapon.
    Sustain,
    /// Wait for the trigger cap of a single-fire weapon.
    Hold,
    /// Fire a single-fire weapon.
    Fire,
    /// Release the trigger of a single-fire weapon and wait to pull it again.
    Release,
    /// Send the one shot of a single-shot weapon.
    Shot,
}

/// The facts that a pass needs of `weapon` under `config`.
pub open spec fn target_of(config: &GlobalConfig, weapon: &Weapon) -> Target {
    let pair = multipliers_for(config, weapon);
    match weapon {
        Weapon::SingleFire(c) => Target {
            model: Model::SingleFire,
            enabled: c.enabled,
            autofire: c.autofire,
            rpm: 0,
            first_shot_scale: 0,
            exponential_factor: 0,
            dx: c.dx,
            dy: c.dy,
            trigger_delay_ms: c.trigger_delay_ms,
            recoil_completion_ms: c.recoil_completion_ms,
            release_delay_ms: c.release_delay_ms,
            horizontal_multiplier: pair.0,
            vertical_multiplier: pair.1,
        },
        Weapon::FullAutoStandard(c) => Target {
            model: Model::FullAuto,
            enabled: c.enabled,
            autofire: false,
            rpm: c.rpm,
            first_shot_scale: c.first_shot_scale,
            exponential_factor: c.exponential_factor,
            dx: c.dx,
            dy: c.dy,
            trigger_delay_ms: 0,
            recoil_completion_ms: 0,
            release_delay_ms: 0,
            horizontal_multiplier: pair.0,
            vertical_multiplier: pair.1,
        },
        Weapon::SingleShot(c) => Target {
            model: Model::SingleShot,
            enabled: c.enabled,
            autofire: false,
            rpm: 0,
            first_shot_scale: 0,
            exponential_factor: 0,
            dx: c.dx,
            dy: c.dy,
            trigger_delay_ms: 0,
            recoil_completion_ms: c.recoil_completion_ms,
            release_delay_ms: 0,
            horizontal_multiplier: pair.0,
            vertical_multiplier: pair.1,
        },
    }
}

/// The weapon that the cursors select, as a pass sees it.
pub open spec fn sighted(state: &AppState) -> Result<Target, SelectionError> {
    match current_weapon(state) {
        Ok(weapon) => Ok(target_of(&state.global_config, &weapon)),
        Err(error) => Err(error),
    }
}

/// The identifier of the weapon that the cursors select; empty where they select none.
pub open spec fn sighted_id(state: &AppState) -> Seq<char> {
    match current_weapon_id(state) {
        Ok(id) => id,
        Err(_) => Seq::empty(),
    }
}

/// The hold policy asks for the secondary button and it is not held.
pub open spec fn policy_blocks(state: &AppState) -> bool {
    state.global_config.keybinds.require_right_hold && !state.right_hold_active
}

/// The trigger is held and the hold policy lets the engine fire.
pub open spec fn keeps_firing(state: &AppState) -> bool {
    state.left_hold_active && !policy_blocks(state)
}

/// A single-fire cycle notices at this pass that the weapon slot has changed.
pub open spec fn leaves_single_fire(session: SessionModel, state: &AppState) -> bool {
    &&& !session.finished
    &&& session.progress matches Progress::SingleFire { slot, stage }
    &&& stage == Stage::Cycling
    &&& state.current_weapon_index != slot
}

/// The last shots as the pass finds them: the weapon that a single-fire cycle
/// has just left is forgotten.
pub open spec fn times_at_pass(session: SessionModel, state: &AppState) -> Map<Seq<char>, u64> {
    if leaves_single_fire(session, state) {
        state.last_shot_times@.remove(session.weapon_id)
    } else {
        state.last_shot_times@
    }
}

/// Fire if the trigger cap allows, wait otherwise.
pub open spec fn fire_or_hold(
    times: Map<Seq<char>, u64>,
    id: Seq<char>,
    target: Target,
    now: u64,
) -> Decision {
    if ready_to_fire(times, id, target.trigger_delay_ms, target.recoil_completion_ms, now) {
        Decision::Fire
    } else {
        Decision::Hold
    }
}

/// What a pass in the middle of a firing model does; `None` where the model
/// is left and the pass starts over.
pub open spec fn resumed(session: SessionModel, state: &AppState, now: u64) -> Option<Decision> {
    match session.progress {
        Progress::Idle => None,
        Progress::SingleShot => Some(Decision::End),
        Progress::FullAuto { slot, iteration } => {
            if iteration > 0 && state.current_weapon_index != slot {
                None
            } else if !keeps_firing(state) {
                if state.left_hold_active {
                    None
                } else {
                    Some(Decision::End)
                }
            } else {
                match sighted(state) {
                    Ok(target) => if target.model == Model::FullAuto && target.enabled
                        && target.rpm > 0 {
                        Some(Decision::Sustain)
                    } else {
                        None
                    },
                    Err(_) => None,
                }
            }
        },
        Progress::SingleFire { slot, stage } => {
            if stage == Stage::Recoiling {
                match sighted(state) {
                    Ok(target) => if target.model != Model::SingleFire {
                        None
                    } else if !keeps_firing(state) || !target.autofire {
                        Some(Decision::End)
                    } else {
                        Some(Decision::Release)
                    },
                    Err(_) => Some(Decision::End),
                }
            } else if stage == Stage::Cycling && state.current_weapon_index != slot {
                None
            } else if !keeps_firing(state) {
                if state.left_hold_active {
                    None
                } else {
                    Some(Decision::End)
                }
            } else {
                match sighted(state) {
                    Ok(target) => if target.model == Model::SingleFire {
                        Some(fire_or_hold(state.last_shot_times@, sighted_id(state), target, now))
                    } else {
                        None
                    },
                    Err(_) => None,
                }
            }
        },
    }
}

/// What a pass does that starts over, with the last shots `times`.
pub open spec fn from_the_top(times: Map<Seq<char>, u64>, state: &AppState, now: u64) -> Decision {
    if policy_blocks(state) {
        Decision::Blocked
    } else {
        match sighted(state) {
            Err(_) => Decision::End,
            Ok(target) => match target.model {
                Model::FullAuto => if target.enabled && target.rpm > 0 {
                    Decision::FirstShot
                } else {
                    Decision::End
                },
                Model::SingleFire => if state.left_hold_active {
                    fire_or_hold(times, sighted_id(state), target, now)
                } else {
                    Decision::End
                },
                Model::SingleShot => if target.enabled {
                    Decision::Shot
                } else {
                    Decision::End
                },
            },
        }
    }
}

/// What the pass does.
pub open spec fn decide(session: SessionModel, state: &AppState, now: u64) -> Decision {
    if session.finished {
        Decision::Nothing
    } else {
        match resumed(session, state, now) {
            Some(decision) => decision,
            None => from_the_top(times_at_pass(session, state), state, now),
        }
    }
}

/// The pass starts over, the hold policy lets it fire and the selection leads to a weapon.
pub open spec fn reaches_weapon(session: SessionModel, state: &AppState, now: u64) -> bool {
    &&& !session.finished
    &&& resumed(session, state, now) is None
    &&& !policy_blocks(state)
    &&& sighted(state) is Ok
}

/// The pass tells the user interface that shooting has started: it reaches a
/// weapon, and the session has not told so before.
pub open spec fn announces_start(session: SessionModel, state: &AppState, now: u64) -> bool {
    reaches_weapon(session, state, now) && !session.start_announced
}

/// The pass tells the user interface that shooting has stopped.
pub open spec fn announces_stop(session: SessionModel, state: &AppState, now: u64) -> bool {
    let decision = decide(session, state, now);
    &&& decision == Decision::End || decision == Decision::Blocked
    &&& session.shooting_started || announces_start(session, state, now)
}

/// The notifications of the pass, in order.
pub open spec fn pass_events(session: SessionModel, state: &AppState, now: u64) -> Seq<AppEvent> {
    let start = if announces_start(session, state, now) {
        seq![AppEvent::StartedShooting { weapon_ind: state.current_weapon_index }]
    } else {
        Seq::empty()
    };
    let stop = if announces_stop(session, state, now) {
        seq![AppEvent::StoppedShooting]
    } else {
        Seq::empty()
    };
    start + stop
}

/// The pass ends the session.
pub open spec fn ends_session(session: SessionModel, state: &AppState, now: u64) -> bool {
    let decision = decide(session, state, now);
    decision == Decision::End || (decision == Decision::Blocked && !state.left_hold_active)
}

/// The last shots after the pass.
pub open spec fn pass_times(session: SessionModel, state: &AppState, now: u64) -> Map<
    Seq<char>,
    u64,
> {
    if decide(session, state, now) == Decision::Fire {
        times_at_pass(session, state).insert(sighted_id(state), now)
    } else {
        times_at_pass(session, state)
    }
}

/// The time between two rounds of a weapon that fires `rpm` rounds per minute.
pub open spec fn shot_interval(rpm: u64) -> u64
    recommends
        rpm > 0,
{
    (NANOS_PER_MINUTE as int / rpm as int) as u64
}

/// A duration of `millis` milliseconds, in nanoseconds.
pub open spec fn millis_to_nanos(millis: u32) -> u64 {
    (millis * NANOS_PER_MILLI) as u64
}

/// The movement that compensates one round of `target`, `scale` thousandths of it.
pub open spec fn recoil_plan(
    target: Target,
    scale: int,
    splits: nat,
    interval: u64,
) -> Seq<Command> {
    movement_plan(
        target.dx * scale * target.horizontal_multiplier,
        target.dy * scale * target.vertical_multiplier,
        splits,
        interval,
        true,
    )
}

/// The movement of the sustained burst of `target` that follows `iteration`
/// others: as far across as one round, and as far down as one round grown
/// `iteration` times.
pub open spec fn sustained_plan(target: Target, iteration: u64) -> Seq<Command> {
    movement_plan(
        target.dx * MILLI_PER_UNIT * target.horizontal_multiplier,
        grown(
            target.dy * MILLI_PER_UNIT,
            target.exponential_factor as int,
            iteration as nat,
        ) * target.vertical_multiplier,
        SHOT_SPLITS as nat,
        shot_interval(target.rpm),
        false,
    )
}

/// The commands of the pass, in order.
pub open spec fn pass_commands(session: SessionModel, state: &AppState, now: u64) -> Seq<Command> {
    let target = sighted(state)->Ok_0;
    let key = state.global_config.keybinds.alternative_fire;
    match decide(session, state, now) {
        Decision::Nothing => Seq::empty(),
        Decision::End => Seq::empty(),
        Decision::Blocked => if state.left_hold_active {
            seq![Command::Wait { nanos: POLL_NANOS }]
        } else {
            Seq::empty()
        },
        Decision::FirstShot => recoil_plan(
            target,
            target.first_shot_scale as int,
            FIRST_SHOT_SPLITS as nat,
            shot_interval(target.rpm),
        ),
        Decision::Sustain => sustained_plan(target, session.progress->FullAuto_iteration),
        Decision::Hold => seq![Command::Wait { nanos: POLL_NANOS }],
        Decision::Fire => seq![Command::KeyDown { key }] + (if target.enabled {
            recoil_plan(
                target,
                1000,
                SHOT_SPLITS as nat,
                millis_to_nanos(target.recoil_completion_ms),
            )
        } else {
            seq![Command::Wait { nanos: millis_to_nanos(target.recoil_completion_ms) }]
        }),
        Decision::Release => seq![
            Command::Wait { nanos: millis_to_nanos(target.release_delay_ms) },
            Command::KeyUp { key },
            Command::Wait { nanos: millis_to_nanos(target.trigger_delay_ms) },
        ],
        Decision::Shot => recoil_plan(
            target,
            1000,
            SHOT_SPLITS as nat,
            millis_to_nanos(target.recoil_completion_ms),
        ),
    }
}

/// The weapon slot that a firing model is entered or continued on.
pub open spec fn pass_slot(session: SessionModel, state: &AppState, now: u64) -> usize {
    if resumed(session, state, now) is Some {
        match session.progress {
            Progress::FullAuto { slot, .. } => slot,
            Progress::SingleFire { slot, .. } => slot,
            _ => state.current_weapon_index,
        }
    } else {
        state.current_weapon_index
    }
}

/// The session after the pass.
pub open spec fn pass_session(session: SessionModel, state: &AppState, now: u64) -> SessionModel {
    let decision = decide(session, state, now);
    let slot = pass_slot(session, state, now);
    let started = session.shooting_started || announces_start(session, state, now);
    let announced = session.start_announced || announces_start(session, state, now);
    match decision {
        Decision::Nothing => session,
        Decision::End => SessionModel {
            start_announced: announced,
            shooting_started: false,
            finished: true,
            progress: Progress::Idle,
            weapon_id: session.weapon_id,
        },
        Decision::Blocked => SessionModel {
            start_announced: announced,
            shooting_started: false,
            finished: !state.left_hold_active,
            progress: Progress::Idle,
            weapon_id: session.weapon_id,
        },
        Decision::FirstShot => SessionModel {
            start_announced: announced,
            shooting_started: started,
            finished: false,
            progress: Progress::FullAuto { slot, iteration: 0 },
            weapon_id: session.weapon_id,
        },
        Decision::Sustain => SessionModel {
            start_announced: announced,
            shooting_started: started,
            finished: false,
            progress: Progress::FullAuto {
                slot,
                iteration: if session.progress->FullAuto_iteration < u64::MAX {
                    (session.progress->FullAuto_iteration + 1) as u64
                } else {
                    u64::MAX
                },
            },
            weapon_id: session.weapon_id,
        },
        Decision::Hold => SessionModel {
            start_announced: announced,
            shooting_started: started,
            finished: false,
            progress: Progress::SingleFire { slot, stage: Stage::Ready },
            weapon_id: sighted_id(state),
        },
        Decision::Fire => SessionModel {
            start_announced: announced,
            shooting_started: started,
            finished: false,
            progress: Progress::SingleFire { slot, stage: Stage::Recoiling },
            weapon_id: sighted_id(state),
        },
        Decision::Release => SessionModel {
            start_announced: announced,
            shooting_started: started,
            finished: false,
            progress: Progress::SingleFire { slot, stage: Stage::Cycling },
            weapon_id: session.weapon_id,
        },
        Decision::Shot => SessionModel {
            start_announced: announced,
            shooting_started: started,
            finished: false,
            progress: Progress::SingleShot,
            weapon_id: session.weapon_id,
        },
    }
}

/// A session that has not looked at anything yet.
pub open spec fn fresh_session() -> SessionModel {
    SessionModel {
        start_announced: false,
        shooting_started: false,
        finished: false,
        progress: Progress::Idle,
        weapon_id: Seq::empty(),
    }
}

impl HoldSession {
    /// A session that has not looked at anything yet.
    pub fn new() -> (session: Self)
        ensures
            session@ == fresh_session(),
    {
        HoldSession {
            start_announced: false,
            shooting_started: false,
            finished: false,
            progress: Progress::Idle,
            weapon_id: String::new(),
        }
    }
}

/// Collects what a pass needs of `weapon` under `config`.
pub fn target_from(config: &GlobalConfig, weapon: &Weapon) -> (target: Target)
    ensures
        target == target_of(config, weapon),
{
    let (horizontal_multiplier, vertical_multiplier) = effective_multipliers(config, weapon);
    match weapon {
        Weapon::SingleFire(c) => Target {
            model: Model::SingleFire,
            enabled: c.enabled,
            autofire: c.autofire,
            rpm: 0,
            first_shot_scale: 0,
            exponential_factor: 0,
            dx: c.dx,
            dy: c.dy,
            trigger_delay_ms: c.trigger_delay_ms,
            recoil_completion_ms: c.recoil_completion_ms,
            release_delay_ms: c.release_delay_ms,
            horizontal_multiplier,
            vertical_multiplier,
        },
        Weapon::FullAutoStandard(c) => Target {
            model: Model::FullAuto,
            enabled: c.enabled,
            autofire: false,
            rpm: c.rpm,
            first_shot_scale: c.first_shot_scale,
            exponential_factor: c.exponential_factor,
            dx: c.dx,
            dy: c.dy,
            trigger_delay_ms: 0,
            recoil_completion_ms: 0,
            release_delay_ms: 0,
            horizontal_multiplier,
            vertical_multiplier,
        },
        Weapon::SingleShot(c) => Target {
            model: Model::SingleShot,
            enabled: c.enabled,
            autofire: false,
            rpm: 0,
            first_shot_scale: 0,
            exponential_factor: 0,
            dx: c.dx,
            dy: c.dy,
            trigger_delay_ms: 0,
            recoil_completion_ms: c.recoil_completion_ms,
            release_delay_ms: 0,
            horizontal_multiplier,
            vertical_multiplier,
        },
    }
}

/// Follows the cursors to the current weapon and collects what a pass needs of it.
pub fn take_aim(state: &AppState) -> (result: Result<(String, Target), SelectionError>)
    ensures
        match result {
            Ok((id, target)) => sighted(state) == Ok::<Target, SelectionError>(target)
                && sighted_id(state) == id@,
            Err(error) => sighted(state) == Err::<Target, SelectionError>(error),
        },
{
    match get_weapon(state) {
        Ok((id, weapon)) => {
            let target = target_from(&state.global_config, weapon);
            Ok((id, target))
        },
        Err(error) => Err(error),
    }
}

/// `aimed` is what the cursors of `state` lead to.
pub open spec fn aim_matches(
    state: &AppState,
    aimed: Result<(String, Target), SelectionError>,
) -> bool {
    match aimed {
        Ok((id, target)) => sighted(state) == Ok::<Target, SelectionError>(target) && sighted_id(
            state,
        ) == id@,
        Err(error) => sighted(state) == Err::<Target, SelectionError>(error),
    }
}

/// Decides between firing and waiting for the trigger cap.
fn fire_or_wait(state: &AppState, id: &String, target: &Target, now: u64) -> (decision: Decision)
    ensures
        decision == fire_or_hold(state.last_shot_times@, id@, *target, now),
{
    if can_fire_single_fire_weapon(
        state,
        id,
        target.trigger_delay_ms,
        target.recoil_completion_ms,
        now,
    ) {
        Decision::Fire
    } else {
        Decision::Hold
    }
}

/// Decides what a pass in the middle of a firing model does.
fn resume(
    session: &HoldSession,
    state: &AppState,
    aimed: &Result<(String, Target), SelectionError>,
    now: u64,
) -> (decision: Option<Decision>)
    requires
        aim_matches(state, *aimed),
    ensures
        decision == resumed(session@, state, now),
{
    let held: bool = state.left_hold_active;
    let keeps: bool = held && !(state.global_config.keybinds.require_right_hold
        && !state.right_hold_active);
    match session.progress {
        Progress::Idle => None,
        Progress::SingleShot => Some(Decision::End),
        Progress::FullAuto { slot, iteration } => {
            if iteration > 0 && state.current_weapon_index != slot {
                None
            } else if !keeps {
                if held {
                    None
                } else {
                    Some(Decision::End)
                }
            } else {
                match aimed {
                    Ok((_, target)) => if target.model == Model::FullAuto && target.enabled
                        && target.rpm > 0 {
                        Some(Decision::Sustain)
                    } else {
                        None
                    },
                    Err(_) => None,
                }
            }
        },
        Progress::SingleFire { slot, stage } => {
            if stage == Stage::Recoiling {
                match aimed {
                    Ok((_, target)) => if target.model != Model::SingleFire {
                        None
                    } else if !keeps || !target.autofire {
                        Some(Decision::End)
                    } else {
                        Some(Decision::Release)
                    },
                    Err(_) => Some(Decision::End),
                }
            } else if stage == Stage::Cycling && state.current_weapon_index != slot {
                None
            } else if !keeps {
                if held {
                    None
                } else {
                    Some(Decision::End)
                }
            } else {
                match aimed {
                    Ok((id, target)) => if target.model == Model::SingleFire {
                        Some(fire_or_wait(state, id, target, now))
                    } else {
                        None
                    },
                    Err(_) => None,
                }
            }
        },
    }
}

/// Decides what a pass does that starts over.
fn start_over(state: &AppState, aimed: &Result<(String, Target), SelectionError>, now: u64) -> (decision:
    Decision)
    requires
        aim_matches(state, *aimed),
    ensures
        decision == from_the_top(state.last_shot_times@, state, now),
{
    if state.global_config.keybinds.require_right_hold && !state.right_hold_active {
        return Decision::Blocked;
    }
    match aimed {
        Err(_) => Decision::End,
        Ok((id, target)) => match target.model {
            Model::FullAuto => if target.enabled && target.rpm > 0 {
                Decision::FirstShot
            } else {
                Decision::End
            },
            Model::SingleFire => if state.left_hold_active {
                fire_or_wait(state, id, target, now)
            } else {
                Decision::End
            },
            Model::SingleShot => if target.enabled {
                Decision::Shot
            } else {
                Decision::End
            },
        },
    }
}

/// The target that stands for "no weapon": a disabled single-shot weapon
/// that moves nowhere, takes no time and scales everything to nothing.
pub open spec fn blank_target() -> Target {
    Target {
        model: Model::SingleShot,
        enabled: false,
        autofire: false,
        rpm: 0,
        first_shot_scale: 0,
        exponential_factor: 0,
        dx: 0,
        dy: 0,
        trigger_delay_ms: 0,
        recoil_completion_ms: 0,
        release_delay_ms: 0,
        horizontal_multiplier: 0,
        vertical_multiplier: 0,
    }
}

/// A target that stands for "no weapon".
fn no_target() -> (target: Target)
    ensures
        target == blank_target(),
{
    Target {
        model: Model::SingleShot,
        enabled: false,
        autofire: false,
        rpm: 0,
        first_shot_scale: 0,
        exponential_factor: 0,
        dx: 0,
        dy: 0,
        trigger_delay_ms: 0,
        recoil_completion_ms: 0,
        release_delay_ms: 0,
        horizontal_multiplier: 0,
        vertical_multiplier: 0,
    }
}

/// Plans the movement that compensates one round of `target`, `scale` thousandths of it.
fn plan_recoil(target: &Target, scale: Milli, splits: u32, interval: u64) -> (commands: Vec<
    Command,
>)
    ensures
        commands@ == recoil_plan(*target, scale as int, splits as nat, interval),
{
    assert(-0x4000_0000_0000_0000 <= target.dx * scale <= 0x4000_0000_0000_0000
        && -0x4000_0000_0000_0000 <= target.dy * scale <= 0x4000_0000_0000_0000)
        by (nonlinear_arith)
        requires
            -0x8000_0000 <= target.dx <= 0x8000_0000,
            -0x8000_0000 <= target.dy <= 0x8000_0000,
            -0x8000_0000 <= scale <= 0x8000_0000,
    ;
    let dx_total: i64 = (target.dx as i64) * (scale as i64);
    let dy_total: i64 = (target.dy as i64) * (scale as i64);
    plan_movement(
        dx_total,
        dy_total,
        target.horizontal_multiplier,
        target.vertical_multiplier,
        splits,
        interval,
        true,
    )
}

/// Plans the sustained burst of `target` that follows `iteration` others.
fn plan_sustained(target: &Target, iteration: u64) -> (commands: Vec<Command>)
    requires
        target.rpm > 0,
    ensures
        commands@ == sustained_plan(*target, iteration),
{
    let across: Micro = (target.dx as i64) * (MILLI_PER_UNIT as i64);
    let down: Micro = grow(
        (target.dy as i64) * (MILLI_PER_UNIT as i64),
        target.exponential_factor,
        iteration,
    );
    plan_movement(
        across,
        down,
        target.horizontal_multiplier,
        target.vertical_multiplier,
        SHOT_SPLITS,
        NANOS_PER_MINUTE / target.rpm,
        false,
    )
}

/// Advances the hold session by one pass.
///
/// The pass reads `state` as it is, decides as [`decide`] says and returns the
/// commands for the caller to perform, in order, before the next pass. Its
/// notifications are appended to `state.events`; a shot is recorded in, and a
/// left single-fire weapon is forgotten from, `state.last_shot_times`; when
/// the session ends, `state.session_active` is cleared. Nothing else in
/// `state` changes.
pub fn handle_hold_lmb(session: &mut HoldSession, state: &mut AppState, now: u64) -> (commands: Vec<
    Command,
>)
    ensures
        final(session)@ == pass_session(old(session)@, old(state), now),
        commands@ == pass_commands(old(session)@, old(state), now),
        final(state).events@ == old(state).events@ + pass_events(old(session)@, old(state), now),
        final(state).last_shot_times@ == pass_times(old(session)@, old(state), now),
        final(state).session_active == (old(state).session_active && !ends_session(
            old(session)@,
            old(state),
            now,
        )),
        *final(state) == (AppState {
            events: final(state).events,
            last_shot_times: final(state).last_shot_times,
            session_active: final(state).session_active,
            ..*old(state)
        }),
{
    let ghost before = *state;
    let ghost entry = session@;
    if session.finished {
        assert(state.events@ + pass_events(entry, &before, now) =~= state.events@);
        return Vec::new();
    }
    let aimed = take_aim(state);
    let resumption = resume(session, state, &aimed, now);
    let cursor: usize = state.current_weapon_index;
    let held: bool = state.left_hold_active;
    let closed: bool = state.global_config.keybinds.require_right_hold && !state.right_hold_active;
    let key: char = state.global_config.keybinds.alternative_fire;
    let leaving: bool = match session.progress {
        Progress::SingleFire { slot, stage } => stage == Stage::Cycling && cursor != slot,
        _ => false,
    };
    if leaving {
        clear_shot_timing(state, &session.weapon_id);
    }
    assert(state.last_shot_times@ == times_at_pass(entry, &before));
    assert(sighted(state) == sighted(&before));
    assert(sighted_id(state) == sighted_id(&before));
    let decision: Decision = match resumption {
        Some(decision) => decision,
        None => start_over(state, &aimed, now),
    };
    assert(decision == decide(entry, &before, now));
    let starts: bool = resumption.is_none() && !closed && aimed.is_ok()
        && !session.start_announced;
    assert(starts == announces_start(entry, &before, now));
    if starts {
        state.events.push(AppEvent::StartedShooting { weapon_ind: cursor });
        session.start_announced = true;
    }
    let started: bool = session.shooting_started || starts;
    let slot: usize = if resumption.is_some() {
        match session.progress {
            Progress::FullAuto { slot, .. } => slot,
            Progress::SingleFire { slot, .. } => slot,
            _ => cursor,
        }
    } else {
        cursor
    };
    let (id, target): (String, Target) = match aimed {
        Ok((id, target)) => (id, target),
        Err(_) => (String::new(), no_target()),
    };
    let ghost told = state.events@;
    let commands: Vec<Command> = match decision {
        Decision::Nothing => {
            Vec::new()
        },
        Decision::End => {
            if started {
                state.events.push(AppEvent::StoppedShooting);
            }
            session.shooting_started = false;
            session.finished = true;
            session.progress = Progress::Idle;
            state.session_active = false;
            Vec::new()
        },
        Decision::Blocked => {
            if started {
                state.events.push(AppEvent::StoppedShooting);
            }
            session.shooting_started = false;
            session.progress = Progress::Idle;
            if held {
                vec![Command::Wait { nanos: POLL_NANOS }]
            } else {
                session.finished = true;
                state.session_active = false;
                Vec::new()
            }
        },
        Decision::FirstShot => {
            session.shooting_started = started;
            session.progress = Progress::FullAuto { slot, iteration: 0 };
            let interval: u64 = NANOS_PER_MINUTE / target.rpm;
            plan_recoil(&target, target.first_shot_scale, FIRST_SHOT_SPLITS, interval)
        },
        Decision::Sustain => {
            let iteration: u64 = match session.progress {
                Progress::FullAuto { iteration, .. } => iteration,
                _ => 0,
            };
            session.shooting_started = started;
            session.progress = Progress::FullAuto {
                slot,
                iteration: if iteration < u64::MAX {
                    iteration + 1
                } else {
                    u64::MAX
                },
            };
            plan_sustained(&target, iteration)
        },
        Decision::Hold => {
            session.shooting_started = started;
            session.progress = Progress::SingleFire { slot, stage: Stage::Ready };
            session.weapon_id = id;
            vec![Command::Wait { nanos: POLL_NANOS }]
        },
        Decision::Fire => {
            record_shot_fired(state, &id, now);
            session.shooting_started = started;
            session.progress = Progress::SingleFire { slot, stage: Stage::Recoiling };
            session.weapon_id = id;
            let window: u64 = (target.recoil_completion_ms as u64) * NANOS_PER_MILLI;
            let mut commands: Vec<Command> = vec![Command::KeyDown { key }];
            if target.enabled {
                let mut recoil = plan_recoil(&target, 1000, SHOT_SPLITS, window);
                commands.append(&mut recoil);
            } else {
                commands.push(Command::Wait { nanos: window });
            }
            commands
        },
        Decision::Release => {
            session.shooting_started = started;
            session.progress = Progress::SingleFire { slot, stage: Stage::Cycling };
            vec![
                Command::Wait { nanos: (target.release_delay_ms as u64) * NANOS_PER_MILLI },
                Command::KeyUp { key },
                Command::Wait { nanos: (target.trigger_delay_ms as u64) * NANOS_PER_MILLI },
            ]
        },
        Decision::Shot => {
            session.shooting_started = started;
            session.progress = Progress::SingleShot;
            let window: u64 = (target.recoil_completion_ms as u64) * NANOS_PER_MILLI;
            plan_recoil(&target, 1000, SHOT_SPLITS, window)
        },
    };
    proof {
        assert(state.events@ =~= before.events@ + pass_events(entry, &before, now));
        assert(commands@ =~= pass_commands(entry, &before, now));
    }
    commands
}

} // verus!
