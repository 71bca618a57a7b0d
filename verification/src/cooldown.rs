//! The trigger cooldown tracker: the instant of each weapon's last shot.
//!
//! A single-fire weapon may not fire again before its trigger delay and its
//! recoil completion time have both passed since its last shot. Instants are
//! readings of one monotonic clock, in nanoseconds.

use crate::selection::get_weapon_id;
use crate::types::{AppState, NANOS_PER_MILLI};
use vstd::prelude::*;

verus! {

/// The least time between two shots of a weapon, in nanoseconds.
pub open spec fn trigger_cap_nanos(trigger_delay_ms: u32, recoil_completion_ms: u32) -> int {
    (trigger_delay_ms + recoil_completion_ms) * NANOS_PER_MILLI
}

/// The time from `last` to `now`; zero where the clock reads earlier than `last`.
pub open spec fn elapsed_nanos(now: u64, last: u64) -> int {
    if now >= last {
        now - last
    } else {
        0
    }
}

/// Whether the weapon `id` may fire at `now`: it has no recorded shot, or its cap has passed.
pub open spec fn ready_to_fire(
    times: Map<Seq<char>, u64>,
    id: Seq<char>,
    trigger_delay_ms: u32,
    recoil_completion_ms: u32,
    now: u64,
) -> bool {
    times.contains_key(id) ==> elapsed_nanos(now, times[id]) >= trigger_cap_nanos(
        trigger_delay_ms,
        recoil_completion_ms,
    )
}

/// Says whether enough time has passed since the weapon's last shot.
pub fn can_fire_single_fire_weapon(
    state: &AppState,
    weapon_id: &String,
    trigger_delay_ms: u32,
    recoil_completion_ms: u32,
    now: u64,
) -> (ready: bool)
    ensures
        ready == ready_to_fire(
            state.last_shot_times@,
            weapon_id@,
            trigger_delay_ms,
            recoil_completion_ms,
            now,
        ),
{
    match state.last_shot_times.get(weapon_id) {
        Some(last) => {
            let last: u64 = *last;
            let elapsed: u64 = if now >= last {
                now - last
            } else {
                0
            };
            let cap_ms: u64 = trigger_delay_ms as u64 + recoil_completion_ms as u64;
            let cap: u64 = cap_ms * NANOS_PER_MILLI;
            elapsed >= cap
        },
        None => true,
    }
}

/// Records that the weapon fired at `now`.
pub fn record_shot_fired(state: &mut AppState, weapon_id: &String, now: u64)
    ensures
        final(state).last_shot_times@ == old(state).last_shot_times@.insert(weapon_id@, now),
        *final(state) == (AppState { last_shot_times: final(state).last_shot_times, ..*old(state) }),
{
    state.last_shot_times.insert(weapon_id.clone(), now);
}

/// Forgets the weapon's last shot.
pub fn clear_shot_timing(state: &mut AppState, weapon_id: &String)
    ensures
        final(state).last_shot_times@ == old(state).last_shot_times@.remove(weapon_id@),
        *final(state) == (AppState { last_shot_times: final(state).last_shot_times, ..*old(state) }),
{
    state.last_shot_times.remove(weapon_id);
}

/// Forgets the last shot of the weapon that the cursors select, if they select one.
pub fn clear_current_weapon_timing(state: &mut AppState)
    ensures
        final(state).last_shot_times@ == match crate::selection::current_weapon_id(old(state)) {
            Ok(id) => old(state).last_shot_times@.remove(id),
            Err(_) => old(state).last_shot_times@,
        },
        *final(state) == (AppState { last_shot_times: final(state).last_shot_times, ..*old(state) }),
{
    match get_weapon_id(state) {
        Ok(weapon_id) => {
            clear_shot_timing(state, &weapon_id);
        },
        Err(_) => {},
    }
}

/// A weapon without a recorded shot may fire at once.
pub proof fn lemma_unrecorded_weapon_is_ready(
    times: Map<Seq<char>, u64>,
    id: Seq<char>,
    trigger_delay_ms: u32,
    recoil_completion_ms: u32,
    now: u64,
)
    requires
        !times.contains_key(id),
    ensures
        ready_to_fire(times, id, trigger_delay_ms, recoil_completion_ms, now),
{
}

/// After a shot at `fired`, the weapon may fire again at `now` exactly when
/// the trigger delay and the recoil completion time have passed in between.
pub proof fn lemma_cap_after_shot(
    times: Map<Seq<char>, u64>,
    id: Seq<char>,
    trigger_delay_ms: u32,
    recoil_completion_ms: u32,
    fired: u64,
    now: u64,
)
    requires
        fired <= now,
    ensures
        ready_to_fire(times.insert(id, fired), id, trigger_delay_ms, recoil_completion_ms, now)
            <==> now - fired >= (trigger_delay_ms + recoil_completion_ms) * 1_000_000,
{
}

/// Clearing a weapon's entry makes it ready and leaves every other weapon as it was.
pub proof fn lemma_clear_resets_one_weapon(
    times: Map<Seq<char>, u64>,
    id: Seq<char>,
    other: Seq<char>,
    trigger_delay_ms: u32,
    recoil_completion_ms: u32,
    now: u64,
)
    requires
        other != id,
    ensures
        ready_to_fire(times.remove(id), id, trigger_delay_ms, recoil_completion_ms, now),
        ready_to_fire(times.remove(id), other, trigger_delay_ms, recoil_completion_ms, now)
            == ready_to_fire(times, other, trigger_delay_ms, recoil_completion_ms, now),
{
}

} // verus!
