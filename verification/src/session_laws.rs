//! What holds of every hold session, whatever happens around it.
//!
//! A session is run against a sequence of inputs: the shared state and the
//! clock as each pass finds them. Between two passes anything may change, so
//! the inputs of a run are unrelated to each other.

use crate::cooldown::ready_to_fire;
use crate::session::{
    announces_start, announces_stop, decide, ends_session, fresh_session, pass_commands,
    pass_events, pass_session, pass_times, policy_blocks, sighted, sighted_id, sustained_plan,
    times_at_pass, Decision, Progress, SessionModel,
};
use crate::types::{AppEvent, AppState, Command, Model};
use vstd::prelude::*;

verus! {

/// The session after it has made one pass on each of `inputs`.
pub open spec fn run_session(session: SessionModel, inputs: Seq<(AppState, u64)>) -> SessionModel
    decreases inputs.len(),
{
    if inputs.len() == 0 {
        session
    } else {
        pass_session(
            run_session(session, inputs.drop_last()),
            &inputs.last().0,
            inputs.last().1,
        )
    }
}

/// The notifications of a run, in order.
pub open spec fn run_events(session: SessionModel, inputs: Seq<(AppState, u64)>) -> Seq<AppEvent>
    decreases inputs.len(),
{
    if inputs.len() == 0 {
        Seq::empty()
    } else {
        run_events(session, inputs.drop_last()) + pass_events(
            run_session(session, inputs.drop_last()),
            &inputs.last().0,
            inputs.last().1,
        )
    }
}

/// Whether the user interface shows shooting after `event`, if it showed
/// `shown` before; `None` where the event repeats what is shown already.
pub open spec fn after_event(shown: bool, event: AppEvent) -> Option<bool> {
    match event {
        AppEvent::StartedShooting { .. } => if shown {
            None
        } else {
            Some(true)
        },
        AppEvent::StoppedShooting => if shown {
            Some(false)
        } else {
            None
        },
        _ => Some(shown),
    }
}

/// Whether the user interface shows shooting after `events`, if it showed
/// `shown` before; `None` where a start follows a start or a stop follows a stop.
pub open spec fn after_events(shown: bool, events: Seq<AppEvent>) -> Option<bool>
    decreases events.len(),
{
    if events.len() == 0 {
        Some(shown)
    } else {
        match after_events(shown, events.drop_last()) {
            None => None,
            Some(between) => after_event(between, events.last()),
        }
    }
}

/// The number of "started shooting" notifications among `events`.
pub open spec fn count_starts(events: Seq<AppEvent>) -> nat
    decreases events.len(),
{
    if events.len() == 0 {
        0
    } else {
        count_starts(events.drop_last()) + if events.last() is StartedShooting {
            1nat
        } else {
            0nat
        }
    }
}

/// A session that is over shows no shooting.
pub open spec fn settled(session: SessionModel) -> bool {
    session.finished ==> !session.shooting_started
}

/// A start that is out was announced by this session.
pub open spec fn accounted(session: SessionModel) -> bool {
    session.shooting_started ==> session.start_announced
}

proof fn lemma_after_events_concat(shown: bool, first: Seq<AppEvent>, second: Seq<AppEvent>)
    ensures
        after_events(shown, first + second) == match after_events(shown, first) {
            None => None,
            Some(between) => after_events(between, second),
        },
    decreases second.len(),
{
    if second.len() == 0 {
        assert(first + second =~= first);
    } else {
        lemma_after_events_concat(shown, first, second.drop_last());
        assert((first + second).drop_last() =~= first + second.drop_last());
        assert((first + second).last() == second.last());
    }
}

proof fn lemma_count_starts_concat(first: Seq<AppEvent>, second: Seq<AppEvent>)
    ensures
        count_starts(first + second) == count_starts(first) + count_starts(second),
    decreases second.len(),
{
    if second.len() == 0 {
        assert(first + second =~= first);
    } else {
        lemma_count_starts_concat(first, second.drop_last());
        assert((first + second).drop_last() =~= first + second.drop_last());
        assert((first + second).last() == second.last());
    }
}

proof fn lemma_short_events(shown: bool, events: Seq<AppEvent>)
    requires
        events.len() <= 2,
    ensures
        events.len() == 0 ==> after_events(shown, events) == Some(shown) && count_starts(events)
            == 0,
        events.len() == 1 ==> after_events(shown, events) == after_event(shown, events[0])
            && count_starts(events) == (if events[0] is StartedShooting {
            1nat
        } else {
            0nat
        }),
        events.len() == 2 ==> after_events(shown, events) == (match after_event(shown, events[0]) {
            None => None,
            Some(between) => after_event(between, events[1]),
        }) && count_starts(events) == (if events[0] is StartedShooting {
            1nat
        } else {
            0nat
        }) + (if events[1] is StartedShooting {
            1nat
        } else {
            0nat
        }),
{
    reveal_with_fuel(after_events, 3);
    reveal_with_fuel(count_starts, 3);
    if events.len() == 2 {
        assert(events.drop_last().len() == 1);
        assert(events.drop_last()[0] == events[0]);
        assert(events.drop_last().drop_last().len() == 0);
    }
}

/// Within one pass, "started" and "stopped" notifications take turns: a start
/// is announced only while no shooting is shown, a stop only while it is, and
/// the session remembers what is shown.
pub proof fn lemma_pass_notifications_take_turns(
    session: SessionModel,
    state: &AppState,
    now: u64,
)
    requires
        accounted(session),
    ensures
        accounted(pass_session(session, state, now)),
        after_events(session.shooting_started, pass_events(session, state, now)) == Some(
            pass_session(session, state, now).shooting_started,
        ),
        count_starts(pass_events(session, state, now)) == (if announces_start(
            session,
            state,
            now,
        ) {
            1nat
        } else {
            0nat
        }),
        settled(session) ==> settled(pass_session(session, state, now)),
{
    lemma_short_events(session.shooting_started, pass_events(session, state, now));
}

/// Over a whole run, "started" and "stopped" notifications take turns, and a
/// session that is over has had its last start followed by a stop.
pub proof fn lemma_run_notifications_take_turns(
    session: SessionModel,
    inputs: Seq<(AppState, u64)>,
)
    requires
        settled(session),
        accounted(session),
    ensures
        after_events(session.shooting_started, run_events(session, inputs)) == Some(
            run_session(session, inputs).shooting_started,
        ),
        settled(run_session(session, inputs)),
        accounted(run_session(session, inputs)),
    decreases inputs.len(),
{
    if inputs.len() > 0 {
        let earlier = inputs.drop_last();
        lemma_run_notifications_take_turns(session, earlier);
        let reached = run_session(session, earlier);
        lemma_pass_notifications_take_turns(reached, &inputs.last().0, inputs.last().1);
        lemma_after_events_concat(
            session.shooting_started,
            run_events(session, earlier),
            pass_events(reached, &inputs.last().0, inputs.last().1),
        );
    }
}

/// Once a session has announced its start, a pass announces no further one,
/// however often it resolves the weapon anew.
pub proof fn lemma_no_second_start(session: SessionModel, state: &AppState, now: u64)
    requires
        session.start_announced,
    ensures
        count_starts(pass_events(session, state, now)) == 0,
        pass_session(session, state, now).start_announced,
{
    lemma_short_events(session.shooting_started, pass_events(session, state, now));
}

/// A stop is announced only by a pass that the hold policy blocks or that ends the session.
pub proof fn lemma_stop_needs_block_or_end(session: SessionModel, state: &AppState, now: u64)
    requires
        announces_stop(session, state, now),
    ensures
        policy_blocks(state) || pass_session(session, state, now).finished,
{
}

/// A run announces at most one start, whatever happens between its passes:
/// none if the session has announced its start before, and its first one is
/// remembered. One session, one "started shooting".
pub proof fn lemma_one_start_per_session(session: SessionModel, inputs: Seq<(AppState, u64)>)
    ensures
        count_starts(run_events(session, inputs)) <= 1,
        session.start_announced ==> count_starts(run_events(session, inputs)) == 0,
        run_session(session, inputs).start_announced == (session.start_announced || count_starts(
            run_events(session, inputs),
        ) == 1),
    decreases inputs.len(),
{
    if inputs.len() > 0 {
        let earlier = inputs.drop_last();
        lemma_one_start_per_session(session, earlier);
        let reached = run_session(session, earlier);
        let state = &inputs.last().0;
        let now = inputs.last().1;
        lemma_short_events(reached.shooting_started, pass_events(reached, state, now));
        lemma_count_starts_concat(run_events(session, earlier), pass_events(reached, state, now));
    }
}

/// A new session announces at most one start in all its passes, and starts
/// and stops take turns from the first pass to the last.
pub proof fn lemma_new_session_starts_once(inputs: Seq<(AppState, u64)>)
    ensures
        count_starts(run_events(fresh_session(), inputs)) <= 1,
        after_events(false, run_events(fresh_session(), inputs)) == Some(
            run_session(fresh_session(), inputs).shooting_started,
        ),
{
    lemma_one_start_per_session(fresh_session(), inputs);
    lemma_run_notifications_take_turns(fresh_session(), inputs);
}

/// A session that goes on after the hold policy has blocked it announces
/// neither a start nor a stop again: its start was announced, and no start is out.
pub proof fn lemma_resumed_session_is_quiet(session: SessionModel, state: &AppState, now: u64)
    requires
        session.start_announced,
        !session.shooting_started,
    ensures
        pass_events(session, state, now) == Seq::<AppEvent>::empty(),
        !pass_session(session, state, now).shooting_started,
{
    assert(!announces_start(session, state, now));
    assert(!announces_stop(session, state, now));
    assert(pass_events(session, state, now) =~= Seq::<AppEvent>::empty());
}

/// A session that is over does nothing more.
pub proof fn lemma_finished_session_is_silent(session: SessionModel, state: &AppState, now: u64)
    requires
        session.finished,
    ensures
        pass_commands(session, state, now) == Seq::<Command>::empty(),
        pass_events(session, state, now) == Seq::<AppEvent>::empty(),
        pass_session(session, state, now) == session,
        pass_times(session, state, now) == state.last_shot_times@,
        !ends_session(session, state, now),
{
    assert(!announces_start(session, state, now));
    assert(!announces_stop(session, state, now));
    assert(pass_events(session, state, now) =~= Seq::<AppEvent>::empty());
}

/// A new session that the hold policy lets fire and that finds a disabled single-shot or
/// full-auto weapon sends no movement: it announces the start, announces the
/// stop once and is over.
pub proof fn lemma_disabled_weapon_ends_session(session: SessionModel, state: &AppState, now: u64)
    requires
        !session.finished,
        !session.start_announced,
        !session.shooting_started,
        session.progress == Progress::Idle,
        !policy_blocks(state),
        sighted(state) is Ok,
        sighted(state)->Ok_0.model != Model::SingleFire,
        !sighted(state)->Ok_0.enabled,
    ensures
        pass_commands(session, state, now) == Seq::<Command>::empty(),
        pass_events(session, state, now) == seq![
            AppEvent::StartedShooting { weapon_ind: state.current_weapon_index },
            AppEvent::StoppedShooting,
        ],
        pass_session(session, state, now).finished,
        !pass_session(session, state, now).shooting_started,
        ends_session(session, state, now),
{
    assert(decide(session, state, now) == Decision::End);
    assert(announces_start(session, state, now));
    assert(announces_stop(session, state, now));
    assert(pass_events(session, state, now) =~= seq![
        AppEvent::StartedShooting { weapon_ind: state.current_weapon_index },
        AppEvent::StoppedShooting,
    ]);
}

/// A selection that leads to no weapon ends the session without a command,
/// with a stop if and only if shooting is shown.
pub proof fn lemma_failed_resolution_ends_session(
    session: SessionModel,
    state: &AppState,
    now: u64,
)
    requires
        !session.finished,
        session.progress == Progress::Idle,
        !policy_blocks(state),
        sighted(state) is Err,
    ensures
        pass_commands(session, state, now) == Seq::<Command>::empty(),
        pass_events(session, state, now) == (if session.shooting_started {
            seq![AppEvent::StoppedShooting]
        } else {
            Seq::<AppEvent>::empty()
        }),
        pass_session(session, state, now).finished,
{
    assert(decide(session, state, now) == Decision::End);
    assert(!announces_start(session, state, now));
    if session.shooting_started {
        assert(pass_events(session, state, now) =~= seq![AppEvent::StoppedShooting]);
    } else {
        assert(pass_events(session, state, now) =~= Seq::<AppEvent>::empty());
    }
}

/// The burst of a full-auto weapon stops without another movement as soon as
/// the weapon slot has changed, the weapon is disabled or the trigger is released.
pub proof fn lemma_full_auto_stops(session: SessionModel, state: &AppState, now: u64)
    requires
        !session.finished,
        session.progress matches Progress::FullAuto { slot, iteration } && (iteration > 0
            && state.current_weapon_index != slot || !state.left_hold_active || (sighted(state)
            matches Ok(target) && !target.enabled)),
    ensures
        decide(session, state, now) != Decision::Sustain,
        !state.left_hold_active && !(session.progress->FullAuto_iteration > 0
            && state.current_weapon_index != session.progress->FullAuto_slot) ==> pass_commands(
            session,
            state,
            now,
        ) == Seq::<Command>::empty() && pass_session(session, state, now).finished,
        !policy_blocks(state) && (sighted(state) matches Ok(target) && !target.enabled
            && target.model == Model::FullAuto) ==> pass_commands(session, state, now) == Seq::<
            Command,
        >::empty() && pass_session(session, state, now).finished,
{
}

/// Each sustained burst of a full-auto weapon moves as far down as one round
/// grown once for every burst sent before it, and is counted in turn.
pub proof fn lemma_sustained_bursts_are_counted(session: SessionModel, state: &AppState, now: u64)
    requires
        decide(session, state, now) == Decision::Sustain,
    ensures
        session.progress is FullAuto,
        pass_commands(session, state, now) == sustained_plan(
            sighted(state)->Ok_0,
            session.progress->FullAuto_iteration,
        ),
        pass_session(session, state, now).progress matches Progress::FullAuto { slot, iteration }
            && slot == session.progress->FullAuto_slot && (session.progress->FullAuto_iteration
            < u64::MAX ==> iteration == session.progress->FullAuto_iteration + 1),
{
}

/// A single-fire weapon fires only when its trigger cap has passed, and waits
/// only when it has not: no early shot, no missed shot.
pub proof fn lemma_fire_respects_trigger_cap(session: SessionModel, state: &AppState, now: u64)
    ensures
        decide(session, state, now) == Decision::Fire ==> sighted(state) is Ok && ready_to_fire(
            times_at_pass(session, state),
            sighted_id(state),
            sighted(state)->Ok_0.trigger_delay_ms,
            sighted(state)->Ok_0.recoil_completion_ms,
            now,
        ) && pass_times(session, state, now) == times_at_pass(session, state).insert(
            sighted_id(state),
            now,
        ),
        decide(session, state, now) == Decision::Hold ==> sighted(state) is Ok && !ready_to_fire(
            times_at_pass(session, state),
            sighted_id(state),
            sighted(state)->Ok_0.trigger_delay_ms,
            sighted(state)->Ok_0.recoil_completion_ms,
            now,
        ) && pass_commands(session, state, now) == seq![
            Command::Wait { nanos: crate::session::POLL_NANOS },
        ],
{
}

/// The session's guard is cleared by the pass that ends the session, and by no other.
pub proof fn lemma_session_ends_once(session: SessionModel, state: &AppState, now: u64)
    ensures
        ends_session(session, state, now) <==> !session.finished && pass_session(
            session,
            state,
            now,
        ).finished,
{
}

/// Two shots of one weapon are at least its trigger cap apart: a pass that
/// finds the weapon's last shot recorded at `fired` and fires at `now` does
/// so no earlier than the cap after `fired`.
pub proof fn lemma_shots_are_a_cap_apart(
    session: SessionModel,
    state: &AppState,
    fired: u64,
    now: u64,
)
    requires
        decide(session, state, now) == Decision::Fire,
        times_at_pass(session, state).contains_key(sighted_id(state)),
        times_at_pass(session, state)[sighted_id(state)] == fired,
        fired <= now,
    ensures
        now - fired >= (sighted(state)->Ok_0.trigger_delay_ms + sighted(
            state,
        )->Ok_0.recoil_completion_ms) * 1_000_000,
{
    lemma_fire_respects_trigger_cap(session, state, now);
}

} // verus!
