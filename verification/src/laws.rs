//! Properties of the thinker's decisions that hold for every state and every
//! observation, stated over the model that `Thinker::think` and friends are
//! proved against.

use vstd::prelude::*;
use crate::action_state::ActionState;
use crate::thinker::{
    Action, ActionHandle, Effect, Observation, ThinkerView, idle, spec_exec_picked,
    spec_should_schedule, spec_think, tick,
};

verus! {

/// Every tick keeps the recorded label that of the current action's builder,
/// and installing a spawned action records that action's label.
pub proof fn lemma_label_follows_current_action(t: ThinkerView, obs: Observation, a: Action, h: ActionHandle)
    requires
        t.wf(),
    ensures
        spec_think(t, obs).0.wf(),
        (ThinkerView {
            current_action: Some((a, h)),
            current_action_label: Some(h.label),
            ..spec_think(t, obs).0
        }).wf(),
{
}

/// A tick never changes the choices or the `otherwise` action; the schedule
/// either stays as it is or loses exactly its first entry, which is then the
/// action to spawn.
pub proof fn lemma_tick_frame(t: ThinkerView, obs: Observation)
    ensures
        spec_think(t, obs).0.choices == t.choices,
        spec_think(t, obs).0.otherwise == t.otherwise,
        spec_think(t, obs).0.current_action_label == t.current_action_label,
        spec_think(t, obs).0.scheduled_actions == t.scheduled_actions || (
        t.scheduled_actions.len() > 0
            && spec_think(t, obs).0.scheduled_actions == t.scheduled_actions.drop_first()
            && spec_think(t, obs).1.spawn == Some(t.scheduled_actions[0])),
{
}

/// Whenever a tick asks for a spawn, it has let go of the previous current
/// action, so the spawned action installed afterwards is the only current
/// action; and a tick never installs an action by itself.
pub proof fn lemma_spawn_replaces_current(t: ThinkerView, obs: Observation)
    ensures
        spec_think(t, obs).1.spawn is Some ==> spec_think(t, obs).0.current_action is None,
        spec_think(t, obs).0.current_action is Some ==> spec_think(t, obs).0.current_action
            == t.current_action,
{
}

/// The only action entity a tick ever touches (by setting its state or
/// despawning it) is the current action's.
pub proof fn lemma_effects_touch_only_current_action(t: ThinkerView, obs: Observation)
    ensures
        match spec_think(t, obs).1.effect {
            Some(Effect::SetActionState(e, _)) => t.current_action matches Some((a, _)) && a.0 == e,
            Some(Effect::DespawnAction(e)) => t.current_action matches Some((a, _)) && a.0 == e,
            _ => true,
        },
{
}

/// A thinker that is not executing or cancelled never spawns or drops an
/// action: `Init` is requested, `Requested` starts executing, and a finished
/// thinker does nothing at all.
pub proof fn lemma_idle_thinker_is_inert(t: ThinkerView, obs: Observation)
    requires
        obs.thinker_state matches Some(s) && s != ActionState::Executing && s
            != ActionState::Cancelled,
    ensures
        spec_think(t, obs).0 == t,
        spec_think(t, obs).1.spawn is None,
        obs.thinker_state == Some(ActionState::Init) ==> spec_think(t, obs).1.effect == Some(
            Effect::SetThinkerState(ActionState::Requested),
        ),
        obs.thinker_state == Some(ActionState::Requested) ==> spec_think(t, obs).1.effect == Some(
            Effect::SetThinkerState(ActionState::Executing),
        ),
        obs.thinker_state matches Some(s) && s.spec_is_done() ==> spec_think(t, obs).1 == idle(),
{
}

/// A cancelled thinker never starts an action. Without a current action it
/// succeeds; a running current action is asked to cancel; a finished one is
/// despawned.
pub proof fn lemma_cancelled_thinker_winds_down(t: ThinkerView, obs: Observation)
    requires
        obs.thinker_state == Some(ActionState::Cancelled),
    ensures
        spec_think(t, obs).1.spawn is None,
        t.current_action is None ==> spec_think(t, obs).1.effect == Some(
            Effect::SetThinkerState(ActionState::Success),
        ),
        t.current_action matches Some((a, _)) ==> match obs.current_action_state {
            Some(ActionState::Init) | Some(ActionState::Requested) | Some(
                ActionState::Executing,
            ) => spec_think(t, obs).1.effect == Some(
                Effect::SetActionState(a.0, ActionState::Cancelled),
            ),
            Some(ActionState::Success) | Some(ActionState::Failure) => {
                &&& spec_think(t, obs).1.effect == Some(Effect::DespawnAction(a.0))
                &&& spec_think(t, obs).0.current_action is None
            },
            _ => spec_think(t, obs).1.effect is None,
        },
{
}

/// Picking, tick after tick, the action that already runs keeps it: nothing
/// is spawned, cancelled or dropped; at most an `Init` action is requested.
pub proof fn lemma_same_pick_keeps_current(t: ThinkerView, obs: Observation)
    requires
        obs.thinker_state == Some(ActionState::Executing),
        obs.picked matches Some(c) && t.current_action matches Some((_, h)) && c.action.id == h.id,
        obs.picked_score_present,
        obs.current_action_state matches Some(s) && !s.spec_is_done(),
    ensures
        spec_think(t, obs).0 == t,
        spec_think(t, obs).1.spawn is None,
        spec_think(t, obs).1.effect is None || (t.current_action matches Some((a, _))
            && obs.current_action_state == Some(ActionState::Init) && spec_think(t, obs).1.effect
            == Some(Effect::SetActionState(a.0, ActionState::Requested))),
{
}

/// Picking another action than the current one replaces it: a running
/// current action is first asked to cancel (and stays current until it
/// finishes), a pending cancellation is waited for, and an action that has
/// not started or has finished is despawned and the picked action spawned.
pub proof fn lemma_new_pick_replaces_current(t: ThinkerView, obs: Observation)
    requires
        obs.thinker_state == Some(ActionState::Executing),
        obs.picked matches Some(c) && t.current_action matches Some((_, h)) && c.action.id != h.id,
        obs.picked_score_present,
        obs.current_action_state is Some,
    ensures
        t.current_action matches Some((a, _)) ==> match obs.current_action_state {
            Some(ActionState::Requested) | Some(ActionState::Executing) => {
                &&& spec_think(t, obs).0 == t
                &&& spec_think(t, obs).1 == tick(
                    Some(Effect::SetActionState(a.0, ActionState::Cancelled)),
                    None,
                    true,
                )
            },
            Some(ActionState::Cancelled) => spec_think(t, obs) == (t, idle()),
            _ => {
                &&& spec_think(t, obs).0 == t.without_current()
                &&& spec_think(t, obs).1 == tick(
                    Some(Effect::DespawnAction(a.0)),
                    Some(obs.picked->0.action),
                    true,
                )
            },
        },
{
}

/// With no current action, a picked choice's action is spawned.
pub proof fn lemma_pick_starts_action(t: ThinkerView, obs: Observation)
    requires
        obs.thinker_state == Some(ActionState::Executing),
        obs.picked is Some,
        obs.picked_score_present,
        t.current_action is None,
    ensures
        spec_think(t, obs) == (t, tick(None, Some(obs.picked->0.action), true)),
{
}

/// A hand-scheduled action starts only when the picker picked nothing and
/// the current action (if any, and if its state is known) has finished; the
/// schedule is first in, first out: an action scheduled behind others starts
/// only after them.
pub proof fn lemma_schedule_first_in_first_out(t: ThinkerView, h: ActionHandle, obs: Observation)
    requires
        obs.thinker_state == Some(ActionState::Executing),
        obs.picked is None,
    ensures
        ({
            let t2 = ThinkerView { scheduled_actions: t.scheduled_actions.push(h), ..t };
            let r = spec_think(t2, obs);
            &&& r.1.spawn is Some && r.0.scheduled_actions != t2.scheduled_actions ==> {
                &&& r.1.spawn == Some(t2.scheduled_actions[0])
                &&& (t.scheduled_actions.len() > 0 ==> r.1.spawn == Some(t.scheduled_actions[0]))
                &&& r.0.scheduled_actions == t2.scheduled_actions.drop_first()
            }
            &&& (t.current_action is Some && (obs.current_action_state matches Some(s)
                && !s.spec_is_done())) ==> r.0.scheduled_actions == t2.scheduled_actions
        }),
{
    let t2 = ThinkerView { scheduled_actions: t.scheduled_actions.push(h), ..t };
    assert(t.scheduled_actions.len() > 0 ==> t2.scheduled_actions[0] == t.scheduled_actions[0]);
}

/// The `otherwise` action never cuts a current action short: while the
/// current action has a known, unfinished state other than `Init`, an
/// executing thinker with nothing picked leaves it running and does nothing
/// (neither `otherwise` nor a scheduled action takes over).
pub proof fn lemma_otherwise_never_preempts(t: ThinkerView, obs: Observation)
    requires
        obs.thinker_state == Some(ActionState::Executing),
        obs.picked is None,
        t.current_action is Some,
        obs.current_action_state matches Some(s) && !s.spec_is_done() && !(s is Init),
    ensures
        spec_think(t, obs) == (t, idle()),
{
}

/// Running a picked action changes nothing but the current action: choices,
/// `otherwise`, schedule and label stay; the current action stays or is let
/// go; the only effect is requesting, cancelling or despawning the current
/// action's entity (never the thinker's own state); the only spawn is of the
/// picked builder, and it comes with the current action let go.
pub proof fn lemma_exec_picked_frame(
    t: ThinkerView,
    picked: ActionHandle,
    current_state: Option<ActionState>,
    override_current: bool,
)
    ensures
        ({
            let r = spec_exec_picked(t, picked, current_state, override_current);
            &&& r.0.choices == t.choices
            &&& r.0.otherwise == t.otherwise
            &&& r.0.scheduled_actions == t.scheduled_actions
            &&& r.0.current_action_label == t.current_action_label
            &&& r.0.current_action == t.current_action || r.0.current_action is None
            &&& r.1.completed
            &&& match r.1.effect {
                Some(Effect::SetActionState(e, s)) => {
                    &&& t.current_action matches Some((a, _)) && a.0 == e
                    &&& (s == ActionState::Requested || s == ActionState::Cancelled)
                },
                Some(Effect::DespawnAction(e)) => t.current_action matches Some((a, _)) && a.0 == e,
                Some(Effect::SetThinkerState(_)) => false,
                None => true,
            }
            &&& r.1.spawn is None || (r.1.spawn == Some(picked) && r.0.current_action is None)
        }),
{
}

/// Picking again the builder whose action is current and has not finished
/// never restarts it: nothing is spawned or despawned, the current action
/// stays, and an `Init` one is only requested; whether the pick may
/// override makes no difference.
pub proof fn lemma_exec_picked_same_builder_keeps(
    t: ThinkerView,
    picked: ActionHandle,
    current_state: Option<ActionState>,
    override_current: bool,
)
    requires
        t.current_action matches Some((_, h)) && h.id == picked.id,
        current_state matches Some(s) && !s.spec_is_done(),
    ensures
        ({
            let r = spec_exec_picked(t, picked, current_state, override_current);
            &&& r.0 == t
            &&& r.1.spawn is None
            &&& (current_state == Some(ActionState::Init) ==> (t.current_action matches Some((a, _))
                && r.1.effect == Some(Effect::SetActionState(a.0, ActionState::Requested))))
            &&& (current_state != Some(ActionState::Init) ==> r.1.effect is None)
        }),
{
}

/// After a pick spawned `picked` and it was installed, the next pick of the
/// same builder, while the new action is still `Init`, only requests it.
pub proof fn lemma_pick_twice_requests(
    t: ThinkerView,
    picked: ActionHandle,
    a: Action,
    first_override: bool,
    second_override: bool,
)
    requires
        t.current_action is None,
    ensures
        ({
            let first = spec_exec_picked(t, picked, None, first_override);
            let installed = ThinkerView {
                current_action: Some((a, picked)),
                current_action_label: Some(picked.label),
                ..first.0
            };
            let second = spec_exec_picked(installed, picked, Some(ActionState::Init), second_override);
            &&& first.1.spawn == Some(picked)
            &&& second.0 == installed
            &&& second.1 == tick(Some(Effect::SetActionState(a.0, ActionState::Requested)), None, true)
        }),
{
}

/// A scheduled action may start only when something is scheduled, and never
/// while the current action has a known state that is not finished.
pub proof fn lemma_schedule_waits_for_current(t: ThinkerView, current_state: Option<ActionState>)
    ensures
        spec_should_schedule(t, current_state) ==> t.scheduled_actions.len() > 0,
        (t.current_action is Some && (current_state matches Some(s) && !s.spec_is_done()))
            ==> !spec_should_schedule(t, current_state),
        (t.scheduled_actions.len() > 0 && t.current_action is None) ==> spec_should_schedule(
            t,
            current_state,
        ),
{
}

/// A current action that finished (with `Success` or with `Failure`) is
/// always replaced by the picked action, whatever the builder and whether
/// the pick may override: it is despawned and let go, and the picked action
/// is spawned.
pub proof fn lemma_exec_picked_replaces_finished(
    t: ThinkerView,
    picked: ActionHandle,
    current_state: Option<ActionState>,
    override_current: bool,
)
    requires
        t.current_action is Some,
        current_state == Some(ActionState::Success) || current_state == Some(ActionState::Failure),
    ensures
        t.current_action matches Some((a, _)) ==> spec_exec_picked(
            t,
            picked,
            current_state,
            override_current,
        ) == (
            ThinkerView { current_action: None, ..t },
            tick(Some(Effect::DespawnAction(a.0)), Some(picked), true),
        ),
{
}

/// An executing thinker whose picker picked a scored choice replaces a
/// finished current action (`Success` or `Failure`) with the picked action,
/// even when the same builder was picked again.
pub proof fn lemma_pick_replaces_finished_action(t: ThinkerView, obs: Observation)
    requires
        obs.thinker_state == Some(ActionState::Executing),
        obs.picked is Some,
        obs.picked_score_present,
        t.current_action is Some,
        obs.current_action_state == Some(ActionState::Success) || obs.current_action_state == Some(
            ActionState::Failure,
        ),
    ensures
        t.current_action matches Some((a, _)) ==> spec_think(t, obs) == (
            ThinkerView { current_action: None, ..t },
            tick(Some(Effect::DespawnAction(a.0)), Some(obs.picked->0.action), true),
        ),
{
}

/// A queued action may start whenever the current action is absent, has no
/// known state, or finished (with `Success` or with `Failure`).
pub proof fn lemma_schedule_starts_after_any_finish(t: ThinkerView, current_state: Option<ActionState>)
    requires
        t.scheduled_actions.len() > 0,
        t.current_action is None || current_state is None || current_state == Some(
            ActionState::Success,
        ) || current_state == Some(ActionState::Failure),
    ensures
        spec_should_schedule(t, current_state),
{
}

/// With nothing picked, an executing thinker whose current action finished
/// (with `Success` or with `Failure`) starts the first queued action, before
/// the `otherwise` action: the schedule loses its head, which is spawned,
/// and the finished action is let go without being despawned.
pub proof fn lemma_finished_action_yields_to_schedule(t: ThinkerView, obs: Observation)
    requires
        obs.thinker_state == Some(ActionState::Executing),
        obs.picked is None,
        t.scheduled_actions.len() > 0,
        obs.current_action_state == Some(ActionState::Success) || obs.current_action_state == Some(
            ActionState::Failure,
        ),
    ensures
        spec_think(t, obs) == (
            ThinkerView {
                scheduled_actions: t.scheduled_actions.drop_first(),
                current_action: None,
                ..t
            },
            tick(None, Some(t.scheduled_actions[0]), true),
        ),
{
}

/// With nothing picked, an executing thinker never replaces a current action
/// that has not started: whatever is scheduled and whatever the `otherwise`
/// action, the action stays current and is requested.
pub proof fn lemma_unstarted_action_is_requested_not_replaced(t: ThinkerView, obs: Observation)
    requires
        obs.thinker_state == Some(ActionState::Executing),
        obs.picked is None,
        t.current_action is Some,
        obs.current_action_state == Some(ActionState::Init),
    ensures
        t.current_action matches Some((a, _)) ==> spec_think(t, obs) == (
            t,
            tick(Some(Effect::SetActionState(a.0, ActionState::Requested)), None, true),
        ),
{
}

/// With nothing picked and nothing queued, an executing thinker cleans up a
/// finished current action (`Success` or `Failure`): it is despawned and let
/// go, and the `otherwise` action, if there is one, is spawned in its place.
pub proof fn lemma_finished_action_is_cleaned_up(t: ThinkerView, obs: Observation)
    requires
        obs.thinker_state == Some(ActionState::Executing),
        obs.picked is None,
        t.scheduled_actions.len() == 0,
        t.current_action is Some,
        obs.current_action_state == Some(ActionState::Success) || obs.current_action_state == Some(
            ActionState::Failure,
        ),
    ensures
        t.current_action matches Some((a, _)) ==> spec_think(t, obs) == (
            ThinkerView { current_action: None, ..t },
            tick(
                Some(Effect::DespawnAction(a.0)),
                match t.otherwise {
                    Some(h) => Some(h),
                    None => None,
                },
                true,
            ),
        ),
{
}

/// A cancelled thinker holds on to its current action until that action has
/// finished: a running or unstarted one is asked to cancel and stays
/// current, a pending cancellation is waited for, a finished one is
/// despawned and let go; the thinker itself only succeeds once no action is
/// current.
pub proof fn lemma_cancelled_thinker_keeps_unfinished_action(t: ThinkerView, obs: Observation)
    requires
        obs.thinker_state == Some(ActionState::Cancelled),
        t.current_action is Some,
        obs.current_action_state is Some,
    ensures
        t.current_action matches Some((a, _)) ==> match obs.current_action_state {
            Some(ActionState::Init) | Some(ActionState::Requested) | Some(
                ActionState::Executing,
            ) => spec_think(t, obs) == (
                t,
                tick(Some(Effect::SetActionState(a.0, ActionState::Cancelled)), None, true),
            ),
            Some(ActionState::Cancelled) => spec_think(t, obs) == (t, tick(None, None, true)),
            _ => spec_think(t, obs) == (
                ThinkerView { current_action: None, ..t },
                tick(Some(Effect::DespawnAction(a.0)), None, true),
            ),
        },
        spec_think(t, obs).1.effect != Some(Effect::SetThinkerState(ActionState::Success)),
{
}

} // verus!
