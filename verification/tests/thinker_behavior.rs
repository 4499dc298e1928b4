use bevy::ecs::entity::Entity;
use big_brain::action_state::ActionState;
use big_brain::thinker::{
    Action, ActionHandle, Choice, Effect, HasThinker, Observation, Scorer, Thinker, ThinkerBuilder,
    Tick,
};

fn handle(id: u64, label: Option<&str>) -> ActionHandle {
    ActionHandle::new(id, label.map(|s| s.to_string()))
}

fn choice(scorer: u32, id: u64) -> Choice {
    Choice { scorer: Scorer(Entity::from_raw(scorer)), action: handle(id, None) }
}

fn new_thinker(otherwise: Option<ActionHandle>, choices: Vec<Choice>) -> Thinker {
    let mut b: ThinkerBuilder<&str, u32> = Thinker::build().picker("first-to-score");
    if let Some(o) = otherwise {
        b = b.otherwise(o);
    }
    let mut scorers = Vec::new();
    for c in choices {
        scorers.push(c.scorer.0);
        b = b.when(0, c.action);
    }
    Thinker::from_builder(&b, scorers)
}

fn obs(thinker: Option<ActionState>, current: Option<ActionState>, picked: Option<Choice>) -> Observation {
    Observation {
        thinker_state: thinker,
        current_action_state: current,
        picked_score_present: picked.is_some(),
        picked,
    }
}

fn executing(current: Option<ActionState>, picked: Option<Choice>) -> Observation {
    obs(Some(ActionState::Executing), current, picked)
}

fn spawned_id(t: &Tick) -> Option<u64> {
    t.spawn.as_ref().map(|h| h.id)
}

#[test]
fn thinker_moves_from_init_to_executing() {
    let mut t = new_thinker(None, vec![]);
    let r = t.think(&obs(Some(ActionState::Init), None, None));
    assert!(matches!(r.effect, Some(Effect::SetThinkerState(ActionState::Requested))));
    assert!(r.spawn.is_none());
    assert!(r.completed);
    let r = t.think(&obs(Some(ActionState::Requested), None, None));
    assert!(matches!(r.effect, Some(Effect::SetThinkerState(ActionState::Executing))));
}

#[test]
fn thinker_without_state_is_skipped() {
    let mut t = new_thinker(Some(handle(1, None)), vec![]);
    let r = t.think(&obs(None, None, None));
    assert!(r.effect.is_none());
    assert!(r.spawn.is_none());
    assert!(!r.completed);
}

#[test]
fn finished_thinker_does_nothing() {
    for s in [ActionState::Success, ActionState::Failure] {
        let mut t = new_thinker(Some(handle(1, None)), vec![choice(9, 2)]);
        let r = t.think(&obs(Some(s), None, Some(choice(9, 2))));
        assert!(r.effect.is_none());
        assert!(r.spawn.is_none());
        assert!(r.completed);
        assert!(t.current_action().is_none());
    }
}

#[test]
fn picked_action_is_spawned_and_installed_with_its_label() {
    let mut t = new_thinker(None, vec![choice(9, 2)]);
    let mut c = choice(9, 2);
    c.action = handle(2, Some("drink"));
    let r = t.think(&executing(None, Some(c)));
    assert!(r.effect.is_none());
    assert_eq!(spawned_id(&r), Some(2));
    let h = r.spawn.unwrap();
    t.install_action(Action(Entity::from_raw(40)), h);
    assert_eq!(t.current_action().map(|a| a.entity()), Some(Entity::from_raw(40)));
    assert_eq!(t.current_action_handle().map(|h| h.id), Some(2));
    assert_eq!(t.current_action_label(), &Some(Some("drink".to_string())));
}

#[test]
fn same_pick_keeps_current_action() {
    let mut t = new_thinker(None, vec![choice(9, 2)]);
    t.install_action(Action(Entity::from_raw(40)), handle(2, None));
    let r = t.think(&executing(Some(ActionState::Executing), Some(choice(9, 2))));
    assert!(r.effect.is_none());
    assert!(r.spawn.is_none());
    let r = t.think(&executing(Some(ActionState::Init), Some(choice(9, 2))));
    assert!(matches!(r.effect, Some(Effect::SetActionState(e, ActionState::Requested)) if e == Entity::from_raw(40)));
    assert!(r.spawn.is_none());
    assert_eq!(t.current_action().map(|a| a.entity()), Some(Entity::from_raw(40)));
}

#[test]
fn different_pick_cancels_running_action_first() {
    let mut t = new_thinker(None, vec![choice(9, 2), choice(8, 3)]);
    t.install_action(Action(Entity::from_raw(40)), handle(2, None));
    for s in [ActionState::Executing, ActionState::Requested] {
        let r = t.think(&executing(Some(s), Some(choice(8, 3))));
        assert!(matches!(r.effect, Some(Effect::SetActionState(e, ActionState::Cancelled)) if e == Entity::from_raw(40)));
        assert!(r.spawn.is_none());
        assert_eq!(t.current_action().map(|a| a.entity()), Some(Entity::from_raw(40)));
    }
    let r = t.think(&executing(Some(ActionState::Cancelled), Some(choice(8, 3))));
    assert!(r.effect.is_none());
    assert!(r.spawn.is_none());
    let r = t.think(&executing(Some(ActionState::Failure), Some(choice(8, 3))));
    assert!(matches!(r.effect, Some(Effect::DespawnAction(e)) if e == Entity::from_raw(40)));
    assert_eq!(spawned_id(&r), Some(3));
    assert!(t.current_action().is_none());
}

#[test]
fn finished_current_action_is_replaced_even_by_same_pick() {
    let mut t = new_thinker(None, vec![choice(9, 2)]);
    t.install_action(Action(Entity::from_raw(40)), handle(2, None));
    let r = t.think(&executing(Some(ActionState::Success), Some(choice(9, 2))));
    assert!(matches!(r.effect, Some(Effect::DespawnAction(e)) if e == Entity::from_raw(40)));
    assert_eq!(spawned_id(&r), Some(2));
}

#[test]
fn pick_without_score_stops_the_tick() {
    let mut t = new_thinker(None, vec![choice(9, 2)]);
    let mut o = executing(None, Some(choice(9, 2)));
    o.picked_score_present = false;
    let r = t.think(&o);
    assert!(r.effect.is_none());
    assert!(r.spawn.is_none());
    assert!(!r.completed);
}

#[test]
fn current_action_without_state_is_dropped() {
    let mut t = new_thinker(None, vec![choice(9, 2)]);
    t.install_action(Action(Entity::from_raw(40)), handle(2, None));
    let r = t.think(&executing(None, Some(choice(9, 3))));
    assert!(r.effect.is_none());
    assert!(r.spawn.is_none());
    assert!(r.completed);
    assert!(t.current_action().is_none());
    // the label of the dropped action stays recorded
    assert_eq!(t.current_action_label(), &Some(None));
}

#[test]
fn otherwise_runs_when_nothing_is_picked_and_never_preempts() {
    let mut t = new_thinker(Some(handle(5, Some("meander"))), vec![choice(9, 2)]);
    let r = t.think(&executing(None, None));
    assert_eq!(spawned_id(&r), Some(5));
    t.install_action(Action(Entity::from_raw(41)), r.spawn.unwrap());
    // the picked action takes over the running default one
    t.install_action(Action(Entity::from_raw(42)), handle(2, None));
    let r = t.think(&executing(Some(ActionState::Executing), None));
    assert!(r.effect.is_none());
    assert!(r.spawn.is_none());
    assert_eq!(t.current_action().map(|a| a.entity()), Some(Entity::from_raw(42)));
    let r = t.think(&executing(Some(ActionState::Success), None));
    assert!(matches!(r.effect, Some(Effect::DespawnAction(e)) if e == Entity::from_raw(42)));
    assert_eq!(spawned_id(&r), Some(5));
}

#[test]
fn scheduled_actions_run_first_in_first_out() {
    let mut t = new_thinker(Some(handle(5, None)), vec![]);
    t.schedule_action(handle(10, Some("a")));
    t.schedule_action(handle(11, Some("b")));
    assert_eq!(t.scheduled_len(), 2);
    let r = t.think(&executing(None, None));
    assert_eq!(spawned_id(&r), Some(10));
    assert!(r.effect.is_none());
    assert_eq!(t.scheduled_len(), 1);
    t.install_action(Action(Entity::from_raw(50)), r.spawn.unwrap());
    // while it runs nothing else starts, and the default action does not preempt it
    let r = t.think(&executing(Some(ActionState::Executing), None));
    assert!(r.spawn.is_none());
    assert!(r.effect.is_none());
    assert_eq!(t.scheduled_len(), 1);
    // once it is done the next scheduled action starts, without despawning the old one
    let r = t.think(&executing(Some(ActionState::Success), None));
    assert_eq!(spawned_id(&r), Some(11));
    assert!(r.effect.is_none());
    assert_eq!(t.scheduled_len(), 0);
}

#[test]
fn picked_choice_wins_over_schedule() {
    let mut t = new_thinker(None, vec![choice(9, 2)]);
    t.schedule_action(handle(10, None));
    let r = t.think(&executing(None, Some(choice(9, 2))));
    assert_eq!(spawned_id(&r), Some(2));
    assert_eq!(t.scheduled_len(), 1);
}

#[test]
fn executing_without_anything_cleans_up_finished_action() {
    let mut t = new_thinker(None, vec![]);
    let r = t.think(&executing(None, None));
    assert!(r.effect.is_none() && r.spawn.is_none() && r.completed);
    t.install_action(Action(Entity::from_raw(60)), handle(2, None));
    let r = t.think(&executing(Some(ActionState::Init), None));
    assert!(matches!(r.effect, Some(Effect::SetActionState(e, ActionState::Requested)) if e == Entity::from_raw(60)));
    let r = t.think(&executing(Some(ActionState::Failure), None));
    assert!(matches!(r.effect, Some(Effect::DespawnAction(e)) if e == Entity::from_raw(60)));
    assert!(t.current_action().is_none());
    t.install_action(Action(Entity::from_raw(61)), handle(2, None));
    let r = t.think(&executing(None, None));
    assert!(!r.completed);
    assert!(t.current_action().is_none());
}

#[test]
fn cancelled_thinker_without_action_succeeds() {
    let mut t = new_thinker(Some(handle(5, None)), vec![]);
    let r = t.think(&obs(Some(ActionState::Cancelled), None, None));
    assert!(matches!(r.effect, Some(Effect::SetThinkerState(ActionState::Success))));
    assert!(r.spawn.is_none());
}

#[test]
fn cancelled_thinker_cancels_then_despawns_its_action() {
    let mut t = new_thinker(None, vec![]);
    t.install_action(Action(Entity::from_raw(70)), handle(2, None));
    let r = t.think(&obs(Some(ActionState::Cancelled), Some(ActionState::Executing), None));
    assert!(matches!(r.effect, Some(Effect::SetActionState(e, ActionState::Cancelled)) if e == Entity::from_raw(70)));
    let r = t.think(&obs(Some(ActionState::Cancelled), Some(ActionState::Cancelled), None));
    assert!(r.effect.is_none());
    let r = t.think(&obs(Some(ActionState::Cancelled), Some(ActionState::Success), None));
    assert!(matches!(r.effect, Some(Effect::DespawnAction(e)) if e == Entity::from_raw(70)));
    assert!(t.current_action().is_none());
    let r = t.think(&obs(Some(ActionState::Cancelled), None, None));
    assert!(matches!(r.effect, Some(Effect::SetThinkerState(ActionState::Success))));
}

#[test]
fn cancelled_thinker_drops_action_without_state() {
    let mut t = new_thinker(None, vec![]);
    t.install_action(Action(Entity::from_raw(70)), handle(2, None));
    let r = t.think(&obs(Some(ActionState::Cancelled), None, None));
    assert!(r.effect.is_none());
    assert!(!r.completed);
    assert!(t.current_action().is_none());
}

#[test]
fn has_thinker_keeps_its_entity() {
    let h = HasThinker::new(Entity::from_raw(3));
    assert_eq!(h.entity(), Entity::from_raw(3));
    assert_eq!(Action(Entity::from_raw(4)).entity(), Entity::from_raw(4));
}

#[test]
fn action_state_done_states() {
    assert!(ActionState::Success.is_done());
    assert!(ActionState::Failure.is_done());
    for s in [ActionState::Init, ActionState::Requested, ActionState::Executing, ActionState::Cancelled] {
        assert!(!s.is_done());
    }
}
