//! Thinkers are the "brain" of an entity: they hold the scorer/action pairs
//! (choices) of an actor, the action that currently runs, and a queue of
//! actions scheduled by hand, and each tick decide which action should run.

use vstd::prelude::*;
use bevy::ecs::entity::Entity;
use std::collections::VecDeque;
use std::time::Duration;
use crate::action_state::ActionState;

verus! {

/// The entity that actually performs actions: scorers and actions attached to
/// a thinker act on behalf of this entity.
#[derive(Debug, Clone, Copy)]
pub struct Actor(pub Entity);

/// An action entity spawned by a thinker.
#[derive(Debug, Clone, Copy)]
pub struct Action(pub Entity);

impl Action {
    /// The action's entity.
    pub fn entity(&self) -> (e: Entity)
        ensures
            e == self.0,
    {
        self.0
    }
}

/// A scorer entity whose score rates one choice of a thinker.
#[derive(Debug, Clone, Copy)]
pub struct Scorer(pub Entity);

/// Marks an actor with the thinker entity that was spawned for it.
#[derive(Debug, Clone, Copy)]
pub struct HasThinker(Entity);

impl HasThinker {
    /// Records `thinker` as the thinker of an actor.
    pub fn new(thinker: Entity) -> (h: HasThinker)
        ensures
            h.spec_entity() == thinker,
    {
        HasThinker(thinker)
    }

    pub closed spec fn spec_entity(self) -> Entity {
        self.0
    }

    /// The thinker entity.
    pub fn entity(&self) -> (e: Entity)
        ensures
            e == self.spec_entity(),
    {
        self.0
    }
}

/// Identifies an action builder by identity: two handles stand for the same
/// builder exactly when their `id`s agree (handles that are clones of one
/// another share the id). `label` is the builder's label, if it has one.
#[derive(Debug)]
pub struct ActionHandle {
    pub id: u64,
    pub label: Option<String>,
}

impl ActionHandle {
    /// A handle for the builder with identity `id` and the given label.
    pub fn new(id: u64, label: Option<String>) -> (h: ActionHandle)
        ensures
            h.id == id,
            h.label == label,
    {
        ActionHandle { id, label }
    }
}

impl Clone for ActionHandle {
    fn clone(&self) -> (h: Self)
        ensures
            h == *self,
    {
        ActionHandle {
            id: self.id,
            label: match &self.label {
                Some(s) => Some(s.clone()),
                None => None,
            },
        }
    }
}

/// One choice of a thinker: the scorer that rates it and the action to run
/// when it is picked.
#[derive(Debug)]
pub struct Choice {
    pub scorer: Scorer,
    pub action: ActionHandle,
}

impl Clone for Choice {
    fn clone(&self) -> (c: Self)
        ensures
            c == *self,
    {
        Choice { scorer: self.scorer, action: self.action.clone() }
    }
}


/// What a thinker tells the world to do in one tick, besides spawning.
#[derive(Debug, Clone, Copy)]
pub enum Effect {
    /// Set the thinker's own `ActionState`.
    SetThinkerState(ActionState),
    /// Set the `ActionState` of this action entity (if it still has one).
    SetActionState(Entity, ActionState),
    /// Despawn this action entity (if it still exists).
    DespawnAction(Entity),
}

/// The outcome of one thinker tick.
///
/// `effect` is carried out first. When `spawn` holds a handle, an action is
/// then spawned from that builder for the actor, and the new entity must be
/// handed back with `Thinker::install_action`. `completed` is false when the
/// tick stopped early (something it needed to read was missing); the pass
/// over thinkers only checks its time budget after a completed tick.
#[derive(Debug)]
pub struct Tick {
    pub effect: Option<Effect>,
    pub spawn: Option<ActionHandle>,
    pub completed: bool,
}

/// What the world looked like for one thinker at the start of its tick.
#[derive(Debug)]
pub struct Observation {
    /// The thinker's own `ActionState`, if the thinker entity has one.
    pub thinker_state: Option<ActionState>,
    /// The `ActionState` of the thinker's current action entity, if there is
    /// a current action and it still has a state.
    pub current_action_state: Option<ActionState>,
    /// The choice that the thinker's picker picked this tick, if any.
    pub picked: Option<Choice>,
    /// Whether the scorer of the picked choice has a score.
    pub picked_score_present: bool,
}

/// The mathematical state of a thinker.
pub struct ThinkerView {
    pub otherwise: Option<ActionHandle>,
    pub choices: Seq<Choice>,
    pub current_action: Option<(Action, ActionHandle)>,
    pub current_action_label: Option<Option<String>>,
    pub scheduled_actions: Seq<ActionHandle>,
}

/// The "brains" of an actor: glues choices (scorer/action pairs), a default
/// action and hand-scheduled actions together, and decides every tick which
/// action runs.
pub struct Thinker {
    otherwise: Option<ActionHandle>,
    choices: Vec<Choice>,
    current_action: Option<(Action, ActionHandle)>,
    current_action_label: Option<Option<String>>,
    scheduled_actions: VecDeque<ActionHandle>,
}

impl View for Thinker {
    type V = ThinkerView;

    closed spec fn view(&self) -> ThinkerView {
        ThinkerView {
            otherwise: self.otherwise,
            choices: self.choices@,
            current_action: self.current_action,
            current_action_label: self.current_action_label,
            scheduled_actions: self.scheduled_actions@,
        }
    }
}


impl ThinkerView {
    /// The same thinker with no current action.
    pub open spec fn without_current(self) -> ThinkerView {
        ThinkerView { current_action: None, ..self }
    }

    /// The recorded label is that of the current action's builder, whenever
    /// there is a current action.
    pub open spec fn wf(self) -> bool {
        self.current_action matches Some((_, h)) ==> self.current_action_label == Some(h.label)
    }
}

pub open spec fn tick(effect: Option<Effect>, spawn: Option<ActionHandle>, completed: bool) -> Tick {
    Tick { effect, spawn, completed }
}

/// A tick that does nothing and completes.
pub open spec fn idle() -> Tick {
    tick(None, None, true)
}

/// A tick that stops early, doing nothing.
pub open spec fn skipped() -> Tick {
    tick(None, None, false)
}

/// Whether a hand-scheduled action may start now: something is scheduled, and
/// either there is no current action, or its state is gone, or it is done.
pub open spec fn spec_should_schedule(t: ThinkerView, current_state: Option<ActionState>) -> bool {
    &&& t.scheduled_actions.len() > 0
    &&& match t.current_action {
        Some(_) => match current_state {
            None => true,
            Some(s) => s.spec_is_done(),
        },
        None => true,
    }
}

/// Running `picked`: with no current action it is spawned. With a current
/// action whose state is gone, the handle is dropped. Otherwise, when the
/// current action is done, or it is another builder's action and
/// `override_current` holds, the current action is cancelled if it runs
/// (`Requested`/`Executing`), left alone if a cancellation is pending, and
/// else (`Init`/`Success`/`Failure`) despawned and replaced by `picked`. When
/// the current action is kept, an `Init` one is requested.
pub open spec fn spec_exec_picked(
    t: ThinkerView,
    picked: ActionHandle,
    current_state: Option<ActionState>,
    override_current: bool,
) -> (ThinkerView, Tick) {
    match t.current_action {
        Some((a, cur)) => match current_state {
            None => (t.without_current(), idle()),
            Some(s) => if (cur.id != picked.id && override_current) || s.spec_is_done() {
                match s {
                    ActionState::Executing | ActionState::Requested => (
                        t,
                        tick(Some(Effect::SetActionState(a.0, ActionState::Cancelled)), None, true),
                    ),
                    ActionState::Cancelled => (t, idle()),
                    _ => (
                        t.without_current(),
                        tick(Some(Effect::DespawnAction(a.0)), Some(picked), true),
                    ),
                }
            } else if s is Init {
                (t, tick(Some(Effect::SetActionState(a.0, ActionState::Requested)), None, true))
            } else {
                (t, idle())
            },
        },
        None => (t, tick(None, Some(picked), true)),
    }
}

/// A cancelled thinker winds down: a finished current action is despawned and
/// dropped, a running one is asked to cancel, and with no current action the
/// thinker itself succeeds.
pub open spec fn spec_cancel(t: ThinkerView, current_state: Option<ActionState>) -> (ThinkerView, Tick) {
    match t.current_action {
        Some((a, _)) => match current_state {
            None => (t.without_current(), skipped()),
            Some(s) => if s.spec_is_done() {
                (t.without_current(), tick(Some(Effect::DespawnAction(a.0)), None, true))
            } else if s is Cancelled {
                (t, idle())
            } else {
                (t, tick(Some(Effect::SetActionState(a.0, ActionState::Cancelled)), None, true))
            },
        },
        None => (t, tick(Some(Effect::SetThinkerState(ActionState::Success)), None, true)),
    }
}

/// An executing thinker runs, in this order of preference: the picked choice
/// (which may replace the current action), the first scheduled action (when
/// one may start), the `otherwise` action (which never replaces an unfinished
/// current action); with none of these, it cleans up after a finished
/// current action or requests an `Init` one.
pub open spec fn spec_execute(t: ThinkerView, obs: Observation) -> (ThinkerView, Tick) {
    let cs = obs.current_action_state;
    match obs.picked {
        Some(c) => if !obs.picked_score_present {
            (t, skipped())
        } else {
            spec_exec_picked(t, c.action, cs, true)
        },
        None => if spec_should_schedule(t, cs) {
            (
                ThinkerView {
                    scheduled_actions: t.scheduled_actions.drop_first(),
                    current_action: None,
                    ..t
                },
                tick(None, Some(t.scheduled_actions[0]), true),
            )
        } else {
            match t.otherwise {
                Some(h) => spec_exec_picked(t, h, cs, false),
                None => match t.current_action {
                    Some((a, _)) => match cs {
                        None => (t.without_current(), skipped()),
                        Some(s) => if s.spec_is_done() {
                            (t.without_current(), tick(Some(Effect::DespawnAction(a.0)), None, true))
                        } else if s is Init {
                            (
                                t,
                                tick(Some(Effect::SetActionState(a.0, ActionState::Requested)), None, true),
                            )
                        } else {
                            (t, idle())
                        },
                    },
                    None => (t, idle()),
                },
            }
        },
    }
}

/// One tick of a thinker, by the thinker's own state: without a state it is
/// skipped; `Init` moves to `Requested` and `Requested` to `Executing`;
/// finished thinkers do nothing; `Cancelled` and `Executing` thinkers act as
/// `spec_cancel` and `spec_execute` say.
pub open spec fn spec_think(t: ThinkerView, obs: Observation) -> (ThinkerView, Tick) {
    match obs.thinker_state {
        None => (t, skipped()),
        Some(ActionState::Init) => (t, tick(Some(Effect::SetThinkerState(ActionState::Requested)), None, true)),
        Some(ActionState::Requested) => (
            t,
            tick(Some(Effect::SetThinkerState(ActionState::Executing)), None, true),
        ),
        Some(ActionState::Success) | Some(ActionState::Failure) => (t, idle()),
        Some(ActionState::Cancelled) => spec_cancel(t, obs.current_action_state),
        Some(ActionState::Executing) => spec_execute(t, obs),
    }
}

impl Thinker {
    /// Queues `action` to run once the thinker has nothing better to do.
    pub fn schedule_action(&mut self, action: ActionHandle)
        ensures
            final(self)@ == (ThinkerView {
                scheduled_actions: old(self)@.scheduled_actions.push(action),
                ..old(self)@
            }),
    {
        self.scheduled_actions.push_back(action);
    }

    fn current_ids(&self) -> (r: Option<(Entity, u64)>)
        ensures
            match self@.current_action {
                Some((a, h)) => r == Some((a.0, h.id)),
                None => r is None,
            },
    {
        match &self.current_action {
            Some((a, h)) => Some((a.0, h.id)),
            None => None,
        }
    }

    fn should_schedule_action(&self, current_state: Option<ActionState>) -> (r: bool)
        ensures
            r == spec_should_schedule(self@, current_state),
    {
        if self.scheduled_actions.len() == 0 {
            false
        } else {
            match &self.current_action {
                Some(_) => match current_state {
                    None => true,
                    Some(s) => s.is_done(),
                },
                None => true,
            }
        }
    }

    fn exec_picked_action(
        &mut self,
        picked: &ActionHandle,
        current_state: Option<ActionState>,
        override_current: bool,
    ) -> (r: Tick)
        ensures
            (final(self)@, r) == spec_exec_picked(old(self)@, *picked, current_state, override_current),
    {
        match self.current_ids() {
            Some((a, cur_id)) => match current_state {
                None => {
                    self.current_action = None;
                    Tick { effect: None, spawn: None, completed: true }
                },
                Some(s) => {
                    let previous_done = s.is_done();
                    if (cur_id != picked.id && override_current) || previous_done {
                        match s {
                            ActionState::Executing | ActionState::Requested => Tick {
                                effect: Some(Effect::SetActionState(a, ActionState::Cancelled)),
                                spawn: None,
                                completed: true,
                            },
                            ActionState::Cancelled => Tick { effect: None, spawn: None, completed: true },
                            ActionState::Init | ActionState::Success | ActionState::Failure => {
                                self.current_action = None;
                                Tick {
                                    effect: Some(Effect::DespawnAction(a)),
                                    spawn: Some(picked.clone()),
                                    completed: true,
                                }
                            },
                        }
                    } else if s == ActionState::Init {
                        Tick {
                            effect: Some(Effect::SetActionState(a, ActionState::Requested)),
                            spawn: None,
                            completed: true,
                        }
                    } else {
                        Tick { effect: None, spawn: None, completed: true }
                    }
                },
            },
            None => Tick { effect: None, spawn: Some(picked.clone()), completed: true },
        }
    }

    fn cancel_tick(&mut self, current_state: Option<ActionState>) -> (r: Tick)
        ensures
            (final(self)@, r) == spec_cancel(old(self)@, current_state),
    {
        match self.current_ids() {
            Some((a, _)) => match current_state {
                None => {
                    self.current_action = None;
                    Tick { effect: None, spawn: None, completed: false }
                },
                Some(s) => if s.is_done() {
                    self.current_action = None;
                    Tick { effect: Some(Effect::DespawnAction(a)), spawn: None, completed: true }
                } else if s == ActionState::Cancelled {
                    Tick { effect: None, spawn: None, completed: true }
                } else {
                    Tick {
                        effect: Some(Effect::SetActionState(a, ActionState::Cancelled)),
                        spawn: None,
                        completed: true,
                    }
                },
            },
            None => Tick {
                effect: Some(Effect::SetThinkerState(ActionState::Success)),
                spawn: None,
                completed: true,
            },
        }
    }

    fn execute_tick(&mut self, obs: &Observation) -> (r: Tick)
        ensures
            (final(self)@, r) == spec_execute(old(self)@, *obs),
    {
        let cs = obs.current_action_state;
        match &obs.picked {
            Some(c) => if !obs.picked_score_present {
                Tick { effect: None, spawn: None, completed: false }
            } else {
                self.exec_picked_action(&c.action, cs, true)
            },
            None => if self.should_schedule_action(cs) {
                let next = self.scheduled_actions.pop_front();
                self.current_action = None;
                proof {
                    assert(old(self)@.scheduled_actions.drop_first() =~= self@.scheduled_actions);
                }
                Tick { effect: None, spawn: next, completed: true }
            } else {
                match &self.otherwise {
                    Some(h) => {
                        let h = h.clone();
                        self.exec_picked_action(&h, cs, false)
                    },
                    None => match self.current_ids() {
                        Some((a, _)) => match cs {
                            None => {
                                self.current_action = None;
                                Tick { effect: None, spawn: None, completed: false }
                            },
                            Some(s) => if s.is_done() {
                                self.current_action = None;
                                Tick { effect: Some(Effect::DespawnAction(a)), spawn: None, completed: true }
                            } else if s == ActionState::Init {
                                Tick {
                                    effect: Some(Effect::SetActionState(a, ActionState::Requested)),
                                    spawn: None,
                                    completed: true,
                                }
                            } else {
                                Tick { effect: None, spawn: None, completed: true }
                            },
                        },
                        None => Tick { effect: None, spawn: None, completed: true },
                    },
                }
            },
        }
    }

    /// One tick of this thinker, given what the world looked like for it.
    /// The returned effect must be carried out, then the spawn, whose new
    /// entity goes back to `install_action`.
    pub fn think(&mut self, obs: &Observation) -> (r: Tick)
        ensures
            (final(self)@, r) == spec_think(old(self)@, *obs),
    {
        match obs.thinker_state {
            None => Tick { effect: None, spawn: None, completed: false },
            Some(ActionState::Init) => Tick {
                effect: Some(Effect::SetThinkerState(ActionState::Requested)),
                spawn: None,
                completed: true,
            },
            Some(ActionState::Requested) => Tick {
                effect: Some(Effect::SetThinkerState(ActionState::Executing)),
                spawn: None,
                completed: true,
            },
            Some(ActionState::Success) | Some(ActionState::Failure) => Tick {
                effect: None,
                spawn: None,
                completed: true,
            },
            Some(ActionState::Cancelled) => self.cancel_tick(obs.current_action_state),
            Some(ActionState::Executing) => self.execute_tick(obs),
        }
    }

    /// Makes `action`, just spawned from the builder `handle`, the current
    /// action, and records the builder's label.
    pub fn install_action(&mut self, action: Action, handle: ActionHandle)
        ensures
            final(self)@ == (ThinkerView {
                current_action: Some((action, handle)),
                current_action_label: Some(handle.label),
                ..old(self)@
            }),
    {
        let label = match &handle.label {
            Some(s) => Some(s.clone()),
            None => None,
        };
        self.current_action = Some((action, handle));
        self.current_action_label = Some(label);
    }
}


impl Thinker {
    /// A new builder, which is how a thinker's behavior is configured.
    pub fn build<P, S>() -> (b: ThinkerBuilder<P, S>)
        ensures
            b@ == ThinkerBuilder::<P, S>::empty_view(),
    {
        ThinkerBuilder::new()
    }

    /// The thinker that `builder` makes, once a scorer entity was spawned
    /// for each of its choice builders: `scorers[i]` scores the `i`-th choice
    /// builder, and the `i`-th choice pairs it with that builder's action. A
    /// builder needs a picker to make a thinker. A new thinker has no current
    /// action and nothing scheduled.
    pub fn from_builder<P, S>(builder: &ThinkerBuilder<P, S>, scorers: Vec<Entity>) -> (t: Thinker)
        requires
            builder@.picker is Some,
            scorers@.len() == builder@.choices.len(),
        ensures
            t@.choices.len() == builder@.choices.len(),
            forall|i: int|
                0 <= i < scorers@.len() ==> #[trigger] t@.choices[i] == (Choice {
                    scorer: Scorer(scorers@[i]),
                    action: builder@.choices[i].action,
                }),
            t@.otherwise == builder@.otherwise,
            t@.current_action is None,
            t@.current_action_label is None,
            t@.scheduled_actions == Seq::<ActionHandle>::empty(),
    {
        let mut choices: Vec<Choice> = Vec::new();
        let mut i: usize = 0;
        while i < scorers.len()
            invariant
                i <= scorers@.len(),
                scorers@.len() == builder@.choices.len(),
                choices@.len() == i,
                forall|j: int|
                    0 <= j < i ==> #[trigger] choices@[j] == (Choice {
                        scorer: Scorer(scorers@[j]),
                        action: builder@.choices[j].action,
                    }),
            decreases scorers@.len() - i,
        {
            let action = builder.choices[i].action.clone();
            choices.push(Choice { scorer: Scorer(scorers[i]), action });
            i = i + 1;
        }
        let otherwise = match &builder.otherwise {
            Some(h) => Some(h.clone()),
            None => None,
        };
        Thinker {
            otherwise,
            choices,
            current_action: None,
            current_action_label: None,
            scheduled_actions: VecDeque::new(),
        }
    }

    /// The current action's entity, if there is a current action.
    pub fn current_action(&self) -> (r: Option<Action>)
        ensures
            match self@.current_action {
                Some((a, _)) => r == Some(a),
                None => r is None,
            },
    {
        match &self.current_action {
            Some((a, _)) => Some(*a),
            None => None,
        }
    }

    /// The builder of the current action, if there is a current action.
    pub fn current_action_handle(&self) -> (r: Option<&ActionHandle>)
        ensures
            match self@.current_action {
                Some((_, h)) => r == Some(&h),
                None => r is None,
            },
    {
        match &self.current_action {
            Some((_, h)) => Some(h),
            None => None,
        }
    }

    /// The label recorded when the current action was installed.
    pub fn current_action_label(&self) -> (r: &Option<Option<String>>)
        ensures
            *r == self@.current_action_label,
    {
        &self.current_action_label
    }

    /// The thinker's choices, in the order they were configured.
    pub fn choices(&self) -> (r: &Vec<Choice>)
        ensures
            r@ == self@.choices,
    {
        &self.choices
    }

    /// The number of actions waiting in the schedule.
    pub fn scheduled_len(&self) -> (r: usize)
        ensures
            r == self@.scheduled_actions.len(),
    {
        self.scheduled_actions.len()
    }
}

/// A scorer builder paired with the builder of the action it rates.
#[derive(Debug, Clone)]
pub struct ChoiceBuilder<S> {
    pub scorer: S,
    pub action: ActionHandle,
}

/// The mathematical state of a thinker builder.
pub struct ThinkerBuilderView<P, S> {
    pub picker: Option<P>,
    pub otherwise: Option<ActionHandle>,
    pub choices: Seq<ChoiceBuilder<S>>,
    pub label: Option<String>,
}

/// Configures a thinker: the picker that chooses among scored choices (`P`),
/// the choices themselves (scorer builders `S` paired with actions), the
/// action to fall back on, and a label.
#[derive(Debug, Clone)]
pub struct ThinkerBuilder<P, S> {
    picker: Option<P>,
    otherwise: Option<ActionHandle>,
    choices: Vec<ChoiceBuilder<S>>,
    label: Option<String>,
}

impl<P, S> View for ThinkerBuilder<P, S> {
    type V = ThinkerBuilderView<P, S>;

    closed spec fn view(&self) -> ThinkerBuilderView<P, S> {
        ThinkerBuilderView {
            picker: self.picker,
            otherwise: self.otherwise,
            choices: self.choices@,
            label: self.label,
        }
    }
}

impl<P, S> ThinkerBuilder<P, S> {
    /// A builder with nothing configured.
    pub open spec fn empty_view() -> ThinkerBuilderView<P, S> {
        ThinkerBuilderView { picker: None, otherwise: None, choices: Seq::empty(), label: None }
    }

    pub(crate) fn new() -> (b: Self)
        ensures
            b@ == Self::empty_view(),
    {
        ThinkerBuilder { picker: None, otherwise: None, choices: Vec::new(), label: None }
    }

    /// Sets the picker of the thinker.
    pub fn picker(self, picker: P) -> (b: Self)
        ensures
            b@ == (ThinkerBuilderView { picker: Some(picker), ..self@ }),
    {
        let mut b = self;
        b.picker = Some(picker);
        b
    }

    /// Adds a choice: the scorer `scorer` rates the action `action`.
    pub fn when(self, scorer: S, action: ActionHandle) -> (b: Self)
        ensures
            b@ == (ThinkerBuilderView {
                choices: self@.choices.push(ChoiceBuilder { scorer, action }),
                ..self@
            }),
    {
        let mut b = self;
        b.choices.push(ChoiceBuilder { scorer, action });
        b
    }

    /// Sets the action to run when the picker picks none of the choices.
    pub fn otherwise(self, otherwise: ActionHandle) -> (b: Self)
        ensures
            b@ == (ThinkerBuilderView { otherwise: Some(otherwise), ..self@ }),
    {
        let mut b = self;
        b.otherwise = Some(otherwise);
        b
    }

    /// Sets the label used for the thinker when logging.
    pub fn label(self, label: &str) -> (b: Self)
        ensures
            b@.label matches Some(l) && l@ == label@,
            b@.picker == self@.picker,
            b@.otherwise == self@.otherwise,
            b@.choices == self@.choices,
    {
        let mut b = self;
        b.label = Some(label.to_owned());
        b
    }

    /// The configured picker, if any.
    pub fn get_picker(&self) -> (r: &Option<P>)
        ensures
            *r == self@.picker,
    {
        &self.picker
    }

    /// The configured choices, in the order they were added.
    pub fn get_choices(&self) -> (r: &Vec<ChoiceBuilder<S>>)
        ensures
            r@ == self@.choices,
    {
        &self.choices
    }

    /// The configured label, if any.
    pub fn get_label(&self) -> (r: &Option<String>)
        ensures
            *r == self@.label,
    {
        &self.label
    }
}

impl<P, S> Default for ThinkerBuilder<P, S> {
    fn default() -> (b: Self)
        ensures
            b@ == Self::empty_view(),
    {
        ThinkerBuilder::new()
    }
}


/// The number of thinkers after which a pass checks its time budget.
pub const BUDGET_CHECK_INTERVAL: usize = 500;

/// The span of `ms` milliseconds, as `std::time::Duration::from_millis`
/// returns it.
pub uninterp spec fn millis_duration(ms: u64) -> Duration;

/// Calls `std::time::Duration::from_millis`, which depends on `ms` alone; the
/// result is named `millis_duration(ms)`.
#[verifier::external_body]
fn duration_from_millis(ms: u64) -> (d: Duration)
    ensures
        d == millis_duration(ms),
{
    Duration::from_millis(ms)
}

/// Where the pass over all thinkers stands: how many thinkers of the current
/// pass were already visited, and how long one tick may spend on thinkers
/// before the rest of the pass waits for the next tick.
pub struct ThinkerIterations {
    index: usize,
    max_duration: Duration,
}

impl ThinkerIterations {
    pub closed spec fn spec_index(&self) -> usize {
        self.index
    }

    pub closed spec fn spec_max_duration(&self) -> Duration {
        self.max_duration
    }

    /// A pass at its start, with the given budget per tick.
    pub fn new(max_duration: Duration) -> (r: ThinkerIterations)
        ensures
            r.spec_index() == 0,
            r.spec_max_duration() == max_duration,
    {
        ThinkerIterations { index: 0, max_duration }
    }

    /// How many thinkers of the current pass were already visited; a tick
    /// resumes the pass after that many.
    pub fn index(&self) -> (r: usize)
        ensures
            r == self.spec_index(),
    {
        self.index
    }

    /// The time budget per tick.
    pub fn max_duration(&self) -> (r: Duration)
        ensures
            r == self.spec_max_duration(),
    {
        self.max_duration
    }

    /// Counts the thinker about to be visited.
    pub fn begin_thinker(&mut self)
        requires
            old(self).spec_index() < usize::MAX,
        ensures
            final(self).spec_index() == old(self).spec_index() + 1,
            final(self).spec_max_duration() == old(self).spec_max_duration(),
    {
        self.index = self.index + 1;
    }

    /// Whether the tick must stop the pass here: only after a completed
    /// thinker tick, only at every `BUDGET_CHECK_INTERVAL`-th thinker, and
    /// only when the tick is over its budget. The pass then resumes where it
    /// stopped on the next tick.
    pub fn should_pause(&self, completed: bool, over_budget: bool) -> (r: bool)
        ensures
            r == (completed && self.spec_index() % BUDGET_CHECK_INTERVAL == 0 && over_budget),
    {
        completed && self.index % BUDGET_CHECK_INTERVAL == 0 && over_budget
    }

    /// Ends a pass that visited every thinker: the next starts from the first.
    pub fn finish_pass(&mut self)
        ensures
            final(self).spec_index() == 0,
            final(self).spec_max_duration() == old(self).spec_max_duration(),
    {
        self.index = 0;
    }
}

impl Default for ThinkerIterations {
    /// A pass at its start with a budget of ten milliseconds.
    fn default() -> (r: Self)
        ensures
            r.spec_index() == 0,
            r.spec_max_duration() == millis_duration(10),
    {
        ThinkerIterations::new(duration_from_millis(10))
    }
}

} // verus!
