# big_brain

The decision core of a utility-AI "thinker" for Bevy, verified with Verus.

- `src/thinker.rs`: the thinker's state (choices, `otherwise` action, current
  action, FIFO schedule), its builder, the per-tick decision `Thinker::think`
  (proved equal to the model `spec_think`), and the bookkeeping of the
  budgeted pass over all thinkers (`ThinkerIterations`).
- `src/action_state.rs`: the action life cycle.
- `src/laws.rs`: properties of every tick (what it keeps, which entities it
  touches, when it replaces, cancels or schedules).
- `src/ecs.rs`: the ECS entity type, carried through opaquely.
- `app/`: the Bevy systems and components that read the world, call the core
  and carry out the effects it returns.
