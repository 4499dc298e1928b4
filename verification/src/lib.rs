//! Decision core of a utility-AI "thinker": the state that a thinker keeps
//! between ticks, the rules by which it picks, schedules, replaces and cancels
//! actions, and the per-tick budget bookkeeping of the thinker pass.
//!
//! The entity-component plumbing (queries, spawning, despawning, logging
//! spans) lives outside this crate; it reads the world, hands the decision
//! functions here plain observations, and carries out the effects they return.

pub mod ecs;
pub mod action_state;
pub mod thinker;
pub mod laws;
