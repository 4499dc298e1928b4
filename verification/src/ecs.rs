//! The entity handle of the ECS, carried through the decision logic as an
//! opaque identifier.

use vstd::prelude::*;

verus! {

/// `bevy::ecs::entity::Entity` is only stored and handed back by this crate;
/// nothing here looks inside it.
#[verifier::external_type_specification]
#[verifier::external_body]
pub struct ExEntity(bevy::ecs::entity::Entity);

} // verus!
