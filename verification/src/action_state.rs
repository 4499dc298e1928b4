//! The life-cycle state of an action (a thinker is an action too).

use vstd::prelude::*;

verus! {

/// State of an action entity. Actions start in `Init`, are `Requested` by
/// their thinker, run while `Executing`, may be asked to stop with
/// `Cancelled`, and end in `Success` or `Failure`.
#[derive(Debug, Clone, Copy, PartialEq, Eq, Structural)]
pub enum ActionState {
    Init,
    Requested,
    Executing,
    Cancelled,
    Success,
    Failure,
}

impl ActionState {
    /// The action has wrapped up on its own.
    pub open spec fn spec_is_done(self) -> bool {
        self is Success || self is Failure
    }

    /// Whether the action has finished, successfully or not.
    pub fn is_done(&self) -> (r: bool)
        ensures
            r == self.spec_is_done(),
    {
        match self {
            ActionState::Success | ActionState::Failure => true,
            _ => false,
        }
    }
}

} // verus!
