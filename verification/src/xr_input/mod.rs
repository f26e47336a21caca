//! Input: the declaration of actions and what is read from them each frame.

pub mod actions;
pub mod controllers;
pub mod hands;
pub mod interactions;
pub mod oculus_touch;
pub mod profiles;
pub mod resolver;

use vstd::prelude::*;
use crate::xr_input::controllers::XrControllerType;
use crate::xr_input::oculus_touch::ActionSets;

verus! {

/// Which hand a tracked device or a two-handed action belongs to.
#[derive(Clone, Copy, Debug, PartialEq, Eq, PartialOrd, Ord, Structural)]
pub enum Hand {
    Left,
    Right,
}

/// The input of one kind of controller.
#[derive(Clone, Copy)]
pub struct OpenXrInput {
    pub controller_type: XrControllerType,
}

impl OpenXrInput {
    pub fn new(controller_type: XrControllerType) -> (input: OpenXrInput)
        ensures
            input.controller_type == controller_type,
    {
        Self { controller_type }
    }
}

/// The action sets to sync this tick: all that were created, in order.
pub fn action_set_system(action_sets: &ActionSets) -> (active: Vec<usize>)
    ensures
        active@ == action_sets.0@,
{
    let mut active: Vec<usize> = Vec::new();
    let mut i: usize = 0;
    while i < action_sets.0.len()
        invariant
            i <= action_sets.0@.len(),
            active@ == action_sets.0@.take(i as int),
        decreases action_sets.0@.len() - i,
    {
        active.push(action_sets.0[i]);
        assert(action_sets.0@.take(i + 1) =~= action_sets.0@.take(i as int).push(
            action_sets.0@[i as int],
        ));
        i += 1;
    }
    assert(action_sets.0@.take(i as int) =~= action_sets.0@);
    active
}

} // verus!
