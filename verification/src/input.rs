//! The reference spaces of a session.

use vstd::prelude::*;

verus! {

/// The kinds of reference space a session is given.
#[derive(Clone, Copy, Debug, PartialEq, Eq, Structural)]
pub enum ReferenceSpaceType {
    /// The space that moves with the head.
    View,
    /// The play area, with the floor at its origin.
    Stage,
    /// The space around the user's start, with the floor at its origin.
    LocalFloor,
}

/// The two reference spaces of a session: the stage everything is located
/// in, and the head.
#[derive(Clone, Copy, Debug, PartialEq, Eq, Structural)]
pub struct XrInput {
    pub stage: ReferenceSpaceType,
    pub head: ReferenceSpaceType,
}

impl XrInput {
    /// Chooses the reference spaces. The stage is the local floor where
    /// the instance offers that extension, and the play area otherwise.
    /// Both spaces are created once, at the identity pose.
    pub fn new(local_floor_offered: bool) -> (input: XrInput)
        ensures
            input.head == ReferenceSpaceType::View,
            input.stage == (if local_floor_offered {
                ReferenceSpaceType::LocalFloor
            } else {
                ReferenceSpaceType::Stage
            }),
    {
        let stage = if local_floor_offered {
            ReferenceSpaceType::LocalFloor
        } else {
            ReferenceSpaceType::Stage
        };
        XrInput { stage, head: ReferenceSpaceType::View }
    }
}

} // verus!
