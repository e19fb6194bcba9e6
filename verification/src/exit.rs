use vstd::prelude::*;
use crate::direction::Direction;
use crate::exit_types::ExitBehavior;

verus! {

/// The payload of one map edge: the direction of travel from the edge's
/// source room to its target room, fixed at creation time, together with the
/// behaviour of the passage.
#[derive(Clone, Debug)]
pub struct Exit {
    /// The direction of travel from the edge's source to its target. A
    /// viewer standing at the target perceives the opposite direction.
    pub direction: Direction,
    /// The behaviour of the passage: whether it can be gone through and how
    /// it is described.
    pub exit_type: ExitBehavior,
}

impl Exit {
    /// Creates a new `Exit` with the given direction and behaviour.
    pub fn new(direction: Direction, exit_type: ExitBehavior) -> (r: Exit)
        ensures
            r == (Exit { direction, exit_type }),
    {
        Exit { direction, exit_type }
    }
}

} // verus!
