use vstd::prelude::*;

verus! {

/// A room of the world. Its identity is the handle assigned by the map on
/// insertion; the room itself only carries a textual description.
#[derive(Clone, Debug)]
pub struct Room {
    /// A description of the room, stored verbatim; any text is accepted,
    /// the empty string included.
    pub description: String,
}

impl Room {
    /// Creates a new `Room` with the given `description`.
    pub fn new(description: String) -> (r: Room)
        ensures
            r == (Room { description }),
    {
        Room { description }
    }
}

} // verus!
