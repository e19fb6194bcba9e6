use vstd::prelude::*;
use crate::direction::Direction;

verus! {

/// The behaviour of a passage between two rooms: whether it can currently be
/// gone through, and how it is described when seen in a given direction.
///
/// Both operations are pure: `can_go_through` depends only on the exit's
/// current state, and `description` returns exactly the characters given by
/// `spec_description` for every direction and every name, the empty name
/// included.
pub trait ExitType {
    /// What `can_go_through` returns, as a function of the exit's state.
    spec fn spec_can_go_through(&self) -> bool;

    /// The exact characters `description` returns for `direction`.
    spec fn spec_description(&self, direction: Direction) -> Seq<char>;

    /// Whether the player can currently go through this exit.
    fn can_go_through(&self) -> (r: bool)
        ensures
            r == self.spec_can_go_through(),
    ;

    /// A short phrase describing the exit together with a direction, such as
    /// "a wooden door north" or "an archway south".
    fn description(&self, direction: Direction) -> (r: String)
        ensures
            r@ == self.spec_description(direction),
    ;
}

} // verus!
