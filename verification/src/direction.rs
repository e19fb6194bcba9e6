use vstd::prelude::*;

verus! {

/// A compass direction. Exits are stored with the direction of travel from
/// the edge's source room to its target room.
#[derive(Clone, Copy, Debug, PartialEq, Eq, Structural)]
pub enum Direction {
    North,
    East,
    South,
    West,
}

impl Direction {
    /// The direction pointing the opposite way: north and south swap, east
    /// and west swap.
    pub open spec fn opposite_spec(self) -> Direction {
        match self {
            Direction::North => Direction::South,
            Direction::East => Direction::West,
            Direction::South => Direction::North,
            Direction::West => Direction::East,
        }
    }

    /// Returns the opposite direction.
    pub fn opposite(&self) -> (r: Direction)
        ensures
            r == self.opposite_spec(),
    {
        match self {
            Direction::North => Direction::South,
            Direction::East => Direction::West,
            Direction::South => Direction::North,
            Direction::West => Direction::East,
        }
    }

    /// The fixed lowercase name of the direction.
    pub open spec fn text_spec(self) -> Seq<char> {
        match self {
            Direction::North => "north"@,
            Direction::East => "east"@,
            Direction::South => "south"@,
            Direction::West => "west"@,
        }
    }

    /// Returns the fixed lowercase name of the direction.
    pub fn to_text(&self) -> (r: &'static str)
        ensures
            r@ == self.text_spec(),
    {
        match self {
            Direction::North => "north",
            Direction::East => "east",
            Direction::South => "south",
            Direction::West => "west",
        }
    }
}

/// Law: `opposite` is an involution, and the four directions map pairwise,
/// north with south and east with west.
pub proof fn lemma_opposite_involution(d: Direction)
    ensures
        d.opposite_spec().opposite_spec() == d,
        Direction::North.opposite_spec() == Direction::South,
        Direction::South.opposite_spec() == Direction::North,
        Direction::East.opposite_spec() == Direction::West,
        Direction::West.opposite_spec() == Direction::East,
{
}

} // verus!
