use vstd::prelude::*;
use crate::game_map::Edge;
use crate::game_map::GameMap;
use crate::room::Room;

verus! {

/// The entire game world. For now it owns exactly one map; it is the seed
/// for future global state and adds no invariants of its own.
#[derive(Debug)]
pub struct World {
    /// The map of the world.
    pub map: GameMap,
}

impl World {
    /// Creates a new world owning an empty map.
    pub fn new() -> (r: World)
        ensures
            r.map.rooms_seq() == Seq::<Room>::empty(),
            r.map.edges_seq() == Seq::<Edge>::empty(),
            r.map.wf(),
    {
        World { map: GameMap::new() }
    }
}

impl Default for World {
    /// A world owning an empty map, as `World::new` builds it.
    fn default() -> (r: World)
        ensures
            r.map.rooms_seq() == Seq::<Room>::empty(),
            r.map.edges_seq() == Seq::<Edge>::empty(),
            r.map.wf(),
    {
        World::new()
    }
}

} // verus!
