use vstd::prelude::*;
use crate::direction::Direction;
use crate::exit::Exit;
use crate::exit_types::ExitBehavior;
use crate::room::Room;

verus! {

/// Stable, opaque identifier of a room within one `GameMap`. Handles are
/// issued at insertion time and stay valid for the map's lifetime; rooms are
/// never removed.
#[derive(Clone, Copy, Debug, PartialEq, Eq, Structural)]
pub struct RoomHandle {
    /// Position of the room in the map's insertion order.
    pub index: usize,
}

/// Stable identifier of an edge within one `GameMap`, as handed out by
/// `get_exits`; edges are never removed.
#[derive(Clone, Copy, Debug, PartialEq, Eq, Structural)]
pub struct EdgeRef {
    /// Position of the edge in the map's insertion order.
    pub index: usize,
}

/// Whether an edge leads away from or towards the room it was queried from.
#[derive(Clone, Copy, Debug, PartialEq, Eq, Structural)]
pub enum ExitWay {
    /// The queried room is the edge's source: the exit leads away from it.
    From,
    /// The queried room is the edge's target: the exit leads towards it.
    To,
}

/// The one failure of this subsystem: a room handle that does not belong to
/// the map it was passed to.
#[derive(Clone, Copy, Debug, PartialEq, Eq, Structural)]
pub enum MapError {
    /// A `RoomHandle` passed to the map was not issued by it.
    InvalidHandle,
}

/// A directed edge of the map: source room, target room, and the exit record
/// carried between them.
#[derive(Clone, Debug)]
pub struct Edge {
    /// The room the edge leads away from.
    pub from: RoomHandle,
    /// The room the edge leads towards.
    pub to: RoomHandle,
    /// The direction and behaviour of the passage.
    pub exit: Exit,
}

/// The direction an edge reads as from a given endpoint: its stored
/// direction when seen from the source, the opposite when seen from the
/// target.
pub open spec fn relative_direction_spec(stored: Direction, exit_way: ExitWay) -> Direction {
    match exit_way {
        ExitWay::From => stored,
        ExitWay::To => stored.opposite_spec(),
    }
}

/// The outgoing entries of a room's exit listing: one `(edge, From)` pair for
/// each edge whose source is `room`, in edge-insertion order.
pub open spec fn outgoing_refs(edges: Seq<Edge>, room: RoomHandle) -> Seq<(EdgeRef, ExitWay)>
    decreases edges.len(),
{
    if edges.len() == 0 {
        Seq::empty()
    } else {
        outgoing_refs(edges.drop_last(), room) + (
        if edges.last().from == room {
            seq![(EdgeRef { index: (edges.len() - 1) as usize }, ExitWay::From)]
        } else {
            Seq::empty()
        })
    }
}

/// The incoming entries of a room's exit listing: one `(edge, To)` pair for
/// each edge whose target is `room`, in edge-insertion order.
pub open spec fn incoming_refs(edges: Seq<Edge>, room: RoomHandle) -> Seq<(EdgeRef, ExitWay)>
    decreases edges.len(),
{
    if edges.len() == 0 {
        Seq::empty()
    } else {
        incoming_refs(edges.drop_last(), room) + (
        if edges.last().to == room {
            seq![(EdgeRef { index: (edges.len() - 1) as usize }, ExitWay::To)]
        } else {
            Seq::empty()
        })
    }
}

/// A room's full exit listing: every edge touching the room, outgoing edges
/// first and incoming edges after them, each group in edge-insertion order.
/// This ordering is part of the map's contract.
pub open spec fn exit_listing(edges: Seq<Edge>, room: RoomHandle) -> Seq<(EdgeRef, ExitWay)> {
    outgoing_refs(edges, room) + incoming_refs(edges, room)
}

/// A directed graph of rooms connected by exits. Rooms and edges are only
/// ever added, so the handles it issues stay valid; every operation that
/// takes a handle checks it and reports `InvalidHandle` instead of touching
/// the map when the handle was not issued by it.
#[derive(Debug)]
pub struct GameMap {
    rooms: Vec<Room>,
    edges: Vec<Edge>,
}

impl GameMap {
    /// The rooms of the map, in insertion order; a handle's `index` points
    /// into this sequence.
    pub closed spec fn rooms_seq(self) -> Seq<Room> {
        self.rooms@
    }

    /// The edges of the map, in insertion order; an `EdgeRef`'s `index`
    /// points into this sequence.
    pub closed spec fn edges_seq(self) -> Seq<Edge> {
        self.edges@
    }

    /// Whether `h` was issued by this map: handles are issued densely from
    /// zero, so exactly the indices below the room count belong to it.
    pub open spec fn valid_handle(self, h: RoomHandle) -> bool {
        h.index < self.rooms_seq().len()
    }

    /// Well-formedness: every edge connects rooms that belong to the map.
    /// Constructors establish this and every operation preserves it.
    pub open spec fn wf(self) -> bool {
        forall|i: int|
            0 <= i < self.edges_seq().len() ==> self.valid_handle(
                (#[trigger] self.edges_seq()[i]).from,
            ) && self.valid_handle(self.edges_seq()[i].to)
    }

    /// Creates a new, empty map.
    pub fn new() -> (r: GameMap)
        ensures
            r.rooms_seq() == Seq::<Room>::empty(),
            r.edges_seq() == Seq::<Edge>::empty(),
            r.wf(),
    {
        GameMap { rooms: Vec::new(), edges: Vec::new() }
    }

    /// Creates a new room with the given description, adds it to the map and
    /// returns its handle. Always succeeds; the handle is distinct from every
    /// handle the map has issued before.
    pub fn new_room(&mut self, room_description: String) -> (r: RoomHandle)
        ensures
            r.index == old(self).rooms_seq().len(),
            final(self).rooms_seq() == old(self).rooms_seq().push(
                (Room { description: room_description }),
            ),
            final(self).edges_seq() == old(self).edges_seq(),
            final(self).valid_handle(r),
            old(self).wf() ==> final(self).wf(),
    {
        let handle = RoomHandle { index: self.rooms.len() };
        let room = Room::new(room_description);
        self.rooms.push(room);
        handle
    }

    /// Adds a room built by the caller to the map and returns its handle.
    /// Always succeeds; the handle is distinct from every handle the map has
    /// issued before.
    pub fn add_room(&mut self, room: Room) -> (r: RoomHandle)
        ensures
            r.index == old(self).rooms_seq().len(),
            final(self).rooms_seq() == old(self).rooms_seq().push(room),
            final(self).edges_seq() == old(self).edges_seq(),
            final(self).valid_handle(r),
            old(self).wf() ==> final(self).wf(),
    {
        let handle = RoomHandle { index: self.rooms.len() };
        self.rooms.push(room);
        handle
    }

    /// Connects the room `from` to the room `to` with an edge carrying the
    /// given direction and behaviour. Succeeds exactly when both handles
    /// belong to this map, appending one edge; otherwise reports
    /// `InvalidHandle` and leaves the map unchanged.
    pub fn connect_rooms(
        &mut self,
        from: RoomHandle,
        to: RoomHandle,
        direction: Direction,
        exit: ExitBehavior,
    ) -> (r: Result<(), MapError>)
        ensures
            r is Ok <==> old(self).valid_handle(from) && old(self).valid_handle(to),
            r is Ok ==> final(self).edges_seq() == old(self).edges_seq().push(
                (Edge { from, to, exit: Exit { direction, exit_type: exit } }),
            ),
            r is Ok ==> final(self).rooms_seq() == old(self).rooms_seq(),
            r is Err ==> *final(self) == *old(self),
            r matches Err(e) ==> e == MapError::InvalidHandle,
            old(self).wf() ==> final(self).wf(),
    {
        if from.index >= self.rooms.len() || to.index >= self.rooms.len() {
            return Err(MapError::InvalidHandle);
        }
        let edge = Edge { from, to, exit: Exit::new(direction, exit) };
        self.edges.push(edge);
        Ok(())
    }

    /// Creates a new room with the given description and connects `from` to
    /// it with an edge carrying the given direction and behaviour. Succeeds
    /// exactly when `from` belongs to this map, returning the new room's
    /// handle; otherwise reports `InvalidHandle` and leaves the map
    /// unchanged.
    pub fn new_room_in_direction(
        &mut self,
        from: RoomHandle,
        direction: Direction,
        exit: ExitBehavior,
        room_description: String,
    ) -> (r: Result<RoomHandle, MapError>)
        ensures
            r is Ok <==> old(self).valid_handle(from),
            r matches Ok(h) ==> h.index == old(self).rooms_seq().len(),
            r matches Ok(h) ==> final(self).rooms_seq() == old(self).rooms_seq().push(
                (Room { description: room_description }),
            ),
            r matches Ok(h) ==> final(self).edges_seq() == old(self).edges_seq().push(
                (Edge { from, to: h, exit: Exit { direction, exit_type: exit } }),
            ),
            r is Err ==> *final(self) == *old(self),
            r matches Err(e) ==> e == MapError::InvalidHandle,
            old(self).wf() ==> final(self).wf(),
    {
        if from.index >= self.rooms.len() {
            return Err(MapError::InvalidHandle);
        }
        let to = self.new_room(room_description);
        let edge = Edge { from, to, exit: Exit::new(direction, exit) };
        self.edges.push(edge);
        Ok(to)
    }

    /// Lists every edge touching `room_id`: outgoing edges first, then
    /// incoming ones, each group in edge-insertion order, exactly as
    /// `exit_listing` states. Succeeds exactly when the handle belongs to
    /// this map; an isolated room yields an empty listing. The map is not
    /// changed, so repeated calls return identical listings.
    pub fn get_exits(&self, room_id: RoomHandle) -> (r: Result<Vec<(EdgeRef, ExitWay)>, MapError>)
        ensures
            r is Ok <==> self.valid_handle(room_id),
            r matches Ok(v) ==> v@ == exit_listing(self.edges_seq(), room_id),
            r matches Err(e) ==> e == MapError::InvalidHandle,
    {
        if room_id.index >= self.rooms.len() {
            return Err(MapError::InvalidHandle);
        }
        let mut result: Vec<(EdgeRef, ExitWay)> = Vec::new();
        let mut i: usize = 0;
        while i < self.edges.len()
            invariant
                i <= self.edges@.len(),
                result@ == outgoing_refs(self.edges@.take(i as int), room_id),
            decreases self.edges@.len() - i,
        {
            if self.edges[i].from == room_id {
                result.push((EdgeRef { index: i }, ExitWay::From));
            }
            i = i + 1;
            proof {
                assert(self.edges@.take(i as int).drop_last() =~= self.edges@.take(i - 1));
                assert(result@ =~= outgoing_refs(self.edges@.take(i as int), room_id));
            }
        }
        proof {
            assert(self.edges@.take(self.edges@.len() as int) =~= self.edges@);
        }
        let mut j: usize = 0;
        while j < self.edges.len()
            invariant
                j <= self.edges@.len(),
                result@ == outgoing_refs(self.edges@, room_id) + incoming_refs(
                    self.edges@.take(j as int),
                    room_id,
                ),
            decreases self.edges@.len() - j,
        {
            if self.edges[j].to == room_id {
                result.push((EdgeRef { index: j }, ExitWay::To));
            }
            j = j + 1;
            proof {
                assert(self.edges@.take(j as int).drop_last() =~= self.edges@.take(j - 1));
                assert(result@ =~= outgoing_refs(self.edges@, room_id) + incoming_refs(
                    self.edges@.take(j as int),
                    room_id,
                ));
            }
        }
        proof {
            assert(self.edges@.take(self.edges@.len() as int) =~= self.edges@);
        }
        Ok(result)
    }

    /// Looks up the exit record carried by the edge `e`, returning it for
    /// exactly the edge references this map has handed out.
    pub fn edge_exit(&self, e: EdgeRef) -> (r: Option<&Exit>)
        ensures
            r is Some <==> e.index < self.edges_seq().len(),
            r matches Some(exit) ==> *exit == self.edges_seq()[e.index as int].exit,
    {
        if e.index < self.edges.len() {
            Some(&self.edges[e.index].exit)
        } else {
            None
        }
    }

    /// Resolves an exit's stored direction into the direction perceived from
    /// the endpoint the exit was listed for: the stored direction when the
    /// exit leads away from that room, its opposite when the exit leads
    /// towards it.
    pub fn get_relative_direction(&self, exit: &Exit, exit_way: ExitWay) -> (r: Direction)
        ensures
            r == relative_direction_spec(exit.direction, exit_way),
    {
        match exit_way {
            ExitWay::From => exit.direction,
            ExitWay::To => exit.direction.opposite(),
        }
    }

    /// The number of rooms in the map.
    pub fn room_count(&self) -> (r: usize)
        ensures
            r == self.rooms_seq().len(),
    {
        self.rooms.len()
    }

    /// The number of edges in the map.
    pub fn edge_count(&self) -> (r: usize)
        ensures
            r == self.edges_seq().len(),
    {
        self.edges.len()
    }

    /// Looks up a room by its handle, returning it for exactly the handles
    /// this map has issued.
    pub fn get_room(&self, h: RoomHandle) -> (r: Option<&Room>)
        ensures
            r is Some <==> self.valid_handle(h),
            r matches Some(room) ==> *room == self.rooms_seq()[h.index as int],
    {
        if h.index < self.rooms.len() {
            Some(&self.rooms[h.index])
        } else {
            None
        }
    }
}

impl Default for GameMap {
    /// An empty map, as `GameMap::new` builds it.
    fn default() -> (r: GameMap)
        ensures
            r.rooms_seq() == Seq::<Room>::empty(),
            r.edges_seq() == Seq::<Edge>::empty(),
            r.wf(),
    {
        GameMap::new()
    }
}

/// Law: the edge appended by a successful `connect_rooms(from, to, d, _)`
/// reads as `d` from its source and as `opposite(d)` from its target.
pub proof fn lemma_connected_edge_direction(
    pre: GameMap,
    post: GameMap,
    from: RoomHandle,
    to: RoomHandle,
    direction: Direction,
    behavior: ExitBehavior,
)
    requires
        post.edges_seq() == pre.edges_seq().push(
            (Edge { from, to, exit: Exit { direction, exit_type: behavior } }),
        ),
    ensures
        relative_direction_spec(post.edges_seq().last().exit.direction, ExitWay::From)
            == direction,
        relative_direction_spec(post.edges_seq().last().exit.direction, ExitWay::To)
            == direction.opposite_spec(),
{
}

/// Law: a room no edge touches has an empty exit listing.
pub proof fn lemma_exit_listing_isolated(edges: Seq<Edge>, room: RoomHandle)
    requires
        forall|i: int|
            0 <= i < edges.len() ==> (#[trigger] edges[i]).from != room && edges[i].to != room,
    ensures
        exit_listing(edges, room) == Seq::<(EdgeRef, ExitWay)>::empty(),
    decreases edges.len(),
{
    if edges.len() == 0 {
        assert(exit_listing(edges, room) =~= Seq::<(EdgeRef, ExitWay)>::empty());
    } else {
        assert(edges.last() == edges[edges.len() - 1]);
        lemma_exit_listing_isolated(edges.drop_last(), room);
        assert(exit_listing(edges, room) =~= Seq::<(EdgeRef, ExitWay)>::empty());
    }
}

/// Law: the exit listing is a function of the map's edges and the queried
/// room alone, so querying an unchanged map repeatedly yields identical
/// ordered results.
pub proof fn lemma_exit_listing_repeatable(
    m: GameMap,
    room: RoomHandle,
    first: Seq<(EdgeRef, ExitWay)>,
    second: Seq<(EdgeRef, ExitWay)>,
)
    requires
        first == exit_listing(m.edges_seq(), room),
        second == exit_listing(m.edges_seq(), room),
    ensures
        first == second,
{
}

} // verus!
