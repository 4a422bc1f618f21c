//! All rooms, by identifier.
use vstd::prelude::*;
use std::collections::HashMap;
use crate::room::{Client, GameRoom, RoomModel};
use crate::types::{Color, NewGameBody, NewGameResponse, RoomId};

verus! {

broadcast use vstd::std_specs::hash::group_hash_axioms;

/// The rooms created so far. Rooms are never removed.
pub struct RoomRegistry {
    pub rooms: HashMap<RoomId, GameRoom>,
}

impl View for RoomRegistry {
    type V = Map<RoomId, RoomModel>;

    open spec fn view(&self) -> Map<RoomId, RoomModel> {
        self.rooms@.map_values(|r: GameRoom| r@)
    }
}

/// A room as it stands right after creation.
pub open spec fn fresh_room(id: RoomId, color: Color) -> RoomModel {
    RoomModel {
        clients: Seq::empty(),
        state: None,
        started: false,
        game_id: id,
        reserved_color: color,
    }
}

impl RoomRegistry {
    /// Each room is well formed and filed under its own identifier.
    pub open spec fn wf(&self) -> bool {
        forall|k: RoomId| #[trigger] self.rooms@.contains_key(k) ==> {
            &&& self.rooms@[k]@.wf()
            &&& self.rooms@[k].game_id == k
        }
    }

    pub fn new() -> (r: RoomRegistry)
        ensures
            r.wf(),
            r@ == Map::<RoomId, RoomModel>::empty(),
    {
        let r = RoomRegistry { rooms: HashMap::new() };
        assert(r@ =~= Map::<RoomId, RoomModel>::empty());
        r
    }

    /// The smallest identifier under which no room is filed. Among the
    /// first `len + 1` values one is free, so the search ends.
    fn unused_id(&self) -> (r: RoomId)
        ensures
            !self@.contains_key(r),
    {
        let ghost dom = self.rooms@.dom();
        let ghost mut tried: Set<RoomId> = Set::empty();
        let mut candidate: RoomId = 0;
        let n = self.rooms.len();
        assert(dom.finite());
        while self.rooms.contains_key(&candidate)
            invariant
                dom == self.rooms@.dom(),
                dom.finite(),
                n as nat == dom.len(),
                tried.finite(),
                tried.len() == candidate as nat,
                forall|x: RoomId| tried.contains(x) ==> x < candidate,
                tried.subset_of(dom),
            decreases dom.len() - candidate,
        {
            proof {
                assert(!tried.contains(candidate));
                tried = tried.insert(candidate);
                vstd::set_lib::lemma_len_subset(tried, dom);
            }
            candidate = candidate + 1;
        }
        candidate
    }

    /// Creates an empty room whose first player receives `color`, under an
    /// identifier no room holds yet, and returns that identifier. The
    /// identifier is drawn at random; should the draw be taken, the smallest
    /// free value is used instead.
    pub fn create_room(&mut self, color: Color) -> (id: RoomId)
        requires
            old(self).wf(),
        ensures
            final(self).wf(),
            !old(self)@.contains_key(id),
            final(self)@ == old(self)@.insert(id, fresh_room(id, color)),
    {
        let mut room = GameRoom::new(color);
        if self.rooms.contains_key(&room.game_id) {
            room.game_id = self.unused_id();
        }
        let id = room.game_id;
        let ghost m = room@;
        self.rooms.insert(id, room);
        assert(m.clients =~= Seq::<Client>::empty());
        assert(m == fresh_room(id, color));
        assert(self@ =~= old(self)@.insert(id, fresh_room(id, color)));
        id
    }

    pub fn contains_room(&self, id: &RoomId) -> (r: bool)
        ensures
            r == self@.contains_key(*id),
    {
        self.rooms.contains_key(id)
    }

    /// Takes the room out of the registry, to be put back with `put_room`.
    pub fn take_room(&mut self, id: &RoomId) -> (r: Option<GameRoom>)
        requires
            old(self).wf(),
        ensures
            final(self).wf(),
            match r {
                Some(room) => {
                    &&& old(self)@.contains_key(*id)
                    &&& room@ == old(self)@[*id]
                    &&& room@.wf()
                    &&& room.game_id == *id
                    &&& final(self)@ == old(self)@.remove(*id)
                },
                None => !old(self)@.contains_key(*id) && final(self)@ == old(self)@,
            },
    {
        let r = self.rooms.remove(id);
        assert(self@ =~= old(self)@.remove(*id));
        r
    }

    /// Files a room under its identifier, replacing any room filed there.
    pub fn put_room(&mut self, room: GameRoom)
        requires
            old(self).wf(),
            room@.wf(),
        ensures
            final(self).wf(),
            final(self)@ == old(self)@.insert(room.game_id, room@),
    {
        let ghost m = room@;
        let id = room.game_id;
        self.rooms.insert(id, room);
        assert(self@ =~= old(self)@.insert(id, m));
    }
}

/// Two room creations in a row give two different identifiers, add exactly
/// two rooms, and leave every room that was there before as it was.
pub proof fn lemma_creations_are_distinct(
    before: Map<RoomId, RoomModel>,
    first: RoomId,
    first_color: Color,
    second: RoomId,
    second_color: Color,
)
    requires
        before.dom().finite(),
        !before.contains_key(first),
        !before.insert(first, fresh_room(first, first_color)).contains_key(second),
    ensures
        first != second,
        before.insert(first, fresh_room(first, first_color)).insert(
            second,
            fresh_room(second, second_color),
        ).len() == before.len() + 2,
        forall|k: RoomId| #[trigger] before.contains_key(k) ==> before.insert(
            first,
            fresh_room(first, first_color),
        ).insert(second, fresh_room(second, second_color))[k] == before[k],
{
    let mid = before.insert(first, fresh_room(first, first_color));
    assert(mid.len() == before.len() + 1);
    assert(mid.dom().finite());
}

/// Handles a request for a new room: creates it and returns its identifier.
pub fn new_game(registry: &mut RoomRegistry, body: NewGameBody) -> (r: NewGameResponse)
    requires
        old(registry).wf(),
    ensures
        final(registry).wf(),
        !old(registry)@.contains_key(r.game_id),
        final(registry)@ == old(registry)@.insert(r.game_id, fresh_room(r.game_id, body.color)),
{
    let game_id = registry.create_room(body.color);
    NewGameResponse { game_id }
}

} // verus!
