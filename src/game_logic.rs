//! Room operations reached through the registry, with their announcements.
use vstd::prelude::*;
use crate::registry::RoomRegistry;
use crate::room::{
    deliveries_view, lemma_deliveries_concat, move_announcements, start_announcements, Delivery,
};
use crate::types::{ClientId, Move, RoomId, ServerMessage};

verus! {

/// Starts the game in the room if two players wait, and returns the
/// announcements of the start; returns nothing otherwise, and also when no
/// room has the identifier.
pub fn start_game_if_possible(game_room: &RoomId, game_rooms: &mut RoomRegistry) -> (r: Vec<Delivery>)
    requires
        old(game_rooms).wf(),
    ensures
        final(game_rooms).wf(),
        old(game_rooms)@.contains_key(*game_room) ==> {
            &&& final(game_rooms)@ == old(game_rooms)@.insert(
                *game_room,
                old(game_rooms)@[*game_room].start(),
            )
            &&& deliveries_view(r@) == if old(game_rooms)@[*game_room].can_start() {
                start_announcements(old(game_rooms)@[*game_room].start())
            } else {
                Seq::empty()
            }
        },
        !old(game_rooms)@.contains_key(*game_room) ==> {
            &&& final(game_rooms)@ == old(game_rooms)@
            &&& r@.len() == 0
        },
{
    let mut room = match game_rooms.take_room(game_room) {
        Some(room) => room,
        None => {
            return Vec::new();
        },
    };
    let mut out: Vec<Delivery> = Vec::new();
    if room.can_start_game() {
        room.start_game();
        out = room.broadcast(&ServerMessage::GameStarted);
        match room.get_game_state() {
            Some(state) => {
                let mut shown = room.broadcast(&ServerMessage::GameState { state });
                proof {
                    lemma_deliveries_concat(out@, shown@);
                }
                out.append(&mut shown);
            },
            None => {},
        }
    } else {
        assert(room@.start() == room@);
        assert(deliveries_view(out@) =~= Seq::empty());
    }
    let ghost after = room@;
    game_rooms.put_room(room);
    assert(game_rooms@ =~= old(game_rooms)@.insert(*game_room, after));
    out
}

/// Applies the player's move in the room and returns the announcements of
/// it; when the move is refused or no room has the identifier, nothing
/// changes and nothing is returned.
pub fn handle_move(
    game_room: &RoomId,
    game_rooms: &mut RoomRegistry,
    client_id: &ClientId,
    move_: &Move,
) -> (r: Vec<Delivery>)
    requires
        old(game_rooms).wf(),
    ensures
        final(game_rooms).wf(),
        !old(game_rooms)@.contains_key(*game_room) ==> {
            &&& final(game_rooms)@ == old(game_rooms)@
            &&& r@.len() == 0
        },
        old(game_rooms)@.contains_key(*game_room) && old(game_rooms)@[*game_room].move_accepted(
            *client_id,
            *move_,
        ) ==> {
            let after = old(game_rooms)@[*game_room].apply_move(*move_);
            &&& final(game_rooms)@ == old(game_rooms)@.insert(*game_room, after)
            &&& deliveries_view(r@) == move_announcements(after, *move_)
        },
        old(game_rooms)@.contains_key(*game_room) && !old(game_rooms)@[*game_room].move_accepted(
            *client_id,
            *move_,
        ) ==> {
            &&& final(game_rooms)@ == old(game_rooms)@
            &&& r@.len() == 0
        },
{
    let mut room = match game_rooms.take_room(game_room) {
        Some(room) => room,
        None => {
            return Vec::new();
        },
    };
    match room.handle_move(client_id, move_) {
        Some((applied, state)) => {
            let mut out = room.broadcast(&ServerMessage::MoveMade { move_: applied });
            let mut shown = room.broadcast(&ServerMessage::GameState { state });
            proof {
                lemma_deliveries_concat(out@, shown@);
            }
            out.append(&mut shown);
            let ghost after = room@;
            game_rooms.put_room(room);
            assert(game_rooms@ =~= old(game_rooms)@.insert(*game_room, after));
            out
        },
        None => {
            game_rooms.put_room(room);
            assert(game_rooms@ =~= old(game_rooms)@);
            Vec::new()
        },
    }
}

} // verus!
