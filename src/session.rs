//! The protocol of one connection: identify, join a room, play, leave.
use vstd::prelude::*;
use vstd::string::StringExecFns;
use crate::registry::RoomRegistry;
use crate::room::{
    deliveries_view, fan_out, lemma_deliveries_concat, lemma_leaving_keeps_partner,
    lemma_move_refusals, lookup, move_announcements, start_announcements, Client, Delivery,
    RoomModel,
};
use crate::types::{ClientId, ClientMessage, Move, RoomId, ServerMessage, ServerMessageModel};

verus! {

/// What one connection knows of itself. `sink` names its outbound queue.
#[derive(Debug, Clone, Copy, PartialEq, Eq, Structural)]
pub struct Session {
    pub sink: u64,
    pub client_id: Option<ClientId>,
    pub joined_game_id: Option<RoomId>,
}

/// The outcome of one inbound message: the session after it, the rooms after
/// it, and the messages sent, in order, as (queue, message) pairs.
pub struct Step {
    pub session: Session,
    pub rooms: Map<RoomId, RoomModel>,
    pub out: Seq<(u64, ServerMessageModel)>,
}

/// A single error message to the connection's own queue.
pub open spec fn error_to(sink: u64, text: Seq<char>) -> Seq<(u64, ServerMessageModel)> {
    seq![(sink, ServerMessageModel::Error { message: text })]
}

/// Nothing changes but an error is sent back.
pub open spec fn refused(s: Session, rooms: Map<RoomId, RoomModel>, text: Seq<char>) -> Step {
    Step { session: s, rooms: rooms, out: error_to(s.sink, text) }
}

pub open spec fn identify_step(s: Session, rooms: Map<RoomId, RoomModel>, id: ClientId) -> Step {
    match s.client_id {
        None => Step {
            session: Session { client_id: Some(id), ..s },
            rooms: rooms,
            out: Seq::empty(),
        },
        Some(_) => refused(s, rooms, "Already identified"@),
    }
}

/// What a room broadcasts once a player has been seated: the start of the
/// game and its state when two wait, else how many are connected.
pub open spec fn seated_announcements(r: RoomModel) -> Seq<(u64, ServerMessageModel)> {
    if r.can_start() {
        start_announcements(r.start())
    } else {
        fan_out(
            r.clients,
            ServerMessageModel::WaitingForPlayers { connected_count: r.clients.len() as u8 },
        )
    }
}

pub open spec fn join_step(s: Session, rooms: Map<RoomId, RoomModel>, game_id: RoomId) -> Step {
    match s.client_id {
        None => refused(s, rooms, "Identify first"@),
        Some(id) => if !rooms.contains_key(game_id) {
            refused(s, rooms, "Game not found"@)
        } else {
            let room = rooms[game_id];
            match room.next_color() {
                None => refused(s, rooms, "Game is full"@),
                Some(color) => {
                    let seated = room.add_client(Client { id: id, color: None, sink: s.sink });
                    Step {
                        session: Session { joined_game_id: Some(game_id), ..s },
                        rooms: rooms.insert(game_id, seated.start()),
                        out: seq![(s.sink, ServerMessageModel::ColorAssigned { color: color })]
                            + seated_announcements(seated),
                    }
                },
            }
        },
    }
}

pub open spec fn move_step(s: Session, rooms: Map<RoomId, RoomModel>, m: Move) -> Step {
    match s.client_id {
        None => refused(s, rooms, "Identify first"@),
        Some(id) => match s.joined_game_id {
            None => refused(s, rooms, "Join a game first"@),
            Some(game_id) => if !rooms.contains_key(game_id) {
                refused(s, rooms, "Game not found"@)
            } else if !rooms[game_id].move_accepted(id, m) {
                refused(s, rooms, "Invalid move or not your turn"@)
            } else {
                let after = rooms[game_id].apply_move(m);
                Step {
                    session: s,
                    rooms: rooms.insert(game_id, after),
                    out: move_announcements(after, m),
                }
            },
        },
    }
}

/// The outcome of an inbound message.
pub open spec fn step(s: Session, rooms: Map<RoomId, RoomModel>, msg: ClientMessage) -> Step {
    match msg {
        ClientMessage::Identify { id } => identify_step(s, rooms, id),
        ClientMessage::JoinGame { game_id } => join_step(s, rooms, game_id),
        ClientMessage::MakeMove { move_ } => move_step(s, rooms, move_),
        ClientMessage::TakePiece { .. } => refused(s, rooms, "Take piece not implemented"@),
        ClientMessage::Resign => refused(s, rooms, "Resign not implemented"@),
    }
}

/// The outcome of the connection going away: a joined player leaves its
/// room, and a room that is no longer started tells who remains.
pub open spec fn disconnect_step(s: Session, rooms: Map<RoomId, RoomModel>) -> Step {
    match (s.client_id, s.joined_game_id) {
        (Some(id), Some(game_id)) => if rooms.contains_key(game_id) {
            let after = rooms[game_id].remove_client(id);
            Step {
                session: s,
                rooms: rooms.insert(game_id, after),
                out: if after.started {
                    Seq::empty()
                } else {
                    fan_out(
                        after.clients,
                        ServerMessageModel::WaitingForPlayers {
                            connected_count: after.clients.len() as u8,
                        },
                    )
                },
            }
        } else {
            Step { session: s, rooms: rooms, out: Seq::empty() }
        },
        _ => Step { session: s, rooms: rooms, out: Seq::empty() },
    }
}

/// A player whose colour is not the one to move is refused with an error to
/// its own connection alone; the session and every room stay as they were.
pub proof fn lemma_out_of_turn_move_refused(
    s: Session,
    rooms: Map<RoomId, RoomModel>,
    id: ClientId,
    game_id: RoomId,
    m: Move,
)
    requires
        s.client_id == Some(id),
        s.joined_game_id == Some(game_id),
        rooms.contains_key(game_id),
        rooms[game_id].wf(),
        rooms[game_id].started,
        lookup(rooms[game_id].clients, id) is Some,
        lookup(rooms[game_id].clients, id)->Some_0.color != Some(rooms[game_id].state->Some_0.turn),
    ensures
        step(s, rooms, ClientMessage::MakeMove { move_: m }).session == s,
        step(s, rooms, ClientMessage::MakeMove { move_: m }).rooms == rooms,
        step(s, rooms, ClientMessage::MakeMove { move_: m }).out == error_to(
            s.sink,
            "Invalid move or not your turn"@,
        ),
{
    lemma_move_refusals(rooms[game_id], id, m);
}

/// A player leaving a started game against a player with another identifier:
/// the partner alone is told that one player is connected, and the room,
/// still filed, holds the partner only, with the game discarded.
pub proof fn lemma_disconnect_mid_game(s: Session, rooms: Map<RoomId, RoomModel>, id: ClientId, game_id: RoomId)
    requires
        s.client_id == Some(id),
        s.joined_game_id == Some(game_id),
        rooms.contains_key(game_id),
        rooms[game_id].wf(),
        rooms[game_id].started,
        rooms[game_id].clients[0].id != rooms[game_id].clients[1].id,
        rooms[game_id].clients[0].id == id || rooms[game_id].clients[1].id == id,
    ensures
        ({
            let partner = if rooms[game_id].clients[0].id == id {
                rooms[game_id].clients[1]
            } else {
                rooms[game_id].clients[0]
            };
            let after = disconnect_step(s, rooms);
            &&& after.out == seq![
                (partner.sink, ServerMessageModel::WaitingForPlayers { connected_count: 1 }),
            ]
            &&& after.rooms.contains_key(game_id)
            &&& after.rooms[game_id].clients == seq![partner]
            &&& !after.rooms[game_id].started
            &&& after.rooms[game_id].state is None
        }),
{
    let r = rooms[game_id];
    lemma_leaving_keeps_partner(r, id);
    let after = r.remove_client(id);
    assert(fan_out(after.clients, ServerMessageModel::WaitingForPlayers { connected_count: 1 })
        =~= seq![(after.clients[0].sink, ServerMessageModel::WaitingForPlayers { connected_count: 1 })]);
}

/// A single error message addressed to `sink`.
fn error_reply(sink: u64, text: &str) -> (r: Vec<Delivery>)
    ensures
        deliveries_view(r@) == error_to(sink, text@),
{
    let mut out: Vec<Delivery> = Vec::new();
    out.push(Delivery { sink, message: ServerMessage::Error { message: String::from_str(text) } });
    assert(deliveries_view(out@) =~= error_to(sink, text@));
    out
}

impl Session {
    /// A connection that has not identified itself yet.
    pub fn new(sink: u64) -> (r: Session)
        ensures
            r == (Session { sink, client_id: None, joined_game_id: None }),
    {
        Session { sink, client_id: None, joined_game_id: None }
    }

    /// Handles one inbound message; returns what is to be sent, in order.
    /// Refusals are error replies to this connection alone and change nothing.
    pub fn handle_message(&mut self, registry: &mut RoomRegistry, msg: ClientMessage) -> (r: Vec<Delivery>)
        requires
            old(registry).wf(),
        ensures
            final(registry).wf(),
            *final(self) == step(*old(self), old(registry)@, msg).session,
            final(registry)@ == step(*old(self), old(registry)@, msg).rooms,
            deliveries_view(r@) == step(*old(self), old(registry)@, msg).out,
    {
        match msg {
            ClientMessage::Identify { id } => self.identify(id),
            ClientMessage::JoinGame { game_id } => self.join_game(registry, game_id),
            ClientMessage::MakeMove { move_ } => self.make_move(registry, &move_),
            ClientMessage::TakePiece { .. } => error_reply(self.sink, "Take piece not implemented"),
            ClientMessage::Resign => error_reply(self.sink, "Resign not implemented"),
        }
    }

    /// Replies to a payload that could not be decoded; `description` says why.
    pub fn reject_malformed(&self, description: &str) -> (r: Vec<Delivery>)
        ensures
            deliveries_view(r@) == error_to(self.sink, "Invalid message: "@ + description@),
    {
        let mut text = String::from_str("Invalid message: ");
        text.append(description);
        let mut out: Vec<Delivery> = Vec::new();
        out.push(Delivery { sink: self.sink, message: ServerMessage::Error { message: text } });
        assert(deliveries_view(out@) =~= error_to(self.sink, "Invalid message: "@ + description@));
        out
    }

    fn identify(&mut self, id: ClientId) -> (r: Vec<Delivery>)
        ensures
            *final(self) == identify_step(*old(self), Map::empty(), id).session,
            deliveries_view(r@) == identify_step(*old(self), Map::empty(), id).out,
    {
        match self.client_id {
            None => {
                self.client_id = Some(id);
                let out: Vec<Delivery> = Vec::new();
                assert(deliveries_view(out@) =~= Seq::empty());
                out
            },
            Some(_) => error_reply(self.sink, "Already identified"),
        }
    }

    fn join_game(&mut self, registry: &mut RoomRegistry, game_id: RoomId) -> (r: Vec<Delivery>)
        requires
            old(registry).wf(),
        ensures
            final(registry).wf(),
            *final(self) == join_step(*old(self), old(registry)@, game_id).session,
            final(registry)@ == join_step(*old(self), old(registry)@, game_id).rooms,
            deliveries_view(r@) == join_step(*old(self), old(registry)@, game_id).out,
    {
        let id = match self.client_id {
            Some(id) => id,
            None => {
                return error_reply(self.sink, "Identify first");
            },
        };
        let mut room = match registry.take_room(&game_id) {
            Some(room) => room,
            None => {
                return error_reply(self.sink, "Game not found");
            },
        };
        match room.add_client(Client { id, color: None, sink: self.sink }) {
            None => {
                registry.put_room(room);
                assert(registry@ =~= old(registry)@);
                error_reply(self.sink, "Game is full")
            },
            Some(color) => {
                self.joined_game_id = Some(game_id);
                let ghost seated = room@;
                let mut out: Vec<Delivery> = Vec::new();
                out.push(
                    Delivery { sink: self.sink, message: ServerMessage::ColorAssigned { color } },
                );
                assert(deliveries_view(out@) =~= seq![
                    (self.sink, ServerMessageModel::ColorAssigned { color: color }),
                ]);
                if room.can_start_game() {
                    room.start_game();
                    let mut started = room.broadcast(&ServerMessage::GameStarted);
                    proof {
                        lemma_deliveries_concat(out@, started@);
                    }
                    out.append(&mut started);
                    match room.get_game_state() {
                        Some(state) => {
                            let mut shown = room.broadcast(&ServerMessage::GameState { state });
                            proof {
                                lemma_deliveries_concat(out@, shown@);
                            }
                            out.append(&mut shown);
                        },
                        None => {},
                    }
                } else {
                    assert(room@.start() == room@);
                    let count = room.get_client_count();
                    let mut waiting = room.broadcast(
                        &ServerMessage::WaitingForPlayers { connected_count: count },
                    );
                    proof {
                        lemma_deliveries_concat(out@, waiting@);
                    }
                    out.append(&mut waiting);
                }
                assert(room.game_id == game_id);
                registry.put_room(room);
                assert(registry@ =~= old(registry)@.insert(game_id, seated.start()));
                out
            },
        }
    }

    fn make_move(&mut self, registry: &mut RoomRegistry, move_: &Move) -> (r: Vec<Delivery>)
        requires
            old(registry).wf(),
        ensures
            final(registry).wf(),
            *final(self) == move_step(*old(self), old(registry)@, *move_).session,
            final(registry)@ == move_step(*old(self), old(registry)@, *move_).rooms,
            deliveries_view(r@) == move_step(*old(self), old(registry)@, *move_).out,
    {
        let id = match self.client_id {
            Some(id) => id,
            None => {
                return error_reply(self.sink, "Identify first");
            },
        };
        let game_id = match self.joined_game_id {
            Some(game_id) => game_id,
            None => {
                return error_reply(self.sink, "Join a game first");
            },
        };
        let mut room = match registry.take_room(&game_id) {
            Some(room) => room,
            None => {
                return error_reply(self.sink, "Game not found");
            },
        };
        match room.handle_move(&id, move_) {
            Some((applied, state)) => {
                let mut out = room.broadcast(&ServerMessage::MoveMade { move_: applied });
                let mut shown = room.broadcast(&ServerMessage::GameState { state });
                proof {
                    lemma_deliveries_concat(out@, shown@);
                }
                out.append(&mut shown);
                registry.put_room(room);
                assert(registry@ =~= old(registry)@.insert(game_id, old(registry)@[game_id].apply_move(*move_)));
                out
            },
            None => {
                registry.put_room(room);
                assert(registry@ =~= old(registry)@);
                error_reply(self.sink, "Invalid move or not your turn")
            },
        }
    }

    /// Handles the connection going away; returns what is to be sent to the
    /// players who remain.
    pub fn disconnect(&self, registry: &mut RoomRegistry) -> (r: Vec<Delivery>)
        requires
            old(registry).wf(),
        ensures
            final(registry).wf(),
            final(registry)@ == disconnect_step(*self, old(registry)@).rooms,
            deliveries_view(r@) == disconnect_step(*self, old(registry)@).out,
    {
        let empty: Vec<Delivery> = Vec::new();
        assert(deliveries_view(empty@) =~= Seq::empty());
        let (id, game_id) = match (self.client_id, self.joined_game_id) {
            (Some(id), Some(game_id)) => (id, game_id),
            _ => {
                return empty;
            },
        };
        let mut room = match registry.take_room(&game_id) {
            Some(room) => room,
            None => {
                return empty;
            },
        };
        room.remove_client(&id);
        let out = if !room.is_game_started() {
            let count = room.get_client_count();
            room.broadcast(&ServerMessage::WaitingForPlayers { connected_count: count })
        } else {
            empty
        };
        let ghost after = room@;
        registry.put_room(room);
        assert(registry@ =~= old(registry)@.insert(game_id, after));
        out
    }
}

} // verus!
