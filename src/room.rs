//! One game room: its two players, their colours, and the game they play.
use vstd::prelude::*;
use crate::board::{create_initial_board, initial_board};
use crate::ids::new_room_id;
use crate::types::{
    ClientId, Color, GameState, GameStateModel, Move, Piece, RoomId, ServerMessage,
    ServerMessageModel, TakenPieces, BOARD_SIZE,
};

verus! {

/// A player in a room. `sink` names the connection's outbound queue; the
/// caller chooses these handles and delivers what is addressed to them.
#[derive(Debug, Clone, Copy, PartialEq, Eq, Structural)]
pub struct Client {
    pub id: ClientId,
    pub color: Option<Color>,
    pub sink: u64,
}

/// A message to be put on one connection's outbound queue.
#[derive(Debug, Clone, PartialEq, Eq)]
pub struct Delivery {
    pub sink: u64,
    pub message: ServerMessage,
}

/// The deliveries as (queue, message) pairs.
pub open spec fn deliveries_view(ds: Seq<Delivery>) -> Seq<(u64, ServerMessageModel)> {
    ds.map_values(|d: Delivery| (d.sink, d.message@))
}

/// Deliveries of two lists in a row are those of the first, then those of the second.
pub proof fn lemma_deliveries_concat(a: Seq<Delivery>, b: Seq<Delivery>)
    ensures
        deliveries_view(a + b) == deliveries_view(a) + deliveries_view(b),
{
    assert(deliveries_view(a + b) =~= deliveries_view(a) + deliveries_view(b));
}

/// One copy of `m` for each client, in the clients' order.
pub open spec fn fan_out(clients: Seq<Client>, m: ServerMessageModel) -> Seq<(u64, ServerMessageModel)> {
    clients.map_values(|c: Client| (c.sink, m))
}

/// What a room that has just started tells its players: that the game has
/// started, then its state.
pub open spec fn start_announcements(r: RoomModel) -> Seq<(u64, ServerMessageModel)> {
    fan_out(r.clients, ServerMessageModel::GameStarted) + fan_out(
        r.clients,
        ServerMessageModel::GameState { state: r.state->Some_0 },
    )
}

/// What a room tells its players after a move: the move, then the new state.
pub open spec fn move_announcements(r: RoomModel, m: Move) -> Seq<(u64, ServerMessageModel)> {
    fan_out(r.clients, ServerMessageModel::MoveMade { move_: m }) + fan_out(
        r.clients,
        ServerMessageModel::GameState { state: r.state->Some_0 },
    )
}

/// The first client with the given identifier.
pub open spec fn lookup(clients: Seq<Client>, id: ClientId) -> Option<Client>
    decreases clients.len(),
{
    if clients.len() == 0 {
        None
    } else if clients[0].id == id {
        Some(clients[0])
    } else {
        lookup(clients.drop_first(), id)
    }
}

/// Holds of every client but those with the identifier.
pub open spec fn others(id: ClientId) -> spec_fn(Client) -> bool {
    |c: Client| c.id != id
}

/// The state of a fresh game: the starting board, White to move.
pub open spec fn initial_state() -> GameStateModel {
    GameStateModel {
        board: initial_board(),
        turn: Color::White,
        move_history: Seq::empty(),
        taken_pieces: (Seq::empty(), Seq::empty()),
    }
}

/// A move applied without any rule check: the piece on `from` (or nothing)
/// lands on `to`, `from` is emptied, the turn passes, the move is recorded.
pub open spec fn moved(s: GameStateModel, m: Move) -> GameStateModel {
    GameStateModel {
        board: s.board.update(m.from as int, None).update(m.to as int, s.board[m.from as int]),
        turn: s.turn.spec_opposite(),
        move_history: s.move_history.push(m),
        taken_pieces: s.taken_pieces,
    }
}

/// A room as mathematical values.
pub struct RoomModel {
    pub clients: Seq<Client>,
    pub state: Option<GameStateModel>,
    pub started: bool,
    pub game_id: RoomId,
    pub reserved_color: Color,
}

impl RoomModel {
    /// At most two players, each with a colour, the two of them opposite; a
    /// game exists exactly when the room is started, and only with two players.
    pub open spec fn wf(self) -> bool {
        &&& self.clients.len() <= 2
        &&& self.started <==> self.state is Some
        &&& self.started ==> self.clients.len() == 2
        &&& forall|i: int| 0 <= i < self.clients.len() ==> (#[trigger] self.clients[i]).color is Some
        &&& self.clients.len() == 2 ==> self.clients[0].color != self.clients[1].color
        &&& self.state is Some ==> self.state->Some_0.board.len() == BOARD_SIZE
    }

    /// The colour the next player to join receives: the reserved one in an
    /// empty room, the partner's opposite in a room of one, none in a full room.
    pub open spec fn next_color(self) -> Option<Color> {
        if self.clients.len() == 0 {
            Some(self.reserved_color)
        } else if self.clients.len() == 1 {
            match self.clients[0].color {
                Some(c) => Some(c.spec_opposite()),
                None => Some(self.reserved_color.spec_opposite()),
            }
        } else {
            None
        }
    }

    pub open spec fn add_client(self, client: Client) -> RoomModel {
        match self.next_color() {
            Some(c) => RoomModel {
                clients: self.clients.push(Client { id: client.id, color: Some(c), sink: client.sink }),
                ..self
            },
            None => self,
        }
    }

    /// Every client with the identifier leaves; below two players the game is dropped.
    pub open spec fn remove_client(self, id: ClientId) -> RoomModel {
        let rest = self.clients.filter(others(id));
        if rest.len() < 2 {
            RoomModel { clients: rest, state: None, started: false, ..self }
        } else {
            RoomModel { clients: rest, ..self }
        }
    }

    pub open spec fn can_start(self) -> bool {
        self.clients.len() == 2 && !self.started
    }

    pub open spec fn start(self) -> RoomModel {
        if self.can_start() {
            RoomModel { state: Some(initial_state()), started: true, ..self }
        } else {
            self
        }
    }

    /// A move is taken when a game runs, both squares are on the board, and
    /// the first client with the identifier holds the colour to move.
    pub open spec fn move_accepted(self, id: ClientId, m: Move) -> bool {
        &&& self.state is Some
        &&& m.from < BOARD_SIZE
        &&& m.to < BOARD_SIZE
        &&& lookup(self.clients, id) is Some
        &&& lookup(self.clients, id)->Some_0.color == Some(self.state->Some_0.turn)
    }

    pub open spec fn apply_move(self, m: Move) -> RoomModel {
        RoomModel { state: Some(moved(self.state->Some_0, m)), ..self }
    }
}

/// A list without the identifier has no client to find under it.
pub proof fn lemma_lookup_absent(clients: Seq<Client>, id: ClientId)
    requires
        forall|i: int| 0 <= i < clients.len() ==> clients[i].id != id,
    ensures
        lookup(clients, id) is None,
    decreases clients.len(),
{
    if clients.len() > 0 {
        assert(clients[0].id != id);
        assert forall|i: int| 0 <= i < clients.drop_first().len() implies clients.drop_first()[i].id != id by {
            assert(clients.drop_first()[i] == clients[i + 1]);
        }
        lemma_lookup_absent(clients.drop_first(), id);
    }
}

/// Seating players in an empty room: the first receives the room's reserved
/// colour, the second the opposite colour, and a third is turned away while
/// the room keeps its two players.
pub proof fn lemma_seating_order(r: RoomModel, first: Client, second: Client, third: Client)
    requires
        r.wf(),
        r.clients.len() == 0,
    ensures
        r.next_color() == Some(r.reserved_color),
        r.add_client(first).next_color() == Some(r.reserved_color.spec_opposite()),
        r.add_client(first).add_client(second).next_color() is None,
        r.add_client(first).add_client(second).add_client(third) == r.add_client(first).add_client(
            second,
        ),
        r.add_client(first).add_client(second).clients.len() == 2,
        r.add_client(first).add_client(second).wf(),
{
    let one = r.add_client(first);
    assert(one.clients[0].color == Some(r.reserved_color));
    let two = one.add_client(second);
    assert(two.clients[0] == one.clients[0]);
}

/// A room can start exactly when it holds two players and has not started;
/// once started it runs a fresh game: White to move, no move made.
pub proof fn lemma_start_fresh_game(r: RoomModel)
    requires
        r.wf(),
    ensures
        r.can_start() <==> (r.clients.len() == 2 && !r.started),
        r.can_start() ==> {
            &&& r.start().started
            &&& r.start().state == Some(initial_state())
            &&& r.start().state->Some_0.turn == Color::White
            &&& r.start().state->Some_0.move_history.len() == 0
            &&& r.start().wf()
        },
{
}

/// Every accepted move passes the turn to the other side and adds exactly
/// one move to the history.
pub proof fn lemma_accepted_move_alternates(r: RoomModel, id: ClientId, m: Move)
    requires
        r.wf(),
        r.move_accepted(id, m),
    ensures
        r.apply_move(m).started,
        r.apply_move(m).state->Some_0.turn == r.state->Some_0.turn.spec_opposite(),
        r.apply_move(m).state->Some_0.move_history.len() == r.state->Some_0.move_history.len() + 1,
        r.apply_move(m).wf(),
{
}

/// A move is refused when no game runs, when no player of the room has the
/// identifier, and when the player's colour is not the one to move.
pub proof fn lemma_move_refusals(r: RoomModel, id: ClientId, m: Move)
    requires
        r.wf(),
    ensures
        !r.started ==> !r.move_accepted(id, m),
        (forall|i: int| 0 <= i < r.clients.len() ==> r.clients[i].id != id) ==> !r.move_accepted(id, m),
        (r.started && lookup(r.clients, id) is Some && lookup(r.clients, id)->Some_0.color != Some(
            r.state->Some_0.turn,
        )) ==> !r.move_accepted(id, m),
{
    if forall|i: int| 0 <= i < r.clients.len() ==> r.clients[i].id != id {
        lemma_lookup_absent(r.clients, id);
    }
}

/// A player leaving a started room of two stops the game and discards it.
pub proof fn lemma_leaving_stops_game(r: RoomModel, id: ClientId)
    requires
        r.wf(),
        r.clients.len() == 2,
        r.started,
        exists|i: int| 0 <= i < r.clients.len() && r.clients[i].id == id,
    ensures
        !r.remove_client(id).started,
        r.remove_client(id).state is None,
        r.remove_client(id).wf(),
{
    lemma_filter_small(r.clients, id);
}

/// When the two players carry different identifiers, the one who leaves is
/// the only one to go: the other stays, alone, and the game is discarded.
pub proof fn lemma_leaving_keeps_partner(r: RoomModel, id: ClientId)
    requires
        r.wf(),
        r.clients.len() == 2,
        r.clients[0].id != r.clients[1].id,
        r.clients[0].id == id || r.clients[1].id == id,
    ensures
        r.remove_client(id).clients.len() == 1,
        r.clients[0].id == id ==> r.remove_client(id).clients == seq![r.clients[1]],
        r.clients[1].id == id ==> r.remove_client(id).clients == seq![r.clients[0]],
        !r.remove_client(id).started,
        r.remove_client(id).state is None,
        r.remove_client(id).wf(),
{
    lemma_filter_small(r.clients, id);
}

/// Facts on removing clients from a list of at most two.
proof fn lemma_filter_small(s: Seq<Client>, id: ClientId)
    requires
        s.len() <= 2,
    ensures
        s.filter(others(id)).len() <= s.len(),
        s.filter(others(id)).len() == s.len() ==> s.filter(others(id)) == s,
        (exists|i: int| 0 <= i < s.len() && s[i].id == id) ==> s.filter(others(id)).len() < s.len(),
        forall|i: int| 0 <= i < s.filter(others(id)).len()
            ==> s.contains(#[trigger] s.filter(others(id))[i]),
        s.len() == 2 && s[0].id != s[1].id && s[0].id == id ==> s.filter(others(id)) == seq![s[1]],
        s.len() == 2 && s[0].id != s[1].id && s[1].id == id ==> s.filter(others(id)) == seq![s[0]],
{
    reveal_with_fuel(Seq::filter, 3);
    if s.len() == 1 {
        assert(s.drop_last() == Seq::<Client>::empty());
    } else if s.len() == 2 {
        assert(s.drop_last() == seq![s[0]]);
        assert(s.drop_last().drop_last() == Seq::<Client>::empty());
    }
    let f = s.filter(others(id));
    assert forall|i: int| 0 <= i < f.len() implies s.contains(#[trigger] f[i]) by {
        if s.len() == 2 {
            if f.len() == 2 {
                assert(f[i] == s[i]);
            } else if s[0].id != id {
                assert(f[i] == s[0]);
            } else {
                assert(f[i] == s[1]);
            }
        } else {
            assert(f[i] == s[0]);
        }
    }
}

/// Returns the first client with the identifier.
fn find_client(clients: &Vec<Client>, id: ClientId) -> (r: Option<Client>)
    ensures
        r == lookup(clients@, id),
{
    let mut i: usize = 0;
    assert(clients@.subrange(0, clients@.len() as int) == clients@);
    while i < clients.len()
        invariant
            i <= clients@.len(),
            lookup(clients@, id) == lookup(clients@.subrange(i as int, clients@.len() as int), id),
        decreases clients@.len() - i,
    {
        let c = clients[i];
        if c.id == id {
            return Some(c);
        }
        assert(clients@.subrange(i as int, clients@.len() as int).drop_first()
            == clients@.subrange(i as int + 1, clients@.len() as int));
        i = i + 1;
    }
    None
}

#[derive(Debug)]
pub struct GameRoom {
    pub clients: Vec<Client>,
    pub game_state: Option<GameState>,
    pub game_started: bool,
    pub game_id: RoomId,
    pub reserved_color: Color,
}

impl View for GameRoom {
    type V = RoomModel;

    open spec fn view(&self) -> RoomModel {
        RoomModel {
            clients: self.clients@,
            state: match self.game_state {
                Some(s) => Some(s@),
                None => None,
            },
            started: self.game_started,
            game_id: self.game_id,
            reserved_color: self.reserved_color,
        }
    }
}

impl GameRoom {
    /// An empty room under a fresh random identifier; its first player will
    /// receive `color`.
    pub fn new(color: Color) -> (r: GameRoom)
        ensures
            r@.wf(),
            r@.clients.len() == 0,
            r@.state is None,
            !r@.started,
            r@.reserved_color == color,
    {
        GameRoom {
            clients: Vec::new(),
            game_state: None,
            game_started: false,
            game_id: new_room_id(),
            reserved_color: color,
        }
    }

    /// Seats a player with the next colour, or turns it away from a full room.
    /// Returns the colour given.
    pub fn add_client(&mut self, client: Client) -> (r: Option<Color>)
        requires
            old(self)@.wf(),
        ensures
            final(self)@.wf(),
            r == old(self)@.next_color(),
            final(self)@ == old(self)@.add_client(client),
    {
        let color = if self.clients.len() == 0 {
            self.reserved_color
        } else if self.clients.len() == 1 {
            match self.clients[0].color {
                Some(c) => c.opposite(),
                None => self.reserved_color.opposite(),
            }
        } else {
            return None;
        };
        self.clients.push(Client { id: client.id, color: Some(color), sink: client.sink });
        Some(color)
    }

    /// Removes every player with the identifier; with fewer than two left the
    /// game is discarded and the room is no longer started.
    pub fn remove_client(&mut self, client_id: &ClientId)
        requires
            old(self)@.wf(),
        ensures
            final(self)@.wf(),
            final(self)@ == old(self)@.remove_client(*client_id),
    {
        let id = *client_id;
        let ghost old_clients = self.clients@;
        let ghost pred = others(id);
        let mut kept: Vec<Client> = Vec::new();
        let mut i: usize = 0;
        assert(old_clients.subrange(0, 0) == Seq::<Client>::empty());
        proof {
            reveal(Seq::filter);
        }
        while i < self.clients.len()
            invariant
                self.clients@ == old_clients,
                pred == others(id),
                i <= old_clients.len(),
                kept@ == old_clients.subrange(0, i as int).filter(pred),
            decreases old_clients.len() - i,
        {
            let c = self.clients[i];
            if c.id != id {
                kept.push(c);
            }
            proof {
                let s = old_clients.subrange(0, i as int + 1);
                assert(s.drop_last() == old_clients.subrange(0, i as int));
                assert(s.last() == c);
                assert(pred(c) == (c.id != id));
                reveal(Seq::filter);
                assert(s.filter(pred) == if pred(c) {
                    s.drop_last().filter(pred).push(c)
                } else {
                    s.drop_last().filter(pred)
                });
            }
            i = i + 1;
        }
        assert(old_clients.subrange(0, old_clients.len() as int) == old_clients);
        proof {
            lemma_filter_small(old_clients, id);
        }
        self.clients = kept;
        if self.clients.len() < 2 {
            self.game_started = false;
            self.game_state = None;
        }
    }

    pub fn can_start_game(&self) -> (r: bool)
        ensures
            r == self@.can_start(),
    {
        self.clients.len() == 2 && !self.game_started
    }

    /// Starts a fresh game when two players wait; otherwise changes nothing.
    pub fn start_game(&mut self)
        requires
            old(self)@.wf(),
        ensures
            final(self)@.wf(),
            final(self)@ == old(self)@.start(),
    {
        if self.can_start_game() {
            self.game_state = Some(
                GameState {
                    board: create_initial_board(),
                    turn: Color::White,
                    move_history: Vec::new(),
                    taken_pieces: TakenPieces::new(),
                },
            );
            self.game_started = true;
        }
    }

    /// One delivery of the message to each player, in seating order.
    pub fn broadcast(&self, message: &ServerMessage) -> (r: Vec<Delivery>)
        ensures
            deliveries_view(r@) == fan_out(self.clients@, message@),
    {
        let mut out: Vec<Delivery> = Vec::new();
        let mut i: usize = 0;
        while i < self.clients.len()
            invariant
                i <= self.clients@.len(),
                deliveries_view(out@) == fan_out(self.clients@.subrange(0, i as int), message@),
            decreases self.clients@.len() - i,
        {
            let d = Delivery { sink: self.clients[i].sink, message: message.snapshot() };
            let ghost prev = out@;
            out.push(d);
            assert(out@ == prev.push(d));
            assert(self.clients@.subrange(0, i as int + 1) == self.clients@.subrange(0, i as int).push(
                self.clients@[i as int],
            ));
            assert(deliveries_view(out@) =~= deliveries_view(prev).push((d.sink, d.message@)));
            i = i + 1;
            assert(deliveries_view(out@) =~= fan_out(self.clients@.subrange(0, i as int), message@));
        }
        assert(self.clients@.subrange(0, i as int) == self.clients@);
        out
    }

    /// A delivery of the message to the first player with the identifier, if
    /// there is one.
    pub fn send_to_client(&self, client_id: &ClientId, message: &ServerMessage) -> (r: Option<Delivery>)
        ensures
            match lookup(self.clients@, *client_id) {
                Some(c) => r is Some && r->Some_0.sink == c.sink && r->Some_0.message@ == message@,
                None => r is None,
            },
    {
        match find_client(&self.clients, *client_id) {
            Some(c) => Some(Delivery { sink: c.sink, message: message.snapshot() }),
            None => None,
        }
    }

    pub fn get_client_count(&self) -> (r: u8)
        requires
            self@.wf(),
        ensures
            r == self@.clients.len(),
    {
        self.clients.len() as u8
    }

    pub fn is_game_started(&self) -> (r: bool)
        ensures
            r == self@.started,
    {
        self.game_started
    }

    /// A copy of the game in progress, if any.
    pub fn get_game_state(&self) -> (r: Option<GameState>)
        ensures
            match r {
                Some(s) => self@.state == Some(s@),
                None => self@.state is None,
            },
    {
        match &self.game_state {
            Some(s) => Some(s.snapshot()),
            None => None,
        }
    }

    /// Applies the move for the player whose turn it is, with no rule check
    /// beyond both squares lying on the board. Returns the move and a copy of
    /// the resulting game; on refusal nothing changes.
    pub fn handle_move(&mut self, client_id: &ClientId, move_: &Move) -> (r: Option<(Move, GameState)>)
        requires
            old(self)@.wf(),
        ensures
            final(self)@.wf(),
            r is Some <==> old(self)@.move_accepted(*client_id, *move_),
            match r {
                Some((m, s)) => {
                    &&& m == *move_
                    &&& final(self)@ == old(self)@.apply_move(*move_)
                    &&& final(self)@.state == Some(s@)
                },
                None => final(self)@ == old(self)@,
            },
    {
        let from = move_.from as usize;
        let to = move_.to as usize;
        if from >= BOARD_SIZE || to >= BOARD_SIZE {
            return None;
        }
        let color = match find_client(&self.clients, *client_id) {
            Some(c) => c.color,
            None => {
                return None;
            },
        };
        match &mut self.game_state {
            Some(gs) => {
                match color {
                    Some(c) => {
                        if c != gs.turn {
                            return None;
                        }
                    },
                    None => {
                        return None;
                    },
                }
                let piece: Option<Piece> = gs.board[from];
                gs.board.set(from, None);
                gs.board.set(to, piece);
                gs.turn = gs.turn.opposite();
                gs.move_history.push(*move_);
                Some((*move_, gs.snapshot()))
            },
            None => None,
        }
    }
}

} // verus!
