//! The game's data model and the messages exchanged with connections.
use vstd::prelude::*;

verus! {

/// Identifier of a connection's player, as announced by the connection.
pub type ClientId = u128;

/// Identifier of a room.
pub type RoomId = u128;

/// A board square, row-major, 0 to 63; rank 0 is the far rank.
pub type Square = u8;

/// Number of squares on the board.
pub const BOARD_SIZE: usize = 64;

#[derive(Debug, Clone, Copy, PartialEq, Eq, Structural)]
pub enum PieceType {
    Rook,
    Knight,
    Bishop,
    King,
    Queen,
    Pawn,
}

#[derive(Debug, Clone, Copy, PartialEq, Eq, Structural)]
pub enum Color {
    White,
    Black,
}

impl Color {
    pub open spec fn spec_opposite(self) -> Color {
        match self {
            Color::White => Color::Black,
            Color::Black => Color::White,
        }
    }

    /// The other side.
    pub fn opposite(self) -> (r: Color)
        ensures
            r == self.spec_opposite(),
    {
        match self {
            Color::White => Color::Black,
            Color::Black => Color::White,
        }
    }
}

#[derive(Debug, Clone, Copy, PartialEq, Eq, Structural)]
pub struct Piece {
    pub color: Color,
    pub piece: PieceType,
}

#[derive(Debug, Clone, Copy, PartialEq, Eq, Structural)]
pub struct Move {
    pub from: Square,
    pub to: Square,
    pub promotion: Option<PieceType>,
}

/// Copies a vector of plain values element by element.
pub fn copy_vec<T: Copy>(v: &Vec<T>) -> (r: Vec<T>)
    ensures
        r@ == v@,
{
    let mut r: Vec<T> = Vec::new();
    let mut i: usize = 0;
    while i < v.len()
        invariant
            i <= v@.len(),
            r@ == v@.subrange(0, i as int),
        decreases v@.len() - i,
    {
        r.push(v[i]);
        i = i + 1;
        assert(r@ == v@.subrange(0, i as int));
    }
    assert(r@ == v@);
    r
}

/// Pieces taken off the board, by the side that lost them.
#[derive(Debug, Clone, PartialEq, Eq)]
pub struct TakenPieces {
    white: Vec<Piece>,
    black: Vec<Piece>,
}

impl View for TakenPieces {
    type V = (Seq<Piece>, Seq<Piece>);

    closed spec fn view(&self) -> (Seq<Piece>, Seq<Piece>) {
        (self.white@, self.black@)
    }
}

impl TakenPieces {
    /// No piece taken on either side.
    pub fn new() -> (r: TakenPieces)
        ensures
            r@ == (Seq::<Piece>::empty(), Seq::<Piece>::empty()),
    {
        TakenPieces { white: Vec::new(), black: Vec::new() }
    }

    /// Pieces taken from each side, White's then Black's.
    pub fn from_parts(white: Vec<Piece>, black: Vec<Piece>) -> (r: TakenPieces)
        ensures
            r@ == (white@, black@),
    {
        TakenPieces { white, black }
    }

    /// The pieces White has lost.
    pub fn white(&self) -> (r: &Vec<Piece>)
        ensures
            r@ == self@.0,
    {
        &self.white
    }

    /// The pieces Black has lost.
    pub fn black(&self) -> (r: &Vec<Piece>)
        ensures
            r@ == self@.1,
    {
        &self.black
    }

    /// An independent copy.
    pub fn snapshot(&self) -> (r: TakenPieces)
        ensures
            r@ == self@,
    {
        TakenPieces { white: copy_vec(&self.white), black: copy_vec(&self.black) }
    }
}

/// What a game state holds, as mathematical values.
pub struct GameStateModel {
    pub board: Seq<Option<Piece>>,
    pub turn: Color,
    pub move_history: Seq<Move>,
    pub taken_pieces: (Seq<Piece>, Seq<Piece>),
}

#[derive(Debug, Clone, PartialEq, Eq)]
pub struct GameState {
    pub board: Vec<Option<Piece>>,
    pub turn: Color,
    pub move_history: Vec<Move>,
    pub taken_pieces: TakenPieces,
}

impl View for GameState {
    type V = GameStateModel;

    open spec fn view(&self) -> GameStateModel {
        GameStateModel {
            board: self.board@,
            turn: self.turn,
            move_history: self.move_history@,
            taken_pieces: self.taken_pieces@,
        }
    }
}

impl GameState {
    /// An independent copy, for handing out while the original lives on.
    pub fn snapshot(&self) -> (r: GameState)
        ensures
            r@ == self@,
    {
        GameState {
            board: copy_vec(&self.board),
            turn: self.turn,
            move_history: copy_vec(&self.move_history),
            taken_pieces: self.taken_pieces.snapshot(),
        }
    }
}

/// A message sent by a connection.
#[derive(Debug, Clone, Copy, PartialEq, Eq, Structural)]
pub enum ClientMessage {
    Identify { id: ClientId },
    MakeMove { move_: Move },
    JoinGame { game_id: RoomId },
    TakePiece { from: Square, to: Square },
    Resign,
}

/// A message sent to a connection.
#[derive(Debug, Clone, PartialEq, Eq)]
pub enum ServerMessage {
    GameState { state: GameState },
    MoveMade { move_: Move },
    Error { message: String },
    ColorAssigned { color: Color },
    GameStarted,
    WaitingForPlayers { connected_count: u8 },
}

/// What a server message holds, as mathematical values.
pub enum ServerMessageModel {
    GameState { state: GameStateModel },
    MoveMade { move_: Move },
    Error { message: Seq<char> },
    ColorAssigned { color: Color },
    GameStarted,
    WaitingForPlayers { connected_count: u8 },
}

impl View for ServerMessage {
    type V = ServerMessageModel;

    open spec fn view(&self) -> ServerMessageModel {
        match self {
            ServerMessage::GameState { state } => ServerMessageModel::GameState { state: state@ },
            ServerMessage::MoveMade { move_ } => ServerMessageModel::MoveMade { move_: *move_ },
            ServerMessage::Error { message } => ServerMessageModel::Error { message: message@ },
            ServerMessage::ColorAssigned { color } => ServerMessageModel::ColorAssigned {
                color: *color,
            },
            ServerMessage::GameStarted => ServerMessageModel::GameStarted,
            ServerMessage::WaitingForPlayers { connected_count } =>
                ServerMessageModel::WaitingForPlayers { connected_count: *connected_count },
        }
    }
}

impl ServerMessage {
    /// An independent copy.
    pub fn snapshot(&self) -> (r: ServerMessage)
        ensures
            r@ == self@,
    {
        match self {
            ServerMessage::GameState { state } => ServerMessage::GameState {
                state: state.snapshot(),
            },
            ServerMessage::MoveMade { move_ } => ServerMessage::MoveMade { move_: *move_ },
            ServerMessage::Error { message } => ServerMessage::Error { message: message.clone() },
            ServerMessage::ColorAssigned { color } => ServerMessage::ColorAssigned {
                color: *color,
            },
            ServerMessage::GameStarted => ServerMessage::GameStarted,
            ServerMessage::WaitingForPlayers { connected_count } =>
                ServerMessage::WaitingForPlayers { connected_count: *connected_count },
        }
    }
}

/// A request for a new room: the colour its first player receives.
#[derive(Debug, Clone, Copy, PartialEq, Eq, Structural)]
pub struct NewGameBody {
    pub color: Color,
}

/// The identifier of a newly created room.
#[derive(Debug, Clone, Copy, PartialEq, Eq, Structural)]
pub struct NewGameResponse {
    pub game_id: RoomId,
}

} // verus!
