use chess_rooms::board::create_initial_board;
use chess_rooms::game_logic::{handle_move, start_game_if_possible};
use chess_rooms::registry::{new_game, RoomRegistry};
use chess_rooms::room::{Client, Delivery, GameRoom};
use chess_rooms::types::{
    Color, GameState, Move, NewGameBody, Piece, PieceType, ServerMessage, TakenPieces,
};

fn client(id: u128, sink: u64) -> Client {
    Client { id, color: None, sink }
}

fn full_room() -> GameRoom {
    let mut room = GameRoom::new(Color::White);
    room.add_client(client(1, 11));
    room.add_client(client(2, 22));
    room
}

#[test]
fn initial_board_layout() {
    let board = create_initial_board();
    assert_eq!(board.len(), 64);
    let black = |piece| Some(Piece { color: Color::Black, piece });
    let white = |piece| Some(Piece { color: Color::White, piece });
    let back = [
        PieceType::Rook,
        PieceType::Knight,
        PieceType::Bishop,
        PieceType::Queen,
        PieceType::King,
        PieceType::Bishop,
        PieceType::Knight,
        PieceType::Rook,
    ];
    for file in 0..8 {
        assert_eq!(board[file], black(back[file]));
        assert_eq!(board[8 + file], black(PieceType::Pawn));
        assert_eq!(board[48 + file], white(PieceType::Pawn));
        assert_eq!(board[56 + file], white(back[file]));
    }
    for sq in 16..48 {
        assert_eq!(board[sq], None);
    }
    assert_eq!(board[60], white(PieceType::King));
    assert_eq!(board[59], white(PieceType::Queen));
    assert_eq!(board[4], black(PieceType::King));
}

#[test]
fn seating_gives_reserved_then_opposite_then_refuses() {
    let mut room = GameRoom::new(Color::Black);
    assert_eq!(room.add_client(client(1, 11)), Some(Color::Black));
    assert_eq!(room.add_client(client(2, 22)), Some(Color::White));
    assert_eq!(room.add_client(client(3, 33)), None);
    assert_eq!(room.get_client_count(), 2);
    assert_eq!(room.clients[0].color, Some(Color::Black));
    assert_eq!(room.clients[1].color, Some(Color::White));
}

#[test]
fn rejoin_after_departure_takes_free_colour() {
    let mut room = GameRoom::new(Color::White);
    room.add_client(client(1, 11));
    room.add_client(client(2, 22));
    room.remove_client(&1);
    assert_eq!(room.add_client(client(3, 33)), Some(Color::White));
}

#[test]
fn can_start_only_with_two_unstarted() {
    let mut room = GameRoom::new(Color::White);
    assert!(!room.can_start_game());
    room.add_client(client(1, 11));
    assert!(!room.can_start_game());
    room.start_game();
    assert!(!room.is_game_started());
    assert_eq!(room.get_game_state(), None);
    room.add_client(client(2, 22));
    assert!(room.can_start_game());
    room.start_game();
    assert!(room.is_game_started());
    assert!(!room.can_start_game());
    let state = room.get_game_state().unwrap();
    assert_eq!(state.turn, Color::White);
    assert!(state.move_history.is_empty());
    assert_eq!(state.board, create_initial_board());
}

#[test]
fn start_is_idempotent() {
    let mut room = full_room();
    room.start_game();
    room.handle_move(&1, &Move { from: 52, to: 36, promotion: None }).unwrap();
    let before = room.get_game_state();
    room.start_game();
    assert_eq!(room.get_game_state(), before);
}

#[test]
fn move_before_start_is_refused() {
    let mut room = full_room();
    assert_eq!(room.handle_move(&1, &Move { from: 52, to: 36, promotion: None }), None);
    assert_eq!(room.get_game_state(), None);
}

#[test]
fn move_by_stranger_is_refused() {
    let mut room = full_room();
    room.start_game();
    let before = room.get_game_state();
    assert_eq!(room.handle_move(&9, &Move { from: 52, to: 36, promotion: None }), None);
    assert_eq!(room.get_game_state(), before);
}

#[test]
fn accepted_move_relocates_and_flips_turn() {
    let mut room = full_room();
    room.start_game();
    let m = Move { from: 57, to: 42, promotion: None };
    let (applied, state) = room.handle_move(&1, &m).unwrap();
    assert_eq!(applied, m);
    assert_eq!(state.turn, Color::Black);
    assert_eq!(state.move_history, vec![m.clone()]);
    assert_eq!(state.board[42], Some(Piece { color: Color::White, piece: PieceType::Knight }));
    assert_eq!(state.board[57], None);
    assert_eq!(room.get_game_state(), Some(state));
}

#[test]
fn capture_overwrites_target() {
    let mut room = full_room();
    room.start_game();
    let (_, state) = room.handle_move(&1, &Move { from: 48, to: 8, promotion: None }).unwrap();
    assert_eq!(state.board[8], Some(Piece { color: Color::White, piece: PieceType::Pawn }));
    assert_eq!(state.board[48], None);
    assert_eq!(state.taken_pieces, TakenPieces::new());
}

#[test]
fn move_to_same_square_keeps_piece() {
    let mut room = full_room();
    room.start_game();
    let (_, state) = room.handle_move(&1, &Move { from: 60, to: 60, promotion: None }).unwrap();
    assert_eq!(state.board[60], Some(Piece { color: Color::White, piece: PieceType::King }));
    assert_eq!(state.turn, Color::Black);
}

#[test]
fn off_board_source_is_refused() {
    let mut room = full_room();
    room.start_game();
    assert_eq!(room.handle_move(&1, &Move { from: 200, to: 36, promotion: None }), None);
}

#[test]
fn leaving_started_room_drops_game() {
    let mut room = full_room();
    room.start_game();
    room.handle_move(&1, &Move { from: 52, to: 36, promotion: None }).unwrap();
    room.remove_client(&2);
    assert!(!room.is_game_started());
    assert_eq!(room.get_game_state(), None);
    assert_eq!(room.get_client_count(), 1);
}

#[test]
fn removing_stranger_keeps_game() {
    let mut room = full_room();
    room.start_game();
    room.remove_client(&9);
    assert!(room.is_game_started());
    assert_eq!(room.get_client_count(), 2);
}

#[test]
fn broadcast_reaches_every_player_in_order() {
    let room = full_room();
    let out = room.broadcast(&ServerMessage::GameStarted);
    assert_eq!(
        out,
        vec![
            Delivery { sink: 11, message: ServerMessage::GameStarted },
            Delivery { sink: 22, message: ServerMessage::GameStarted },
        ]
    );
    assert!(GameRoom::new(Color::White).broadcast(&ServerMessage::GameStarted).is_empty());
}

#[test]
fn send_to_client_finds_member_only() {
    let room = full_room();
    let msg = ServerMessage::WaitingForPlayers { connected_count: 2 };
    assert_eq!(room.send_to_client(&2, &msg), Some(Delivery { sink: 22, message: msg.clone() }));
    assert_eq!(room.send_to_client(&7, &msg), None);
}

#[test]
fn rooms_get_distinct_identifiers() {
    let mut registry = RoomRegistry::new();
    let a = registry.create_room(Color::White);
    let b = registry.create_room(Color::White);
    assert_ne!(a, b);
    assert_ne!(a, 0);
    assert_eq!(registry.rooms.len(), 2);
    assert_eq!(registry.rooms.get(&a).unwrap().game_id, a);
}

#[test]
fn new_game_creates_room_with_colour() {
    let mut registry = RoomRegistry::new();
    let response = new_game(&mut registry, NewGameBody { color: Color::Black });
    let room = registry.rooms.get(&response.game_id).unwrap();
    assert_eq!(room.reserved_color, Color::Black);
    assert_eq!(room.get_client_count(), 0);
    assert!(!room.is_game_started());
    assert!(registry.contains_room(&response.game_id));
}

#[test]
fn take_and_put_room() {
    let mut registry = RoomRegistry::new();
    let id = registry.create_room(Color::White);
    let room = registry.take_room(&id).unwrap();
    assert!(!registry.contains_room(&id));
    assert!(registry.take_room(&id).is_none());
    registry.put_room(room);
    assert!(registry.contains_room(&id));
}

#[test]
fn start_game_if_possible_announces_start() {
    let mut registry = RoomRegistry::new();
    let id = registry.create_room(Color::White);
    let mut room = registry.take_room(&id).unwrap();
    room.add_client(client(1, 11));
    registry.put_room(room);
    assert!(start_game_if_possible(&id, &mut registry).is_empty());
    let mut room = registry.take_room(&id).unwrap();
    room.add_client(client(2, 22));
    registry.put_room(room);
    let out = start_game_if_possible(&id, &mut registry);
    let state = GameState {
        board: create_initial_board(),
        turn: Color::White,
        move_history: vec![],
        taken_pieces: TakenPieces::new(),
    };
    assert_eq!(
        out,
        vec![
            Delivery { sink: 11, message: ServerMessage::GameStarted },
            Delivery { sink: 22, message: ServerMessage::GameStarted },
            Delivery { sink: 11, message: ServerMessage::GameState { state: state.clone() } },
            Delivery { sink: 22, message: ServerMessage::GameState { state } },
        ]
    );
    assert!(start_game_if_possible(&id, &mut registry).is_empty());
}

#[test]
fn registry_handle_move_announces_or_stays_silent() {
    let mut registry = RoomRegistry::new();
    let id = registry.create_room(Color::White);
    let mut room = registry.take_room(&id).unwrap();
    room.add_client(client(1, 11));
    room.add_client(client(2, 22));
    room.start_game();
    registry.put_room(room);
    let m = Move { from: 52, to: 36, promotion: None };
    assert!(handle_move(&id, &mut registry, &2, &m).is_empty());
    let out = handle_move(&id, &mut registry, &1, &m);
    assert_eq!(out.len(), 4);
    assert_eq!(out[0], Delivery { sink: 11, message: ServerMessage::MoveMade { move_: m.clone() } });
    assert_eq!(out[1], Delivery { sink: 22, message: ServerMessage::MoveMade { move_: m } });
    match &out[3].message {
        ServerMessage::GameState { state } => assert_eq!(state.turn, Color::Black),
        other => panic!("unexpected {:?}", other),
    }
}

#[test]
fn opposite_colours() {
    assert_eq!(Color::White.opposite(), Color::Black);
    assert_eq!(Color::Black.opposite(), Color::White);
}

#[test]
fn snapshots_are_equal_copies() {
    let taken = TakenPieces::from_parts(
        vec![Piece { color: Color::White, piece: PieceType::Pawn }],
        vec![],
    );
    assert_eq!(taken.white().len(), 1);
    assert!(taken.black().is_empty());
    let state = GameState {
        board: create_initial_board(),
        turn: Color::Black,
        move_history: vec![Move { from: 1, to: 2, promotion: Some(PieceType::Queen) }],
        taken_pieces: taken,
    };
    assert_eq!(state.snapshot(), state);
    let msg = ServerMessage::Error { message: "x".to_string() };
    assert_eq!(msg.snapshot(), msg);
}

#[test]
fn missing_room_is_harmless_for_registry_operations() {
    let mut registry = RoomRegistry::new();
    let id = registry.create_room(Color::White);
    let other = id.wrapping_add(1);
    assert!(start_game_if_possible(&other, &mut registry).is_empty());
    let m = Move { from: 52, to: 36, promotion: None };
    assert!(handle_move(&other, &mut registry, &1, &m).is_empty());
    assert_eq!(registry.rooms.len(), 1);
    assert!(!registry.contains_room(&other));
}

#[test]
fn many_creations_never_reuse_an_identifier() {
    let mut registry = RoomRegistry::new();
    let mut ids = Vec::new();
    for i in 0..50 {
        let colour = if i % 2 == 0 { Color::White } else { Color::Black };
        let id = registry.create_room(colour);
        assert!(!ids.contains(&id));
        ids.push(id);
    }
    assert_eq!(registry.rooms.len(), 50);
}
