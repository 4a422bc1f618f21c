//! The standard starting layout.
use vstd::prelude::*;
use crate::types::{Color, Piece, PieceType, BOARD_SIZE};

verus! {

/// The piece on a back-rank file, in standard order.
pub open spec fn back_rank_piece(file: int) -> PieceType {
    if file == 0 || file == 7 {
        PieceType::Rook
    } else if file == 1 || file == 6 {
        PieceType::Knight
    } else if file == 2 || file == 5 {
        PieceType::Bishop
    } else if file == 3 {
        PieceType::Queen
    } else {
        PieceType::King
    }
}

/// What stands on a square at the start: Black on ranks 0 and 1, White on
/// ranks 6 and 7, pawns on the inner of each pair.
pub open spec fn initial_square(sq: int) -> Option<Piece> {
    let rank = sq / 8;
    let file = sq % 8;
    if rank == 0 {
        Some(Piece { color: Color::Black, piece: back_rank_piece(file) })
    } else if rank == 1 {
        Some(Piece { color: Color::Black, piece: PieceType::Pawn })
    } else if rank == 6 {
        Some(Piece { color: Color::White, piece: PieceType::Pawn })
    } else if rank == 7 {
        Some(Piece { color: Color::White, piece: back_rank_piece(file) })
    } else {
        None
    }
}

/// The starting board, all 64 squares.
pub open spec fn initial_board() -> Seq<Option<Piece>> {
    Seq::new(64, |sq: int| initial_square(sq))
}

fn back_rank(file: u8) -> (r: PieceType)
    requires
        file < 8,
    ensures
        r == back_rank_piece(file as int),
{
    if file == 0 || file == 7 {
        PieceType::Rook
    } else if file == 1 || file == 6 {
        PieceType::Knight
    } else if file == 2 || file == 5 {
        PieceType::Bishop
    } else if file == 3 {
        PieceType::Queen
    } else {
        PieceType::King
    }
}

fn square_at_start(sq: u8) -> (r: Option<Piece>)
    requires
        sq < 64,
    ensures
        r == initial_square(sq as int),
{
    let rank: u8 = sq / 8;
    let file: u8 = sq % 8;
    if rank == 0 {
        Some(Piece { color: Color::Black, piece: back_rank(file) })
    } else if rank == 1 {
        Some(Piece { color: Color::Black, piece: PieceType::Pawn })
    } else if rank == 6 {
        Some(Piece { color: Color::White, piece: PieceType::Pawn })
    } else if rank == 7 {
        Some(Piece { color: Color::White, piece: back_rank(file) })
    } else {
        None
    }
}

/// The standard starting arrangement.
pub fn create_initial_board() -> (r: Vec<Option<Piece>>)
    ensures
        r@ == initial_board(),
        r@.len() == BOARD_SIZE,
{
    let mut board: Vec<Option<Piece>> = Vec::new();
    let mut sq: u8 = 0;
    while sq < 64
        invariant
            sq <= 64,
            board@ == initial_board().subrange(0, sq as int),
        decreases 64 - sq,
    {
        board.push(square_at_start(sq));
        sq = sq + 1;
        assert(board@ == initial_board().subrange(0, sq as int));
    }
    assert(board@ == initial_board());
    board
}

} // verus!
