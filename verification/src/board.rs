//! The trusted boundary to the move generator and board representation.
//!
//! Boards, generator states and the generator's move values are opaque
//! here; each wrapper makes one call into the `chess` crate and converts
//! its arguments and result between the crate's types and the library's
//! plain ones (square indices, bit masks as `u64`, the library's `Move`).

use vstd::prelude::*;

use crate::moves::{Move, Promotion};

verus! {

#[verifier::external_type_specification]
#[verifier::external_body]
pub struct ExBoard(chess::Board);

#[verifier::external_type_specification]
#[verifier::external_body]
pub struct ExChessMove(chess::ChessMove);

#[verifier::external_type_specification]
#[verifier::external_body]
pub struct ExMoveGen(chess::MoveGen);

/// The game status of a position, as the move generator reports it.
#[derive(Clone, Copy, PartialEq, Eq, Structural, Debug)]
pub enum PositionStatus {
    Ongoing,
    Stalemate,
    Checkmate,
}

/// The six piece kinds, for selecting bit masks of a position.
#[derive(Clone, Copy, PartialEq, Eq, Structural, Debug)]
pub enum PieceKind {
    Pawn,
    Knight,
    Bishop,
    Rook,
    Queen,
    King,
}

/// Relies on chess::ChessMove::new and the ALL_SQUARES table: builds the
/// generator's move value for a move of the library.
#[verifier::external_body]
pub(crate) fn move_to_chess(m: Move) -> chess::ChessMove
    requires
        m.wf(),
{
    let promotion = match m.get_promotion() {
        Promotion::Empty => None,
        Promotion::Knight => Some(chess::Piece::Knight),
        Promotion::Bishop => Some(chess::Piece::Bishop),
        Promotion::Rook => Some(chess::Piece::Rook),
        Promotion::Queen => Some(chess::Piece::Queen),
    };
    chess::ChessMove::new(
        chess::ALL_SQUARES[m.get_source() as usize],
        chess::ALL_SQUARES[m.get_dest() as usize],
        promotion,
    )
}

/// Relies on chess::ChessMove::get_source, get_dest and get_promotion:
/// reads a generator move into the library's form.  Square indices of
/// the generator are always below 64.
#[verifier::external_body]
pub(crate) fn move_from_chess(cm: &chess::ChessMove) -> (r: Move)
    ensures
        r.wf(),
{
    let promotion = match cm.get_promotion() {
        None => Promotion::Empty,
        Some(chess::Piece::Knight) => Promotion::Knight,
        Some(chess::Piece::Bishop) => Promotion::Bishop,
        Some(chess::Piece::Rook) => Promotion::Rook,
        Some(chess::Piece::Queen) => Promotion::Queen,
        Some(_) => Promotion::Empty,
    };
    Move::new(
        (cm.get_source().to_index() % 64) as u8,
        (cm.get_dest().to_index() % 64) as u8,
        promotion,
    )
}

/// Relies on chess::Board::get_hash: the position's 64-bit Zobrist key.
#[verifier::external_body]
pub(crate) fn board_hash(board: &chess::Board) -> u64 {
    board.get_hash()
}

/// Relies on chess::Board::checkers: the mask of pieces giving check to
/// the side to move; zero when not in check.
#[verifier::external_body]
pub(crate) fn board_checkers(board: &chess::Board) -> u64 {
    board.checkers().0
}

/// Relies on chess::Board::pieces: the mask of squares holding the given
/// piece kind, either colour.
#[verifier::external_body]
pub(crate) fn board_piece_mask(board: &chess::Board, kind: PieceKind) -> u64 {
    let piece = match kind {
        PieceKind::Pawn => chess::Piece::Pawn,
        PieceKind::Knight => chess::Piece::Knight,
        PieceKind::Bishop => chess::Piece::Bishop,
        PieceKind::Rook => chess::Piece::Rook,
        PieceKind::Queen => chess::Piece::Queen,
        PieceKind::King => chess::Piece::King,
    };
    board.pieces(piece).0
}

/// Relies on chess::Board::color_combined: the mask of squares held by
/// one colour.
#[verifier::external_body]
pub(crate) fn board_color_mask(board: &chess::Board, white: bool) -> u64 {
    let color = if white {
        chess::Color::White
    } else {
        chess::Color::Black
    };
    board.color_combined(color).0
}

/// Relies on chess::Board::combined: the mask of all occupied squares.
#[verifier::external_body]
pub(crate) fn board_combined(board: &chess::Board) -> u64 {
    board.combined().0
}

/// Relies on chess::Board::side_to_move.
#[verifier::external_body]
pub(crate) fn board_side_white(board: &chess::Board) -> bool {
    board.side_to_move() == chess::Color::White
}

/// Relies on chess::Board::status: checkmate and stalemate are the
/// positions without a legal move, told apart by check.
#[verifier::external_body]
pub(crate) fn board_status(board: &chess::Board) -> PositionStatus {
    match board.status() {
        chess::BoardStatus::Ongoing => PositionStatus::Ongoing,
        chess::BoardStatus::Stalemate => PositionStatus::Stalemate,
        chess::BoardStatus::Checkmate => PositionStatus::Checkmate,
    }
}

/// Relies on chess::Board::legal and chess::Board::make_move_new: the
/// position after the move when the generator accepts it in this
/// position, and None otherwise.  The legality test keeps the call
/// total: make_move_new alone misbehaves on moves recorded for another
/// position, which a hash collision can hand a caller.
#[verifier::external_body]
pub(crate) fn board_make_move(board: &chess::Board, m: Move) -> Option<chess::Board>
    requires
        m.wf(),
{
    let chess_move = move_to_chess(m);
    if board.legal(chess_move) {
        Some(board.make_move_new(chess_move))
    } else {
        None
    }
}

/// Relies on chess::Board::null_move: the position with the turn passed;
/// refused (None) when the side to move is in check.
#[verifier::external_body]
pub(crate) fn board_null_move(board: &chess::Board) -> Option<chess::Board> {
    board.null_move()
}

/// Relies on chess::Board::legal: whether the generator accepts the move
/// in this position.
#[verifier::external_body]
pub(crate) fn board_legal(board: &chess::Board, m: Move) -> bool
    requires
        m.wf(),
{
    board.legal(move_to_chess(m))
}

/// Relies on the derived PartialEq of chess::Board, which compares every
/// field of the position, so the call decides structural equality.
#[verifier::external_body]
pub(crate) fn board_eq(a: &chess::Board, b: &chess::Board) -> (r: bool)
    ensures
        r == (a == b),
{
    a == b
}

/// Relies on chess::MoveGen::new_legal: a generator over the legal moves
/// of the position, initially unmasked.
#[verifier::external_body]
pub(crate) fn movegen_new(board: &chess::Board) -> chess::MoveGen {
    chess::MoveGen::new_legal(board)
}

/// Relies on chess::MoveGen::set_iterator_mask: restricts the generator
/// to moves landing on the given squares until the mask changes again.
#[verifier::external_body]
pub(crate) fn movegen_set_mask(movegen: &mut chess::MoveGen, mask: u64) {
    movegen.set_iterator_mask(chess::BitBoard(mask));
}

/// Relies on chess::MoveGen::remove_move: the given move will not be
/// yielded again.
#[verifier::external_body]
pub(crate) fn movegen_remove(movegen: &mut chess::MoveGen, m: Move)
    requires
        m.wf(),
{
    movegen.remove_move(move_to_chess(m));
}

/// Relies on the Iterator impl of chess::MoveGen: the next legal move
/// landing in the current mask, converted to the library's form.
#[verifier::external_body]
pub(crate) fn movegen_next(movegen: &mut chess::MoveGen) -> (r: Option<Move>)
    ensures
        r matches Some(m) ==> m.wf(),
{
    match movegen.next() {
        Some(cm) => Some(move_from_chess(&cm)),
        None => None,
    }
}

} // verus!
