//! Static evaluation: tapered piece-square-table scoring from the side
//! to move's point of view.  The search treats it as a black box whose
//! result always stays strictly inside the mate-encoding region; those
//! bounds are what is proved here.

use vstd::prelude::*;

use crate::board::{
    board_color_mask, board_piece_mask, board_side_white, board_status, PieceKind, PositionStatus,
};
use crate::gamephase::{GamePhase, WEIGHT_INPUT_BOUND};
use crate::phased_score::{PhasedScore, RawPhasedScore};
use crate::psq_table::PieceSquareTable;
use crate::score::{Score, CENTIPAWN, DRAW, MATE};

verus! {

/// Bits set below position `n`.
pub open spec fn spec_popcnt_upto(x: u64, n: int) -> int
    decreases n,
{
    if n <= 0 {
        0
    } else {
        spec_popcnt_upto(x, n - 1) + if (x >> ((n - 1) as u64)) & 1 == 1 {
            1int
        } else {
            0int
        }
    }
}

/// The number of set bits of a word.
pub open spec fn spec_popcnt64(x: u64) -> int {
    spec_popcnt_upto(x, 64)
}

/// Counts the set bits of a word.
pub fn popcnt64(x: u64) -> (r: u32)
    ensures
        r == spec_popcnt64(x),
        r <= 64,
{
    let mut count: u32 = 0;
    let mut i: u32 = 0;
    while i < 64
        invariant
            0 <= i <= 64,
            count <= i,
            count == spec_popcnt_upto(x, i as int),
        decreases 64 - i,
    {
        if (x >> (i as u64)) & 1 == 1 {
            count = count + 1;
        }
        i = i + 1;
    }
    count
}

/// The largest magnitude a 64-square sum of table bonuses can reach.
pub const PSQ_SUM_BOUND: Score = 2097152;

/// The largest magnitude one piece kind contributes: both colours'
/// square bonuses and material.
pub const KIND_BOUND: Score = 4500000;

/// The per-square bonuses of one table for every piece of one colour.
fn psq_sum(table: &PieceSquareTable, mask: u64, white: bool) -> (r: PhasedScore)
    ensures
        -PSQ_SUM_BOUND <= r.mid_game <= PSQ_SUM_BOUND,
        -PSQ_SUM_BOUND <= r.end_game <= PSQ_SUM_BOUND,
{
    let mut mid: i64 = 0;
    let mut end: i64 = 0;
    let mut sq: u8 = 0;
    while sq < 64
        invariant
            0 <= sq <= 64,
            -32768 * sq <= mid <= 32768 * sq,
            -32768 * sq <= end <= 32768 * sq,
        decreases 64 - sq,
    {
        if (mask >> (sq as u64)) & 1 == 1 {
            let bonus = table.from_square(sq, white);
            mid = mid + bonus.mid_game;
            end = end + bonus.end_game;
        }
        sq = sq + 1;
    }
    PhasedScore { mid_game: mid, end_game: end }
}

/// Material and square bonuses of one piece kind, white minus black.
fn kind_score(board: &chess::Board, kind: PieceKind, white_mask: u64, black_mask: u64) -> (r:
    PhasedScore)
    ensures
        -KIND_BOUND <= r.mid_game <= KIND_BOUND,
        -KIND_BOUND <= r.end_game <= KIND_BOUND,
{
    let pmask = board_piece_mask(board, kind);
    let table = PieceSquareTable::from_piece(kind);
    let mat = RawPhasedScore::from_piece(kind);
    let wp = pmask & white_mask;
    let bp = pmask & black_mask;
    let wcount = popcnt64(wp) as i64;
    let bcount = popcnt64(bp) as i64;
    proof {
        assert(0 <= mat.mid_game * wcount <= 65600 && 0 <= mat.end_game * wcount <= 65600 && 0
            <= mat.mid_game * bcount <= 65600 && 0 <= mat.end_game * bcount <= 65600)
            by (nonlinear_arith)
            requires
                0 <= mat.mid_game <= 1025,
                0 <= mat.end_game <= 1025,
                0 <= wcount <= 64,
                0 <= bcount <= 64,
        ;
    }
    let wpsq = psq_sum(&table, wp, true);
    let bpsq = psq_sum(&table, bp, false);
    let mid = mat.mid_game * wcount - mat.mid_game * bcount + wpsq.mid_game + bpsq.mid_game;
    let end = mat.end_game * wcount - mat.end_game * bcount + wpsq.end_game + bpsq.end_game;
    PhasedScore { mid_game: mid, end_game: end }
}

/// The tapered piece-square evaluation of a position, from white's
/// point of view, in score units.
pub fn pesto_evaluate(board: &chess::Board) -> (r: Score)
    ensures
        -WEIGHT_INPUT_BOUND <= r <= WEIGHT_INPUT_BOUND,
{
    let phase = GamePhase::new(board);
    let white_mask = board_color_mask(board, true);
    let black_mask = board_color_mask(board, false);

    let mut total = PhasedScore::new();
    let s = kind_score(board, PieceKind::Pawn, white_mask, black_mask);
    total = total.plus(s);
    let s = kind_score(board, PieceKind::Knight, white_mask, black_mask);
    total = total.plus(s);
    let s = kind_score(board, PieceKind::Bishop, white_mask, black_mask);
    total = total.plus(s);
    let s = kind_score(board, PieceKind::Rook, white_mask, black_mask);
    total = total.plus(s);
    let s = kind_score(board, PieceKind::Queen, white_mask, black_mask);
    total = total.plus(s);
    let s = kind_score(board, PieceKind::King, white_mask, black_mask);
    total = total.plus(s);

    proof {
        assert(-6 * KIND_BOUND * CENTIPAWN <= total.mid_game * CENTIPAWN <= 6 * KIND_BOUND
            * CENTIPAWN) by (nonlinear_arith)
            requires
                -6 * KIND_BOUND <= total.mid_game <= 6 * KIND_BOUND,
        ;
        assert(-6 * KIND_BOUND * CENTIPAWN <= total.end_game * CENTIPAWN <= 6 * KIND_BOUND
            * CENTIPAWN) by (nonlinear_arith)
            requires
                -6 * KIND_BOUND <= total.end_game <= 6 * KIND_BOUND,
        ;
    }
    let scaled = total.times(CENTIPAWN);
    scaled.collapse(phase)
}

/// The static evaluation from the side to move's point of view: the
/// mated sentinel in checkmate, the draw score in stalemate, and
/// otherwise a tapered score that stays strictly inside the
/// mate-encoding region.
pub fn evaluate(board: &chess::Board) -> (r: Score)
    ensures
        -MATE <= r <= MATE,
        r == -MATE || -WEIGHT_INPUT_BOUND <= r <= WEIGHT_INPUT_BOUND,
{
    match board_status(board) {
        PositionStatus::Checkmate => -MATE,
        PositionStatus::Stalemate => DRAW,
        PositionStatus::Ongoing => {
            let white_eval = pesto_evaluate(board);
            if board_side_white(board) {
                white_eval
            } else {
                -white_eval
            }
        },
    }
}

} // verus!
