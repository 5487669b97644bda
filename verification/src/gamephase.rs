//! The game phase: how far the position is from the endgame, measured in
//! remaining material and used to blend midgame and endgame scores.

use vstd::prelude::*;

use crate::board::{board_piece_mask, PieceKind};
use crate::evaluate::popcnt64;
use crate::score::{spec_div_trunc, Score};

verus! {

/// The combined weight of both phases; the blend divides by it.
pub const PHASE_TOTAL: Score = 24;

/// Scores this large can still be blended without overflow.
pub const WEIGHT_INPUT_BOUND: Score = 144115188075855872;

/// A pair of blend weights that always sums to `PHASE_TOTAL`.
#[derive(Clone, Copy, PartialEq, Eq, Structural, Debug)]
pub struct GamePhase {
    pub mid_weight: Score,
    pub end_weight: Score,
}

impl GamePhase {
    pub open spec fn wf(self) -> bool {
        &&& 0 <= self.mid_weight <= PHASE_TOTAL
        &&& self.mid_weight + self.end_weight == PHASE_TOTAL
    }

    /// The phase weights from raw piece counts: minor pieces weigh one,
    /// rooks two, queens four, the total clamped to the midgame cap.
    pub fn from_counts(knights: u32, bishops: u32, rooks: u32, queens: u32) -> (r: GamePhase)
        requires
            knights <= 64,
            bishops <= 64,
            rooks <= 64,
            queens <= 64,
        ensures
            r.wf(),
            ({
                let raw = knights + bishops + 2 * rooks + 4 * queens;
                r.mid_weight == if raw > PHASE_TOTAL {
                    PHASE_TOTAL as int
                } else {
                    raw as int
                }
            }),
    {
        let raw: u32 = knights + bishops + 2 * rooks + 4 * queens;
        let mid_weight: Score = if raw > 24 {
            24
        } else {
            raw as Score
        };
        GamePhase { mid_weight, end_weight: 24 - mid_weight }
    }

    /// The phase of a position, from the piece masks the move generator
    /// reports.  Pawns weigh nothing and kings are always present.
    pub fn new(board: &chess::Board) -> (r: GamePhase)
        ensures
            r.wf(),
    {
        let knights = popcnt64(board_piece_mask(board, PieceKind::Knight));
        let bishops = popcnt64(board_piece_mask(board, PieceKind::Bishop));
        let rooks = popcnt64(board_piece_mask(board, PieceKind::Rook));
        let queens = popcnt64(board_piece_mask(board, PieceKind::Queen));
        GamePhase::from_counts(knights, bishops, rooks, queens)
    }

    /// Blends a midgame and an endgame score by the phase weights,
    /// rounding toward zero.
    pub fn weight(&self, mid_game: Score, end_game: Score) -> (r: Score)
        requires
            self.wf(),
            -WEIGHT_INPUT_BOUND <= mid_game <= WEIGHT_INPUT_BOUND,
            -WEIGHT_INPUT_BOUND <= end_game <= WEIGHT_INPUT_BOUND,
        ensures
            r == spec_div_trunc(
                mid_game * self.mid_weight + end_game * self.end_weight,
                PHASE_TOTAL as int,
            ),
            -WEIGHT_INPUT_BOUND <= r <= WEIGHT_INPUT_BOUND,
    {
        proof {
            assert(-24 * WEIGHT_INPUT_BOUND <= mid_game * self.mid_weight <= 24
                * WEIGHT_INPUT_BOUND && -24 * WEIGHT_INPUT_BOUND <= end_game * self.end_weight <= 24
                * WEIGHT_INPUT_BOUND) by (nonlinear_arith)
                requires
                    0 <= self.mid_weight <= 24,
                    0 <= self.end_weight <= 24,
                    -WEIGHT_INPUT_BOUND <= mid_game <= WEIGHT_INPUT_BOUND,
                    -WEIGHT_INPUT_BOUND <= end_game <= WEIGHT_INPUT_BOUND,
            ;
        }
        let numerator = mid_game * self.mid_weight + end_game * self.end_weight;
        let r = numerator / (self.mid_weight + self.end_weight);
        proof {
            let n = numerator as int;
            assert(-24 * WEIGHT_INPUT_BOUND <= n <= 24 * WEIGHT_INPUT_BOUND) by (nonlinear_arith)
                requires
                    0 <= self.mid_weight <= 24,
                    0 <= self.end_weight <= 24,
                    self.mid_weight + self.end_weight == 24,
                    -WEIGHT_INPUT_BOUND <= mid_game <= WEIGHT_INPUT_BOUND,
                    -WEIGHT_INPUT_BOUND <= end_game <= WEIGHT_INPUT_BOUND,
                    n == mid_game * self.mid_weight + end_game * self.end_weight,
            ;
            assert(-WEIGHT_INPUT_BOUND <= spec_div_trunc(n, 24) <= WEIGHT_INPUT_BOUND);
        }
        r
    }
}

} // verus!
