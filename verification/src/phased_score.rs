//! Scores kept as a midgame and an endgame component, blended by the
//! game phase only at the very end of evaluation.

use vstd::prelude::*;

use crate::board::PieceKind;
use crate::gamephase::{GamePhase, WEIGHT_INPUT_BOUND};
use crate::score::{spec_div_trunc, Score};

verus! {

/// A colourless phased score: what a piece or square is worth in the
/// midgame and in the endgame.
#[derive(Clone, Copy, PartialEq, Eq, Structural, Debug)]
pub struct RawPhasedScore {
    pub mid_game: Score,
    pub end_game: Score,
}

/// A phased score from white's point of view.
#[derive(Clone, Copy, PartialEq, Eq, Structural, Debug)]
pub struct PhasedScore {
    pub mid_game: Score,
    pub end_game: Score,
}

impl RawPhasedScore {
    pub fn new(mid_game: Score, end_game: Score) -> (r: RawPhasedScore)
        ensures
            r == (RawPhasedScore { mid_game, end_game }),
    {
        RawPhasedScore { mid_game, end_game }
    }

    /// The classical material values, midgame and endgame.
    pub fn from_piece(piece: PieceKind) -> (r: RawPhasedScore)
        ensures
            0 <= r.mid_game <= 1025,
            0 <= r.end_game <= 1025,
            piece == PieceKind::Pawn ==> r == (RawPhasedScore { mid_game: 82, end_game: 94 }),
            piece == PieceKind::Knight ==> r == (RawPhasedScore { mid_game: 337, end_game: 281 }),
            piece == PieceKind::Bishop ==> r == (RawPhasedScore { mid_game: 365, end_game: 297 }),
            piece == PieceKind::Rook ==> r == (RawPhasedScore { mid_game: 477, end_game: 512 }),
            piece == PieceKind::Queen ==> r == (RawPhasedScore { mid_game: 1025, end_game: 936 }),
            piece == PieceKind::King ==> r == (RawPhasedScore { mid_game: 0, end_game: 0 }),
    {
        match piece {
            PieceKind::Pawn => RawPhasedScore::new(82, 94),
            PieceKind::Knight => RawPhasedScore::new(337, 281),
            PieceKind::Bishop => RawPhasedScore::new(365, 297),
            PieceKind::Rook => RawPhasedScore::new(477, 512),
            PieceKind::Queen => RawPhasedScore::new(1025, 936),
            PieceKind::King => RawPhasedScore::new(0, 0),
        }
    }

    /// The score from white's point of view: white keeps the sign,
    /// black negates it.
    pub fn colorize(self, white: bool) -> (r: PhasedScore)
        requires
            i64::MIN < self.mid_game,
            i64::MIN < self.end_game,
        ensures
            white ==> r == (PhasedScore { mid_game: self.mid_game, end_game: self.end_game }),
            !white ==> r.mid_game == -self.mid_game && r.end_game == -self.end_game,
    {
        if white {
            PhasedScore { mid_game: self.mid_game, end_game: self.end_game }
        } else {
            PhasedScore { mid_game: -self.mid_game, end_game: -self.end_game }
        }
    }
}

impl PhasedScore {
    pub fn new() -> (r: PhasedScore)
        ensures
            r == (PhasedScore { mid_game: 0i64, end_game: 0i64 }),
    {
        PhasedScore { mid_game: 0, end_game: 0 }
    }

    /// The material value of one piece of one colour.
    pub fn from_piece(piece: PieceKind, white: bool) -> (r: PhasedScore)
        ensures
            -1025 <= r.mid_game <= 1025,
            -1025 <= r.end_game <= 1025,
    {
        RawPhasedScore::from_piece(piece).colorize(white)
    }

    /// Componentwise sum.
    pub fn plus(self, rhs: PhasedScore) -> (r: PhasedScore)
        requires
            i64::MIN <= self.mid_game + rhs.mid_game <= i64::MAX,
            i64::MIN <= self.end_game + rhs.end_game <= i64::MAX,
        ensures
            r.mid_game == self.mid_game + rhs.mid_game,
            r.end_game == self.end_game + rhs.end_game,
    {
        PhasedScore {
            mid_game: self.mid_game + rhs.mid_game,
            end_game: self.end_game + rhs.end_game,
        }
    }

    /// Componentwise scaling.
    pub fn times(self, rhs: Score) -> (r: PhasedScore)
        requires
            i64::MIN <= self.mid_game * rhs <= i64::MAX,
            i64::MIN <= self.end_game * rhs <= i64::MAX,
        ensures
            r.mid_game == self.mid_game * rhs,
            r.end_game == self.end_game * rhs,
    {
        PhasedScore { mid_game: self.mid_game * rhs, end_game: self.end_game * rhs }
    }

    /// The single score this phased score blends to under the given
    /// phase.
    pub fn collapse(self, phase: GamePhase) -> (r: Score)
        requires
            phase.wf(),
            -WEIGHT_INPUT_BOUND <= self.mid_game <= WEIGHT_INPUT_BOUND,
            -WEIGHT_INPUT_BOUND <= self.end_game <= WEIGHT_INPUT_BOUND,
        ensures
            r == spec_div_trunc(
                self.mid_game * phase.mid_weight + self.end_game * phase.end_weight,
                24,
            ),
            -WEIGHT_INPUT_BOUND <= r <= WEIGHT_INPUT_BOUND,
    {
        phase.weight(self.mid_game, self.end_game)
    }
}

} // verus!
