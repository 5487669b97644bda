//! Ordered move generation: recorded best replies first, then captures
//! of the most valuable victims, then the quiet moves.  The legal-move
//! enumeration itself belongs to the outside move generator; the
//! ordering around it is verified, and an explicit yield bound keeps
//! every loop over the generator terminating.

use vstd::prelude::*;

use crate::best_moves::BestMoves;
use crate::board::{
    board_piece_mask, movegen_new, movegen_next, movegen_remove, movegen_set_mask, PieceKind,
};
use crate::moves::Move;

verus! {

/// More moves than any position can yield; a hard stop that makes the
/// move loops' termination a local fact.
pub const MOVE_LIMIT: usize = 512;

/// A single-pass ordered stream of the legal moves of one position.
pub struct OrderedMoveGen {
    pv: BestMoves,
    movegen: chess::MoveGen,
    masks: Vec<u64>,
    phase: usize,
    yielded: usize,
}

impl OrderedMoveGen {
    /// How many moves the stream has handed out.
    pub closed spec fn spec_yielded(self) -> int {
        self.yielded as int
    }

    /// The seed moves not yet handed out.
    pub closed spec fn spec_seed(self) -> BestMoves {
        self.pv
    }

    pub closed spec fn wf(self) -> bool {
        &&& self.phase <= self.masks@.len()
        &&& self.masks@.len() <= 6
        &&& self.yielded <= MOVE_LIMIT
        &&& self.pv.elements_wf()
    }

    /// The ordered stream for a full-width node: the seed moves, then
    /// captures of queens, rooks, bishops, knights and pawns in that
    /// order, then everything else.
    pub fn full_search(board: &chess::Board, pv: BestMoves) -> (r: OrderedMoveGen)
        requires
            pv.elements_wf(),
        ensures
            r.wf(),
            r.spec_yielded() == 0,
            r.spec_seed() == pv,
    {
        let mut masks: Vec<u64> = Vec::new();
        masks.push(board_piece_mask(board, PieceKind::Queen));
        masks.push(board_piece_mask(board, PieceKind::Rook));
        masks.push(board_piece_mask(board, PieceKind::Bishop));
        masks.push(board_piece_mask(board, PieceKind::Knight));
        masks.push(board_piece_mask(board, PieceKind::Pawn));
        masks.push(!0u64);
        let mut movegen = movegen_new(board);
        movegen_set_mask(&mut movegen, masks[0]);
        OrderedMoveGen { pv, movegen, masks, phase: 1, yielded: 0 }
    }

    /// The ordered stream for a quiescence node: the seed moves and the
    /// captures only; the final mask is empty, so quiet moves never
    /// appear.
    pub fn quiescence_search(board: &chess::Board, pv: BestMoves) -> (r: OrderedMoveGen)
        requires
            pv.elements_wf(),
        ensures
            r.wf(),
            r.spec_yielded() == 0,
            r.spec_seed() == pv,
    {
        let mut masks: Vec<u64> = Vec::new();
        masks.push(board_piece_mask(board, PieceKind::Queen));
        masks.push(board_piece_mask(board, PieceKind::Rook));
        masks.push(board_piece_mask(board, PieceKind::Bishop));
        masks.push(board_piece_mask(board, PieceKind::Knight));
        masks.push(board_piece_mask(board, PieceKind::Pawn));
        masks.push(0u64);
        let mut movegen = movegen_new(board);
        movegen_set_mask(&mut movegen, masks[0]);
        OrderedMoveGen { pv, movegen, masks, phase: 1, yielded: 0 }
    }

    /// The next move of the stream: a seed move while any remain
    /// (removed from the generator so it cannot repeat), then the
    /// generator's moves mask by mask.  Yields at most `MOVE_LIMIT`
    /// moves, each well formed, and counts every yield.
    pub fn next(&mut self) -> (r: Option<Move>)
        requires
            old(self).wf(),
        ensures
            final(self).wf(),
            final(self).spec_yielded() <= MOVE_LIMIT,
            r matches Some(m) ==> m.wf() && final(self).spec_yielded() == old(self).spec_yielded()
                + 1,
            r is None ==> final(self).spec_yielded() == old(self).spec_yielded(),
            old(self).spec_seed()@.len() > 0 && old(self).spec_yielded() < MOVE_LIMIT ==> (r
                == Some(old(self).spec_seed()@[0].mv)
                && final(self).spec_seed()@
                == old(self).spec_seed()@.subrange(1, old(self).spec_seed()@.len() as int)),
            old(self).spec_seed()@.len() == 0 || old(self).spec_yielded() >= MOVE_LIMIT ==> (*
            final(self)).spec_seed() == old(self).spec_seed(),
    {
        if self.yielded >= MOVE_LIMIT {
            return None;
        }
        let popped = self.pv.pop();
        proof {
            assert forall|i: int| 0 <= i < self.pv@.len() implies (#[trigger] self.pv@[i]).wf() by {
                assert(old(self).pv@[i + 1].wf());
            }
        }
        if let Some(rm) = popped {
            movegen_remove(&mut self.movegen, rm.mv);
            self.yielded = self.yielded + 1;
            return Some(rm.mv);
        }
        loop
            invariant
                self.wf(),
                self.yielded < MOVE_LIMIT,
                self.yielded == old(self).spec_yielded(),
                self.spec_seed() == old(self).spec_seed(),
                old(self).spec_seed()@.len() == 0,
            decreases self.masks@.len() - self.phase,
        {
            match movegen_next(&mut self.movegen) {
                Some(m) => {
                    self.yielded = self.yielded + 1;
                    return Some(m);
                },
                None => {
                    if self.phase < self.masks.len() {
                        let mask = self.masks[self.phase];
                        movegen_set_mask(&mut self.movegen, mask);
                        self.phase = self.phase + 1;
                    } else {
                        return None;
                    }
                },
            }
        }
    }
}

} // verus!
