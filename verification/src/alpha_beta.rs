//! The alpha-beta window a node searches under: a lower bound, an upper
//! bound, and the ply distance from the root.  Windows are stack values;
//! negation at each recursion boundary flips the bounds and steps the ply.

use vstd::prelude::*;

use crate::best_moves::BestMoves;
use crate::depth::{Depth, DEPTH_MAX};
use crate::score::{Score, CENTIPAWN, MATE};
use crate::table_entry::TTableEntry;

verus! {

/// How a freshly negamaxed score relates to the window.
#[derive(Clone, Copy, PartialEq, Eq, Structural, Debug)]
pub enum NegaMaxResult {
    Worse,
    Best,
    Pruned,
}

/// An alpha-beta window.  Bounds sit one centipawn beyond the mate
/// sentinels at the root so that even a mate score stays strictly inside
/// the initial window.
#[derive(Clone, Copy, PartialEq, Eq, Structural, Debug)]
pub struct AlphaBeta {
    pub alpha: Score,
    pub beta: Score,
    pub ply: Depth,
}

impl AlphaBeta {
    /// Bounds within one centipawn of the mate sentinels and a
    /// non-negative ply.
    pub open spec fn wf(self) -> bool {
        &&& -(MATE + CENTIPAWN) <= self.alpha <= MATE + CENTIPAWN
        &&& -(MATE + CENTIPAWN) <= self.beta <= MATE + CENTIPAWN
        &&& 0 <= self.ply
    }

    /// The full window at the root.
    pub fn new() -> (r: Self)
        ensures
            r.alpha == -MATE - CENTIPAWN,
            r.beta == MATE + CENTIPAWN,
            r.ply == 0,
            r.wf(),
    {
        Self { alpha: -MATE - CENTIPAWN, beta: MATE + CENTIPAWN, ply: 0 }
    }

    /// The window the opponent searches under: bounds negated and
    /// swapped, one ply deeper.
    pub fn negate(&self) -> (r: Self)
        requires
            self.wf(),
            self.ply < DEPTH_MAX + DEPTH_MAX,
        ensures
            r.alpha == -self.beta,
            r.beta == -self.alpha,
            r.ply == self.ply + 1,
            r.wf(),
    {
        Self { alpha: -self.beta, beta: -self.alpha, ply: self.ply + 1 }
    }

    /// The reversed null window used to test a null move: does the
    /// opponent, given a free shot, still reach at least beta?
    pub fn null_move(&self) -> (r: Self)
        requires
            self.wf(),
        ensures
            r.alpha == -self.beta,
            r.beta == 1 - self.beta,
            r.ply == self.ply,
            self.alpha + 2 <= self.beta ==> r.wf(),
    {
        Self { alpha: 0 - self.beta, beta: 1 - self.beta, ply: self.ply }
    }

    /// Folds a child's score into the window: a score at or above beta
    /// prunes, one at or above alpha raises alpha, anything else is
    /// worse than what is already known.
    pub fn negamax(&mut self, score: Score) -> (r: NegaMaxResult)
        ensures
            final(self).beta == old(self).beta,
            final(self).ply == old(self).ply,
            r == NegaMaxResult::Pruned <==> old(self).beta <= score,
            r == NegaMaxResult::Best <==> (old(self).alpha <= score && score < old(self).beta),
            r == NegaMaxResult::Worse <==> (score < old(self).alpha && score < old(self).beta),
            r == NegaMaxResult::Worse ==> final(self).alpha == old(self).alpha,
            r != NegaMaxResult::Worse ==> final(self).alpha == score,
            old(self).wf() && -MATE <= score <= MATE ==> final(self).wf(),
    {
        if self.beta <= score {
            self.alpha = score;
            NegaMaxResult::Pruned
        } else if self.alpha <= score {
            self.alpha = score;
            NegaMaxResult::Best
        } else {
            NegaMaxResult::Worse
        }
    }

    /// How `new_table_entry` classifies a finished node against the
    /// window it started from.
    pub open spec fn spec_new_table_entry(self, depth: Depth, moves: BestMoves) -> TTableEntry {
        if moves.spec_score() >= self.beta {
            TTableEntry::LowerNode(depth, moves)
        } else if moves.spec_score() <= self.alpha {
            TTableEntry::UpperNode(depth, moves)
        } else {
            TTableEntry::ExactNode(depth, moves)
        }
    }

    /// Classifies a finished node's reply list against this window, which
    /// must be the window the node started from: a fail-high stores a
    /// lower bound, a fail-low an upper bound, and a score strictly
    /// inside the window an exact node.
    pub fn new_table_entry(&self, depth: Depth, moves: BestMoves) -> (r: TTableEntry)
        ensures
            r == self.spec_new_table_entry(depth, moves),
            moves.spec_score() >= self.beta ==> r == TTableEntry::LowerNode(depth, moves),
            moves.spec_score() <= self.alpha && moves.spec_score() < self.beta ==> r
                == TTableEntry::UpperNode(depth, moves),
            self.alpha < moves.spec_score() < self.beta ==> r == TTableEntry::ExactNode(
                depth,
                moves,
            ),
            self.alpha < self.beta ==> ((r is LowerNode <==> moves.spec_score() >= self.beta) && (
            r is UpperNode <==> moves.spec_score() <= self.alpha) && (r is ExactNode <==> self.alpha
                < moves.spec_score() < self.beta)),
            1 <= depth <= DEPTH_MAX && moves.elements_wf() ==> r.wf(),
    {
        let score = moves.score();
        if score >= self.beta {
            TTableEntry::LowerNode(depth, moves)
        } else if score <= self.alpha {
            TTableEntry::UpperNode(depth, moves)
        } else {
            TTableEntry::ExactNode(depth, moves)
        }
    }

    /// Whether this node is searched from the opponent's point of view:
    /// odd plies belong to the side that did not start the search.
    pub fn opponent(&self) -> (r: bool)
        requires
            self.ply >= 0,
        ensures
            r == (self.ply % 2 == 1),
    {
        self.ply % 2 == 1
    }

    /// The width of the window.
    pub fn span(&self) -> (r: Score)
        requires
            self.wf(),
        ensures
            r == self.beta - self.alpha,
    {
        self.beta - self.alpha
    }
}

} // verus!
