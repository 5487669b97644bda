//! A bounded list of the best rated replies at a node: at most three
//! moves, kept in descending score order.  It seeds move ordering at a
//! parent and records a node's top replies in the transposition table.

use vstd::prelude::*;

use crate::moves::{Move, RatedMove};
use crate::score::{spec_score_mark, Score, MATE};

verus! {

/// At most three rated moves in descending score order.
#[derive(Clone, Copy, PartialEq, Eq, Structural, Debug)]
pub enum BestMoves {
    Empty,
    Best1(RatedMove),
    Best2(RatedMove, RatedMove),
    Best3(RatedMove, RatedMove, RatedMove),
}

/// Scores never increase along the list.
pub open spec fn spec_sorted(s: Seq<RatedMove>) -> bool {
    forall|i: int, j: int| 0 <= i < j < s.len() ==> s[i].score >= s[j].score
}

/// `mark` lifted to a rated move.
pub open spec fn spec_rated_mark(rm: RatedMove) -> RatedMove {
    RatedMove { score: spec_score_mark(rm.score as int) as i64, mv: rm.mv }
}

/// `marked` as a spec-level map over the list.
pub open spec fn spec_bm_marked(b: BestMoves) -> BestMoves {
    match b {
        BestMoves::Empty => BestMoves::Empty,
        BestMoves::Best1(b1) => BestMoves::Best1(spec_rated_mark(b1)),
        BestMoves::Best2(b1, b2) => BestMoves::Best2(spec_rated_mark(b1), spec_rated_mark(b2)),
        BestMoves::Best3(b1, b2, b3) => BestMoves::Best3(
            spec_rated_mark(b1),
            spec_rated_mark(b2),
            spec_rated_mark(b3),
        ),
    }
}

/// Where the original list puts a new rated move: after entries with an
/// equal or higher score, and dropped entirely when three better entries
/// already stand.
pub open spec fn spec_insert(s: Seq<RatedMove>, new: RatedMove) -> Seq<RatedMove> {
    if s.len() == 0 {
        seq![new]
    } else if s.len() == 1 {
        if new.score <= s[0].score {
            seq![s[0], new]
        } else {
            seq![new, s[0]]
        }
    } else if s.len() == 2 {
        if new.score <= s[1].score {
            seq![s[0], s[1], new]
        } else if new.score <= s[0].score {
            seq![s[0], new, s[1]]
        } else {
            seq![new, s[0], s[1]]
        }
    } else {
        if new.score <= s[2].score {
            s
        } else if new.score <= s[1].score {
            seq![s[0], s[1], new]
        } else if new.score <= s[0].score {
            seq![s[0], new, s[1]]
        } else {
            seq![new, s[0], s[1]]
        }
    }
}

impl View for BestMoves {
    type V = Seq<RatedMove>;

    open spec fn view(&self) -> Seq<RatedMove> {
        match *self {
            BestMoves::Empty => Seq::<RatedMove>::empty(),
            BestMoves::Best1(b1) => seq![b1],
            BestMoves::Best2(b1, b2) => seq![b1, b2],
            BestMoves::Best3(b1, b2, b3) => seq![b1, b2, b3],
        }
    }
}

impl BestMoves {
    /// Every entry is well formed: its move is on the board and its score
    /// in range.
    pub open spec fn elements_wf(self) -> bool {
        forall|i: int| 0 <= i < self@.len() ==> self@[i].wf()
    }

    /// Every entry is well formed and the list is sorted.
    pub open spec fn wf(self) -> bool {
        &&& spec_sorted(self@)
        &&& self.elements_wf()
    }

    pub fn new() -> (r: Self)
        ensures
            r@ == Seq::<RatedMove>::empty(),
            r.wf(),
    {
        Self::Empty
    }

    /// Whether the given move already appears in the list.
    pub fn contains(&self, mv: Move) -> (r: bool)
        ensures
            r == exists|i: int| 0 <= i < self@.len() && self@[i].mv == mv,
    {
        let r = match self {
            BestMoves::Empty => false,
            BestMoves::Best1(b1) => mv == b1.mv,
            BestMoves::Best2(b1, b2) => mv == b1.mv || mv == b2.mv,
            BestMoves::Best3(b1, b2, b3) => mv == b1.mv || mv == b2.mv || mv == b3.mv,
        };
        proof {
            let s = self@;
            if r {
                if s.len() > 0 && s[0].mv == mv {
                    assert(exists|i: int| 0 <= i < s.len() && s[i].mv == mv);
                } else if s.len() > 1 && s[1].mv == mv {
                    assert(exists|i: int| 0 <= i < s.len() && s[i].mv == mv);
                } else if s.len() > 2 && s[2].mv == mv {
                    assert(exists|i: int| 0 <= i < s.len() && s[i].mv == mv);
                }
            } else {
                assert(forall|i: int| 0 <= i < s.len() ==> s[i].mv != mv);
            }
        }
        r
    }

    /// Inserts a rated move at its place in the order, keeping only the
    /// best three.  The caller keeps the moves distinct.
    pub fn push(&mut self, new: RatedMove)
        ensures
            final(self)@ == spec_insert(old(self)@, new),
            old(self).wf() && new.wf() ==> final(self).wf(),
    {
        *self = match *self {
            Self::Empty => Self::Best1(new),
            Self::Best1(b1) => {
                if new.score <= b1.score {
                    Self::Best2(b1, new)
                } else {
                    Self::Best2(new, b1)
                }
            },
            Self::Best2(b1, b2) => {
                if new.score <= b2.score {
                    Self::Best3(b1, b2, new)
                } else if new.score <= b1.score {
                    Self::Best3(b1, new, b2)
                } else {
                    Self::Best3(new, b1, b2)
                }
            },
            Self::Best3(b1, b2, b3) => {
                if new.score <= b3.score {
                    *self
                } else if new.score <= b2.score {
                    Self::Best3(b1, b2, new)
                } else if new.score <= b1.score {
                    Self::Best3(b1, new, b2)
                } else {
                    Self::Best3(new, b1, b2)
                }
            },
        };
    }

    /// Removes and returns the best entry.
    pub fn pop(&mut self) -> (r: Option<RatedMove>)
        ensures
            old(self)@.len() == 0 ==> r is None && *final(self) == *old(self),
            old(self)@.len() > 0 ==> r == Some(old(self)@[0]) && final(self)@ == old(
                self,
            )@.subrange(1, old(self)@.len() as int),
            old(self).wf() ==> final(self).wf(),
    {
        let r = match *self {
            BestMoves::Empty => None,
            BestMoves::Best1(best) => {
                *self = BestMoves::Empty;
                Some(best)
            },
            BestMoves::Best2(best, n1) => {
                *self = BestMoves::Best1(n1);
                Some(best)
            },
            BestMoves::Best3(best, n1, n2) => {
                *self = BestMoves::Best2(n1, n2);
                Some(best)
            },
        };
        proof {
            if old(self)@.len() > 0 {
                assert(final(self)@ =~= old(self)@.subrange(1, old(self)@.len() as int));
            }
        }
        r
    }

    /// The best move, if any.
    pub fn peek(&self) -> (r: Option<Move>)
        ensures
            self@.len() == 0 ==> r is None,
            self@.len() > 0 ==> r == Some(self@[0].mv),
    {
        match *self {
            BestMoves::Empty => None,
            BestMoves::Best1(best) => Some(best.mv),
            BestMoves::Best2(best, _) => Some(best.mv),
            BestMoves::Best3(best, _, _) => Some(best.mv),
        }
    }

    /// The score of the best move, or the mated sentinel when empty.
    pub open spec fn spec_score(self) -> int {
        if self@.len() == 0 {
            -MATE as int
        } else {
            self@[0].score as int
        }
    }

    pub fn score(&self) -> (r: Score)
        ensures
            r == self.spec_score(),
            self.elements_wf() ==> -MATE <= r <= MATE,
    {
        match self {
            BestMoves::Empty => -MATE,
            BestMoves::Best1(b1) => b1.score,
            BestMoves::Best2(b1, _) => b1.score,
            BestMoves::Best3(b1, _, _) => b1.score,
        }
    }

    /// The list with every score marked one ply further from a mate.
    /// Marking keeps every entry well formed; near the mate cutoff it can
    /// reorder scores, so sortedness is not claimed.
    pub fn marked(&self) -> (r: Self)
        ensures
            r == spec_bm_marked(*self),
            r@.len() == self@.len(),
            forall|i: int| 0 <= i < self@.len() ==> r@[i] == spec_rated_mark(self@[i]),
            self.elements_wf() ==> r.elements_wf(),
    {
        let r = match self {
            Self::Empty => Self::Empty,
            Self::Best1(b1) => Self::Best1(b1.mark()),
            Self::Best2(b1, b2) => Self::Best2(b1.mark(), b2.mark()),
            Self::Best3(b1, b2, b3) => Self::Best3(b1.mark(), b2.mark(), b3.mark()),
        };
        proof {
            if self.elements_wf() {
                assert forall|i: int| 0 <= i < r@.len() implies r@[i].wf() by {
                    assert(self@[i].wf());
                    assert(r@[i] == spec_rated_mark(self@[i]));
                }
            }
        }
        r
    }

    pub fn is_none(&self) -> (r: bool)
        ensures
            r == (self@.len() == 0),
    {
        matches!(self, Self::Empty)
    }
}

impl Default for BestMoves {
    fn default() -> (r: Self)
        ensures
            r@ == Seq::<RatedMove>::empty(),
            r.wf(),
    {
        Self::new()
    }
}

} // verus!
