//! Transposition-table entries: what a finished node records about a
//! position, tagged by how the alpha-beta window ended there.

use vstd::prelude::*;

use crate::best_moves::{spec_bm_marked, BestMoves};
use crate::depth::{Depth, DEPTH_EDGE, DEPTH_LEAF, DEPTH_MAX};
use crate::moves::Move;
use crate::score::{spec_score_mark, Score, MATE};

verus! {

/// What a search stored about a position.
///
/// - `ExactNode`: the score fell strictly inside the window; the moves
///   are the node's best replies in order.
/// - `LowerNode`: fail-high; the recorded score is a lower bound.
/// - `UpperNode`: fail-low; the recorded score is an upper bound.
/// - `NullCut`: a fail-high found by null-move pruning: a lower bound
///   with no move to record.
/// - `Edge`: a terminal position (mate, stalemate or declared draw).
/// - `Leaf`: a quiescence-horizon evaluation; behaves as depth zero.
#[derive(Clone, Copy, PartialEq, Eq, Structural, Debug)]
pub enum TTableEntry {
    ExactNode(Depth, BestMoves),
    LowerNode(Depth, BestMoves),
    UpperNode(Depth, BestMoves),
    NullCut(Depth, Score),
    Edge(Score),
    Leaf(Score),
}

impl TTableEntry {
    /// Depths are plausible and every recorded score or move in range.
    pub open spec fn wf(self) -> bool {
        match self {
            TTableEntry::ExactNode(d, m) => 1 <= d <= DEPTH_MAX && m.elements_wf(),
            TTableEntry::LowerNode(d, m) => 1 <= d <= DEPTH_MAX && m.elements_wf(),
            TTableEntry::UpperNode(d, m) => 1 <= d <= DEPTH_MAX && m.elements_wf(),
            TTableEntry::NullCut(d, s) => 1 <= d <= DEPTH_MAX && -MATE <= s <= MATE,
            TTableEntry::Edge(s) => -MATE <= s <= MATE,
            TTableEntry::Leaf(s) => -MATE <= s <= MATE,
        }
    }

    /// The score an entry reports: the best recorded move's score, or the
    /// stored bound itself.
    pub open spec fn spec_score(self) -> int {
        match self {
            TTableEntry::ExactNode(_, m) => m.spec_score(),
            TTableEntry::LowerNode(_, m) => m.spec_score(),
            TTableEntry::UpperNode(_, m) => m.spec_score(),
            TTableEntry::NullCut(_, s) => s as int,
            TTableEntry::Edge(s) => s as int,
            TTableEntry::Leaf(s) => s as int,
        }
    }

    pub fn score(&self) -> (r: Score)
        ensures
            r == self.spec_score(),
            self.wf() ==> -MATE <= r <= MATE,
    {
        match self {
            TTableEntry::ExactNode(_, m) => m.score(),
            TTableEntry::LowerNode(_, m) => m.score(),
            TTableEntry::UpperNode(_, m) => m.score(),
            TTableEntry::NullCut(_, s) => *s,
            TTableEntry::Edge(s) => *s,
            TTableEntry::Leaf(s) => *s,
        }
    }

    /// `mark` lifted over an entry: every recorded score steps one ply
    /// further from a mate; kind and depth stay.
    pub open spec fn spec_mark(self) -> TTableEntry {
        match self {
            TTableEntry::ExactNode(d, m) => TTableEntry::ExactNode(d, spec_bm_marked(m)),
            TTableEntry::LowerNode(d, m) => TTableEntry::LowerNode(d, spec_bm_marked(m)),
            TTableEntry::UpperNode(d, m) => TTableEntry::UpperNode(d, spec_bm_marked(m)),
            TTableEntry::NullCut(d, s) => TTableEntry::NullCut(
                d,
                spec_score_mark(s as int) as i64,
            ),
            TTableEntry::Edge(s) => TTableEntry::Edge(spec_score_mark(s as int) as i64),
            TTableEntry::Leaf(s) => TTableEntry::Leaf(spec_score_mark(s as int) as i64),
        }
    }

    /// The entry as reported one return higher up the stack.
    pub fn mark(&self) -> (r: TTableEntry)
        ensures
            r == self.spec_mark(),
            self.wf() ==> r.wf(),
    {
        let r = match self {
            TTableEntry::ExactNode(d, m) => TTableEntry::ExactNode(*d, m.marked()),
            TTableEntry::LowerNode(d, m) => TTableEntry::LowerNode(*d, m.marked()),
            TTableEntry::UpperNode(d, m) => TTableEntry::UpperNode(*d, m.marked()),
            TTableEntry::NullCut(d, s) => TTableEntry::NullCut(*d, crate::score::score_mark(*s)),
            TTableEntry::Edge(s) => TTableEntry::Edge(crate::score::score_mark(*s)),
            TTableEntry::Leaf(s) => TTableEntry::Leaf(crate::score::score_mark(*s)),
        };
        proof {
            assert(r == self.spec_mark());
        }
        r
    }

    /// The depth an entry answers for.
    pub open spec fn spec_depth(self) -> int {
        match self {
            TTableEntry::ExactNode(d, _) => d as int,
            TTableEntry::LowerNode(d, _) => d as int,
            TTableEntry::UpperNode(d, _) => d as int,
            TTableEntry::NullCut(d, _) => d as int,
            TTableEntry::Edge(_) => DEPTH_EDGE as int,
            TTableEntry::Leaf(_) => DEPTH_LEAF as int,
        }
    }

    pub fn depth(&self) -> (r: Depth)
        ensures
            r == self.spec_depth(),
    {
        match self {
            TTableEntry::ExactNode(d, _) => *d,
            TTableEntry::LowerNode(d, _) => *d,
            TTableEntry::UpperNode(d, _) => *d,
            TTableEntry::NullCut(d, _) => *d,
            TTableEntry::Edge(_) => DEPTH_EDGE,
            TTableEntry::Leaf(_) => DEPTH_LEAF,
        }
    }

    /// The recorded reply list, for the kinds that carry one.
    pub open spec fn spec_moves(self) -> Option<BestMoves> {
        match self {
            TTableEntry::ExactNode(_, m) => Some(m),
            TTableEntry::LowerNode(_, m) => Some(m),
            TTableEntry::UpperNode(_, m) => Some(m),
            TTableEntry::NullCut(_, _) => None,
            TTableEntry::Edge(_) => None,
            TTableEntry::Leaf(_) => None,
        }
    }

    pub fn moves(&self) -> (r: Option<BestMoves>)
        ensures
            r == self.spec_moves(),
    {
        match self {
            TTableEntry::ExactNode(_, m) => Some(*m),
            TTableEntry::LowerNode(_, m) => Some(*m),
            TTableEntry::UpperNode(_, m) => Some(*m),
            TTableEntry::NullCut(_, _) => None,
            TTableEntry::Edge(_) => None,
            TTableEntry::Leaf(_) => None,
        }
    }

    /// The best recorded move, if any.
    pub open spec fn spec_peek(self) -> Option<Move> {
        match self.spec_moves() {
            Some(m) => if m@.len() > 0 {
                Some(m@[0].mv)
            } else {
                None
            },
            None => None,
        }
    }

    pub fn peek(&self) -> (r: Option<Move>)
        ensures
            r == self.spec_peek(),
    {
        match self.moves() {
            Some(m) => m.peek(),
            None => None,
        }
    }
}

/// The rank of an entry's kind in the replacement ordering: terminal
/// knowledge beats exact scores, exact beats a bare leaf evaluation
/// (which carries no move to seed ordering), and lower bounds beat upper
/// bounds.  A null-move cut is a lower bound without a move and ranks
/// with the lower bounds.
pub open spec fn spec_kind_rank(e: TTableEntry) -> int {
    match e {
        TTableEntry::Edge(_) => 4,
        TTableEntry::ExactNode(_, _) => 3,
        TTableEntry::Leaf(_) => 2,
        TTableEntry::LowerNode(_, _) => 1,
        TTableEntry::NullCut(_, _) => 1,
        TTableEntry::UpperNode(_, _) => 0,
    }
}

/// The replacement ordering: kind rank first, then depth, then score.
/// `spec_superior(a, b)` says the stored entry `a` strictly beats the
/// incoming `b` and must be kept.
pub open spec fn spec_superior(a: TTableEntry, b: TTableEntry) -> bool {
    ||| spec_kind_rank(a) > spec_kind_rank(b)
    ||| (spec_kind_rank(a) == spec_kind_rank(b) && a.spec_depth() > b.spec_depth())
    ||| (spec_kind_rank(a) == spec_kind_rank(b) && a.spec_depth() == b.spec_depth()
        && a.spec_score() > b.spec_score())
}

/// Whether a stored entry strictly beats an incoming one under the
/// replacement ordering.
pub fn entry_superior(stored: &TTableEntry, incoming: &TTableEntry) -> (r: bool)
    ensures
        r == spec_superior(*stored, *incoming),
{
    let ra = kind_rank(stored);
    let rb = kind_rank(incoming);
    if ra != rb {
        ra > rb
    } else {
        let da = stored.depth();
        let db = incoming.depth();
        if da != db {
            da > db
        } else {
            stored.score() > incoming.score()
        }
    }
}

fn kind_rank(e: &TTableEntry) -> (r: u8)
    ensures
        r as int == spec_kind_rank(*e),
{
    match e {
        TTableEntry::Edge(_) => 4,
        TTableEntry::ExactNode(_, _) => 3,
        TTableEntry::Leaf(_) => 2,
        TTableEntry::LowerNode(_, _) => 1,
        TTableEntry::NullCut(_, _) => 1,
        TTableEntry::UpperNode(_, _) => 0,
    }
}

/// The replacement ordering never lets a stored entry strictly decrease:
/// "does not beat" is transitive, so across any sequence of updates the
/// stored entry can only stay or climb.
pub proof fn lemma_replacement_monotone(a: TTableEntry, b: TTableEntry, c: TTableEntry)
    requires
        !spec_superior(a, b),
        !spec_superior(b, c),
    ensures
        !spec_superior(a, c),
{
}

} // verus!
