//! A short ring of the most recent positions, oldest first, used to
//! declare draws by threefold repetition.  A null move pushes the passed
//! position like any other, which cannot create a repetition of it.

use vstd::prelude::*;

use crate::board::{board_eq, board_make_move, board_null_move};
use crate::moves::Move;

verus! {

/// How many recent positions the ring keeps.
pub const HISTORY_CAPACITY: usize = 12;

/// A bounded ring: pushing onto a full ring drops the oldest entry.
pub open spec fn spec_ring_push(s: Seq<chess::Board>, b: chess::Board, cap: int) -> Seq<
    chess::Board,
> {
    if s.len() < cap {
        s.push(b)
    } else {
        s.subrange(1, s.len() as int).push(b)
    }
}

/// How many of the first `n` entries of `s` equal `b`.
pub open spec fn spec_count_upto(s: Seq<chess::Board>, b: chess::Board, n: int) -> int
    decreases n,
{
    if n <= 0 {
        0
    } else {
        spec_count_upto(s, b, n - 1) + if s[n - 1] == b {
            1int
        } else {
            0int
        }
    }
}

/// How many earlier entries repeat the most recent position.
pub open spec fn spec_repetitions(s: Seq<chess::Board>) -> int {
    spec_count_upto(s, s.last(), s.len() - 1)
}

/// The recent positions of the game, oldest first, never empty.
#[derive(Clone)]
pub struct BoardHistory {
    boards: Vec<chess::Board>,
}

impl View for BoardHistory {
    type V = Seq<chess::Board>;

    closed spec fn view(&self) -> Seq<chess::Board> {
        self.boards@
    }
}

impl BoardHistory {
    /// At least the current position, at most the ring's capacity.
    pub open spec fn wf(self) -> bool {
        1 <= self@.len() <= HISTORY_CAPACITY
    }

    /// A history holding one position.
    pub fn new(board: chess::Board) -> (r: BoardHistory)
        ensures
            r@ =~= seq![board],
            r.wf(),
    {
        let mut boards: Vec<chess::Board> = Vec::new();
        boards.push(board);
        BoardHistory { boards }
    }

    /// The current position.
    pub fn last(&self) -> (r: &chess::Board)
        requires
            self.wf(),
        ensures
            *r == self@.last(),
    {
        &self.boards[self.boards.len() - 1]
    }

    /// The history with one more position, the oldest dropped if the
    /// ring is full.
    pub fn with_board(&self, board: chess::Board) -> (r: BoardHistory)
        requires
            self.wf(),
        ensures
            r@ == spec_ring_push(self@, board, HISTORY_CAPACITY as int),
            r.wf(),
    {
        let mut boards: Vec<chess::Board> = Vec::new();
        let start: usize = if self.boards.len() == HISTORY_CAPACITY {
            1
        } else {
            0
        };
        let mut i: usize = start;
        while i < self.boards.len()
            invariant
                start <= i <= self.boards@.len(),
                start == if self.boards@.len() == HISTORY_CAPACITY {
                    1int
                } else {
                    0int
                },
                self.wf(),
                self@ == self.boards@,
                boards@ =~= self.boards@.subrange(start as int, i as int),
            decreases self.boards@.len() - i,
        {
            boards.push(self.boards[i]);
            i += 1;
        }
        boards.push(board);
        proof {
            assert(boards@ =~= spec_ring_push(self@, board, HISTORY_CAPACITY as int));
        }
        BoardHistory { boards }
    }

    /// The history after playing a move in the current position, but
    /// only if the move generator accepts the move there: an illegal
    /// move (for instance one recorded for a colliding hash) is refused
    /// rather than applied.
    pub fn with_move(&self, m: Move) -> (r: Option<BoardHistory>)
        requires
            self.wf(),
            m.wf(),
        ensures
            r matches Some(h) ==> h.wf() && exists|nb: chess::Board|
                h@ == spec_ring_push(self@, nb, HISTORY_CAPACITY as int),
    {
        match board_make_move(self.last(), m) {
            Some(next) => {
                let h = self.with_board(next);
                proof {
                    assert(h@ == spec_ring_push(self@, next, HISTORY_CAPACITY as int));
                }
                Some(h)
            },
            None => None,
        }
    }

    /// The history after passing the turn, if the position allows a null
    /// move (it refuses one in check).
    pub fn with_null_move(&self) -> (r: Option<BoardHistory>)
        requires
            self.wf(),
        ensures
            r matches Some(h) ==> h.wf() && exists|nb: chess::Board|
                h@ == spec_ring_push(self@, nb, HISTORY_CAPACITY as int),
    {
        match board_null_move(self.last()) {
            Some(null_board) => {
                let h = self.with_board(null_board);
                proof {
                    assert(h@ == spec_ring_push(self@, null_board, HISTORY_CAPACITY as int));
                }
                Some(h)
            },
            None => None,
        }
    }

    /// Whether the current position already stood at least twice before
    /// in the ring: a draw by threefold repetition.
    pub fn is_draw(&self) -> (r: bool)
        requires
            self.wf(),
        ensures
            r == (spec_repetitions(self@) >= 2),
    {
        let len = self.boards.len();
        let tail = &self.boards[len - 1];
        let mut repeats: i32 = 0;
        let mut i: usize = 0;
        while i < len - 1
            invariant
                0 <= i <= self.boards@.len() - 1,
                len == self.boards@.len(),
                self.wf(),
                self@ == self.boards@,
                tail == self.boards@.last(),
                0 <= repeats <= i,
                repeats == spec_count_upto(self.boards@, self.boards@.last(), i as int),
            decreases len - 1 - i,
        {
            if board_eq(&self.boards[i], tail) {
                repeats = repeats + 1;
            }
            i += 1;
        }
        repeats >= 2
    }
}

} // verus!
