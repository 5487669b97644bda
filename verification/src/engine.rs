//! The searcher: quiescence search, the main alpha-beta search with
//! principal-variation search, null-move pruning and late-move
//! reductions, and the iterative-deepening facade around them.

use vstd::prelude::*;

use crate::alpha_beta::{AlphaBeta, NegaMaxResult};
use crate::best_moves::{spec_bm_marked, BestMoves};
use crate::board::{board_checkers, board_combined, board_hash, board_make_move};
use crate::deadline::Deadline;
use crate::depth::{Depth, DEPTH_MAX};
use crate::evaluate::evaluate;
use crate::history::{spec_repetitions, BoardHistory};
use crate::movegen::{OrderedMoveGen, MOVE_LIMIT};
use crate::moves::{Move, Promotion, RatedMove};
use crate::score::{score_mark, spec_score_mark, Score, DRAW, MATE};
use crate::table::{TTable, TTableSample};
use crate::table_entry::TTableEntry;

verus! {

/// The default transposition-table budget, in bytes.
pub const DEFAULT_TABLE_SIZE: usize = 1000000000;

/// A recursion budget for quiescence search.  Capture chains burn out
/// long before this; the budget makes their termination a local fact.
pub const QSEARCH_FUEL: u64 = 256;

/// Floor of the base-two logarithm of one plus the argument.
pub open spec fn spec_log2_floor(n: nat) -> nat
    decreases n,
{
    if n <= 1 {
        0
    } else {
        1 + spec_log2_floor(n / 2)
    }
}

/// The logarithm grows slower than its argument.
proof fn lemma_log2_lt(n: nat)
    requires
        n >= 1,
    ensures
        spec_log2_floor(n) < n,
    decreases n,
{
    if n > 1 {
        lemma_log2_lt(n / 2);
    }
}

/// Floor of log2(1 + x), the integer stand-in for ln(1 + x) in the
/// reduction formulas.
fn ilog2p1(x: u64) -> (r: u64)
    requires
        x < 1000000,
    ensures
        r == spec_log2_floor((x + 1) as nat),
        r <= x,
{
    proof {
        lemma_log2_lt((x + 1) as nat);
    }
    let mut v: u64 = x + 1;
    let mut r: u64 = 0;
    while v > 1
        invariant
            1 <= v <= x + 1,
            spec_log2_floor((x + 1) as nat) == r + spec_log2_floor(v as nat),
            r <= spec_log2_floor((x + 1) as nat) < x + 1,
        decreases v,
    {
        proof {
            assert(v > 1 ==> spec_log2_floor(v as nat) == 1 + spec_log2_floor((v / 2) as nat));
        }
        v = v / 2;
        r = r + 1;
    }
    r
}

/// The late-move reduction for a capture or promotion tried late:
/// a scaled logarithm of depth and move number, clamped to leave at
/// least one ply.  The classical fractional constants are approximated
/// by integer weights on the base-two logarithm.
pub fn lmr_reduction_capture(depth: Depth, move_count: usize) -> (r: Depth)
    requires
        3 <= depth <= DEPTH_MAX,
        1 <= move_count <= MOVE_LIMIT,
    ensures
        0 <= r <= depth - 1,
        ({
            let raw = (70 + 21 * spec_log2_floor((depth + 1) as nat) + 21 * spec_log2_floor(
                (move_count + 1) as nat,
            )) / 100;
            r == if raw > depth - 1 {
                depth - 1
            } else {
                raw as int
            }
        }),
{
    let ld = ilog2p1(depth as u64);
    let li = ilog2p1(move_count as u64);
    let raw = (70 + 21 * ld + 21 * li) / 100;
    if raw > (depth - 1) as u64 {
        depth - 1
    } else {
        raw as Depth
    }
}

/// The late-move reduction for a quiet move tried late; steeper than
/// for captures.
pub fn lmr_reduction_quiet(depth: Depth, move_count: usize) -> (r: Depth)
    requires
        3 <= depth <= DEPTH_MAX,
        1 <= move_count <= MOVE_LIMIT,
    ensures
        0 <= r <= depth - 1,
        ({
            let raw = (100 + 35 * spec_log2_floor((depth + 1) as nat) + 49 * spec_log2_floor(
                (move_count + 1) as nat,
            )) / 100;
            r == if raw > depth - 1 {
                depth - 1
            } else {
                raw as int
            }
        }),
{
    let ld = ilog2p1(depth as u64);
    let li = ilog2p1(move_count as u64);
    let raw = (100 + 35 * ld + 49 * li) / 100;
    if raw > (depth - 1) as u64 {
        depth - 1
    } else {
        raw as Depth
    }
}

/// The engine: a transposition table that outlives the searches, and a
/// node counter for reporting.
pub struct Engine {
    table: TTable,
    nodes: u64,
}

impl Engine {
    pub closed spec fn wf(self) -> bool {
        self.table.wf()
    }

    /// The transposition table, for speaking of its contents in
    /// contracts.
    pub closed spec fn spec_table(self) -> TTable {
        self.table
    }

    /// The nodes visited since the last reset.
    pub closed spec fn spec_nodes(self) -> u64 {
        self.nodes
    }

    pub fn new() -> (r: Engine)
        ensures
            r.wf(),
            r.spec_nodes() == 0,
    {
        Engine::with_table_size(DEFAULT_TABLE_SIZE)
    }

    /// An engine whose transposition table is sized to the given byte
    /// budget.
    pub fn with_table_size(table_size: usize) -> (r: Engine)
        ensures
            r.wf(),
            r.spec_nodes() == 0,
    {
        Engine { table: TTable::new(table_size), nodes: 0 }
    }

    /// Quiescence search: resolve captures (and evasions while in
    /// check) beyond the horizon, standing pat on the static
    /// evaluation when allowed.  The result is a marked score from the
    /// side to move's point of view, always inside the score range.
    pub fn ab_qsearch(&self, board: &chess::Board, window: AlphaBeta) -> (r: Score)
        requires
            window.wf(),
            window.ply <= DEPTH_MAX,
        ensures
            -MATE <= r <= MATE,
    {
        self.qsearch_bounded(board, window, QSEARCH_FUEL)
    }

    /// The quiescence recursion itself, carrying its budget.
    fn qsearch_bounded(&self, board: &chess::Board, window: AlphaBeta, fuel: u64) -> (r: Score)
        requires
            window.wf(),
            window.ply + fuel <= 2 * DEPTH_MAX,
        ensures
            -MATE <= r <= MATE,
        decreases fuel,
    {
        let mut w = window;
        let in_check = board_checkers(board) != 0;
        let mut best: Score;
        let mut movegen: OrderedMoveGen;
        if !in_check {
            let stand = evaluate(board);
            if matches!(w.negamax(stand), NegaMaxResult::Pruned) {
                return score_mark(stand);
            }
            best = stand;
            movegen = OrderedMoveGen::quiescence_search(board, BestMoves::new());
        } else {
            best = -MATE;
            movegen = OrderedMoveGen::full_search(board, BestMoves::new());
        }
        if fuel == 0 {
            // Out of budget: report the best found so far.
            return score_mark(best);
        }
        loop
            invariant
                w.wf(),
                w.ply == window.ply,
                window.ply + fuel <= 2 * DEPTH_MAX,
                fuel >= 1,
                -MATE <= best <= MATE,
                movegen.wf(),
                movegen.spec_yielded() <= MOVE_LIMIT,
            decreases MOVE_LIMIT - movegen.spec_yielded(),
        {
            let m = match movegen.next() {
                Some(m) => m,
                None => {
                    break ;
                },
            };
            let next_board = match board_make_move(board, m) {
                Some(b) => b,
                None => {
                    // A seed move the position refuses (a colliding
                    // hash can record one): skip it.
                    continue ;
                },
            };
            let eval = -self.qsearch_bounded(&next_board, w.negate(), fuel - 1);
            if eval > best {
                best = eval;
            }
            if matches!(w.negamax(eval), NegaMaxResult::Pruned) {
                break ;
            }
        }
        score_mark(best)
    }

    /// The main alpha-beta search.
    ///
    /// Returns `Err` only when a deadline was supplied and fired; with
    /// no deadline it always completes.  On success the entry is well
    /// formed and marked for the caller's ply; a position already
    /// repeated twice before is answered with the draw edge before any
    /// other work.
    pub fn ab_search<const PV: bool>(
        &mut self,
        history: &BoardHistory,
        depth: Depth,
        window: AlphaBeta,
        deadline: Option<&Deadline>,
    ) -> (r: Result<TTableEntry, ()>)
        requires
            old(self).wf(),
            history.wf(),
            window.wf(),
            0 <= depth,
            window.ply + depth <= DEPTH_MAX,
        ensures
            final(self).wf(),
            deadline is None ==> r is Ok,
            r matches Ok(e) ==> e.wf(),
            r matches Ok(e) ==> (depth >= 1 ==> !(e is Leaf)),
            r matches Ok(e) ==> ((PV || depth <= 2) ==> !(e is NullCut)),
            r matches Ok(e) ==> (!(e is Edge) && !(e is Leaf) ==> depth <= e.spec_depth()
                <= DEPTH_MAX),
            r matches Ok(e) ==> (spec_repetitions(history@) >= 2 ==> e == TTableEntry::Edge(DRAW)),
            r matches Ok(e) ==> (e matches TTableEntry::LowerNode(d, m) ==> exists|m0: BestMoves|
                m == #[trigger] spec_bm_marked(m0) && m0.spec_score() >= window.beta),
            r matches Ok(e) ==> (e matches TTableEntry::UpperNode(d, m) ==> exists|m0: BestMoves|
                m == #[trigger] spec_bm_marked(m0) && m0.spec_score() <= window.alpha),
            r matches Ok(e) ==> (e matches TTableEntry::NullCut(d, s) ==> exists|s0: int|
                s == #[trigger] spec_score_mark(s0) && s0 >= window.beta),
            r matches Ok(e) ==> (depth == 0 && spec_repetitions(history@) < 2 ==> e is Leaf),
            r matches Ok(e) ==> (e matches TTableEntry::ExactNode(dd, m) ==> exists|m0: BestMoves|
                m == #[trigger] spec_bm_marked(m0) && (window.alpha < m0.spec_score()
                    < window.beta || exists|k: u64|
                    #[trigger] old(self).spec_table().spec_lookup(k) == Some(
                        TTableEntry::ExactNode(dd, m0),
                    ))),
        decreases depth,
    {
        self.nodes = if self.nodes < u64::MAX {
            self.nodes + 1
        } else {
            self.nodes
        };

        // Deadline check, before any other work.
        if let Some(d) = deadline {
            if d.passed() {
                return Err(());
            }
        }

        // Draw detection: a threefold repetition ends the node at once.
        if history.is_draw() {
            let eval = if window.opponent() {
                -DRAW
            } else {
                DRAW
            };
            let entry = TTableEntry::Edge(eval);
            return Ok(entry.mark());
        }

        // Horizon: hand over to quiescence.
        if depth <= 0 {
            let eval = self.ab_qsearch(history.last(), window);
            let entry = TTableEntry::Leaf(eval);
            return Ok(entry.mark());
        }

        // Transposition-table probe: a stored answer or an ordering seed.
        let key = board_hash(history.last());
        let pv = match self.table.sample::<PV>(key, &window, depth) {
            TTableSample::Moves(moves) => moves,
            TTableSample::Score(entry) => {
                proof {
                    if let TTableEntry::ExactNode(dd, m0) = entry {
                        assert(old(self).spec_table().spec_lookup(key) == Some(entry));
                        assert(exists|k: u64|
                            #[trigger] old(self).spec_table().spec_lookup(k) == Some(
                                TTableEntry::ExactNode(dd, m0),
                            ));
                        assert(entry.spec_mark() == TTableEntry::ExactNode(dd, spec_bm_marked(m0)));
                    }
                }
                return Ok(entry.mark());
            },
            TTableSample::Miss => BestMoves::new(),
        };

        // Null-move pruning: skipped on principal-variation nodes, on
        // null windows, and too near the horizon.
        let null_reduction: Depth = 2;
        if !PV && depth > null_reduction && window.span() > 1 {
            if let Some(null_history) = history.with_null_move() {
                let null_window = window.null_move();
                let child = match self.ab_search::<false>(
                    &null_history,
                    depth - null_reduction - 1,
                    null_window,
                    deadline,
                ) {
                    Ok(c) => c,
                    Err(e) => {
                        return Err(e);
                    },
                };
                let null_eval = -child.score();
                if null_eval >= window.beta {
                    let entry = TTableEntry::NullCut(depth, null_eval);
                    return Ok(entry.mark());
                }
            }
        }

        // The ordered move loop with principal-variation search and
        // late-move reductions.
        let check = board_checkers(history.last()) != 0;
        let mut w = window;
        let mut moves = BestMoves::new();
        let mut movegen = OrderedMoveGen::full_search(history.last(), pv);
        let mut move_count: usize = 0;
        loop
            invariant
                self.wf(),
                history.wf(),
                w.wf(),
                w.ply == window.ply,
                w.beta == window.beta,
                1 <= depth,
                window.wf(),
                window.ply + depth <= DEPTH_MAX,
                moves.wf(),
                movegen.wf(),
                movegen.spec_yielded() <= MOVE_LIMIT,
                move_count <= movegen.spec_yielded(),
            decreases MOVE_LIMIT - movegen.spec_yielded(),
        {
            let m = match movegen.next() {
                Some(m) => m,
                None => {
                    break ;
                },
            };
            if move_count < MOVE_LIMIT {
                move_count = move_count + 1;
            }
            let next = match history.with_move(m) {
                Some(h) => h,
                None => {
                    // A seed move the position refuses (a colliding
                    // hash can record one): skip it.
                    continue ;
                },
            };
            let eval: Score;
            if PV && move_count == 1 {
                let child = match self.ab_search::<PV>(&next, depth - 1, w.negate(), deadline) {
                    Ok(c) => c,
                    Err(e) => {
                        return Err(e);
                    },
                };
                eval = -child.score();
            } else {
                let child_in_check = board_checkers(next.last()) != 0;
                let reduction: Depth = if depth < 3 || move_count <= 4 || check || child_in_check {
                    0
                } else if m.get_promotion() != Promotion::Empty || (board_combined(history.last())
                    >> (m.get_dest() as u64)) & 1 == 1 {
                    lmr_reduction_capture(depth, move_count)
                } else {
                    lmr_reduction_quiet(depth, move_count)
                };
                let child = match self.ab_search::<false>(
                    &next,
                    depth - reduction - 1,
                    w.negate(),
                    deadline,
                ) {
                    Ok(c) => c,
                    Err(e) => {
                        return Err(e);
                    },
                };
                let reduced_eval = -child.score();
                if reduction > 0 && w.alpha < reduced_eval {
                    // The reduced search beat alpha: re-search at full
                    // depth before trusting it.
                    let child2 = match self.ab_search::<false>(
                        &next,
                        depth - 1,
                        w.negate(),
                        deadline,
                    ) {
                        Ok(c) => c,
                        Err(e) => {
                            return Err(e);
                        },
                    };
                    eval = -child2.score();
                } else {
                    eval = reduced_eval;
                }
            }
            moves.push(RatedMove::new(eval, m));
            if matches!(w.negamax(eval), NegaMaxResult::Pruned) {
                break ;
            }
        }

        // No legal move: checkmate if in check, else stalemate.
        if moves.is_none() {
            let in_check = board_checkers(history.last()) != 0;
            let eval = if in_check {
                -MATE
            } else if window.opponent() {
                -DRAW
            } else {
                DRAW
            };
            let entry = TTableEntry::Edge(eval);
            self.table.update::<PV>(key, entry);
            return Ok(entry.mark());
        }

        // Classify against the window this node started from, store,
        // and report one ply up.
        let entry = window.new_table_entry(depth, moves);
        self.table.update::<PV>(key, entry);
        Ok(entry.mark())
    }

    /// The root entry at depth one or better: a full-width depth-one
    /// search with no deadline, which cannot fail.  A root already
    /// repeated twice is reported as the draw edge.
    pub fn min_search(&mut self, history: &BoardHistory) -> (r: TTableEntry)
        requires
            old(self).wf(),
            history.wf(),
        ensures
            final(self).wf(),
            r.wf(),
            !(r is Leaf),
            !(r is NullCut),
            !(r is Edge) ==> 1 <= r.spec_depth() <= DEPTH_MAX,
            spec_repetitions(history@) >= 2 ==> r == TTableEntry::Edge(DRAW),
    {
        match self.ab_search::<false>(history, 1, AlphaBeta::new(), None) {
            Ok(entry) => entry,
            Err(_) => vstd::pervasive::unreached(),
        }
    }

    /// One iteration of deepening: search one ply past the depth the
    /// table already answers for.  Fails when the root is terminal,
    /// when the deadline's depth cap is reached, or when the deadline
    /// fires mid-search; only a completed iteration promotes the new
    /// principal variation into the protected cache.
    pub fn iterative_deepening_search(&mut self, history: &BoardHistory, deadline: &Deadline) -> (r:
        Result<TTableEntry, ()>)
        requires
            old(self).wf(),
            history.wf(),
        ensures
            final(self).wf(),
            r matches Ok(e) ==> e.wf(),
            r matches Ok(e) ==> !(e is Leaf) && !(e is NullCut),
            spec_repetitions(history@) >= 2 ==> r is Err,
    {
        let current = self.min_search(history);
        if matches!(current, TTableEntry::Edge(_)) {
            return Err(());
        }
        let depth = current.depth();
        if !deadline.check_depth(depth) {
            return Err(());
        }
        if depth >= DEPTH_MAX {
            // Deeper than any search that could finish; nothing to gain.
            return Err(());
        }
        match self.ab_search::<true>(history, depth + 1, AlphaBeta::new(), Some(deadline)) {
            Ok(entry) => {
                self.table.promote_pv_line(history.last());
                Ok(entry)
            },
            Err(e) => Err(e),
        }
    }

    /// The best move known for the position, from a never-failing
    /// depth-one search.
    pub fn best_move(&mut self, history: &BoardHistory) -> (r: Option<Move>)
        requires
            old(self).wf(),
            history.wf(),
        ensures
            final(self).wf(),
            r matches Some(m) ==> m.wf(),
    {
        let entry = self.min_search(history);
        let r = entry.peek();
        proof {
            if r is Some {
                let m = entry.spec_moves().unwrap();
                assert(m@[0].wf());
            }
        }
        r
    }

    /// The recorded principal variation from the given position.  The
    /// primary store's contents are untouched, and a non-empty line
    /// starts with the best move of an entry that stood in the table.
    pub fn get_pv_line(&mut self, board: &chess::Board) -> (r: Vec<Move>)
        requires
            old(self).wf(),
        ensures
            final(self).wf(),
            final(self).spec_table().spec_entries() == old(self).spec_table().spec_entries(),
            forall|i: int| 0 <= i < r@.len() ==> (#[trigger] r@[i]).wf(),
            r@.len() > 0 ==> exists|k: u64|
                (#[trigger] old(self).spec_table().spec_lookup(k)) matches Some(e)
                    && e.spec_peek() == Some(r@[0]),
    {
        self.table.get_pv_line(board)
    }

    /// Resets the node counter for a fresh search and reports the
    /// clock reading the search starts at.
    pub fn start_new_search(&mut self) -> (r: std::time::Instant)
        requires
            old(self).wf(),
        ensures
            final(self).wf(),
            final(self).spec_nodes() == 0,
    {
        self.nodes = 0;
        crate::deadline::search_clock()
    }

    /// The nodes visited since the last reset.
    pub fn get_node_count(&self) -> (r: u64)
        ensures
            r == self.spec_nodes(),
    {
        self.nodes
    }

    /// The stored entry for a position key, if any: the primary store
    /// first, then the principal-variation cache.
    pub fn peek_entry(&self, key: u64) -> (r: Option<TTableEntry>)
        requires
            self.wf(),
        ensures
            r == self.spec_table().spec_lookup(key),
            r matches Some(e) ==> e.wf(),
    {
        self.table.peek_entry(key)
    }

    /// Resizes the transposition table to a byte budget; every retained
    /// entry keeps its value.
    pub fn set_table_size(&mut self, table_size: usize)
        requires
            old(self).wf(),
        ensures
            final(self).wf(),
            forall|k2: u64|
                #[trigger] final(self).spec_table().spec_entries().contains_key(k2)
                    ==> old(self).spec_table().spec_entries().contains_key(k2)
                    && final(self).spec_table().spec_entries()[k2]
                    == old(self).spec_table().spec_entries()[k2],
    {
        self.table.set_table_size(table_size);
    }

    /// How full the table is, in thousandths of its capacity.
    pub fn hashfull_permille(&self) -> (r: usize)
        requires
            self.wf(),
        ensures
            r == self.spec_table().spec_entries().dom().len() * 1000 / self.spec_table().spec_cap(),
            r <= 1000,
    {
        self.table.hashfull_permille()
    }

    /// The approximate bytes the table holds, by the per-entry estimate.
    pub fn memory_bytes(&self) -> (r: usize)
        requires
            self.wf(),
        ensures
            r == self.spec_table().spec_entries().dom().len() * crate::table::ENTRY_BYTES,
    {
        self.table.memory_bytes()
    }
}

} // verus!
