//! Unit tests for scores, moves, the best-move list, table entries and
//! their replacement ordering, the history ring, evaluation pieces, and
//! the UCI vocabulary.

use flying_dutchman::alpha_beta::{AlphaBeta, NegaMaxResult};
use flying_dutchman::best_moves::BestMoves;
use flying_dutchman::deadline::Deadline;
use flying_dutchman::engine::{lmr_reduction_capture, lmr_reduction_quiet};
use flying_dutchman::evaluate::{evaluate, popcnt64};
use flying_dutchman::gamephase::GamePhase;
use flying_dutchman::history::BoardHistory;
use flying_dutchman::moves::{Move, Promotion, RatedMove};
use flying_dutchman::score::{
    dec_string, score_mark, score_to_cp, score_to_str, CENTIPAWN, DRAW, MATE, MATE_CUTOFF,
    MATE_MOVE,
};
use flying_dutchman::table::TTable;
use flying_dutchman::table_entry::{entry_superior, TTableEntry};
use flying_dutchman::uci::{
    allocate_time, parse_position, parse_u64, GoOptions, PositionBase, UCIToken,
};

use std::str::FromStr;

#[test]
fn score_mark_steps_mate_scores() {
    assert_eq!(score_mark(MATE), MATE - MATE_MOVE);
    assert_eq!(score_mark(-MATE), -MATE + MATE_MOVE);
    assert_eq!(score_mark(MATE_CUTOFF), MATE_CUTOFF - MATE_MOVE);
    assert_eq!(score_mark(MATE_CUTOFF - 1), MATE_CUTOFF - 1);
    assert_eq!(score_mark(0), 0);
    assert_eq!(score_mark(42 * CENTIPAWN), 42 * CENTIPAWN);
}

#[test]
fn score_to_cp_truncates_toward_zero() {
    assert_eq!(score_to_cp(15 * CENTIPAWN), 15);
    assert_eq!(score_to_cp(-15 * CENTIPAWN), -15);
    assert_eq!(score_to_cp(CENTIPAWN / 2), 0);
    assert_eq!(score_to_cp(-CENTIPAWN / 2), 0);
}

#[test]
fn dec_string_renders_decimals() {
    assert_eq!(dec_string(0).as_str(), "0");
    assert_eq!(dec_string(10).as_str(), "10");
    assert_eq!(dec_string(987654321).as_str(), "987654321");
}

#[test]
fn score_to_str_renders_cp_and_mate() {
    assert_eq!(score_to_str(15 * CENTIPAWN).as_str(), "cp 15");
    assert_eq!(score_to_str(-15 * CENTIPAWN).as_str(), "cp -15");
    assert_eq!(score_to_str(DRAW).as_str(), "cp 0");
    // Five marks from the mate: (5 + 1.5) / 2 rounds to mate in 3.
    assert_eq!(score_to_str(MATE - 5 * MATE_MOVE).as_str(), "mate 3");
    // Three marks against us round to mate in 2 for the opponent.
    assert_eq!(score_to_str(-(MATE - 3 * MATE_MOVE)).as_str(), "mate -2");
}

#[test]
fn move_parsing_round_trips() {
    let m = Move::from_uci("e2e4").unwrap();
    assert_eq!(m.get_source(), 12);
    assert_eq!(m.get_dest(), 28);
    assert_eq!(m.get_promotion(), Promotion::Empty);
    assert_eq!(m.uci_string().as_str(), "e2e4");

    let p = Move::from_uci("e7e8q").unwrap();
    assert_eq!(p.get_promotion(), Promotion::Queen);
    assert_eq!(p.uci_string().as_str(), "e7e8q");

    assert!(Move::from_uci("e9e4").is_none());
    assert!(Move::from_uci("abc").is_none());
    assert!(Move::from_uci("e2e4x").is_none());
    assert!(Move::from_uci("").is_none());
}

#[test]
fn best_moves_keeps_descending_order() {
    let mut bm = BestMoves::new();
    let m1 = Move::new(0, 1, Promotion::Empty);
    let m2 = Move::new(0, 2, Promotion::Empty);
    let m3 = Move::new(0, 3, Promotion::Empty);
    let m4 = Move::new(0, 4, Promotion::Empty);
    bm.push(RatedMove::new(10, m1));
    bm.push(RatedMove::new(30, m2));
    bm.push(RatedMove::new(20, m3));
    // Only the best three stay; a fourth below them is dropped.
    bm.push(RatedMove::new(5, m4));
    assert_eq!(bm.score(), 30);
    assert_eq!(bm.peek(), Some(m2));
    assert_eq!(bm.pop().unwrap().mv, m2);
    assert_eq!(bm.pop().unwrap().mv, m3);
    assert_eq!(bm.pop().unwrap().mv, m1);
    assert!(bm.pop().is_none());
    assert_eq!(bm.score(), -MATE);
}

#[test]
fn best_moves_tie_goes_behind_earlier_entry() {
    let mut bm = BestMoves::new();
    let first = Move::new(0, 1, Promotion::Empty);
    let second = Move::new(0, 2, Promotion::Empty);
    bm.push(RatedMove::new(10, first));
    bm.push(RatedMove::new(10, second));
    assert_eq!(bm.peek(), Some(first));
}

#[test]
fn best_moves_contains_sees_all_entries() {
    let mut bm = BestMoves::new();
    let m1 = Move::new(8, 16, Promotion::Empty);
    let m2 = Move::new(8, 24, Promotion::Empty);
    bm.push(RatedMove::new(1, m1));
    assert!(bm.contains(m1));
    assert!(!bm.contains(m2));
    bm.push(RatedMove::new(2, m2));
    assert!(bm.contains(m2));
    assert!(!bm.is_none());
}

#[test]
fn negamax_classifies_scores() {
    let mut w = AlphaBeta::new();
    assert!(matches!(w.negamax(0), NegaMaxResult::Best));
    assert_eq!(w.alpha, 0);
    assert!(matches!(w.negamax(-5), NegaMaxResult::Worse));
    assert_eq!(w.alpha, 0);
    let mut narrow = AlphaBeta { alpha: 0, beta: 10, ply: 0 };
    assert!(matches!(narrow.negamax(10), NegaMaxResult::Pruned));
}

#[test]
fn window_negate_and_null() {
    let w = AlphaBeta { alpha: -100, beta: 200, ply: 3 };
    let n = w.negate();
    assert_eq!(n.alpha, -200);
    assert_eq!(n.beta, 100);
    assert_eq!(n.ply, 4);
    let z = w.null_move();
    assert_eq!(z.alpha, -200);
    assert_eq!(z.beta, -199);
    assert_eq!(z.ply, 3);
    assert!(w.opponent());
    assert_eq!(w.span(), 300);
}

#[test]
fn table_entry_ordering_ranks_kinds_depth_score() {
    let bm = BestMoves::new();
    let edge = TTableEntry::Edge(0);
    let exact = TTableEntry::ExactNode(5, bm);
    let leaf = TTableEntry::Leaf(7);
    let lower = TTableEntry::LowerNode(5, bm);
    let upper = TTableEntry::UpperNode(9, bm);
    // Kind rank: Edge > Exact > Leaf > Lower > Upper, regardless of depth.
    assert!(entry_superior(&edge, &exact));
    assert!(entry_superior(&exact, &leaf));
    assert!(entry_superior(&leaf, &lower));
    assert!(entry_superior(&lower, &upper));
    assert!(!entry_superior(&upper, &lower));
    // Within a kind, higher depth wins.
    let deep = TTableEntry::ExactNode(6, bm);
    assert!(entry_superior(&deep, &exact));
    assert!(!entry_superior(&exact, &deep));
    // Same kind and depth: higher score wins.
    let mut better = BestMoves::new();
    better.push(RatedMove::new(50, Move::new(0, 1, Promotion::Empty)));
    let richer = TTableEntry::ExactNode(5, better);
    assert!(entry_superior(&richer, &exact));
    // An entry never strictly beats itself.
    assert!(!entry_superior(&exact, &exact));
}

#[test]
fn table_update_never_degrades_stored_entry() {
    let mut table = TTable::new(1 << 16);
    let key = 0xABCDu64;
    let mut good = BestMoves::new();
    good.push(RatedMove::new(70, Move::new(0, 1, Promotion::Empty)));
    let exact = TTableEntry::ExactNode(4, good);
    table.update::<false>(key, exact);
    // A shallower upper bound must not displace the exact node.
    let weak = TTableEntry::UpperNode(2, BestMoves::new());
    table.update::<false>(key, weak);
    assert_eq!(table.peek_entry(key), Some(exact));
    // A deeper exact node replaces it.
    let deeper = TTableEntry::ExactNode(6, good);
    table.update::<false>(key, deeper);
    assert_eq!(table.peek_entry(key), Some(deeper));
    // A terminal edge beats everything.
    let edge = TTableEntry::Edge(0);
    table.update::<false>(key, edge);
    assert_eq!(table.peek_entry(key), Some(edge));
    let back = TTableEntry::ExactNode(9, good);
    table.update::<false>(key, back);
    assert_eq!(table.peek_entry(key), Some(edge));
}

#[test]
fn history_counts_threefold_repetition() {
    let start = chess::Board::default();
    let h = BoardHistory::new(start);
    assert!(!h.is_draw());
    let h2 = h.with_board(start);
    assert!(!h2.is_draw());
    let h3 = h2.with_board(start);
    // The third occurrence of the same position is a draw.
    assert!(h3.is_draw());
}

#[test]
fn history_with_move_refuses_illegal_moves() {
    let start = chess::Board::default();
    let h = BoardHistory::new(start);
    let legal = Move::from_uci("e2e4").unwrap();
    assert!(h.with_move(legal).is_some());
    let illegal = Move::from_uci("e2e5").unwrap();
    assert!(h.with_move(illegal).is_none());
}

#[test]
fn popcnt_counts_bits() {
    assert_eq!(popcnt64(0), 0);
    assert_eq!(popcnt64(0b1011), 3);
    assert_eq!(popcnt64(!0u64), 64);
}

#[test]
fn gamephase_weights_sum_to_total() {
    let phase = GamePhase::from_counts(4, 4, 4, 2);
    assert_eq!(phase.mid_weight, 24);
    assert_eq!(phase.end_weight, 0);
    let late = GamePhase::from_counts(0, 1, 1, 0);
    assert_eq!(late.mid_weight, 3);
    assert_eq!(late.end_weight, 21);
    assert_eq!(late.weight(24, 48), 45);
}

#[test]
fn evaluate_startpos_is_balanced() {
    let start = chess::Board::default();
    assert_eq!(evaluate(&start), 0);
}

#[test]
fn evaluate_sees_checkmate_and_stalemate() {
    // Fool's mate: white to move is checkmated.
    let mated = chess::Board::from_str("rnb1kbnr/pppp1ppp/8/4p3/6Pq/5P2/PPPPP2P/RNBQKBNR w KQkq - 1 3")
        .unwrap();
    assert_eq!(evaluate(&mated), -MATE);
    // A classic stalemate: black to move has no legal move and no check.
    let stale = chess::Board::from_str("7k/5Q2/6K1/8/8/8/8/8 b - - 0 1").unwrap();
    assert_eq!(evaluate(&stale), DRAW);
}

#[test]
fn evaluate_prefers_material() {
    // White is a queen up; the evaluation must clearly favour the side
    // to move (white), far away from the mate region.
    let up = chess::Board::from_str("7k/8/8/8/8/8/Q7/K7 w - - 0 1").unwrap();
    let score = evaluate(&up);
    assert!(score > 5 * 100 * CENTIPAWN / 100);
    assert!(score < MATE_CUTOFF);
}

#[test]
fn uci_tokens_parse_exactly() {
    assert_eq!(UCIToken::parse("uci"), Some(UCIToken::UCI));
    assert_eq!(UCIToken::parse("ucinewgame"), Some(UCIToken::NewGame));
    assert_eq!(UCIToken::parse("isready"), Some(UCIToken::IsReady));
    assert_eq!(UCIToken::parse("position"), Some(UCIToken::Position));
    assert_eq!(UCIToken::parse("go"), Some(UCIToken::Go));
    assert_eq!(UCIToken::parse("stop"), Some(UCIToken::Stop));
    assert_eq!(UCIToken::parse("quit"), Some(UCIToken::Quit));
    assert_eq!(UCIToken::parse("setoption"), Some(UCIToken::SetOption));
    assert_eq!(UCIToken::parse("banana"), None);
    assert_eq!(UCIToken::parse("ucin"), None);
}

#[test]
fn parse_u64_accepts_digits_only() {
    assert_eq!(parse_u64("0"), Some(0));
    assert_eq!(parse_u64("00200"), Some(200));
    assert_eq!(parse_u64("18446744073709551615"), Some(u64::MAX));
    assert_eq!(parse_u64("18446744073709551616"), None);
    assert_eq!(parse_u64(""), None);
    assert_eq!(parse_u64("12a"), None);
}

#[test]
fn go_options_build_cases() {
    assert_eq!(GoOptions::build("infinite"), GoOptions::Infinite);
    assert_eq!(GoOptions::build(""), GoOptions::Infinite);
    assert_eq!(GoOptions::build("movetime 200"), GoOptions::MoveTime(200));
    assert_eq!(GoOptions::build("depth 5"), GoOptions::ToDepth(5));
    assert_eq!(
        GoOptions::build("wtime 1000 btime 2000 winc 10 binc 20"),
        GoOptions::TimeLimit { white_time: 1000, black_time: 2000, white_inc: 10, black_inc: 20 }
    );
    // A control word missing its numeral swallows the next token.
    assert_eq!(GoOptions::build("movetime x 300"), GoOptions::Infinite);
    assert_eq!(GoOptions::build("depth"), GoOptions::Infinite);
    // The first `infinite` wins outright.
    assert_eq!(GoOptions::build("infinite wtime 1000"), GoOptions::Infinite);
}

#[test]
fn allocate_time_budgets_the_clock() {
    // Full starting material: an estimated forty moves left.
    let t = allocate_time(12000, 400, 16, 4, 4, 4, 2);
    assert_eq!(t, 100 + (300 - 250));
    // A short clock saturates at just the increment share.
    let t2 = allocate_time(100, 0, 16, 4, 4, 4, 2);
    assert_eq!(t2, 0);
}

#[test]
fn deadline_depth_cap_checks() {
    let none = Deadline::none();
    assert!(none.check_depth(100));
    assert!(!none.passed());
    let capped = Deadline::depth(3);
    assert!(capped.check_depth(2));
    assert!(!capped.check_depth(3));
    let triggered = Deadline::none();
    triggered.trigger();
    assert!(triggered.passed());
}

#[test]
fn parse_position_startpos_and_fen() {
    let (base, moves) = parse_position("startpos moves e2e4 e7e5").unwrap();
    assert_eq!(base, PositionBase::StartPos);
    assert_eq!(moves.len(), 2);
    assert_eq!(moves[0].uci_string().as_str(), "e2e4");
    assert_eq!(moves[1].uci_string().as_str(), "e7e5");

    let (base, moves) = parse_position("fen 7k/5Q2/6K1/8/8/8/8/8 w - - 0 1").unwrap();
    assert_eq!(base, PositionBase::Fen(String::from("7k/5Q2/6K1/8/8/8/8/8 w - - 0 1")));
    assert!(moves.is_empty());

    // Reading stops at the first token that is not a move.
    let (_, moves) = parse_position("startpos moves e2e4 zz e7e5").unwrap();
    assert_eq!(moves.len(), 1);

    assert!(parse_position("").is_none());
    assert!(parse_position("fen 8/8").is_none());
}

#[test]
fn lmr_reductions_match_formula() {
    // depth 3, fifth move: log2(4) = 2, log2(6) = 2.
    assert_eq!(lmr_reduction_capture(3, 5), 1);
    assert_eq!(lmr_reduction_quiet(3, 5), 2);
    // Reductions never eat the whole remaining depth.
    assert_eq!(lmr_reduction_quiet(3, 500), 2);
}
