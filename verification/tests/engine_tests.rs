//! End-to-end searches: mate finding, stalemate avoidance, threefold
//! draws, null-move safety, time respect, deepening monotonicity,
//! determinism, idempotence, score symmetry, and the recorded principal
//! variation.

use flying_dutchman::alpha_beta::AlphaBeta;
use flying_dutchman::deadline::Deadline;
use flying_dutchman::engine::Engine;
use flying_dutchman::history::BoardHistory;
use flying_dutchman::moves::Move;
use flying_dutchman::score::{score_to_cp, MATE_CUTOFF};
use flying_dutchman::table_entry::TTableEntry;
use flying_dutchman::uci::GoOptions;

use std::str::FromStr;

const TEST_TABLE_BYTES: usize = 1 << 22;

fn engine() -> Engine {
    Engine::with_table_size(TEST_TABLE_BYTES)
}

/// Runs iterative deepening until the deadline refuses to go on.
fn search_to_deadline(engine: &mut Engine, history: &BoardHistory, deadline: &Deadline) {
    loop {
        if engine.iterative_deepening_search(history, deadline).is_err() {
            break;
        }
    }
}

#[test]
fn mate_in_one_is_found() {
    let board = chess::Board::from_str("6k1/5ppp/8/8/8/8/5PPP/R5K1 w - - 0 1").unwrap();
    let history = BoardHistory::new(board);
    let mut eng = engine();
    let deadline = Deadline::depth(2);
    search_to_deadline(&mut eng, &history, &deadline);
    let best = eng.best_move(&history).expect("a best move");
    assert_eq!(best.uci_string().as_str(), "a1a8");
    let entry = eng.min_search(&history);
    assert!(entry.score() >= MATE_CUTOFF, "the score must encode a mate");
}

#[test]
fn stalemate_trap_is_avoided() {
    // The queen must not release the mating net into a stalemate: the
    // search keeps a mate score and the move it picks actually mates
    // (here g7 is protected by the king, so taking it is itself mate).
    let board = chess::Board::from_str("7k/5Q2/6K1/8/8/8/8/8 w - - 0 1").unwrap();
    let history = BoardHistory::new(board);
    let mut eng = engine();
    let deadline = Deadline::depth(4);
    search_to_deadline(&mut eng, &history, &deadline);
    let best = eng.best_move(&history).expect("a best move");
    let entry = eng.min_search(&history);
    assert!(entry.score() >= MATE_CUTOFF, "white keeps a mating score");
    let reply = chess::ChessMove::from_str(best.uci_string().as_str()).unwrap();
    let after = board.make_move_new(reply);
    assert_eq!(after.status(), chess::BoardStatus::Checkmate, "the chosen move delivers mate");
}

#[test]
fn threefold_repetition_is_a_draw() {
    let mut history = BoardHistory::new(chess::Board::default());
    for mv in ["g1f3", "g8f6", "f3g1", "f6g8", "g1f3", "g8f6", "f3g1", "f6g8"] {
        let m = Move::from_uci(mv).unwrap();
        history = history.with_move(m).expect("a legal book move");
    }
    let mut eng = engine();
    let entry = eng.min_search(&history);
    assert_eq!(score_to_cp(entry.score()), 0, "the ninth half-move sees the draw");
    assert!(matches!(entry, TTableEntry::Edge(_)));
}

#[test]
fn bare_kings_survive_deep_null_move_search() {
    let board = chess::Board::from_str("8/8/8/8/3k4/8/3K4/8 w - - 0 1").unwrap();
    let history = BoardHistory::new(board);
    let mut eng = engine();
    let deadline = Deadline::depth(8);
    search_to_deadline(&mut eng, &history, &deadline);
    let entry = eng.min_search(&history);
    // No material to win: nothing remotely like a mate score, and only
    // king-placement noise in centipawns.
    assert!(entry.score().abs() < MATE_CUTOFF);
    assert!(score_to_cp(entry.score()).abs() < 100);
}

#[test]
fn movetime_deadline_is_respected() {
    let history = BoardHistory::new(chess::Board::default());
    let mut eng = engine();
    let options = GoOptions::build("movetime 200");
    assert_eq!(options, GoOptions::MoveTime(200));
    let deadline = options.to_deadline(history.last());
    let started = std::time::Instant::now();
    let first = eng.iterative_deepening_search(&history, &deadline);
    assert!(first.is_ok(), "at least one iteration completes in time");
    search_to_deadline(&mut eng, &history, &deadline);
    let elapsed = started.elapsed();
    assert!(eng.best_move(&history).is_some());
    assert!(
        elapsed < std::time::Duration::from_millis(1200),
        "the search must stop promptly after its 200 ms budget"
    );
}

#[test]
fn deepening_is_monotonic_and_agrees_with_pv() {
    let board = chess::Board::default();
    let history = BoardHistory::new(board);
    let mut eng = engine();
    let deadline = Deadline::none();
    let mut last_depth = 0i64;
    for _ in 0..4 {
        eng.iterative_deepening_search(&history, &deadline).expect("no deadline to fire");
        let depth = eng.min_search(&history).depth();
        assert!(depth >= last_depth, "reported depth never falls");
        last_depth = depth;
    }
    assert!(last_depth >= 4);
    let pv = eng.get_pv_line(&board);
    assert!(!pv.is_empty());
    let best = eng.best_move(&history).expect("a best move");
    assert_eq!(pv[0], best, "the final best move heads the principal variation");
}

#[test]
fn pv_head_is_an_exact_or_lower_entry_at_the_root() {
    let board = chess::Board::from_str("6k1/5ppp/8/8/8/8/5PPP/R5K1 w - - 0 1").unwrap();
    let history = BoardHistory::new(board);
    let mut eng = engine();
    let deadline = Deadline::depth(3);
    search_to_deadline(&mut eng, &history, &deadline);
    let pv = eng.get_pv_line(&board);
    assert!(!pv.is_empty());
    let entry = eng.peek_entry(board.get_hash()).expect("the root stays in the table");
    match entry {
        TTableEntry::ExactNode(_, moves) | TTableEntry::LowerNode(_, moves) => {
            assert_eq!(moves.peek(), Some(pv[0]), "the root entry's best move heads the PV");
        }
        other => panic!("the root holds {:?}, not an exact or lower node", other),
    }
}

#[test]
fn fixed_position_search_is_deterministic() {
    let board =
        chess::Board::from_str("r1bqkbnr/pppp1ppp/2n5/4p3/4P3/5N2/PPPP1PPP/RNBQKB1R w KQkq - 2 3")
            .unwrap();
    let history = BoardHistory::new(board);
    let deadline = Deadline::depth(4);

    let mut first = engine();
    search_to_deadline(&mut first, &history, &deadline);
    let best_a = first.best_move(&history);
    let entry_a = first.min_search(&history);

    let mut second = engine();
    search_to_deadline(&mut second, &history, &deadline);
    let best_b = second.best_move(&history);
    let entry_b = second.min_search(&history);

    assert_eq!(best_a, best_b);
    assert_eq!(entry_a, entry_b);
}

#[test]
fn repeating_a_search_leaves_the_root_entry_alone() {
    let board = chess::Board::default();
    let history = BoardHistory::new(board);
    let mut eng = engine();
    let first = eng.ab_search::<false>(&history, 3, AlphaBeta::new(), None).unwrap();
    let stored_first = eng.peek_entry(board.get_hash());
    let second = eng.ab_search::<false>(&history, 3, AlphaBeta::new(), None).unwrap();
    let stored_second = eng.peek_entry(board.get_hash());
    assert_eq!(first.score(), second.score());
    assert_eq!(stored_first, stored_second);
}

#[test]
fn search_scores_flip_sign_across_a_move() {
    // A forced mate seen from both sides of the board: the winner's
    // score and the loser's score after the mating move agree in
    // magnitude class and differ in sign.
    let board = chess::Board::from_str("6k1/5ppp/8/8/8/8/5PPP/R5K1 w - - 0 1").unwrap();
    let history = BoardHistory::new(board);
    let mut white_side = engine();
    let before = white_side.ab_search::<false>(&history, 2, AlphaBeta::new(), None).unwrap();
    assert!(before.score() >= MATE_CUTOFF);

    let mating = Move::from_uci("a1a8").unwrap();
    let after_history = history.with_move(mating).expect("the rook lift is legal");
    let mut black_side = engine();
    let after = black_side.ab_search::<false>(&after_history, 1, AlphaBeta::new(), None).unwrap();
    assert!(after.score() <= -MATE_CUTOFF);
}

#[test]
fn node_counter_resets_per_search() {
    let history = BoardHistory::new(chess::Board::default());
    let mut eng = engine();
    let _ = eng.min_search(&history);
    assert!(eng.get_node_count() > 0);
    let _start = eng.start_new_search();
    assert_eq!(eng.get_node_count(), 0);
}

#[test]
fn table_reports_memory_and_fullness() {
    let history = BoardHistory::new(chess::Board::default());
    let mut eng = engine();
    let deadline = Deadline::depth(3);
    search_to_deadline(&mut eng, &history, &deadline);
    assert!(eng.memory_bytes() > 0);
    assert!(eng.hashfull_permille() <= 1000);
    eng.set_table_size(1 << 16);
    assert!(eng.hashfull_permille() <= 1000);
}
