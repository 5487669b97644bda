//! Core of a UCI chess engine: an iterative-deepening alpha-beta searcher
//! with a transposition table, quiescence search, null-move pruning and
//! late-move reductions, built around the `chess` move-generator crate.
//!
//! Scores, search windows, move lists, table entries and the search itself
//! carry machine-checked contracts; the move generator and board
//! representation are outside collaborators reached through a small set of
//! trusted wrappers.

pub mod alpha_beta;
pub mod best_moves;
pub mod board;
pub mod deadline;
pub mod depth;
pub mod engine;
pub mod evaluate;
pub mod gamephase;
pub mod history;
pub mod movegen;
pub mod moves;
pub mod phased_score;
pub mod psq_table;
pub mod score;
pub mod table;
pub mod table_entry;
pub mod uci;
