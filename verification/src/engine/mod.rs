//! The engine behind the Lichess bot: scores with mate distances, its
//! transposition table, evaluation, counters and the decisions of its search.
pub mod centipawn;
pub mod resultinfo;
pub mod transposition_table;
pub mod statistics;
pub mod evaluator;
pub mod negamax;
pub mod searcher;
