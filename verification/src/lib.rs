//! A chess engine's verified core: UCI command parsing, search decisions,
//! scoring, transposition tables, move ordering, the Lichess bot's rules and
//! small linear algebra.
pub mod chess;
pub mod uci_text;
pub mod beak;
pub mod uci;
pub mod engine_manager;
pub mod brain;
pub mod engine;
pub mod lichess;
pub mod neural_networks;
pub mod profiling;
