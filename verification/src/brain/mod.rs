//! The search side of the engine: evaluation, move ordering, the
//! transposition table, repetition detection and the search's decisions.
pub mod evaluator;
pub mod transposition_table;
pub mod priority_buffer;
pub mod position_hash_history;
pub mod statistics;
pub mod position_evaluator;
pub mod time_manager;
pub mod searcher;
pub mod engine_actor;
pub mod position_history;
pub mod aggregator;
pub mod pst;

use vstd::prelude::*;
use crate::brain::evaluator::CentipawnScore;
use crate::chess::ChessMove;

verus! {

/// The outcome of a search: a score and the line of moves that leads to it,
/// stored with the first move last.
#[derive(Debug, Clone)]
pub struct MoveResult {
    score: CentipawnScore,
    pv: Vec<ChessMove>,
}

impl View for MoveResult {
    /// The score and the line, first move last.
    type V = (CentipawnScore, Seq<ChessMove>);

    closed spec fn view(&self) -> (CentipawnScore, Seq<ChessMove>) {
        (self.score, self.pv@)
    }
}

impl MoveResult {
    pub fn new(score: CentipawnScore) -> (r: MoveResult)
        ensures
            r@ == (score, Seq::<ChessMove>::empty()),
    {
        MoveResult { score, pv: Vec::new() }
    }

    pub fn score(&self) -> (s: CentipawnScore)
        ensures
            s == self@.0,
    {
        self.score
    }

    /// The first move of the line: the one pushed last.
    pub fn first_move(&self) -> (m: Option<&ChessMove>)
        ensures
            match m {
                Some(x) => self@.1.len() > 0 && *x == self@.1.last(),
                None => self@.1.len() == 0,
            },
    {
        self.pv.last()
    }

    /// The whole line, first move last.
    pub fn _pv(&self) -> (r: &[ChessMove])
        ensures
            r@ == self@.1,
    {
        self.pv.as_slice()
    }

    /// Puts `m` in front of the line.
    pub fn push(&mut self, m: ChessMove)
        ensures
            final(self)@ == (old(self)@.0, old(self)@.1.push(m)),
    {
        self.pv.push(m);
    }

    /// Turns the score into the opponent's point of view.
    pub fn invert_score(&mut self)
        requires
            old(self)@.0.0 != i32::MIN,
        ensures
            final(self)@ == (CentipawnScore((-old(self)@.0.0) as i32), old(self)@.1),
    {
        self.score = std::ops::Neg::neg(self.score);
    }
}

/// Turning a score to the other side twice gives it back.
pub proof fn law_invert_twice(score: CentipawnScore)
    requires
        score.0 != i32::MIN,
    ensures
        CentipawnScore((-score.0) as i32).0 != i32::MIN,
        CentipawnScore((-(CentipawnScore((-score.0) as i32)).0) as i32) == score,
{
}

/// How long the engine may think about the current move.
#[derive(Debug, Copy, Clone, PartialEq, Eq, Structural)]
pub enum RemainingTime {
    /// The time left on the clock for the rest of the game and the increment
    /// per move, in milliseconds.
    ForGame { remaining: u64, increment: u64 },
    /// The time for this move, in milliseconds.
    ForMove(u64),
}

/// What a search is asked to do: how deep to go, and how much time it has.
#[derive(Debug, Clone, Copy, PartialEq, Eq, Structural)]
pub struct SearchConfiguration {
    pub depth: Option<u16>,
    pub remaining_time: Option<RemainingTime>,
}

impl Default for SearchConfiguration {
    fn default() -> (c: SearchConfiguration)
        ensures
            c.depth is None,
            c.remaining_time is None,
    {
        SearchConfiguration { depth: None, remaining_time: None }
    }
}

/// Why the engine refused a request.
#[derive(Debug, Clone, Copy, PartialEq, Eq, Structural)]
pub enum EngineError {
    CalculationAlreadyInProgress,
}

impl EngineError {
    /// The message that describes the error.
    pub open spec fn message_spec(self) -> Seq<char> {
        match self {
            EngineError::CalculationAlreadyInProgress => "calculation already in progress"@,
        }
    }

    pub fn message(&self) -> (s: String)
        ensures
            s@ == self.message_spec(),
    {
        match self {
            EngineError::CalculationAlreadyInProgress => "calculation already in progress".to_owned(),
        }
    }
}

/// What a running search reports: its best line so far, or figures about
/// its progress.
#[derive(Debug)]
#[non_exhaustive]
pub enum EngineUpdate {
    BestMove(MoveResult),
    Info {
        nps: Option<u64>,
        depth: Option<u64>,
        nodes: Option<u64>,
        tt_hits: Option<u64>,
        score: Option<i32>,
    },
}

} // verus!
