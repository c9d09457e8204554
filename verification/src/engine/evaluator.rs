//! The engine's evaluation of a position by the number of pieces.
use vstd::prelude::*;
use crate::chess::{Color, Material};

verus! {

/// A score in hundredths of a pawn, from white's point of view.
#[derive(Debug, Eq, PartialEq, Copy, Clone, Structural)]
pub struct CentipawnScore(pub i32);

impl CentipawnScore {
    /// The score in words, such as `Centipawn score: 100`.
    pub open spec fn text_spec(self) -> Seq<char> {
        "Centipawn score: "@ + crate::uci_text::signed_decimal(self.0 as int)
    }

    pub fn to_text(&self) -> (s: String)
        ensures
            s@ == self.text_spec(),
    {
        let mut s = "Centipawn score: ".to_owned();
        crate::uci_text::push_signed_decimal(&mut s, self.0 as i64);
        s
    }
}

/// The ways the engine can score a position.
#[derive(Debug, Clone, Copy, PartialEq, Eq, Structural)]
pub enum Strategy {
    PieceCount,
}

/// Scores positions with one strategy.
#[derive(Debug)]
pub struct Evaluator {
    strategy: Strategy,
}

/// The piece-count score: a hundred for each piece white has more than black.
pub open spec fn piece_count_score(position: Material) -> int {
    100 * (position.side(Color::White).total() - position.side(Color::Black).total())
}

impl Evaluator {
    pub closed spec fn strategy_spec(&self) -> Strategy {
        self.strategy
    }

    pub fn new() -> (e: Evaluator)
        ensures
            e.strategy_spec() == Strategy::PieceCount,
    {
        Evaluator::with_strategy(Strategy::PieceCount)
    }

    pub fn with_strategy(strategy: Strategy) -> (e: Evaluator)
        ensures
            e.strategy_spec() == strategy,
    {
        Evaluator { strategy }
    }

    pub fn evaluate(&self, position: &Material) -> (s: CentipawnScore)
        ensures
            self.strategy_spec() == Strategy::PieceCount ==> s.0 == piece_count_score(*position),
    {
        match self.strategy {
            Strategy::PieceCount => self.evaluate_piececount(position),
        }
    }

    fn evaluate_piececount(&self, position: &Material) -> (s: CentipawnScore)
        ensures
            s.0 == piece_count_score(*position),
    {
        let white_pieces = position.pieces_of(Color::White).all_pieces() as i32;
        let black_pieces = position.pieces_of(Color::Black).all_pieces() as i32;
        CentipawnScore(100 * (white_pieces - black_pieces))
    }
}

} // verus!
