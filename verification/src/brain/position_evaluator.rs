//! Scores a position by the material of both sides.
use vstd::prelude::*;
use crate::chess::{Material, PieceCounts};
use crate::engine::centipawn::Centipawn;

verus! {

/// The material value of one side: 100 for a pawn, 300 for a knight or a
/// bishop, 500 for a rook and 900 for a queen.
pub open spec fn material_value(p: PieceCounts) -> int {
    100 * p.pawns + 300 * p.knights + 300 * p.bishops + 500 * p.rooks + 900 * p.queens
}

/// `score` brought into the range from `Centipawn::loss()` to `Centipawn::win()`.
pub open spec fn clamped(score: int) -> int {
    if score > i64::MAX / 2 {
        i64::MAX / 2
    } else if score < i64::MIN / 2 {
        i64::MIN / 2
    } else {
        score
    }
}

/// Scores the side to move by material.
pub struct PositionEvaluator {}

impl PositionEvaluator {
    pub fn new() -> (e: PositionEvaluator) {
        PositionEvaluator {}
    }

    /// The material of the side to move minus that of the other side,
    /// clamped to the range of a won or a lost position.
    pub fn evaluate(&self, position: &Material) -> (c: Centipawn)
        ensures
            c.0 == clamped(
                material_value(position.side(position.active_color)) - material_value(
                    position.side(position.active_color.other_spec()),
                ),
            ),
    {
        let own = self.evaluate_piece_score(&position.pieces_of(position.active_color));
        let other = self.evaluate_piece_score(&position.pieces_of(position.active_color.other()));
        Self::clamp(Centipawn(own - other))
    }

    fn evaluate_piece_score(&self, p: &PieceCounts) -> (v: i64)
        ensures
            v == material_value(*p),
    {
        p.pawns as i64 * 100 + p.knights as i64 * 300 + p.bishops as i64 * 300 + p.rooks as i64
            * 500 + p.queens as i64 * 900
    }

    fn clamp(i: Centipawn) -> (c: Centipawn)
        ensures
            c.0 == clamped(i.0 as int),
    {
        let win = Centipawn::win();
        let loss = Centipawn::loss();
        if i.0 > win.0 {
            win
        } else if i.0 < loss.0 {
            loss
        } else {
            i
        }
    }
}

impl Default for PositionEvaluator {
    fn default() -> (e: PositionEvaluator) {
        PositionEvaluator::new()
    }
}

} // verus!
