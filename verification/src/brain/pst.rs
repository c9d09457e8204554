//! The layout of a piece-square table: for each square and kind of piece, a
//! middlegame value followed by an endgame value.
use vstd::prelude::*;

verus! {

/// Two phases, six kinds of piece, sixty-four squares.
pub const TABLE_SIZE: usize = 768;

/// The indices of the middlegame and endgame values of a piece of kind
/// `piece` (0 to 5) on square `square` (0 to 63).
pub fn indices_for(piece: usize, square: usize) -> (r: (usize, usize))
    requires
        piece < 6,
        square < 64,
    ensures
        r.0 == 2 * (square * 6 + piece),
        r.1 == r.0 + 1,
        r.1 < TABLE_SIZE,
{
    let midgame_idx = 2 * (square * 6 + piece);
    (midgame_idx, midgame_idx + 1)
}

/// Each square and kind of piece has its own two entries.
pub proof fn law_indices_distinct(p1: usize, s1: usize, p2: usize, s2: usize)
    requires
        p1 < 6,
        s1 < 64,
        p2 < 6,
        s2 < 64,
        p1 != p2 || s1 != s2,
    ensures
        2 * (s1 * 6 + p1) != 2 * (s2 * 6 + p2),
        2 * (s1 * 6 + p1) != 2 * (s2 * 6 + p2) + 1,
{
}

} // verus!
