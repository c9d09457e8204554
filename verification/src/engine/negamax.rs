//! The decisions of the engine's negamax search, and what it returns.
use vstd::prelude::*;
use std::cmp::Ordering;
use crate::chess::ChessMove;
use crate::engine::centipawn::Centipawn;
use crate::engine::resultinfo::{result_order, ResultInfo};
use crate::engine::statistics::Statistics;
use crate::engine::transposition_table::TranspositionTableResult;

verus! {

/// The move the search settled on, with its score.
#[derive(Debug, Clone, Copy, PartialEq, Eq, Structural)]
pub struct SearchResult {
    chess_move: ChessMove,
    score: ResultInfo,
}

impl SearchResult {
    pub closed spec fn chess_move_spec(self) -> ChessMove {
        self.chess_move
    }

    pub closed spec fn score_spec(self) -> ResultInfo {
        self.score
    }

    pub fn new(chess_move: ChessMove, score: ResultInfo) -> (r: SearchResult)
        ensures
            r.chess_move_spec() == chess_move,
            r.score_spec() == score,
    {
        SearchResult { chess_move, score }
    }

    pub fn chess_move(&self) -> (m: &ChessMove)
        ensures
            *m == self.chess_move_spec(),
    {
        &self.chess_move
    }

    pub fn score(&self) -> (s: &ResultInfo)
        ensures
            *s == self.score_spec(),
    {
        &self.score
    }
}

/// The index of the first occurrence of `m` in `s`, if any.
pub open spec fn first_index_of(s: Seq<ChessMove>, m: ChessMove, i: int) -> bool {
    &&& 0 <= i < s.len()
    &&& s[i] == m
    &&& forall|j: int| 0 <= j < i ==> #[trigger] s[j] != m
}

/// Puts the move of a cached result in front of `moves`, by swapping it
/// with the first move, so that it is searched first. Counts the cached
/// result as a partial hit, and the swap, when the move was found, as a
/// reordering; both counters wrap around.
pub fn swap_cached_move_first(
    moves: &mut Vec<ChessMove>,
    cached: Option<TranspositionTableResult>,
    statistics: &mut Statistics,
)
    ensures
        cached is None ==> final(moves)@ == old(moves)@ && final(statistics)@ == old(statistics)@,
        cached matches Some(c) ==> ({
            let found = exists|i: int| 0 <= i < old(moves)@.len() && #[trigger] old(moves)@[i] == c.m;
            &&& final(statistics)@.0 == old(statistics)@.0
            &&& final(statistics)@.1 == old(statistics)@.1
            &&& final(statistics)@.2 == old(statistics)@.2
            &&& final(statistics)@.3 == old(statistics)@.3.wrapping_add(1usize)
            &&& final(statistics)@.4 == if found {
                old(statistics)@.4.wrapping_add(1usize)
            } else {
                old(statistics)@.4
            }
            &&& !found ==> final(moves)@ == old(moves)@
            &&& found ==> exists|i: int|
                first_index_of(old(moves)@, c.m, i) && final(moves)@ == old(moves)@.update(
                    0,
                    old(moves)@[i],
                ).update(i, old(moves)@[0])
        }),
{
    if let Some(c) = cached {
        let partial = statistics.partial_transposition_table_hits();
        *partial = partial.wrapping_add(1);
        let mut idx: usize = 0;
        let mut found = false;
        while idx < moves.len()
            invariant_except_break
                idx <= moves@.len(),
                moves@ == old(moves)@,
                !found,
                forall|j: int| 0 <= j < idx ==> #[trigger] moves@[j] != c.m,
            ensures
                moves@ == old(moves)@,
                found ==> first_index_of(moves@, c.m, idx as int),
                !found ==> forall|j: int| 0 <= j < moves@.len() ==> #[trigger] moves@[j] != c.m,
            decreases moves@.len() - idx,
        {
            if moves[idx] == c.m {
                found = true;
                break;
            }
            idx = idx + 1;
        }
        if found {
            let reordered = statistics.moves_reordered();
            *reordered = reordered.wrapping_add(1);
            let ghost before = moves@;
            let first = moves[0];
            let other = moves[idx];
            moves.set(0, other);
            moves.set(idx, first);
            assert(moves@ =~= before.update(0, before[idx as int]).update(idx as int, before[0]));
        }
    }
}

/// The result of a position without legal moves `depth` plies from the
/// root: a loss with a mate at that depth when the side to move is in
/// check, a draw otherwise.
pub fn mate_or_draw(checked: bool, depth: usize) -> (r: ResultInfo)
    requires
        depth <= isize::MAX,
    ensures
        checked ==> r.score_spec().0 == i64::MIN / 2 && r.mate_depth_spec() == Some(
            (-(depth as int)) as isize,
        ),
        !checked ==> r.score_spec().0 == 0 && r.mate_depth_spec() is None,
{
    if checked {
        let d: isize = depth as isize;
        ResultInfo::new(Centipawn::loss(), Some(-d))
    } else {
        ResultInfo::new(Centipawn::zero(), None)
    }
}

/// What the score of one move does to a node of the search.
#[derive(Debug, Clone, Copy, PartialEq, Eq, Structural)]
pub enum NegamaxStep {
    /// The move refutes the window: the node answers `beta` at once.
    Cutoff,
    /// The move is the best so far: `alpha` rises to its score.
    Raise,
    /// The move changes nothing.
    Keep,
}

/// Compares `score`, the score of a move from the mover's side, with the
/// window from `alpha` to `beta`.
pub fn judge_move(score: &ResultInfo, alpha: &ResultInfo, beta: &ResultInfo) -> (r: NegamaxStep)
    ensures
        result_order(*score, *beta) >= 0 ==> r == NegamaxStep::Cutoff,
        result_order(*score, *beta) < 0 && result_order(*score, *alpha) > 0 ==> r
            == NegamaxStep::Raise,
        result_order(*score, *beta) < 0 && result_order(*score, *alpha) <= 0 ==> r
            == NegamaxStep::Keep,
{
    match score.cmp(beta) {
        Ordering::Greater | Ordering::Equal => NegamaxStep::Cutoff,
        Ordering::Less => match score.cmp(alpha) {
            Ordering::Greater => NegamaxStep::Raise,
            _ => NegamaxStep::Keep,
        },
    }
}

/// The answer a cached result gives a node that must search `depth` plies:
/// its move and score, when it was searched at least that deep.
pub fn cached_answer(cached: Option<TranspositionTableResult>, depth: usize) -> (r: Option<(ChessMove, ResultInfo)>)
    ensures
        r == match cached {
            Some(c) => if c.depth >= depth {
                Some((c.m, c.score))
            } else {
                None
            },
            None => None,
        },
{
    match cached {
        Some(c) => if c.depth >= depth {
            Some((c.m, c.score))
        } else {
            None
        },
        None => None,
    }
}

} // verus!
