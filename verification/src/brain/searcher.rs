//! The decisions of the alpha-beta search.
//!
//! The search walks the tree of positions that the move generator produces;
//! at each node it takes the decisions below, which depend on scores,
//! bounds and the transposition table alone.
use vstd::prelude::*;
use crate::brain::evaluator::{CentipawnScore, ScoreBound};
use crate::brain::transposition_table::TTEntry;
use crate::brain::MoveResult;
use crate::chess::{ChessMove, ZobristHash};

verus! {

/// How deep the search may go; `None` for no limit.
#[derive(Debug, Clone, Copy, PartialEq, Eq, Structural)]
pub struct SearcherConfig {
    pub depth: Option<u16>,
}

impl Default for SearcherConfig {
    fn default() -> (c: SearcherConfig)
        ensures
            c.depth is None,
    {
        SearcherConfig { depth: None }
    }
}

/// The deepest iteration of the search: the configured depth, or
/// `u16::MAX` when none is set.
pub open spec fn max_depth_spec(config: SearcherConfig) -> u16 {
    match config.depth {
        Some(d) => d,
        None => u16::MAX,
    }
}

pub fn max_depth(config: &SearcherConfig) -> (d: u16)
    ensures
        d == max_depth_spec(*config),
{
    match config.depth {
        Some(d) => d,
        None => u16::MAX,
    }
}

/// Whether a stored entry is for the position with hash `hash`.
pub open spec fn is_hit(cached: Option<TTEntry>, hash: ZobristHash) -> bool {
    cached matches Some(e) && e.hash == hash
}

/// Whether a stored entry for this position was searched at least `depth` deep.
pub open spec fn is_deep_hit(cached: Option<TTEntry>, hash: ZobristHash, depth: u16) -> bool {
    is_hit(cached, hash) && cached.unwrap().depth >= depth
}

/// What the entry in the slot of a position tells a node of the search.
pub enum Probe {
    /// The stored score is exact and deep enough: the node answers with it
    /// and the stored move.
    Answer(MoveResult),
    /// The node searches in the window from `alpha` to `beta`, and tries
    /// `previous_best` first.
    Search { alpha: CentipawnScore, beta: CentipawnScore, previous_best: Option<ChessMove> },
}

/// Reads the entry `cached` found in the slot of the position with hash
/// `hash`, for a search `depth` deep in the window from `alpha` to `beta`.
/// Returns whether the entry is for this position, and what to do.
///
/// An exact deep entry answers at once. A deep upper bound becomes the new
/// `beta`, a deep lower bound the new `alpha`. Whatever the entry's
/// position, its move is tried first.
pub fn probe(cached: Option<TTEntry>, hash: ZobristHash, depth: u16, alpha: CentipawnScore, beta: CentipawnScore) -> (r: (bool, Probe))
    requires
        is_deep_hit(cached, hash, depth) && cached.unwrap().bound == ScoreBound::Exact
            ==> cached.unwrap().m is Some,
    ensures
        r.0 == is_hit(cached, hash),
        is_deep_hit(cached, hash, depth) && cached.unwrap().bound == ScoreBound::Exact
            ==> (r.1 matches Probe::Answer(mr) && mr@ == (
                cached.unwrap().score,
                seq![cached.unwrap().m.unwrap()],
            )),
        !(is_deep_hit(cached, hash, depth) && cached.unwrap().bound == ScoreBound::Exact)
            ==> (r.1 matches Probe::Search { alpha: a, beta: b, previous_best: p } && a == (
            if is_deep_hit(cached, hash, depth) && cached.unwrap().bound
                == ScoreBound::Lower {
                cached.unwrap().score
            } else {
                alpha
            }) && b == (if is_deep_hit(cached, hash, depth) && cached.unwrap().bound
                == ScoreBound::Upper {
                cached.unwrap().score
            } else {
                beta
            }) && p == (match cached {
                Some(e) => e.m,
                None => None,
            })),
{
    let mut alpha = alpha;
    let mut beta = beta;
    let mut hit = false;
    let mut previous_best: Option<ChessMove> = None;
    if let Some(e) = cached {
        if e.hash == hash {
            hit = true;
            if e.depth >= depth {
                match e.bound {
                    ScoreBound::Exact => {
                        let mut mr = MoveResult::new(e.score);
                        mr.push(e.m.unwrap());
                        assert(mr@.1 =~= seq![e.m.unwrap()]);
                        return (true, Probe::Answer(mr));
                    },
                    ScoreBound::Upper => {
                        beta = e.score;
                    },
                    ScoreBound::Lower => {
                        alpha = e.score;
                    },
                }
            }
        }
        previous_best = e.m;
    }
    (hit, Probe::Search { alpha, beta, previous_best })
}

/// A position is scored as a draw before it is searched when its initial
/// position has occurred three times, or when fifty moves have passed
/// without a capture or a pawn move.
pub open spec fn is_draw_spec(threefold_repetition: bool, halfmove_clock: u32) -> bool {
    threefold_repetition || halfmove_clock >= 50
}

pub fn draw_result(threefold_repetition: bool, halfmove_clock: u32) -> (r: Option<MoveResult>)
    ensures
        is_draw_spec(threefold_repetition, halfmove_clock) ==> (r matches Some(mr) && mr@ == (
            CentipawnScore(0),
            Seq::<ChessMove>::empty(),
        )),
        !is_draw_spec(threefold_repetition, halfmove_clock) ==> r is None,
        threefold_repetition || halfmove_clock >= 50 ==> (r matches Some(mr) && mr@.0 == CentipawnScore(0)),
        !threefold_repetition && halfmove_clock < 50 ==> r is None,
{
    if threefold_repetition || halfmove_clock >= 50 {
        Some(MoveResult::new(CentipawnScore::zero()))
    } else {
        None
    }
}

/// A threefold repetition is a draw whatever the clock, and so is every
/// position whose halfmove clock has reached 50, at 50 or any later count;
/// without a repetition, a clock below 50 is no draw.
pub proof fn law_fifty_move_rule(threefold_repetition: bool, halfmove_clock: u32)
    ensures
        is_draw_spec(true, halfmove_clock),
        halfmove_clock >= 50 ==> is_draw_spec(threefold_repetition, halfmove_clock),
        halfmove_clock < 50 ==> !is_draw_spec(false, halfmove_clock),
{
}

/// Being a draw only grows with the clock: a position drawn at one count is
/// drawn at every later count.
pub proof fn law_draw_monotone_in_clock(threefold_repetition: bool, h1: u32, h2: u32)
    requires
        h1 <= h2,
        is_draw_spec(threefold_repetition, h1),
    ensures
        is_draw_spec(threefold_repetition, h2),
{
}

/// The result of a position without legal moves: checkmate when the side
/// to move is in check, a draw otherwise.
pub fn no_moves_result(in_check: bool) -> (r: MoveResult)
    ensures
        r@ == (
            if in_check {
                CentipawnScore(-1073741823i32)
            } else {
                CentipawnScore(0)
            },
            Seq::<ChessMove>::empty(),
        ),
{
    if in_check {
        MoveResult::new(CentipawnScore::checkmated())
    } else {
        MoveResult::new(CentipawnScore::zero())
    }
}

/// What the score of one child of a node does to the node.
pub enum ChildOutcome {
    /// The child refutes the window: the node returns this result at once.
    Cutoff(MoveResult),
    /// The child is the best so far: `alpha` rises to its score.
    Raise(MoveResult),
    /// The child changes nothing.
    Keep,
}

/// Takes the result `child` that the opponent reached after move `m`,
/// turns it to this side's point of view with `m` in front of its line, and
/// compares it with the window from `alpha` to `beta`.
pub fn judge_child(child: MoveResult, m: ChessMove, alpha: CentipawnScore, beta: CentipawnScore) -> (r: ChildOutcome)
    requires
        child@.0.0 != i32::MIN,
    ensures
        -child@.0.0 >= beta.0 ==> (r matches ChildOutcome::Cutoff(mr) && mr@ == (
            CentipawnScore((-child@.0.0) as i32),
            child@.1.push(m),
        )),
        beta.0 > -child@.0.0 > alpha.0 ==> (r matches ChildOutcome::Raise(mr) && mr@ == (
            CentipawnScore((-child@.0.0) as i32),
            child@.1.push(m),
        )),
        -child@.0.0 < beta.0 && -child@.0.0 <= alpha.0 ==> r is Keep,
{
    let mut child = child;
    child.invert_score();
    let score = child.score();
    if score.0 >= beta.0 {
        child.push(m);
        ChildOutcome::Cutoff(child)
    } else if score.0 > alpha.0 {
        child.push(m);
        ChildOutcome::Raise(child)
    } else {
        ChildOutcome::Keep
    }
}

/// The entry stored when move `m` refuted the window at a node `depth` deep:
/// the child's score is a lower bound. It is stored under `hash`, the hash
/// of the position after `m`, which is the current one when the search
/// stores it.
pub fn cutoff_entry(hash: ZobristHash, depth: u16, score: CentipawnScore, m: ChessMove) -> (e: TTEntry)
    ensures
        e == (TTEntry { hash, depth, score, bound: ScoreBound::Lower, m: Some(m) }),
{
    TTEntry { hash, depth, score, bound: ScoreBound::Lower, m: Some(m) }
}

/// The entry stored when all moves of a node `depth` deep were searched:
/// exact when some move raised `alpha`, an upper bound otherwise, with the
/// first move of the best line.
pub fn final_entry(hash: ZobristHash, depth: u16, best: &MoveResult, was_alpha_increased: bool) -> (e: TTEntry)
    ensures
        e.hash == hash,
        e.depth == depth,
        e.score == best@.0,
        e.bound == if was_alpha_increased {
            ScoreBound::Exact
        } else {
            ScoreBound::Upper
        },
        e.m == if best@.1.len() > 0 {
            Some(best@.1.last())
        } else {
            None::<ChessMove>
        },
{
    let m = match best.first_move() {
        Some(x) => Some(*x),
        None => None,
    };
    TTEntry {
        hash,
        depth,
        score: best.score(),
        bound: if was_alpha_increased {
            ScoreBound::Exact
        } else {
            ScoreBound::Upper
        },
        m,
    }
}

/// What the static score of a quiet position does to the window.
pub enum StandPat {
    /// The static score alone refutes the window: the node returns `beta`.
    Cutoff(MoveResult),
    /// The node goes on with this `alpha`.
    Search(CentipawnScore),
}

/// The side to move may always decline to capture, so its static score
/// `stand_pat` is a lower bound on the node's score.
pub fn stand_pat(static_score: CentipawnScore, alpha: CentipawnScore, beta: CentipawnScore) -> (r: StandPat)
    ensures
        static_score.0 >= beta.0 ==> (r matches StandPat::Cutoff(mr) && mr@ == (
            beta,
            Seq::<ChessMove>::empty(),
        )),
        static_score.0 < beta.0 ==> (r matches StandPat::Search(a) && a == (if alpha.0 < static_score.0 {
            static_score
        } else {
            alpha
        })),
{
    if static_score.0 >= beta.0 {
        StandPat::Cutoff(MoveResult::new(beta))
    } else if alpha.0 < static_score.0 {
        StandPat::Search(static_score)
    } else {
        StandPat::Search(alpha)
    }
}

/// The quiescence search follows captures only.
pub fn is_quiescence_move(m: &ChessMove) -> (b: bool)
    ensures
        b == m.move_type.is_capture(),
{
    m.move_type.contains_capture()
}

} // verus!
