//! The bot's present searcher: it plays the first legal move.
use vstd::prelude::*;
use crate::chess::ChessMove;

verus! {

/// The move to play, and the line it starts.
#[derive(Debug, Clone, PartialEq, Eq)]
pub struct MoveResult {
    pub chess_move: ChessMove,
    pub pv: Vec<ChessMove>,
}

/// The result for a position whose legal moves are `legal`: the first of
/// them, as a line of one move; `None` when there is no legal move.
pub fn first_move_result(legal: &Vec<ChessMove>) -> (r: Option<MoveResult>)
    ensures
        legal@.len() == 0 ==> r is None,
        legal@.len() > 0 ==> (r matches Some(mr) && mr.chess_move == legal@[0] && mr.pv@ == seq![
            legal@[0],
        ]),
{
    if legal.len() == 0 {
        None
    } else {
        let m = legal[0];
        let pv = vec![m];
        assert(pv@ =~= seq![m]);
        Some(MoveResult { chess_move: m, pv })
    }
}

} // verus!
