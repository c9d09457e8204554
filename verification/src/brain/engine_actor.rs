//! The decisions of the engine's actor: whether a search may start, what a
//! stop request does, and which legal move a move string names.
//!
//! The actor holds the running search as a handle of the caller's choosing;
//! whether that search has finished is asked of the handle by the caller.
use vstd::prelude::*;
use crate::brain::EngineError;
use crate::chess::ChessMove;

verus! {

/// Whether a search is still running, given the current one and whether it
/// has finished. A finished search is forgotten.
pub fn check_calculation_running<T>(current: &mut Option<T>, is_finished: bool) -> (running: bool)
    ensures
        running == ((*old(current)) is Some && !is_finished),
        (*old(current)) is Some && is_finished ==> (*final(current)) is None,
        !((*old(current)) is Some && is_finished) ==> *final(current) == *old(current),
{
    if current.is_some() {
        if is_finished {
            *current = None;
            false
        } else {
            true
        }
    } else {
        false
    }
}

/// A search may start only when none is running.
pub fn go_decision(running: bool) -> (r: Result<(), EngineError>)
    ensures
        running ==> r == Err::<(), EngineError>(EngineError::CalculationAlreadyInProgress),
        !running ==> r is Ok,
{
    if running {
        Err(EngineError::CalculationAlreadyInProgress)
    } else {
        Ok(())
    }
}

/// Takes the current search out. It is handed back when it still runs, to
/// be stopped and waited for; the request then answers `true`, and `false`
/// otherwise.
pub fn stop_calculation<T>(current: &mut Option<T>, is_finished: bool) -> (r: Option<T>)
    ensures
        (*final(current)) is None,
        r == if (*old(current)) is Some && !is_finished {
            *old(current)
        } else {
            None
        },
{
    let mut taken: Option<T> = None;
    std::mem::swap(&mut taken, current);
    match taken {
        Some(c) => if !is_finished {
            Some(c)
        } else {
            None
        },
        None => None,
    }
}

/// `i` is the first index of a move of `legal` written `m` in UCI notation.
pub open spec fn is_first_named(legal: Seq<ChessMove>, m: Seq<char>, i: int) -> bool {
    &&& 0 <= i < legal.len()
    &&& legal[i].uci() == m
    &&& forall|j: int| 0 <= j < i ==> #[trigger] legal[j].uci() != m
}

/// The first of the `legal` moves that is written `m` in UCI notation.
pub fn find_move_by_uci(legal: &Vec<ChessMove>, m: &str) -> (r: Option<ChessMove>)
    ensures
        r is None ==> forall|j: int| 0 <= j < legal@.len() ==> #[trigger] legal@[j].uci() != m@,
        r matches Some(x) ==> exists|i: int| is_first_named(legal@, m@, i) && legal@[i] == x,
{
    let target = m.to_owned();
    let mut i: usize = 0;
    while i < legal.len()
        invariant
            i <= legal@.len(),
            target@ == m@,
            forall|j: int| 0 <= j < i ==> #[trigger] legal@[j].uci() != m@,
        decreases legal@.len() - i,
    {
        let name = legal[i].as_uci();
        if name == target {
            assert(is_first_named(legal@, m@, i as int));
            return Some(legal[i]);
        }
        i = i + 1;
    }
    None
}

} // verus!
