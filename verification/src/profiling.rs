//! The fixed workloads used to measure the engine's speed.
use vstd::prelude::*;

verus! {

/// The workloads: counting positions seven plies deep from the initial
/// position, six plies deep from a position with one piece of each kind,
/// or searching nine plies deep from the initial position.
#[derive(Debug, Copy, Clone, PartialEq, Eq, Structural)]
pub enum ProfileMode {
    PerftDefault7,
    PerftOneOfEach6,
    SearchDepth,
}

/// What a workload runs: a count of positions or a search, from a position
/// given by its FEN record, to a depth.
#[derive(Debug, Clone, PartialEq, Eq)]
pub enum ProfileRun {
    Perft { fen: String, depth: usize },
    Search { fen: String, depth: u16 },
}

/// The FEN record of the position with one piece of each kind and a pawn
/// on each side.
pub open spec fn one_of_each_fen() -> Seq<char> {
    "rnbqkbnr/7p/8/8/8/8/P7/RNBQKBNR w KQkq - 0 1"@
}

pub fn profile_run(mode: ProfileMode) -> (r: ProfileRun)
    ensures
        mode == ProfileMode::PerftDefault7 ==> (r matches ProfileRun::Perft { fen, depth } && fen@
            == crate::beak::start_fen() && depth == 7),
        mode == ProfileMode::PerftOneOfEach6 ==> (r matches ProfileRun::Perft { fen, depth } && fen@
            == one_of_each_fen() && depth == 6),
        mode == ProfileMode::SearchDepth ==> (r matches ProfileRun::Search { fen, depth } && fen@
            == crate::beak::start_fen() && depth == 9),
{
    match mode {
        ProfileMode::PerftDefault7 => ProfileRun::Perft { fen: crate::beak::start_position_fen(), depth: 7 },
        ProfileMode::PerftOneOfEach6 => ProfileRun::Perft {
            fen: "rnbqkbnr/7p/8/8/8/8/P7/RNBQKBNR w KQkq - 0 1".to_owned(),
            depth: 6,
        },
        ProfileMode::SearchDepth => ProfileRun::Search { fen: crate::beak::start_position_fen(), depth: 9 },
    }
}

} // verus!
