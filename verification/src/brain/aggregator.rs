//! The decisions of the actor that runs a search against the clock.
use vstd::prelude::*;
use crate::brain::searcher::SearcherConfig;
use crate::brain::statistics::Statistics;
use crate::brain::{EngineUpdate, MoveResult, SearchConfiguration};

verus! {

/// The searcher's part of a search configuration: its depth.
pub fn searcher_config_for(config: &SearchConfiguration) -> (c: SearcherConfig)
    ensures
        c.depth == config.depth,
{
    SearcherConfig { depth: config.depth }
}

/// The speed of a search between two snapshots of its counters taken
/// `period_secs` seconds apart, in nodes per second.
pub fn nodes_per_second(new_stats: &Statistics, previous: &Statistics, period_secs: u64) -> (nps: u64)
    requires
        new_stats.nodes_searched >= previous.nodes_searched,
        period_secs > 0,
    ensures
        nps == (new_stats.nodes_searched - previous.nodes_searched) / (period_secs as int),
{
    (new_stats.nodes_searched - previous.nodes_searched) / period_secs
}

/// What the actor reports when the search ends: the last result it
/// received, if any.
pub fn final_update(result: Option<MoveResult>) -> (u: Option<EngineUpdate>)
    ensures
        result is None ==> u is None,
        result matches Some(r) ==> (u matches Some(EngineUpdate::BestMove(b)) && b@ == r@),
{
    match result {
        Some(r) => Some(EngineUpdate::BestMove(r)),
        None => None,
    }
}

} // verus!
