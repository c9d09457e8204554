//! How long the engine waits before it stops a search.
use vstd::prelude::*;
use crate::brain::RemainingTime;

verus! {

/// The time to think, in milliseconds, that `remaining_time` allows: a tenth
/// of the time left for the game, or all the time for the move; `None`
/// when there is no limit.
pub open spec fn delay_spec(remaining_time: Option<RemainingTime>) -> Option<u64> {
    match remaining_time {
        Some(RemainingTime::ForGame { remaining, .. }) => Some((remaining / 10) as u64),
        Some(RemainingTime::ForMove(time)) => Some(time),
        None => None,
    }
}

/// Keeps the time limit of the next search. The waiting itself is left to
/// the caller, who gets the delay from `start`.
#[derive(Debug, Clone, Copy)]
pub struct TimeManager {
    remaining_time: Option<RemainingTime>,
}

impl View for TimeManager {
    type V = Option<RemainingTime>;

    closed spec fn view(&self) -> Option<RemainingTime> {
        self.remaining_time
    }
}

impl TimeManager {
    pub fn new() -> (t: TimeManager)
        ensures
            t@ is None,
    {
        TimeManager { remaining_time: None }
    }

    pub fn update(&mut self, remaining_time: Option<RemainingTime>)
        ensures
            final(self)@ == remaining_time,
    {
        self.remaining_time = remaining_time;
    }

    /// How long to wait before the search is stopped, in milliseconds;
    /// `None` when it runs until it is stopped from outside.
    pub fn start(&self) -> (d: Option<u64>)
        ensures
            d == delay_spec(self@),
    {
        delay_for_time(self.remaining_time)
    }
}

pub fn delay_for_time(remaining_time: Option<RemainingTime>) -> (d: Option<u64>)
    ensures
        d == delay_spec(remaining_time),
{
    match remaining_time {
        Some(RemainingTime::ForGame { remaining, .. }) => Some(remaining / 10),
        Some(RemainingTime::ForMove(time)) => Some(time),
        None => None,
    }
}

} // verus!
