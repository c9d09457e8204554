//! Counters the engine keeps about a search.
use vstd::prelude::*;

verus! {

/// The counters of a search. Each accessor hands out the counter itself, for
/// the search to read or to raise.
#[derive(Debug, Clone, Copy, PartialEq, Eq, Structural)]
pub struct Statistics {
    nodes_searched: u64,
    transposition_table_size: usize,
    full_transposition_table_hits: usize,
    partial_transposition_table_hits: usize,
    moves_reordered: usize,
}


impl View for Statistics {
    type V = (u64, usize, usize, usize, usize);

    closed spec fn view(&self) -> (u64, usize, usize, usize, usize) {
        (
            self.nodes_searched,
            self.transposition_table_size,
            self.full_transposition_table_hits,
            self.partial_transposition_table_hits,
            self.moves_reordered,
        )
    }
}

impl Statistics {
    pub fn new() -> (s: Statistics)
        ensures
            s@ == (0u64, 0usize, 0usize, 0usize, 0usize),
    {
        Statistics {
            nodes_searched: 0,
            transposition_table_size: 0,
            full_transposition_table_hits: 0,
            partial_transposition_table_hits: 0,
            moves_reordered: 0,
        }
    }

    pub fn nodes_searched(&mut self) -> (r: &mut u64)
        ensures
            *r == old(self)@.0,
            final(self)@ == (*final(r), old(self)@.1, old(self)@.2, old(self)@.3, old(self)@.4),
    {
        &mut self.nodes_searched
    }

    pub fn transposition_table_size(&mut self) -> (r: &mut usize)
        ensures
            *r == old(self)@.1,
            final(self)@ == (old(self)@.0, *final(r), old(self)@.2, old(self)@.3, old(self)@.4),
    {
        &mut self.transposition_table_size
    }

    pub fn full_transposition_table_hits(&mut self) -> (r: &mut usize)
        ensures
            *r == old(self)@.2,
            final(self)@ == (old(self)@.0, old(self)@.1, *final(r), old(self)@.3, old(self)@.4),
    {
        &mut self.full_transposition_table_hits
    }

    pub fn partial_transposition_table_hits(&mut self) -> (r: &mut usize)
        ensures
            *r == old(self)@.3,
            final(self)@ == (old(self)@.0, old(self)@.1, old(self)@.2, *final(r), old(self)@.4),
    {
        &mut self.partial_transposition_table_hits
    }

    pub fn moves_reordered(&mut self) -> (r: &mut usize)
        ensures
            *r == old(self)@.4,
            final(self)@ == (old(self)@.0, old(self)@.1, old(self)@.2, old(self)@.3, *final(r)),
    {
        &mut self.moves_reordered
    }

    /// Sets every counter back to zero.
    pub fn reset(&mut self)
        ensures
            final(self)@ == (0u64, 0usize, 0usize, 0usize, 0usize),
    {
        self.nodes_searched = 0;
        self.transposition_table_size = 0;
        self.full_transposition_table_hits = 0;
        self.partial_transposition_table_hits = 0;
        self.moves_reordered = 0;
    }
}

impl Default for Statistics {
    fn default() -> (s: Statistics)
        ensures
            s@ == (0u64, 0usize, 0usize, 0usize, 0usize),
    {
        Statistics::new()
    }
}

} // verus!
