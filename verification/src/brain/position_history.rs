//! The positions of a game: the one it started from, and those reached
//! since, in order.
use vstd::prelude::*;

verus! {

#[derive(Debug, Eq, PartialEq, Clone)]
pub struct PositionHistory<P> {
    starting_position: P,
    positions: Vec<P>,
}

impl<P> View for PositionHistory<P> {
    /// The starting position, and the positions reached since.
    type V = (P, Seq<P>);

    closed spec fn view(&self) -> (P, Seq<P>) {
        (self.starting_position, self.positions@)
    }
}

impl<P> PositionHistory<P> {
    pub fn new(starting_position: P) -> (h: PositionHistory<P>)
        ensures
            h@ == (starting_position, Seq::<P>::empty()),
    {
        PositionHistory { starting_position, positions: Vec::with_capacity(100) }
    }

    /// Starts over from `starting_position`.
    pub fn reset_with(&mut self, starting_position: P)
        ensures
            final(self)@ == (starting_position, Seq::<P>::empty()),
    {
        self.starting_position = starting_position;
        self.positions = Vec::with_capacity(100);
    }

    /// The last position reached, or the starting one when none was.
    pub fn current_position(&self) -> (p: &P)
        ensures
            *p == if self@.1.len() > 0 {
                self@.1.last()
            } else {
                self@.0
            },
    {
        match self.positions.last() {
            Some(p) => p,
            None => &self.starting_position,
        }
    }

    pub fn push(&mut self, position: P)
        ensures
            final(self)@ == (old(self)@.0, old(self)@.1.push(position)),
    {
        self.positions.push(position);
    }

    /// Takes back the last position reached, if any.
    pub fn pop(&mut self) -> (p: Option<P>)
        ensures
            old(self)@.1.len() == 0 ==> p is None && final(self)@ == old(self)@,
            old(self)@.1.len() > 0 ==> p == Some(old(self)@.1.last()) && final(self)@ == (
                old(self)@.0,
                old(self)@.1.drop_last(),
            ),
    {
        self.positions.pop()
    }

    /// The number of positions, the starting one included.
    pub fn count(&self) -> (n: usize)
        requires
            self@.1.len() < usize::MAX,
        ensures
            n == 1 + self@.1.len(),
    {
        1 + self.positions.len()
    }
}


/// Taking back the last position after pushing one gives back the pushed
/// position and the history as it was.
pub proof fn law_pop_undoes_push<P>(h: (P, Seq<P>), position: P)
    ensures
        h.1.push(position).len() > 0,
        h.1.push(position).last() == position,
        (h.0, h.1.push(position).drop_last()) == h,
{
    assert(h.1.push(position).drop_last() =~= h.1);
}

} // verus!
