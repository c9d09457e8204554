//! Scores in hundredths of a pawn, for the engine behind the bot.
use vstd::prelude::*;

verus! {

/// A score in hundredths of a pawn, seen from the side to move.
#[derive(Debug, Clone, Copy, PartialEq, Eq, PartialOrd, Ord, Structural)]
pub struct Centipawn(pub i64);

impl Centipawn {
    /// The score of an even position.
    pub fn zero() -> (r: Centipawn)
        ensures
            r.0 == 0,
    {
        Centipawn(0)
    }

    /// The score of a won position: half of `i64::MAX`.
    pub fn win() -> (r: Centipawn)
        ensures
            r.0 == i64::MAX / 2,
    {
        Centipawn(i64::MAX / 2)
    }

    /// The largest score.
    pub fn max_value() -> (r: Centipawn)
        ensures
            r.0 == i64::MAX,
    {
        Centipawn(i64::MAX)
    }

    /// The score of a lost position: half of `i64::MIN`.
    pub fn loss() -> (r: Centipawn)
        ensures
            r.0 == i64::MIN / 2,
    {
        Centipawn(i64::MIN / 2)
    }

    /// The smallest score: one above `i64::MIN`, so that negation never overflows.
    pub fn min_value() -> (r: Centipawn)
        ensures
            r.0 == i64::MIN + 1,
    {
        Centipawn(i64::MIN + 1)
    }
}

impl std::ops::Neg for Centipawn {
    type Output = Centipawn;

    fn neg(self) -> (r: Centipawn) {
        Centipawn(-self.0)
    }
}

impl vstd::std_specs::ops::NegSpecImpl for Centipawn {
    open spec fn obeys_neg_spec() -> bool {
        true
    }

    open spec fn neg_req(self) -> bool {
        self.0 != i64::MIN
    }

    open spec fn neg_spec(self) -> Centipawn {
        Centipawn((-self.0) as i64)
    }
}


/// Negating a score twice gives the score back.
pub proof fn law_neg_involutive(c: Centipawn)
    requires
        c.0 != i64::MIN,
    ensures
        vstd::std_specs::ops::NegSpec::neg_req(c),
        vstd::std_specs::ops::NegSpec::neg_req(vstd::std_specs::ops::NegSpec::neg_spec(c)),
        vstd::std_specs::ops::NegSpec::neg_spec(vstd::std_specs::ops::NegSpec::neg_spec(c)) == c,
{
}

} // verus!
