//! A score with the distance to a forced mate, and the order on such scores.
use vstd::prelude::*;
use std::cmp::Ordering;
use crate::engine::centipawn::Centipawn;

verus! {

/// A score together with the distance to a forced mate, when there is one.
#[derive(Debug, Copy, Clone, Eq, PartialEq, Structural)]
pub struct ResultInfo {
    score: Centipawn,
    mate_depth: Option<isize>,
}

/// The sign of `a - b`.
pub open spec fn sign_of_difference(a: int, b: int) -> int {
    if a < b {
        -1
    } else if a == b {
        0
    } else {
        1
    }
}

/// How `a` compares with `b`: -1, 0 or 1. Scores are compared first; on equal
/// scores, two mate depths are compared with each other, and a single mate
/// depth (whichever side holds it) with zero.
pub open spec fn result_order(a: ResultInfo, b: ResultInfo) -> int {
    if a.score_spec().0 != b.score_spec().0 {
        sign_of_difference(a.score_spec().0 as int, b.score_spec().0 as int)
    } else {
        match (a.mate_depth_spec(), b.mate_depth_spec()) {
            (Some(s), Some(o)) => sign_of_difference(s as int, o as int),
            (Some(s), None) => sign_of_difference(s as int, 0),
            (None, Some(s)) => sign_of_difference(s as int, 0),
            (None, None) => 0,
        }
    }
}

pub open spec fn ordering_of(n: int) -> Ordering {
    if n < 0 {
        Ordering::Less
    } else if n == 0 {
        Ordering::Equal
    } else {
        Ordering::Greater
    }
}

impl ResultInfo {
    pub closed spec fn score_spec(self) -> Centipawn {
        self.score
    }

    pub closed spec fn mate_depth_spec(self) -> Option<isize> {
        self.mate_depth
    }

    /// The same result seen from the other side.
    pub closed spec fn negated(self) -> ResultInfo {
        ResultInfo {
            score: Centipawn((-self.score.0) as i64),
            mate_depth: match self.mate_depth {
                Some(i) => Some((-i) as isize),
                None => None,
            },
        }
    }

    pub fn new(score: Centipawn, mate_depth: Option<isize>) -> (r: ResultInfo)
        ensures
            r.score_spec() == score,
            r.mate_depth_spec() == mate_depth,
    {
        ResultInfo { score, mate_depth }
    }

    pub fn score(&self) -> (s: Centipawn)
        ensures
            s == self.score_spec(),
    {
        self.score
    }

    pub fn mate_depth(&self) -> (m: Option<isize>)
        ensures
            m == self.mate_depth_spec(),
    {
        self.mate_depth
    }

    /// How this result compares with `other`; see [`result_order`].
    pub fn cmp(&self, other: &ResultInfo) -> (o: Ordering)
        ensures
            o == ordering_of(result_order(*self, *other)),
    {
        if self.score.0 < other.score.0 {
            Ordering::Less
        } else if self.score.0 > other.score.0 {
            Ordering::Greater
        } else {
            let (x, y): (isize, isize) = match (self.mate_depth, other.mate_depth) {
                (Some(s), Some(o)) => (s, o),
                (Some(s), None) => (s, 0),
                (None, Some(s)) => (s, 0),
                (None, None) => (0, 0),
            };
            if x < y {
                Ordering::Less
            } else if x == y {
                Ordering::Equal
            } else {
                Ordering::Greater
            }
        }
    }
}

impl PartialOrd for ResultInfo {
    fn partial_cmp(&self, other: &ResultInfo) -> (o: Option<Ordering>) {
        Some(self.cmp(other))
    }
}

impl vstd::std_specs::cmp::PartialOrdSpecImpl for ResultInfo {
    open spec fn obeys_partial_cmp_spec() -> bool {
        true
    }

    open spec fn partial_cmp_spec(&self, other: &ResultInfo) -> Option<Ordering> {
        Some(ordering_of(result_order(*self, *other)))
    }
}

impl std::ops::Neg for ResultInfo {
    type Output = ResultInfo;

    /// The same result seen from the other side: both the score and the mate
    /// depth change sign.
    fn neg(self) -> (r: ResultInfo)
        ensures
            r.score_spec().0 == -self.score_spec().0,
            r.mate_depth_spec() == match self.mate_depth_spec() {
                Some(i) => Some((-i) as isize),
                None => None,
            },
    {
        ResultInfo {
            score: std::ops::Neg::neg(self.score),
            mate_depth: match self.mate_depth {
                Some(i) => Some(-i),
                None => None,
            },
        }
    }
}

impl vstd::std_specs::ops::NegSpecImpl for ResultInfo {
    open spec fn obeys_neg_spec() -> bool {
        true
    }

    open spec fn neg_req(self) -> bool {
        self.score_spec().0 != i64::MIN && (self.mate_depth_spec() matches Some(i) ==> i
            != isize::MIN)
    }

    open spec fn neg_spec(self) -> ResultInfo {
        self.negated()
    }
}


/// Negating a result twice gives the result back.
pub proof fn law_neg_involutive(r: ResultInfo)
    requires
        r.score_spec().0 != i64::MIN,
        r.mate_depth_spec() matches Some(i) ==> i != isize::MIN,
    ensures
        vstd::std_specs::ops::NegSpec::neg_req(r),
        vstd::std_specs::ops::NegSpec::neg_req(vstd::std_specs::ops::NegSpec::neg_spec(r)),
        vstd::std_specs::ops::NegSpec::neg_spec(vstd::std_specs::ops::NegSpec::neg_spec(r)) == r,
{
}

/// Comparing two results the other way round gives the opposite order,
/// when both have a mate depth or neither has. (With a mate depth on one
/// side only, both orders compare that depth with zero: a result with mate
/// depth 1 is then greater than one with the same score and none, and the
/// other is greater too.)
pub proof fn law_order_reverses(a: ResultInfo, b: ResultInfo)
    requires
        a.mate_depth_spec() is Some == b.mate_depth_spec() is Some,
    ensures
        result_order(a, b) == -result_order(b, a),
{
}

/// A result is equal in order to itself.
pub proof fn law_order_reflexive(a: ResultInfo)
    ensures
        result_order(a, a) == 0,
{
}

/// The order on results is transitive: comparing by score first, then by
/// mate depth, when all three have a mate depth or none has.
pub proof fn law_order_transitive(a: ResultInfo, b: ResultInfo, c: ResultInfo)
    requires
        a.mate_depth_spec() is Some == b.mate_depth_spec() is Some,
        b.mate_depth_spec() is Some == c.mate_depth_spec() is Some,
        result_order(a, b) <= 0,
        result_order(b, c) <= 0,
    ensures
        result_order(a, c) <= 0,
{
}


/// Two results are equal exactly when their scores and their mate depths
/// are: a result holds nothing else.
pub proof fn law_equal_parts(a: ResultInfo, b: ResultInfo)
    ensures
        (a == b) <==> (a.score_spec() == b.score_spec() && a.mate_depth_spec()
            == b.mate_depth_spec()),
{
}

} // verus!
