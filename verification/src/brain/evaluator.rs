//! Scores and the simple material evaluators of the search.
use vstd::prelude::*;
use crate::chess::{Material, Piece, PieceCounts};

verus! {

/// A score in hundredths of a pawn, seen from the side to move.
#[derive(Debug, Eq, PartialEq, Copy, Clone, Ord, PartialOrd, Structural)]
pub struct CentipawnScore(pub i32);

impl CentipawnScore {
    /// The score of an even position.
    pub fn zero() -> (s: CentipawnScore)
        ensures
            s.0 == 0,
    {
        CentipawnScore(0)
    }

    /// The score of a side that is checkmated: half of the smallest score.
    pub fn checkmated() -> (s: CentipawnScore)
        ensures
            s.0 == -1073741823,
    {
        CentipawnScore((i32::MIN + 1) / 2)
    }

    /// The largest score.
    pub fn max_value() -> (s: CentipawnScore)
        ensures
            s.0 == i32::MAX,
    {
        CentipawnScore(i32::MAX)
    }

    /// The smallest score: one above `i32::MIN`, so that negation never overflows.
    pub fn min_value() -> (s: CentipawnScore)
        ensures
            s.0 == i32::MIN + 1,
    {
        CentipawnScore(i32::MIN + 1)
    }
}

impl std::ops::Neg for CentipawnScore {
    type Output = CentipawnScore;

    fn neg(self) -> (r: CentipawnScore) {
        CentipawnScore((-self.0) as i32)
    }
}

impl vstd::std_specs::ops::NegSpecImpl for CentipawnScore {
    open spec fn obeys_neg_spec() -> bool {
        true
    }

    open spec fn neg_req(self) -> bool {
        self.0 != i32::MIN
    }

    open spec fn neg_spec(self) -> CentipawnScore {
        CentipawnScore((-self.0) as i32)
    }
}

/// Negating a score twice gives the score back.
pub proof fn law_neg_involutive(c: CentipawnScore)
    requires
        c.0 != i32::MIN,
    ensures
        vstd::std_specs::ops::NegSpec::neg_req(c),
        vstd::std_specs::ops::NegSpec::neg_req(vstd::std_specs::ops::NegSpec::neg_spec(c)),
        vstd::std_specs::ops::NegSpec::neg_spec(vstd::std_specs::ops::NegSpec::neg_spec(c)) == c,
{
}

/// Which side of the true score a stored score lies on.
#[derive(Debug, Copy, Clone, PartialEq, Eq, Structural)]
pub enum ScoreBound {
    Exact,
    Upper,
    Lower,
}

/// A way of scoring a position for the side to move.
pub trait Evaluator {
    fn evaluate(&self, position: &Material) -> CentipawnScore;
}

/// Scores a position by the number of pieces each side has: 100 for each
/// piece more than the opponent.
pub struct PieceCountEvaluator {
    _private: (),
}

impl PieceCountEvaluator {
    pub fn new() -> (e: PieceCountEvaluator) {
        PieceCountEvaluator { _private: () }
    }
}

impl Default for PieceCountEvaluator {
    fn default() -> (e: PieceCountEvaluator) {
        PieceCountEvaluator::new()
    }
}

impl Evaluator for PieceCountEvaluator {
    fn evaluate(&self, position: &Material) -> (s: CentipawnScore)
        ensures
            s.0 == 100 * (position.side(position.active_color).total() - position.side(
                position.active_color.other_spec(),
            ).total()),
    {
        let mine = position.pieces_of(position.active_color).all_pieces() as i32;
        let theirs = position.pieces_of(position.active_color.other()).all_pieces() as i32;
        CentipawnScore((mine - theirs) * 100)
    }
}

/// The value of a piece of kind `p` for [`PieceValueEvaluator`].
pub open spec fn piece_value(p: Piece) -> int {
    match p {
        Piece::Pawn => 100,
        Piece::Knight => 300,
        Piece::Bishop => 300,
        Piece::Rook => 500,
        Piece::Queen => 900,
        Piece::King => 0,
    }
}

/// The total value of the pieces `c` by the values `v` (in the order pawn,
/// knight, bishop, rook, queen, king).
pub open spec fn weighted_total(c: PieceCounts, v: Seq<i32>) -> int {
    c.pawns * v[0] + c.knights * v[1] + c.bishops * v[2] + c.rooks * v[3] + c.queens * v[4]
        + c.kings * v[5]
}

fn times(n: u8, v: i32) -> (r: i32)
    requires
        0 <= v <= 900,
    ensures
        r == n * v,
        0 <= r <= 229500,
{
    assert(0 <= n * v <= 229500) by (nonlinear_arith)
        requires
            n <= 255,
            0 <= v <= 900,
    ;
    n as i32 * v
}

/// Scores a position by the values of the pieces of each side.
pub struct PieceValueEvaluator {
    /// The value of each kind of piece, in the order pawn, knight, bishop,
    /// rook, queen, king.
    values: [i32; 6],
}

impl PieceValueEvaluator {
    /// The values of each kind of piece.
    pub closed spec fn values(&self) -> Seq<i32> {
        self.values@
    }

    /// Each value lies between 0 and 900.
    #[verifier::type_invariant]
    closed spec fn values_in_range(&self) -> bool {
        forall|i: int| 0 <= i < 6 ==> 0 <= #[trigger] self.values@[i] <= 900
    }

    pub fn new() -> (e: PieceValueEvaluator)
        ensures
            forall|i: int|
                0 <= i < 6 ==> #[trigger] e.values()[i] == piece_value(
                    [Piece::Pawn, Piece::Knight, Piece::Bishop, Piece::Rook, Piece::Queen, Piece::King]@[i],
                ),
            e.values().len() == 6,
            e.values() == seq![100i32, 300i32, 300i32, 500i32, 900i32, 0i32],
    {
        let e = PieceValueEvaluator { values: [100, 300, 300, 500, 900, 0] };
        assert(e.values() =~= seq![100i32, 300i32, 300i32, 500i32, 900i32, 0i32]);
        e
    }

    fn side_score(&self, c: PieceCounts) -> (s: i32)
        requires
            self.values().len() == 6,
            forall|i: int| 0 <= i < 6 ==> 0 <= #[trigger] self.values()[i] <= 900,
        ensures
            s == weighted_total(c, self.values()),
    {
        times(c.pawns, self.values[0]) + times(c.knights, self.values[1]) + times(
            c.bishops,
            self.values[2],
        ) + times(c.rooks, self.values[3]) + times(c.queens, self.values[4]) + times(
            c.kings,
            self.values[5],
        )
    }

    /// The value of the pieces of the side to move minus that of the other side.
    pub fn evaluate(&self, position: &Material) -> (s: CentipawnScore)
        ensures
            s.0 == weighted_total(position.side(position.active_color), self.values())
                - weighted_total(position.side(position.active_color.other_spec()), self.values()),
    {
        proof {
            use_type_invariant(self);
        }
        let mine = self.side_score(position.pieces_of(position.active_color));
        let theirs = self.side_score(position.pieces_of(position.active_color.other()));
        CentipawnScore(mine - theirs)
    }
}

/// The standard piece values: a pawn is 100, a knight and a bishop 300
/// each, a rook 500, a queen 900 and a king nothing; so a knight is worth
/// three pawns, a rook five and a queen nine.
pub proof fn law_standard_piece_values()
    ensures
        piece_value(Piece::Pawn) == 100,
        piece_value(Piece::Knight) == 300,
        piece_value(Piece::Bishop) == 300,
        piece_value(Piece::Rook) == 500,
        piece_value(Piece::Queen) == 900,
        piece_value(Piece::King) == 0,
        piece_value(Piece::Knight) == 3 * piece_value(Piece::Pawn),
        piece_value(Piece::Rook) == 5 * piece_value(Piece::Pawn),
        piece_value(Piece::Queen) == 9 * piece_value(Piece::Pawn),
{
}

/// By the values the evaluator is made with, a side with one more queen and
/// otherwise the same pieces is 900 ahead.
pub proof fn law_one_more_piece(mine: PieceCounts, theirs: PieceCounts)
    requires
        mine.pawns == theirs.pawns,
        mine.knights == theirs.knights,
        mine.bishops == theirs.bishops,
        mine.rooks == theirs.rooks,
        mine.kings == theirs.kings,
        mine.queens == theirs.queens + 1,
    ensures
        weighted_total(mine, seq![100i32, 300i32, 300i32, 500i32, 900i32, 0i32]) - weighted_total(
            theirs,
            seq![100i32, 300i32, 300i32, 500i32, 900i32, 0i32],
        ) == 900,
{
}

impl Default for PieceValueEvaluator {
    fn default() -> (e: PieceValueEvaluator)
        ensures
            forall|i: int|
                0 <= i < 6 ==> #[trigger] e.values()[i] == piece_value(
                    [Piece::Pawn, Piece::Knight, Piece::Bishop, Piece::Rook, Piece::Queen, Piece::King]@[i],
                ),
            e.values().len() == 6,
    {
        PieceValueEvaluator::new()
    }
}

} // verus!
