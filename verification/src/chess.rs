//! The facts about a chess position and its moves that the engine's own
//! logic reads: colours, kinds of pieces, squares, moves, and how many pieces
//! of each kind each side has.
use vstd::prelude::*;

verus! {

#[derive(Debug, Clone, Copy, PartialEq, Eq, Hash, Structural)]
pub enum Color {
    White,
    Black,
}

impl Color {
    pub open spec fn other_spec(self) -> Color {
        match self {
            Color::White => Color::Black,
            Color::Black => Color::White,
        }
    }

    /// The other colour.
    pub fn other(self) -> (c: Color)
        ensures
            c == self.other_spec(),
            c != self,
    {
        match self {
            Color::White => Color::Black,
            Color::Black => Color::White,
        }
    }
}

#[derive(Debug, Clone, Copy, PartialEq, Eq, Hash, Structural)]
pub enum Piece {
    Pawn,
    Knight,
    Bishop,
    Rook,
    Queen,
    King,
}

/// The letter that names a piece in a promotion of UCI move notation.
pub open spec fn promotion_letter(p: Piece) -> char {
    match p {
        Piece::Pawn => 'p',
        Piece::Knight => 'n',
        Piece::Bishop => 'b',
        Piece::Rook => 'r',
        Piece::Queen => 'q',
        Piece::King => 'k',
    }
}

/// A square, numbered from 0 (a1) to 63 (h8), rank by rank.
#[derive(Debug, Clone, Copy, PartialEq, Eq, Hash, Structural)]
pub struct Square(pub u8);

impl Square {
    pub fn from_index(i: u8) -> (s: Square)
        requires
            i < 64,
        ensures
            s.0 == i,
    {
        Square(i)
    }
}

/// The kind of a move, as a set of flags.
#[derive(Debug, Clone, Copy, PartialEq, Eq, Hash, Structural)]
pub struct MoveType(pub u8);

impl MoveType {
    /// A move to an empty square.
    pub const PUSH: u8 = 1;
    /// A move that takes a piece.
    pub const CAPTURE: u8 = 2;

    pub fn push() -> (t: MoveType)
        ensures
            t.0 == MoveType::PUSH,
    {
        MoveType(MoveType::PUSH)
    }

    pub fn capture() -> (t: MoveType)
        ensures
            t.0 == MoveType::CAPTURE,
    {
        MoveType(MoveType::CAPTURE)
    }

    /// Whether the move takes a piece.
    pub open spec fn is_capture(self) -> bool {
        self.0 & MoveType::CAPTURE != 0
    }

    pub fn contains_capture(self) -> (b: bool)
        ensures
            b == self.is_capture(),
    {
        self.0 & MoveType::CAPTURE != 0
    }
}

/// A move: the piece that moves, from where, to where, what kind of move it
/// is, and what a pawn is promoted to.
#[derive(Debug, Clone, Copy, PartialEq, Eq, Hash, Structural)]
pub struct ChessMove {
    pub from: Square,
    pub to: Square,
    pub piece: Piece,
    pub move_type: MoveType,
    pub promotion: Option<Piece>,
}

/// The name of a square in algebraic notation, such as `e4`.
pub open spec fn square_name(s: Square) -> Seq<char> {
    seq![(('a' as u8) + s.0 % 8) as char, (('1' as u8) + s.0 / 8) as char]
}

impl ChessMove {
    pub fn new(
        from: Square,
        to: Square,
        piece: Piece,
        move_type: MoveType,
        promotion: Option<Piece>,
    ) -> (m: ChessMove)
        ensures
            m == (ChessMove { from, to, piece, move_type, promotion }),
    {
        ChessMove { from, to, piece, move_type, promotion }
    }

    /// The move in UCI notation: the two squares, then the letter of the
    /// promotion if there is one, such as `e2e4` or `e7e8q`.
    pub open spec fn uci(self) -> Seq<char> {
        square_name(self.from) + square_name(self.to) + match self.promotion {
            Some(p) => seq![promotion_letter(p)],
            None => Seq::empty(),
        }
    }

    pub fn as_uci(&self) -> (s: String)
        ensures
            s@ == self.uci(),
    {
        let mut s = String::new();
        push_square(&mut s, self.from);
        push_square(&mut s, self.to);
        if let Some(p) = self.promotion {
            let c = match p {
                Piece::Pawn => 'p',
                Piece::Knight => 'n',
                Piece::Bishop => 'b',
                Piece::Rook => 'r',
                Piece::Queen => 'q',
                Piece::King => 'k',
            };
            push_char(&mut s, c);
        }
        assert(s@ =~= self.uci());
        s
    }
}

/// Appends `c` to `s`.
#[verifier::external_body]
pub(crate) fn push_char(s: &mut String, c: char)
    ensures
        final(s)@ == old(s)@.push(c),
{
    s.push(c)
}

fn push_square(s: &mut String, sq: Square)
    ensures
        final(s)@ == old(s)@ + square_name(sq),
{
    let file = (('a' as u8) + sq.0 % 8) as char;
    let rank = (('1' as u8) + sq.0 / 8) as char;
    push_char(s, file);
    push_char(s, rank);
    assert(final(s)@ =~= old(s)@ + square_name(sq));
}

/// How many pieces of each kind one side has on the board.
#[derive(Debug, Clone, Copy, PartialEq, Eq, Structural)]
pub struct PieceCounts {
    pub pawns: u8,
    pub knights: u8,
    pub bishops: u8,
    pub rooks: u8,
    pub queens: u8,
    pub kings: u8,
}

impl PieceCounts {
    /// The number of pieces of kind `p`.
    pub open spec fn of(self, p: Piece) -> int {
        match p {
            Piece::Pawn => self.pawns as int,
            Piece::Knight => self.knights as int,
            Piece::Bishop => self.bishops as int,
            Piece::Rook => self.rooks as int,
            Piece::Queen => self.queens as int,
            Piece::King => self.kings as int,
        }
    }

    /// The number of pieces of all kinds.
    pub open spec fn total(self) -> int {
        self.pawns + self.knights + self.bishops + self.rooks + self.queens + self.kings
    }

    pub fn count(&self, p: Piece) -> (n: u8)
        ensures
            n == self.of(p),
    {
        match p {
            Piece::Pawn => self.pawns,
            Piece::Knight => self.knights,
            Piece::Bishop => self.bishops,
            Piece::Rook => self.rooks,
            Piece::Queen => self.queens,
            Piece::King => self.kings,
        }
    }

    pub fn all_pieces(&self) -> (n: u32)
        ensures
            n == self.total(),
    {
        self.pawns as u32 + self.knights as u32 + self.bishops as u32 + self.rooks as u32
            + self.queens as u32 + self.kings as u32
    }
}

/// What the evaluators read of a position: the pieces of each side and the
/// side to move.
#[derive(Debug, Clone, Copy, PartialEq, Eq, Structural)]
pub struct Material {
    pub active_color: Color,
    pub white: PieceCounts,
    pub black: PieceCounts,
}

impl Material {
    /// The pieces of side `c`.
    pub open spec fn side(self, c: Color) -> PieceCounts {
        match c {
            Color::White => self.white,
            Color::Black => self.black,
        }
    }

    pub fn pieces_of(&self, c: Color) -> (p: PieceCounts)
        ensures
            p == self.side(c),
    {
        match c {
            Color::White => self.white,
            Color::Black => self.black,
        }
    }

    /// The material of the initial position, white to move.
    pub fn starting() -> (m: Material)
        ensures
            m.active_color == Color::White,
            m.white == m.black,
            m.white == (PieceCounts {
                pawns: 8,
                knights: 2,
                bishops: 2,
                rooks: 2,
                queens: 1,
                kings: 1,
            }),
    {
        let side = PieceCounts { pawns: 8, knights: 2, bishops: 2, rooks: 2, queens: 1, kings: 1 };
        Material { active_color: Color::White, white: side, black: side }
    }
}

/// The Zobrist hash of a position.
#[derive(Debug, Clone, Copy, PartialEq, Eq, Hash, Structural)]
pub struct ZobristHash(pub u64);

} // verus!
