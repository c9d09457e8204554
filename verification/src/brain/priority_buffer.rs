//! A buffer of moves, each with a priority, that hands out the move of
//! highest priority first.
use vstd::prelude::*;
use crate::chess::{ChessMove, Piece};

verus! {

/// The priority of a move of piece `p` on top of its kind of move.
pub open spec fn piece_priority(p: Piece) -> u8 {
    match p {
        Piece::Pawn => 10,
        Piece::Knight => 9,
        Piece::Bishop => 9,
        Piece::Rook => 7,
        Piece::Queen => 5,
        Piece::King => 1,
    }
}

/// The priority a move gets when it is pushed: captures first, then
/// promotions, then the rest; within each, moves of lesser pieces first.
pub open spec fn move_priority(m: ChessMove) -> u8 {
    ((if m.move_type.is_capture() {
        100u8
    } else if m.promotion is Some {
        90u8
    } else {
        0u8
    }) + piece_priority(m.piece)) as u8
}

fn priority_for_piece(p: Piece) -> (r: u8)
    ensures
        r == piece_priority(p),
{
    match p {
        Piece::Pawn => 10,
        Piece::Knight => 9,
        Piece::Bishop => 9,
        Piece::Rook => 7,
        Piece::Queen => 5,
        Piece::King => 1,
    }
}

pub fn default_priority(m: &ChessMove) -> (r: u8)
    ensures
        r == move_priority(*m),
{
    let prio: u8 = if m.move_type.contains_capture() {
        100
    } else if m.promotion.is_some() {
        90
    } else {
        0
    };
    prio + priority_for_piece(m.piece)
}

/// The kind of a move for its priority: a capture, a promotion, or neither.
pub open spec fn same_kind(a: ChessMove, b: ChessMove) -> bool {
    a.move_type.is_capture() == b.move_type.is_capture() && (a.promotion is Some)
        == (b.promotion is Some)
}

/// Within one kind of move, lesser pieces go first: a pawn move before a
/// knight or bishop move (which tie), those before a rook move, a rook move
/// before a queen move, and a queen move before a king move.
pub proof fn law_lesser_pieces_first(a: ChessMove, b: ChessMove)
    requires
        same_kind(a, b),
    ensures
        a.piece == Piece::Pawn && b.piece != Piece::Pawn ==> move_priority(a) > move_priority(b),
        (a.piece == Piece::Knight || a.piece == Piece::Bishop) && (b.piece == Piece::Knight
            || b.piece == Piece::Bishop) ==> move_priority(a) == move_priority(b),
        (a.piece == Piece::Knight || a.piece == Piece::Bishop) && (b.piece == Piece::Rook
            || b.piece == Piece::Queen || b.piece == Piece::King) ==> move_priority(a)
            > move_priority(b),
        a.piece == Piece::Rook && (b.piece == Piece::Queen || b.piece == Piece::King)
            ==> move_priority(a) > move_priority(b),
        a.piece == Piece::Queen && b.piece == Piece::King ==> move_priority(a) > move_priority(b),
{
}

/// Every capture goes before every move that is not one, and a promotion
/// that takes nothing before every quiet move.
pub proof fn law_captures_then_promotions(a: ChessMove, b: ChessMove)
    ensures
        a.move_type.is_capture() && !b.move_type.is_capture() ==> move_priority(a)
            > move_priority(b),
        !a.move_type.is_capture() && a.promotion is Some && !b.move_type.is_capture()
            && b.promotion is None ==> move_priority(a) > move_priority(b),
{
}

/// The priority of a move is its kind's base (100 for a capture, 90 for a
/// promotion, 0 otherwise) plus its piece's bonus: 10 for a pawn, 9 for a
/// knight or bishop, 7 for a rook, 5 for a queen, 1 for a king.
pub proof fn law_priority_values(m: ChessMove)
    ensures
        move_priority(m) == (if m.move_type.is_capture() {
            100int
        } else if m.promotion is Some {
            90int
        } else {
            0int
        }) + match m.piece {
            Piece::Pawn => 10int,
            Piece::Knight => 9int,
            Piece::Bishop => 9int,
            Piece::Rook => 7int,
            Piece::Queen => 5int,
            Piece::King => 1int,
        },
{
}

#[derive(Debug, Clone, Copy, PartialEq, Eq, Structural)]
struct PriorityMove {
    m: ChessMove,
    p: u8,
}

/// `i` is the first index of a move of the highest priority in `s`.
pub open spec fn is_first_highest(s: Seq<(ChessMove, u8)>, i: int) -> bool {
    &&& 0 <= i < s.len()
    &&& forall|j: int| 0 <= j < s.len() ==> #[trigger] s[j].1 <= s[i].1
    &&& forall|j: int| 0 <= j < i ==> #[trigger] s[j].1 < s[i].1
}

/// The index of the first move `m` in `s`.
pub open spec fn is_first_of(s: Seq<(ChessMove, u8)>, m: ChessMove, i: int) -> bool {
    &&& 0 <= i < s.len()
    &&& s[i].0 == m
    &&& forall|j: int| 0 <= j < i ==> #[trigger] s[j].0 != m
}

#[derive(Debug)]
pub struct PriorityMoveBuffer {
    inner: Vec<PriorityMove>,
}

impl View for PriorityMoveBuffer {
    /// The moves and their priorities, in the order the buffer keeps them.
    type V = Seq<(ChessMove, u8)>;

    closed spec fn view(&self) -> Seq<(ChessMove, u8)> {
        self.inner@.map_values(|pm: PriorityMove| (pm.m, pm.p))
    }
}

impl PriorityMoveBuffer {
    pub fn new() -> (b: PriorityMoveBuffer)
        ensures
            b@ == Seq::<(ChessMove, u8)>::empty(),
    {
        let b = PriorityMoveBuffer { inner: Vec::with_capacity(50) };
        assert(b@ =~= Seq::<(ChessMove, u8)>::empty());
        b
    }

    /// Adds `m` with its default priority.
    pub fn push(&mut self, m: ChessMove)
        ensures
            final(self)@ == old(self)@.push((m, move_priority(m))),
    {
        let p = default_priority(&m);
        self.inner.push(PriorityMove { p, m });
        assert(final(self)@ =~= old(self)@.push((m, move_priority(m))));
    }

    pub fn len(&self) -> (n: usize)
        ensures
            n == self@.len(),
    {
        self.inner.len()
    }

    pub fn clear(&mut self)
        ensures
            final(self)@ == Seq::<(ChessMove, u8)>::empty(),
    {
        self.inner.clear();
        assert(final(self)@ =~= Seq::<(ChessMove, u8)>::empty());
    }

    pub fn is_empty(&self) -> (b: bool)
        ensures
            b == (self@.len() == 0),
    {
        self.inner.is_empty()
    }

    /// Gives the first occurrence of `m` the priority `priority`; returns
    /// whether `m` was found.
    pub fn set_priority(&mut self, m: &ChessMove, priority: u8) -> (found: bool)
        ensures
            found == exists|i: int| 0 <= i < old(self)@.len() && #[trigger] old(self)@[i].0 == *m,
            found ==> exists|i: int|
                is_first_of(old(self)@, *m, i) && final(self)@ == old(self)@.update(
                    i,
                    (*m, priority),
                ),
            !found ==> final(self)@ == old(self)@,
    {
        let mut i: usize = 0;
        while i < self.inner.len()
            invariant
                i <= self@.len(),
                self@ == old(self)@,
                forall|j: int| 0 <= j < i ==> #[trigger] old(self)@[j].0 != *m,
            decreases self@.len() - i,
        {
            if self.inner[i].m == *m {
                let ghost before = self@;
                self.inner.set(i, PriorityMove { m: *m, p: priority });
                assert(is_first_of(before, *m, i as int));
                assert(self@ =~= before.update(i as int, (*m, priority)));
                return true;
            }
            i = i + 1;
        }
        false
    }

    /// Moves the first move of the highest priority to the end.
    fn find_highest(&mut self) -> (idx: usize)
        requires
            old(self)@.len() > 0,
        ensures
            is_first_highest(old(self)@, idx as int),
            final(self)@ == old(self)@.update(idx as int, old(self)@.last()).update(
                old(self)@.len() - 1,
                old(self)@[idx as int],
            ),
    {
        let len = self.inner.len();
        let mut highest_idx: usize = 0;
        let mut highest_p: u8 = 0;
        let mut i: usize = 0;
        while i < len
            invariant_except_break
                len == self@.len(),
                self@ == old(self)@,
                0 < len,
                i <= len,
                i == 0 ==> highest_idx == 0 && highest_p == 0,
                i > 0 ==> highest_idx < i && highest_p == self@[highest_idx as int].1,
                forall|j: int| 0 <= j < i ==> #[trigger] self@[j].1 <= highest_p,
                forall|j: int| 0 <= j < highest_idx ==> #[trigger] self@[j].1 < highest_p,
            ensures
                len == self@.len(),
                self@ == old(self)@,
                highest_idx < len,
                is_first_highest(self@, highest_idx as int),
            decreases len - i,
        {
            let p = self.inner[i].p;
            if p > highest_p {
                highest_idx = i;
                highest_p = p;
                if p == 255 {
                    assert(forall|j: int| 0 <= j < len ==> #[trigger] self@[j].1 <= highest_p);
                    break;
                }
            }
            i = i + 1;
        }
        let ghost before = self@;
        let last = self.inner[len - 1];
        let top = self.inner[highest_idx];
        self.inner.set(highest_idx, last);
        self.inner.set(len - 1, top);
        assert(self@ =~= before.update(highest_idx as int, before.last()).update(
            before.len() - 1,
            before[highest_idx as int],
        ));
        highest_idx
    }

    /// Takes out the first move of the highest priority; the last move takes
    /// its place.
    pub fn pop(&mut self) -> (r: Option<ChessMove>)
        ensures
            old(self)@.len() == 0 ==> r is None && final(self)@ == old(self)@,
            old(self)@.len() > 0 ==> exists|i: int|
                #[trigger] is_first_highest(old(self)@, i) && r == Some(old(self)@[i].0)
                    && final(self)@ == old(self)@.update(i, old(self)@.last()).drop_last(),
    {
        if self.inner.len() == 0 {
            return None;
        }
        let ghost before = self@;
        let idx = self.find_highest();
        let ghost swapped = self@;
        let ghost inner_before = self.inner@;
        assert(inner_before.len() == swapped.len());
        let pm = self.inner.pop().unwrap();
        assert(pm == inner_before.last());
        assert(swapped.last() == (pm.m, pm.p));
        assert(swapped.last() == before[idx as int]);
        assert(self@ =~= swapped.drop_last());
        assert(swapped.drop_last() =~= before.update(idx as int, before.last()).drop_last());
        assert(is_first_highest(before, idx as int));
        Some(pm.m)
    }

    /// The moves, in the order the buffer keeps them.
    pub fn unordered_iter(&self) -> (v: Vec<ChessMove>)
        ensures
            v@ == self@.map_values(|e: (ChessMove, u8)| e.0),
    {
        let mut v: Vec<ChessMove> = Vec::new();
        let mut i: usize = 0;
        while i < self.inner.len()
            invariant
                i <= self@.len(),
                v@ == self@.subrange(0, i as int).map_values(|e: (ChessMove, u8)| e.0),
            decreases self@.len() - i,
        {
            v.push(self.inner[i].m);
            i = i + 1;
            assert(v@ =~= self@.subrange(0, i as int).map_values(|e: (ChessMove, u8)| e.0));
        }
        assert(self@.subrange(0, self@.len() as int) =~= self@);
        v
    }
}

impl Default for PriorityMoveBuffer {
    fn default() -> (b: PriorityMoveBuffer)
        ensures
            b@ == Seq::<(ChessMove, u8)>::empty(),
    {
        PriorityMoveBuffer::new()
    }
}


/// Popping takes out one move of the highest priority, and keeps every
/// other move with its priority: what is left, with the move taken out, is
/// what there was.
pub proof fn law_pop_takes_highest(before: Seq<(ChessMove, u8)>, i: int)
    requires
        is_first_highest(before, i),
    ensures
        forall|j: int| 0 <= j < before.len() ==> #[trigger] before[j].1 <= before[i].1,
        before.update(i, before.last()).drop_last().to_multiset().insert(before[i])
            == before.to_multiset(),
{
    broadcast use vstd::seq_lib::to_multiset_update, vstd::seq_lib::to_multiset_build;
    broadcast use vstd::multiset::group_multiset_axioms;

    let u = before.update(i, before.last());
    assert(u.last() == before.last());
    assert(u.drop_last().push(u.last()) =~= u);
    assert(u.to_multiset() == before.to_multiset().insert(before.last()).remove(before[i]));
    assert(u.drop_last().push(before.last()).to_multiset() == u.drop_last().to_multiset().insert(
        before.last(),
    ));
    assert(before.to_multiset().count(before[i]) > 0) by {
        vstd::seq_lib::to_multiset_contains(before, before[i]);
    }
    let d = u.drop_last().to_multiset();
    let m = before.to_multiset();
    assert forall|x: (ChessMove, u8)| #[trigger] d.insert(before[i]).count(x) == m.count(x) by {
        assert(d.insert(before.last()).count(x) == m.insert(before.last()).remove(before[i]).count(x));
    }
    assert(d.insert(before[i]) =~= m);
}

} // verus!
