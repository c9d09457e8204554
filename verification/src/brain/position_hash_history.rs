//! The hashes of the positions of a game, used to detect repetitions.
use vstd::prelude::*;
use crate::chess::ZobristHash;

verus! {

/// How often `h` occurs in `s`.
pub open spec fn occurrences(s: Seq<ZobristHash>, h: ZobristHash) -> nat
    decreases s.len(),
{
    if s.len() == 0 {
        0
    } else {
        occurrences(s.drop_last(), h) + if s.last() == h {
            1nat
        } else {
            0nat
        }
    }
}

/// The hash of the position the game started from, and the hashes of the
/// positions reached since, in order.
#[derive(Debug, Eq, PartialEq, Clone)]
pub struct PositionHashHistory {
    initial_hash: ZobristHash,
    hashes: Vec<ZobristHash>,
}

impl View for PositionHashHistory {
    /// The initial hash, and the hashes reached since.
    type V = (ZobristHash, Seq<ZobristHash>);

    closed spec fn view(&self) -> (ZobristHash, Seq<ZobristHash>) {
        (self.initial_hash, self.hashes@)
    }
}

impl PositionHashHistory {
    /// Whether the starting position has occurred three times: once at the
    /// start and twice among the positions reached since.
    pub open spec fn threefold_spec(self) -> bool {
        1 + occurrences(self@.1, self@.0) >= 3
    }

    pub fn new(initial_hash: ZobristHash) -> (h: PositionHashHistory)
        ensures
            h@ == (initial_hash, Seq::<ZobristHash>::empty()),
    {
        PositionHashHistory { initial_hash, hashes: Vec::with_capacity(100) }
    }

    /// Starts over from a position with hash `hash`.
    pub fn reset_with(&mut self, hash: ZobristHash)
        ensures
            final(self)@ == (hash, Seq::<ZobristHash>::empty()),
    {
        self.hashes = Vec::with_capacity(100);
        self.initial_hash = hash;
    }

    pub fn push(&mut self, hash: ZobristHash)
        ensures
            final(self)@ == (old(self)@.0, old(self)@.1.push(hash)),
    {
        self.hashes.push(hash);
    }

    /// Takes back the last position reached.
    pub fn pop(&mut self) -> (h: ZobristHash)
        requires
            old(self)@.1.len() > 0,
        ensures
            h == old(self)@.1.last(),
            final(self)@ == (old(self)@.0, old(self)@.1.drop_last()),
    {
        self.hashes.pop().unwrap()
    }

    /// The number of positions, the initial one included.
    pub fn count(&self) -> (n: usize)
        requires
            self@.1.len() < usize::MAX,
        ensures
            n == self@.1.len() + 1,
    {
        self.hashes.len() + 1
    }

    pub fn is_threefold_repetition(&self) -> (b: bool)
        ensures
            b == self.threefold_spec(),
    {
        let mut seen: u8 = 1;
        let mut i: usize = 0;
        while i < self.hashes.len()
            invariant
                i <= self@.1.len(),
                seen == 1 + occurrences(self@.1.subrange(0, i as int), self@.0),
                seen < 3,
            decreases self@.1.len() - i,
        {
            assert(self@.1.subrange(0, i as int) =~= self@.1.subrange(0, i + 1).drop_last());
            if self.hashes[i] == self.initial_hash {
                seen = seen + 1;
                if seen >= 3 {
                    proof {
                        lemma_occurrences_prefix(self@.1, self@.0, i + 1);
                    }
                    return true;
                }
            }
            i = i + 1;
        }
        assert(self@.1.subrange(0, i as int) =~= self@.1);
        false
    }
}

/// A prefix never holds more occurrences than the whole sequence.
pub proof fn lemma_occurrences_prefix(s: Seq<ZobristHash>, h: ZobristHash, k: int)
    requires
        0 <= k <= s.len(),
    ensures
        occurrences(s.subrange(0, k), h) <= occurrences(s, h),
    decreases s.len() - k,
{
    if k < s.len() {
        lemma_occurrences_prefix(s, h, k + 1);
        assert(s.subrange(0, k) =~= s.subrange(0, k + 1).drop_last());
    } else {
        assert(s.subrange(0, k) =~= s);
    }
}


/// Taking back the last position after pushing one gives back the pushed
/// hash and the history as it was.
pub proof fn law_pop_undoes_push(h: (ZobristHash, Seq<ZobristHash>), hash: ZobristHash)
    ensures
        h.1.push(hash).len() > 0,
        h.1.push(hash).last() == hash,
        (h.0, h.1.push(hash).drop_last()) == h,
{
    assert(h.1.push(hash).drop_last() =~= h.1);
}

/// A history in which the initial position comes back twice more is a
/// threefold repetition, whatever else was played.
pub proof fn law_two_returns_make_threefold(h: (ZobristHash, Seq<ZobristHash>), others: Seq<ZobristHash>)
    ensures
        1 + occurrences(h.1.push(h.0) + others + seq![h.0], h.0) >= 3,
{
    lemma_occurrences_append(h.1.push(h.0), others, h.0);
    lemma_occurrences_append(h.1.push(h.0) + others, seq![h.0], h.0);
    assert(h.1.push(h.0).drop_last() =~= h.1);
    assert(seq![h.0].drop_last() =~= Seq::<ZobristHash>::empty());
}

/// The occurrences in two sequences put together add up.
pub proof fn lemma_occurrences_append(a: Seq<ZobristHash>, b: Seq<ZobristHash>, h: ZobristHash)
    ensures
        occurrences(a + b, h) == occurrences(a, h) + occurrences(b, h),
    decreases b.len(),
{
    if b.len() == 0 {
        assert(a + b =~= a);
    } else {
        lemma_occurrences_append(a, b.drop_last(), h);
        assert((a + b).drop_last() =~= a + b.drop_last());
    }
}

} // verus!
