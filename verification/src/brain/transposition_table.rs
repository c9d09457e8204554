//! A transposition table with a power-of-two number of slots, indexed by the
//! low bits of a position's hash; a new entry always replaces the old one.
use vstd::prelude::*;
use vstd::arithmetic::power2::pow2;
use vstd::std_specs::bits::u64_leading_zeros;
use crate::brain::evaluator::{CentipawnScore, ScoreBound};
use crate::chess::{ChessMove, ZobristHash};

verus! {

/// What the search learnt about a position.
#[derive(Debug, Clone, Copy, PartialEq, Eq, Structural)]
pub struct TTEntry {
    pub hash: ZobristHash,
    pub depth: u16,
    pub score: CentipawnScore,
    pub bound: ScoreBound,
    pub m: Option<ChessMove>,
}

/// The exponent of the largest power of two that is at most `i`, for `i >= 1`.
pub open spec fn floor_log2(i: u64) -> nat {
    (63 - u64_leading_zeros(i)) as nat
}

/// The largest power of two that is at most `i` is `2^floor_log2(i)`.
pub proof fn lemma_floor_log2(i: u64)
    requires
        i >= 1,
    ensures
        floor_log2(i) < 64,
        pow2(floor_log2(i)) <= i < 2 * pow2(floor_log2(i)),
    decreases i,
{
    vstd::std_specs::bits::axiom_u64_leading_zeros(i);
    reveal(u64_leading_zeros);
    if i == 1 {
        assert(u64_leading_zeros(0) == 64);
        assert(u64_leading_zeros(1) == 63);
        vstd::arithmetic::power2::lemma2_to64();
    } else {
        lemma_floor_log2(i / 2);
        assert(u64_leading_zeros(i) == u64_leading_zeros(i / 2) - 1);
        vstd::arithmetic::power2::lemma_pow2_unfold(floor_log2(i));
    }
}

/// The slot of the hash `hash` in a table of `n` slots.
pub open spec fn slot(n: int, hash: ZobristHash) -> int {
    (hash.0 as int) % n
}

/// What the table `t` holds in the slot of `hash`.
pub open spec fn entry_at(t: Seq<Option<TTEntry>>, hash: ZobristHash) -> Option<TTEntry> {
    t[slot(t.len() as int, hash)]
}

/// The table `t` after `e` is stored in the slot of its hash.
pub open spec fn with_entry(t: Seq<Option<TTEntry>>, e: TTEntry) -> Seq<Option<TTEntry>> {
    t.update(slot(t.len() as int, e.hash), Some(e))
}

/// A lookup of the hash of an entry just stored finds that entry.
pub proof fn law_get_after_set(t: Seq<Option<TTEntry>>, e: TTEntry)
    requires
        t.len() > 0,
    ensures
        entry_at(with_entry(t, e), e.hash) == Some(e),
{
    vstd::arithmetic::div_mod::lemma_mod_bound(e.hash.0 as int, t.len() as int);
}

/// Storing an entry changes no other slot, and not the number of slots.
pub proof fn law_set_keeps_other_slots(t: Seq<Option<TTEntry>>, e: TTEntry, h: ZobristHash)
    requires
        t.len() > 0,
        slot(t.len() as int, h) != slot(t.len() as int, e.hash),
    ensures
        entry_at(with_entry(t, e), h) == entry_at(t, h),
        with_entry(t, e).len() == t.len(),
{
    vstd::arithmetic::div_mod::lemma_mod_bound(e.hash.0 as int, t.len() as int);
    vstd::arithmetic::div_mod::lemma_mod_bound(h.0 as int, t.len() as int);
}

pub struct TranspositionTable {
    inner: Vec<Option<TTEntry>>,
    mask: u64,
}

impl View for TranspositionTable {
    type V = Seq<Option<TTEntry>>;

    closed spec fn view(&self) -> Seq<Option<TTEntry>> {
        self.inner@
    }
}

/// The number of slots of a table made for `max_size_bytes` bytes with
/// entries of `entry_size` bytes each: the largest power of two whose entries
/// fit (one slot if entries took no room).
pub open spec fn slots_for(max_size_bytes: u64, entry_size: nat) -> nat {
    if entry_size == 0 {
        1
    } else {
        pow2(floor_log2((max_size_bytes as int / entry_size as int) as u64))
    }
}

impl TranspositionTable {
    /// The number of slots is a power of two below `2^64`.
    pub closed spec fn wf(&self) -> bool {
        &&& self.inner@.len() == self.mask + 1
        &&& self.inner@.len() <= usize::MAX
        &&& exists|k: nat| k < 64 && #[trigger] pow2(k) == self.mask + 1
    }

    /// The table with the largest power-of-two number of slots whose entries
    /// fit in `max_size_bytes` bytes, all empty. At least one entry must fit.
    pub fn new(max_size_bytes: u64) -> (t: TranspositionTable)
        requires
            max_size_bytes >= vstd::layout::size_of::<Option<TTEntry>>(),
            max_size_bytes <= usize::MAX,
        ensures
            t.wf(),
            t@ == Seq::new(
                slots_for(max_size_bytes, vstd::layout::size_of::<Option<TTEntry>>()),
                |i: int| None::<TTEntry>,
            ),
    {
        let entry_size: u64 = core::mem::size_of::<Option<TTEntry>>() as u64;
        let table_entries: u64 = if entry_size == 0 {
            proof {
                vstd::arithmetic::power2::lemma2_to64();
            }
            1
        } else {
            let ideal_entries = max_size_bytes / entry_size;
            proof {
                assert(ideal_entries >= 1) by (nonlinear_arith)
                    requires
                        max_size_bytes >= entry_size,
                        entry_size > 0,
                        ideal_entries == max_size_bytes / entry_size,
                ;
                assert(ideal_entries <= max_size_bytes) by (nonlinear_arith)
                    requires
                        entry_size > 0,
                        ideal_entries == max_size_bytes / entry_size,
                ;
                lemma_floor_log2(ideal_entries);
                vstd::bits::lemma_u64_pow2_no_overflow(floor_log2(ideal_entries));
                vstd::bits::lemma_u64_shl_is_mul(1, floor_log2(ideal_entries) as u64);
            }
            let shift: u64 = 63 - ideal_entries.leading_zeros() as u64;
            1u64 << shift
        };
        assert(table_entries == slots_for(max_size_bytes, vstd::layout::size_of::<Option<TTEntry>>()));
        assert(table_entries <= max_size_bytes || table_entries == 1);
        assert(exists|k: nat| k < 64 && #[trigger] pow2(k) == table_entries) by {
            if entry_size == 0 {
                assert(pow2(0) == 1);
            } else {
                let ideal_entries = max_size_bytes / entry_size;
                assert(ideal_entries >= 1) by (nonlinear_arith)
                    requires
                        max_size_bytes >= entry_size,
                        entry_size > 0,
                        ideal_entries == max_size_bytes / entry_size,
                ;
                lemma_floor_log2(ideal_entries);
                assert(pow2(floor_log2(ideal_entries)) == table_entries);
            }
        }
        let mask = table_entries - 1;
        let n = table_entries as usize;
        let mut inner: Vec<Option<TTEntry>> = Vec::new();
        let mut i: usize = 0;
        while i < n
            invariant
                i <= n,
                inner@ == Seq::new(i as nat, |k: int| None::<TTEntry>),
            decreases n - i,
        {
            inner.push(None);
            i = i + 1;
            assert(inner@ =~= Seq::new(i as nat, |k: int| None::<TTEntry>));
        }
        TranspositionTable { inner, mask }
    }

    fn get_index(&self, key: ZobristHash) -> (i: usize)
        requires
            self.wf(),
        ensures
            i == slot(self@.len() as int, key),
            i < self@.len(),
    {
        proof {
            let k = choose|k: nat| k < 64 && #[trigger] pow2(k) == self.mask + 1;
            vstd::bits::lemma_u64_pow2_no_overflow(k);
            vstd::bits::lemma_u64_low_bits_mask_is_mod(key.0, k);
            assert(self.mask == vstd::bits::low_bits_mask(k) as u64);
            assert(key.0 & self.mask == key.0 % (pow2(k) as u64));
            assert(key.0 % (pow2(k) as u64) < pow2(k));
        }
        (key.0 & self.mask) as usize
    }

    /// The entry in the slot of `hash`, whatever position it was stored for.
    pub fn get(&self, hash: ZobristHash) -> (r: Option<&TTEntry>)
        requires
            self.wf(),
        ensures
            r == match entry_at(self@, hash) {
                Some(e) => Some(&e),
                None => None,
            },
    {
        let i = self.get_index(hash);
        match &self.inner[i] {
            Some(e) => Some(e),
            None => None,
        }
    }

    /// Stores `entry` in the slot of its hash, replacing what was there.
    pub fn set(&mut self, entry: TTEntry)
        requires
            old(self).wf(),
        ensures
            final(self).wf(),
            final(self)@ == with_entry(old(self)@, entry),
    {
        let idx = self.get_index(entry.hash);
        self.inner.set(idx, Some(entry));
    }
}

} // verus!
