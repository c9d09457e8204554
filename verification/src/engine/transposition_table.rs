//! A transposition table that keeps, in each slot, the deepest result
//! searched for a position whose hash maps to that slot.
use vstd::prelude::*;
use crate::chess::{ChessMove, ZobristHash};
use crate::engine::resultinfo::ResultInfo;

verus! {

/// What the engine learnt about a position: its score at a depth, the best
/// move found, and the position's hash.
#[derive(Debug, Clone, Copy, PartialEq, Eq, Structural)]
pub struct TranspositionTableEntry {
    pub score: ResultInfo,
    pub depth: usize,
    pub m: ChessMove,
    pub hash: ZobristHash,
}

impl TranspositionTableEntry {
    pub fn new(score: ResultInfo, depth: usize, m: ChessMove, hash: ZobristHash) -> (e:
        TranspositionTableEntry)
        ensures
            e == (TranspositionTableEntry { score, depth, m, hash }),
    {
        TranspositionTableEntry { score, depth, m, hash }
    }
}

/// What a lookup gives back of an entry.
#[derive(Debug, Clone, Copy, Eq, PartialEq, Structural)]
pub struct TranspositionTableResult {
    pub score: ResultInfo,
    pub m: ChessMove,
    pub depth: usize,
}

impl TranspositionTableResult {
    pub fn new(score: ResultInfo, m: ChessMove, depth: usize) -> (r: TranspositionTableResult)
        ensures
            r == (TranspositionTableResult { score, m, depth }),
    {
        TranspositionTableResult { score, m, depth }
    }
}

/// The result that a lookup of `e` gives back.
pub open spec fn result_of(e: TranspositionTableEntry) -> TranspositionTableResult {
    TranspositionTableResult { score: e.score, m: e.m, depth: e.depth }
}

pub struct TranspositionTable {
    table: Vec<Option<TranspositionTableEntry>>,
}

/// The slot of the hash `key` in a table of `n` slots.
pub open spec fn slot_of(key: ZobristHash, n: int) -> int {
    (key.0 as usize) as int % n
}

/// What a lookup of `key` finds in the table `t`: the entry in its slot,
/// when that entry was stored for `key` itself.
pub open spec fn lookup(t: Seq<Option<TranspositionTableEntry>>, key: ZobristHash) -> Option<TranspositionTableResult> {
    match t[slot_of(key, t.len() as int)] {
        Some(e) => if e.hash == key {
            Some(result_of(e))
        } else {
            None
        },
        None => None,
    }
}

/// Whether `e` takes the slot of its hash in `t`: the slot is empty, or
/// holds an entry searched less deep.
pub open spec fn replaces(t: Seq<Option<TranspositionTableEntry>>, e: TranspositionTableEntry) -> bool {
    match t[slot_of(e.hash, t.len() as int)] {
        Some(o) => o.depth < e.depth,
        None => true,
    }
}

/// The table `t` after `e` is offered to it.
pub open spec fn inserted(t: Seq<Option<TranspositionTableEntry>>, e: TranspositionTableEntry) -> Seq<Option<TranspositionTableEntry>> {
    if replaces(t, e) {
        t.update(slot_of(e.hash, t.len() as int), Some(e))
    } else {
        t
    }
}

/// An entry that takes its slot is found again by its hash.
pub proof fn law_get_after_insert(t: Seq<Option<TranspositionTableEntry>>, e: TranspositionTableEntry)
    requires
        t.len() > 0,
        replaces(t, e),
    ensures
        lookup(inserted(t, e), e.hash) == Some(result_of(e)),
{
    vstd::arithmetic::div_mod::lemma_mod_bound((e.hash.0 as usize) as int, t.len() as int);
}

/// An entry searched at least as deep as the one offered stays.
pub proof fn law_insert_keeps_deeper(t: Seq<Option<TranspositionTableEntry>>, e: TranspositionTableEntry)
    requires
        t.len() > 0,
        t[slot_of(e.hash, t.len() as int)] matches Some(o) && o.depth >= e.depth,
    ensures
        inserted(t, e) == t,
{
}

/// Offering an entry changes no other slot, and not the number of slots.
pub proof fn law_insert_keeps_other_slots(t: Seq<Option<TranspositionTableEntry>>, e: TranspositionTableEntry, key: ZobristHash)
    requires
        t.len() > 0,
        slot_of(key, t.len() as int) != slot_of(e.hash, t.len() as int),
    ensures
        lookup(inserted(t, e), key) == lookup(t, key),
        inserted(t, e).len() == t.len(),
{
    vstd::arithmetic::div_mod::lemma_mod_bound((e.hash.0 as usize) as int, t.len() as int);
    vstd::arithmetic::div_mod::lemma_mod_bound((key.0 as usize) as int, t.len() as int);
}

/// A table of empty slots finds nothing.
pub proof fn law_empty_table_finds_nothing(n: nat, key: ZobristHash)
    requires
        n > 0,
    ensures
        lookup(Seq::new(n, |i: int| None::<TranspositionTableEntry>), key) is None,
{
    vstd::arithmetic::div_mod::lemma_mod_bound((key.0 as usize) as int, n as int);
}

impl View for TranspositionTable {
    type V = Seq<Option<TranspositionTableEntry>>;

    closed spec fn view(&self) -> Seq<Option<TranspositionTableEntry>> {
        self.table@
    }
}

/// How many entries of `entry_size` bytes fit in `size_bytes` bytes; none
/// when an entry takes no room.
pub open spec fn entries_in(size_bytes: usize, entry_size: nat) -> nat {
    if entry_size == 0 {
        0
    } else {
        (size_bytes as int / entry_size as int) as nat
    }
}

impl TranspositionTable {
    /// The table of `num_entries` empty slots.
    pub fn new(num_entries: usize) -> (t: TranspositionTable)
        ensures
            t@ == Seq::new(num_entries as nat, |i: int| None::<TranspositionTableEntry>),
    {
        let mut table: Vec<Option<TranspositionTableEntry>> = Vec::new();
        let mut i: usize = 0;
        while i < num_entries
            invariant
                i <= num_entries,
                table@ == Seq::new(i as nat, |k: int| None::<TranspositionTableEntry>),
            decreases num_entries - i,
        {
            table.push(None);
            i = i + 1;
            assert(table@ =~= Seq::new(i as nat, |k: int| None::<TranspositionTableEntry>));
        }
        TranspositionTable { table }
    }

    /// The table with as many slots as fit in `size_bytes` bytes (none if
    /// entries took no room).
    pub fn of_bytes(size_bytes: usize) -> (t: TranspositionTable)
        ensures
            t@ == Seq::new(
                entries_in(size_bytes, vstd::layout::size_of::<Option<TranspositionTableEntry>>()),
                |i: int| None::<TranspositionTableEntry>,
            ),
    {
        let size_of_entry = core::mem::size_of::<Option<TranspositionTableEntry>>();
        let num_entries = if size_of_entry == 0 {
            0
        } else {
            size_bytes / size_of_entry
        };
        TranspositionTable::new(num_entries)
    }

    /// The number of slots.
    pub fn num_entries(&self) -> (n: usize)
        ensures
            n == self@.len(),
    {
        self.table.len()
    }

    fn index(&self, key: ZobristHash) -> (i: usize)
        requires
            self@.len() > 0,
        ensures
            i == slot_of(key, self@.len() as int),
            i < self@.len(),
    {
        (key.0 as usize) % self.table.len()
    }

    /// Stores `e` in the slot of its hash, unless that slot holds an entry
    /// searched at least as deep.
    pub fn insert(&mut self, e: TranspositionTableEntry)
        requires
            old(self)@.len() > 0,
        ensures
            final(self)@ == inserted(old(self)@, e),
    {
        let index = self.index(e.hash);
        let replace = match &self.table[index] {
            Some(old) => old.depth < e.depth,
            None => true,
        };
        if replace {
            self.table.set(index, Some(e));
        }
    }

    /// The entry in the slot of `key`, when it was stored for that very hash.
    pub fn get(&self, key: ZobristHash) -> (r: Option<TranspositionTableResult>)
        requires
            self@.len() > 0,
        ensures
            r == lookup(self@, key),
    {
        let index = self.index(key);
        match &self.table[index] {
            Some(e) => if e.hash == key {
                Some(TranspositionTableResult::new(e.score, e.m, e.depth))
            } else {
                None
            },
            None => None,
        }
    }

    /// Empties every slot.
    pub fn clear(&mut self)
        ensures
            final(self)@ == Seq::new(old(self)@.len(), |i: int| None::<TranspositionTableEntry>),
    {
        let n = self.table.len();
        *self = TranspositionTable::new(n);
    }
}

} // verus!
