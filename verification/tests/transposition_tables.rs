use chessatiel::brain::evaluator::{CentipawnScore, ScoreBound};
use chessatiel::brain::transposition_table::{TTEntry, TranspositionTable as BrainTable};
use chessatiel::chess::{ChessMove, MoveType, Piece, Square, ZobristHash};
use chessatiel::engine::centipawn::Centipawn;
use chessatiel::engine::resultinfo::ResultInfo;
use chessatiel::engine::transposition_table::{
    TranspositionTable, TranspositionTableEntry, TranspositionTableResult,
};

fn king_move() -> ChessMove {
    ChessMove::new(
        Square::from_index(0),
        Square::from_index(1),
        Piece::King,
        MoveType::push(),
        None,
    )
}

#[test]
fn get_empty_table() {
    let hash = ZobristHash(0);
    let table = TranspositionTable::new(16);
    assert_eq!(table.get(hash), None)
}

#[test]
fn insert_and_get() {
    let hash = ZobristHash(0);
    let ri = ResultInfo::new(Centipawn::zero(), None);
    let depth = 5;
    let m = king_move();
    let entry = TranspositionTableEntry::new(ri, depth, m.clone(), hash);
    let result = TranspositionTableResult::new(ri, m.clone(), depth);
    let mut table = TranspositionTable::new(16);
    table.insert(entry);
    assert_eq!(table.get(hash), Some(result))
}

#[test]
fn insert_two_and_get() {
    let mut table = TranspositionTable::new(16);

    let hash_one = ZobristHash(0);
    let ri_one = ResultInfo::new(Centipawn::zero(), None);
    let depth_one = 5;
    let m = king_move();
    let entry_one = TranspositionTableEntry::new(ri_one, depth_one, m.clone(), hash_one);
    let result_one = TranspositionTableResult::new(ri_one, m.clone(), depth_one);
    table.insert(entry_one);

    let hash_two = ZobristHash(1);
    let ri_two = ResultInfo::new(Centipawn::zero(), None);
    let depth_two = 6;
    let entry_two = TranspositionTableEntry::new(ri_two, depth_two, m.clone(), hash_two);
    let result_two = TranspositionTableResult::new(ri_two, m.clone(), depth_two);
    table.insert(entry_two);
    assert_eq!(table.get(hash_one), Some(result_one));
    assert_eq!(table.get(hash_two), Some(result_two));
}

#[test]
fn replace_with_larger_depth() {
    let hash = ZobristHash(0);
    let ri = ResultInfo::new(Centipawn::zero(), None);
    let depth = 5;
    let m = king_move();
    let entry = TranspositionTableEntry::new(ri, depth, m.clone(), hash);
    let result = TranspositionTableResult::new(ri, m.clone(), depth);
    let mut table = TranspositionTable::new(16);
    table.insert(entry);
    assert_eq!(table.get(hash), Some(result));

    let depth = 6;
    let entry = TranspositionTableEntry::new(ri, depth, m.clone(), hash);
    let result = TranspositionTableResult::new(ri, m.clone(), depth);
    table.insert(entry);
    assert_eq!(table.get(hash), Some(result))
}

#[test]
fn shallower_entry_does_not_replace() {
    let ri = ResultInfo::new(Centipawn(10), Some(2));
    let mut table = TranspositionTable::new(16);
    table.insert(TranspositionTableEntry::new(ri, 6, king_move(), ZobristHash(3)));
    table.insert(TranspositionTableEntry::new(ri, 6, king_move(), ZobristHash(19)));
    assert_eq!(table.get(ZobristHash(3)), Some(TranspositionTableResult::new(ri, king_move(), 6)));
    assert_eq!(table.get(ZobristHash(19)), None);
    table.insert(TranspositionTableEntry::new(ri, 7, king_move(), ZobristHash(19)));
    assert_eq!(table.get(ZobristHash(3)), None);
    assert_eq!(table.get(ZobristHash(19)), Some(TranspositionTableResult::new(ri, king_move(), 7)));
    assert_eq!(table.num_entries(), 16);
    table.clear();
    assert_eq!(table.get(ZobristHash(19)), None);
    assert_eq!(table.num_entries(), 16);
}

#[test]
fn table_of_bytes_holds_whole_entries() {
    let size = std::mem::size_of::<Option<TranspositionTableEntry>>();
    let table = TranspositionTable::of_bytes(size * 10 + size / 2);
    assert_eq!(table.num_entries(), 10);
}

#[test]
fn brain_table_keeps_last_entry_per_slot() {
    let entry_size = std::mem::size_of::<Option<TTEntry>>() as u64;
    let mut table = BrainTable::new(entry_size * 5);
    let e = TTEntry {
        hash: ZobristHash(5),
        depth: 3,
        score: CentipawnScore(12),
        bound: ScoreBound::Exact,
        m: Some(king_move()),
    };
    assert!(table.get(ZobristHash(5)).is_none());
    table.set(e);
    assert_eq!(table.get(ZobristHash(5)), Some(&e));
    // Four slots: hash 1 shares the slot of hash 5.
    assert_eq!(table.get(ZobristHash(1)), Some(&e));
    let f = TTEntry { hash: ZobristHash(1), depth: 1, ..e };
    table.set(f);
    assert_eq!(table.get(ZobristHash(5)), Some(&f));
    assert!(table.get(ZobristHash(2)).is_none());
}

#[test]
fn result_info_order_and_negation() {
    let a = ResultInfo::new(Centipawn(5), None);
    let b = ResultInfo::new(Centipawn(7), None);
    assert!(a < b);
    assert_eq!(a.cmp(&b), std::cmp::Ordering::Less);
    let mate_near = ResultInfo::new(Centipawn(0), Some(1));
    let mate_far = ResultInfo::new(Centipawn(0), Some(3));
    assert_eq!(mate_near.cmp(&mate_far), std::cmp::Ordering::Less);
    let n = -ResultInfo::new(Centipawn(4), Some(-2));
    assert_eq!(n.score(), Centipawn(-4));
    assert_eq!(n.mate_depth(), Some(2));
    assert_eq!(-(-n), n);
}

#[test]
fn result_info_order_laws() {
    let xs = [
        ResultInfo::new(Centipawn(1), None),
        ResultInfo::new(Centipawn(2), None),
        ResultInfo::new(Centipawn(2), None),
    ];
    for a in xs.iter() {
        assert_eq!(a.cmp(a), std::cmp::Ordering::Equal);
        for b in xs.iter() {
            assert_eq!(a.cmp(b), b.cmp(a).reverse());
        }
    }
    let near = ResultInfo::new(Centipawn(0), Some(1));
    let none = ResultInfo::new(Centipawn(0), None);
    // With a mate depth on one side only, both orders compare it with zero.
    assert_eq!(near.cmp(&none), std::cmp::Ordering::Greater);
    assert_eq!(none.cmp(&near), std::cmp::Ordering::Greater);
}
