use chessatiel::beak;
use chessatiel::brain::aggregator::{final_update, nodes_per_second, searcher_config_for};
use chessatiel::brain::engine_actor::{
    check_calculation_running, find_move_by_uci, go_decision, stop_calculation,
};
use chessatiel::brain::evaluator::{CentipawnScore, ScoreBound};
use chessatiel::brain::position_hash_history::PositionHashHistory;
use chessatiel::brain::position_history::PositionHistory;
use chessatiel::brain::priority_buffer::{default_priority, PriorityMoveBuffer};
use chessatiel::brain::searcher::{
    cutoff_entry, draw_result, final_entry, is_quiescence_move, judge_child, max_depth,
    no_moves_result, probe, stand_pat, ChildOutcome, Probe, SearcherConfig, StandPat,
};
use chessatiel::brain::statistics::{Statistics, StatisticsHolder};
use chessatiel::brain::time_manager::{delay_for_time, TimeManager};
use chessatiel::brain::transposition_table::TTEntry;
use chessatiel::brain::{EngineError, EngineUpdate, MoveResult, RemainingTime, SearchConfiguration};
use chessatiel::chess::{ChessMove, MoveType, Piece, Square, ZobristHash};
use chessatiel::engine::centipawn::Centipawn;
use chessatiel::engine::negamax::{
    cached_answer, judge_move, mate_or_draw, swap_cached_move_first, NegamaxStep, SearchResult,
};
use chessatiel::engine::resultinfo::ResultInfo;
use chessatiel::engine::statistics::Statistics as EngineStatistics;
use chessatiel::engine::transposition_table::TranspositionTableResult;
use chessatiel::engine_manager::{actions_for, nps_message, perft_message, ManagerAction};

fn mv(from: u8, to: u8, piece: Piece, move_type: MoveType, promotion: Option<Piece>) -> ChessMove {
    ChessMove::new(Square::from_index(from), Square::from_index(to), piece, move_type, promotion)
}

#[test]
fn highest_prio_first() {
    let m0 = mv(0, 63, Piece::King, MoveType::push(), None);
    let m1 = mv(1, 63, Piece::King, MoveType::push(), None);
    let mut buf = PriorityMoveBuffer::new();
    buf.push(m0.clone());
    buf.push(m1.clone());
    buf.set_priority(&m0, 10);
    buf.set_priority(&m1, 9);
    assert_eq!(buf.pop(), Some(m0.clone()));
    buf.push(m1.clone());
    buf.push(m0.clone());
    buf.set_priority(&m0, 10);
    buf.set_priority(&m1, 9);
    assert_eq!(buf.pop(), Some(m0))
}

#[test]
fn priority_buffer_orders_captures_first() {
    let quiet_queen = mv(3, 11, Piece::Queen, MoveType::push(), None);
    let pawn_capture = mv(12, 21, Piece::Pawn, MoveType::capture(), None);
    let promotion = mv(52, 60, Piece::Pawn, MoveType::push(), Some(Piece::Queen));
    assert_eq!(default_priority(&quiet_queen), 5);
    assert_eq!(default_priority(&pawn_capture), 110);
    assert_eq!(default_priority(&promotion), 100);
    let mut buf = PriorityMoveBuffer::default();
    assert!(buf.is_empty());
    buf.push(quiet_queen);
    buf.push(promotion);
    buf.push(pawn_capture);
    assert_eq!(buf.len(), 3);
    assert_eq!(buf.unordered_iter(), vec![quiet_queen, promotion, pawn_capture]);
    assert!(!buf.set_priority(&mv(0, 1, Piece::King, MoveType::push(), None), 1));
    assert_eq!(buf.pop(), Some(pawn_capture));
    assert_eq!(buf.pop(), Some(promotion));
    assert_eq!(buf.pop(), Some(quiet_queen));
    assert_eq!(buf.pop(), None);
    buf.push(quiet_queen);
    buf.clear();
    assert!(buf.is_empty());
}

#[test]
fn priority_buffer_keeps_first_of_equal_priorities() {
    let a = mv(8, 16, Piece::Pawn, MoveType::push(), None);
    let b = mv(9, 17, Piece::Pawn, MoveType::push(), None);
    let c = mv(1, 18, Piece::Knight, MoveType::push(), None);
    let mut buf = PriorityMoveBuffer::new();
    buf.push(c);
    buf.push(a);
    buf.push(b);
    assert_eq!(buf.pop(), Some(a));
    assert_eq!(buf.unordered_iter(), vec![c, b]);
}

#[test]
fn hash_history_detects_threefold() {
    let start = ZobristHash(42);
    let mut h = PositionHashHistory::new(start);
    assert!(!h.is_threefold_repetition());
    h.push(ZobristHash(1));
    h.push(start);
    assert!(!h.is_threefold_repetition());
    h.push(ZobristHash(2));
    h.push(start);
    assert!(h.is_threefold_repetition());
    assert_eq!(h.count(), 5);
    assert_eq!(h.pop(), start);
    assert!(!h.is_threefold_repetition());
    h.reset_with(ZobristHash(2));
    assert_eq!(h.count(), 1);
}

#[test]
fn position_history_current_is_last() {
    let mut h = PositionHistory::new("start");
    assert_eq!(*h.current_position(), "start");
    h.push("one");
    h.push("two");
    assert_eq!(*h.current_position(), "two");
    assert_eq!(h.count(), 3);
    assert_eq!(h.pop(), Some("two"));
    assert_eq!(h.pop(), Some("one"));
    assert_eq!(h.pop(), None);
    assert_eq!(*h.current_position(), "start");
    h.reset_with("other");
    assert_eq!(*h.current_position(), "other");
}

#[test]
fn statistics_count_and_report() {
    let mut s = StatisticsHolder::new();
    s.depth_changed(3);
    s.node_searched();
    s.node_searched();
    s.tt_hit();
    let st = s.get_statistics();
    assert_eq!(st.current_depth, 3);
    assert_eq!(st.nodes_searched, 2);
    assert_eq!(st.nodes_searched_this_depth, 2);
    assert_eq!(st.tt_hits, 1);
    s.depth_changed(4);
    let st = s.get_statistics();
    assert_eq!(st.nodes_searched_this_depth, 0);
    assert_eq!(st.nodes_searched, 2);
    assert_eq!(
        st.to_text(),
        "current depth: 4\nnodes searched at current depth: 0\nnodes searched total: 2\ntransposition table hits: 1"
    );
    assert_eq!(Statistics::default().tt_hits, 0);
}

#[test]
fn engine_statistics_counters() {
    let mut s = EngineStatistics::new();
    *s.nodes_searched() += 5;
    *s.moves_reordered() += 1;
    *s.transposition_table_size() += 2;
    *s.full_transposition_table_hits() += 3;
    *s.partial_transposition_table_hits() += 4;
    assert_eq!(*s.nodes_searched(), 5);
    assert_eq!(*s.moves_reordered(), 1);
    assert_eq!(*s.transposition_table_size(), 2);
    assert_eq!(*s.full_transposition_table_hits(), 3);
    assert_eq!(*s.partial_transposition_table_hits(), 4);
    s.reset();
    assert_eq!(*s.nodes_searched(), 0);
    assert_eq!(*s.partial_transposition_table_hits(), 0);
}

#[test]
fn time_manager_delays() {
    let mut t = TimeManager::new();
    assert_eq!(t.start(), None);
    t.update(Some(RemainingTime::ForGame { remaining: 60000, increment: 1000 }));
    assert_eq!(t.start(), Some(6000));
    t.update(Some(RemainingTime::ForMove(3000)));
    assert_eq!(t.start(), Some(3000));
    assert_eq!(delay_for_time(None), None);
}

#[test]
fn searcher_depth_and_draws() {
    assert_eq!(max_depth(&SearcherConfig { depth: Some(4) }), 4);
    assert_eq!(max_depth(&SearcherConfig::default()), u16::MAX);
    assert_eq!(draw_result(false, 49).map(|m| m.score()), None);
    assert_eq!(draw_result(false, 50).map(|m| m.score()), Some(CentipawnScore(0)));
    assert_eq!(draw_result(true, 0).map(|m| m.score()), Some(CentipawnScore(0)));
    assert_eq!(no_moves_result(true).score(), CentipawnScore::checkmated());
    assert_eq!(no_moves_result(false).score(), CentipawnScore(0));
    assert!(is_quiescence_move(&mv(1, 2, Piece::Rook, MoveType::capture(), None)));
    assert!(!is_quiescence_move(&mv(1, 2, Piece::Rook, MoveType::push(), None)));
}

#[test]
fn searcher_probe_uses_deep_entries() {
    let m = mv(12, 28, Piece::Pawn, MoveType::push(), None);
    let hash = ZobristHash(9);
    let alpha = CentipawnScore(-10);
    let beta = CentipawnScore(10);
    let exact = TTEntry { hash, depth: 4, score: CentipawnScore(3), bound: ScoreBound::Exact, m: Some(m) };
    match probe(Some(exact), hash, 4, alpha, beta) {
        (true, Probe::Answer(mr)) => {
            assert_eq!(mr.score(), CentipawnScore(3));
            assert_eq!(mr.first_move(), Some(&m));
        }
        _ => panic!("expected an answer"),
    }
    match probe(Some(exact), hash, 5, alpha, beta) {
        (true, Probe::Search { alpha: a, beta: b, previous_best }) => {
            assert_eq!((a, b, previous_best), (alpha, beta, Some(m)));
        }
        _ => panic!("expected a search"),
    }
    let upper = TTEntry { bound: ScoreBound::Upper, ..exact };
    match probe(Some(upper), hash, 2, alpha, beta) {
        (true, Probe::Search { alpha: a, beta: b, .. }) => assert_eq!((a, b), (alpha, CentipawnScore(3))),
        _ => panic!("expected a search"),
    }
    let lower = TTEntry { bound: ScoreBound::Lower, ..exact };
    match probe(Some(lower), hash, 2, alpha, beta) {
        (true, Probe::Search { alpha: a, beta: b, .. }) => assert_eq!((a, b), (CentipawnScore(3), beta)),
        _ => panic!("expected a search"),
    }
    match probe(Some(exact), ZobristHash(10), 1, alpha, beta) {
        (false, Probe::Search { alpha: a, beta: b, previous_best }) => {
            assert_eq!((a, b, previous_best), (alpha, beta, Some(m)))
        }
        _ => panic!("expected a miss"),
    }
    match probe(None, hash, 1, alpha, beta) {
        (false, Probe::Search { previous_best, .. }) => assert_eq!(previous_best, None),
        _ => panic!("expected a miss"),
    }
}

#[test]
fn searcher_judges_children() {
    let m = mv(12, 28, Piece::Pawn, MoveType::push(), None);
    let alpha = CentipawnScore(-10);
    let beta = CentipawnScore(10);
    match judge_child(MoveResult::new(CentipawnScore(-10)), m, alpha, beta) {
        ChildOutcome::Cutoff(mr) => {
            assert_eq!(mr.score(), CentipawnScore(10));
            assert_eq!(mr.first_move(), Some(&m));
        }
        _ => panic!("expected a cutoff"),
    }
    match judge_child(MoveResult::new(CentipawnScore(-3)), m, alpha, beta) {
        ChildOutcome::Raise(mr) => assert_eq!(mr.score(), CentipawnScore(3)),
        _ => panic!("expected a raise"),
    }
    assert!(matches!(
        judge_child(MoveResult::new(CentipawnScore(10)), m, alpha, beta),
        ChildOutcome::Keep
    ));
    assert!(matches!(
        stand_pat(CentipawnScore(10), alpha, beta),
        StandPat::Cutoff(r) if r.score() == beta
    ));
    assert!(matches!(stand_pat(CentipawnScore(1), alpha, beta), StandPat::Search(a) if a == CentipawnScore(1)));
    assert!(matches!(stand_pat(CentipawnScore(-20), alpha, beta), StandPat::Search(a) if a == alpha));
}

#[test]
fn searcher_entries() {
    let m = mv(12, 28, Piece::Pawn, MoveType::push(), None);
    let e = cutoff_entry(ZobristHash(1), 3, CentipawnScore(8), m);
    assert_eq!(e, TTEntry { hash: ZobristHash(1), depth: 3, score: CentipawnScore(8), bound: ScoreBound::Lower, m: Some(m) });
    let mut best = MoveResult::new(CentipawnScore(4));
    let f = final_entry(ZobristHash(2), 5, &best, false);
    assert_eq!(f, TTEntry { hash: ZobristHash(2), depth: 5, score: CentipawnScore(4), bound: ScoreBound::Upper, m: None });
    best.push(m);
    let g = final_entry(ZobristHash(2), 5, &best, true);
    assert_eq!(g.bound, ScoreBound::Exact);
    assert_eq!(g.m, Some(m));
}

#[test]
fn move_result_line() {
    let a = mv(12, 28, Piece::Pawn, MoveType::push(), None);
    let b = mv(52, 36, Piece::Pawn, MoveType::push(), None);
    let mut r = MoveResult::new(CentipawnScore(5));
    assert_eq!(r.first_move(), None);
    r.push(b);
    r.push(a);
    assert_eq!(r.first_move(), Some(&a));
    assert_eq!(r._pv(), &[b, a]);
    r.invert_score();
    assert_eq!(r.score(), CentipawnScore(-5));
    r.invert_score();
    assert_eq!(r.score(), CentipawnScore(5));
    assert_eq!(a.as_uci(), "e2e4");
    assert_eq!(mv(52, 60, Piece::Pawn, MoveType::push(), Some(Piece::Queen)).as_uci(), "e7e8q");
}

#[test]
fn engine_actor_decisions() {
    let mut current = Some(7);
    assert!(check_calculation_running(&mut current, false));
    assert_eq!(current, Some(7));
    assert!(!check_calculation_running(&mut current, true));
    assert_eq!(current, None);
    assert!(!check_calculation_running(&mut current, false));
    assert_eq!(go_decision(true), Err(EngineError::CalculationAlreadyInProgress));
    assert_eq!(go_decision(false), Ok(()));
    assert_eq!(EngineError::CalculationAlreadyInProgress.message(), "calculation already in progress");
    let mut running = Some("search");
    assert_eq!(stop_calculation(&mut running, false), Some("search"));
    assert_eq!(running, None);
    let mut finished = Some("search");
    assert_eq!(stop_calculation(&mut finished, true), None);
    assert_eq!(finished, None);
    let legal = vec![
        mv(12, 28, Piece::Pawn, MoveType::push(), None),
        mv(6, 21, Piece::Knight, MoveType::push(), None),
    ];
    assert_eq!(find_move_by_uci(&legal, "g1f3"), Some(legal[1]));
    assert_eq!(find_move_by_uci(&legal, "a2a4"), None);
}

#[test]
fn aggregator_decisions() {
    let config = SearchConfiguration { depth: Some(6), remaining_time: None };
    assert_eq!(searcher_config_for(&config).depth, Some(6));
    assert_eq!(SearchConfiguration::default().depth, None);
    let mut earlier = StatisticsHolder::new();
    let before = earlier.get_statistics();
    for _ in 0..50 {
        earlier.node_searched();
    }
    assert_eq!(nodes_per_second(&earlier.get_statistics(), &before, 5), 10);
    assert!(final_update(None).is_none());
    match final_update(Some(MoveResult::new(CentipawnScore(1)))) {
        Some(EngineUpdate::BestMove(r)) => assert_eq!(r.score(), CentipawnScore(1)),
        _ => panic!("expected a best move"),
    }
}

#[test]
fn negamax_decisions() {
    let a = mv(12, 28, Piece::Pawn, MoveType::push(), None);
    let b = mv(6, 21, Piece::Knight, MoveType::push(), None);
    let c = mv(1, 18, Piece::Knight, MoveType::push(), None);
    let mut moves = vec![a, b, c];
    let mut stats = EngineStatistics::new();
    let cached = TranspositionTableResult::new(ResultInfo::new(Centipawn(0), None), c, 2);
    swap_cached_move_first(&mut moves, Some(cached), &mut stats);
    assert_eq!(moves, vec![c, b, a]);
    assert_eq!(*stats.partial_transposition_table_hits(), 1);
    assert_eq!(*stats.moves_reordered(), 1);
    let missing = TranspositionTableResult::new(ResultInfo::new(Centipawn(0), None), mv(0, 1, Piece::King, MoveType::push(), None), 2);
    swap_cached_move_first(&mut moves, Some(missing), &mut stats);
    assert_eq!(moves, vec![c, b, a]);
    assert_eq!(*stats.partial_transposition_table_hits(), 2);
    assert_eq!(*stats.moves_reordered(), 1);
    swap_cached_move_first(&mut moves, None, &mut stats);
    assert_eq!(*stats.partial_transposition_table_hits(), 2);

    let mate = mate_or_draw(true, 3);
    assert_eq!(mate.score(), Centipawn::loss());
    assert_eq!(mate.mate_depth(), Some(-3));
    let draw = mate_or_draw(false, 3);
    assert_eq!(draw.score(), Centipawn(0));
    assert_eq!(draw.mate_depth(), None);

    let alpha = ResultInfo::new(Centipawn(-5), None);
    let beta = ResultInfo::new(Centipawn(5), None);
    assert_eq!(judge_move(&ResultInfo::new(Centipawn(5), None), &alpha, &beta), NegamaxStep::Cutoff);
    assert_eq!(judge_move(&ResultInfo::new(Centipawn(0), None), &alpha, &beta), NegamaxStep::Raise);
    assert_eq!(judge_move(&ResultInfo::new(Centipawn(-5), None), &alpha, &beta), NegamaxStep::Keep);

    assert_eq!(cached_answer(Some(cached), 2), Some((c, cached.score)));
    assert_eq!(cached_answer(Some(cached), 3), None);
    assert_eq!(cached_answer(None, 0), None);

    let r = SearchResult::new(a, mate);
    assert_eq!(*r.chess_move(), a);
    assert_eq!(*r.score(), mate);
}

#[test]
fn first_front_end_actions() {
    let echo = |a: &ManagerAction, text: &str| match a {
        ManagerAction::Send(beak::OutgoingCommand::Info(beak::InfoPayload::String(s))) => assert_eq!(s, text),
        other => panic!("unexpected {:?}", other),
    };
    let a = actions_for(false, beak::IncomingCommand::IsReady);
    assert_eq!(a.len(), 3);
    echo(&a[0], "isready");
    assert!(matches!(a[1], ManagerAction::StartEngine));
    assert!(matches!(a[2], ManagerAction::Send(beak::OutgoingCommand::ReadyOk)));
    let a = actions_for(true, beak::IncomingCommand::IsReady);
    assert_eq!(a.len(), 2);
    let a = actions_for(true, beak::IncomingCommand::Go(beak::GoPayload::Movetime(100)));
    assert_eq!(a.len(), 3);
    echo(&a[0], "go movetime 100");
    echo(&a[1], "Ignoring movetime, going depth 5 instead...");
    assert!(matches!(a[2], ManagerAction::Search(5)));
    let a = actions_for(false, beak::IncomingCommand::Uci);
    assert_eq!(a.len(), 4);
    assert!(matches!(a[1], ManagerAction::Send(beak::OutgoingCommand::Id("name", "chessatiel"))));
    assert_eq!(perft_message(20).to_text(), "info string perft 20");
    assert_eq!(nps_message(150, 50).to_text(), "info nps 20");
}

#[test]
fn statistics_count_calls_since_new() {
    let mut s = StatisticsHolder::new();
    s.node_searched();
    s.tt_hit();
    s.depth_changed(1);
    s.node_searched();
    s.node_searched();
    s.depth_changed(2);
    s.node_searched();
    s.tt_hit();
    s.tt_hit();
    let st = s.get_statistics();
    assert_eq!(st.nodes_searched, 4);
    assert_eq!(st.nodes_searched_this_depth, 1);
    assert_eq!(st.current_depth, 2);
    assert_eq!(st.tt_hits, 3);
    assert!(st.nodes_searched_this_depth <= st.nodes_searched);
}
