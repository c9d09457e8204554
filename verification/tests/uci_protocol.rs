use chessatiel::brain::{EngineError, EngineUpdate, MoveResult, RemainingTime};
use chessatiel::brain::evaluator::CentipawnScore;
use chessatiel::chess::{ChessMove, Color, MoveType, Piece, Square};
use chessatiel::engine::searcher::first_move_result;
use chessatiel::profiling::{profile_run, ProfileMode, ProfileRun};
use chessatiel::uci::engine_manager::{
    actions_for, build_configuration, ready_message, search_error_message, update_to_command,
    ManagerAction,
};
use chessatiel::uci::{
    parse_debug, parse_go, parse_isready, parse_move, parse_position, parse_quit, parse_stop,
    parse_uci, parse_ucinewgame, GoPayload, IncomingCommand, InfoPayload, OutgoingCommand,
    UciParser,
};

const START_FEN: &str = "rnbqkbnr/pppppppp/8/8/8/8/PPPPPPPP/RNBQKBNR w KQkq - 0 1";

#[test]
fn protocol_uci() {
    let input = "uci";
    assert_eq!(parse_uci(input).ok(), Some(IncomingCommand::Uci));
}

#[test]
fn protocol_not_uci() {
    let input = "not_uci";
    assert_ne!(parse_uci(input).ok(), Some(IncomingCommand::Uci));
}

#[test]
fn protocol_debug() {
    let input = "debug on";
    assert_eq!(parse_debug(input).ok(), Some(IncomingCommand::Debug(true)));
}

#[test]
fn protocol_not_debug() {
    let input = "debug optional";
    assert_ne!(parse_debug(input).ok(), Some(IncomingCommand::Debug(true)));
}

#[test]
fn protocol_isready() {
    let input = "isready";
    assert_eq!(parse_isready(input).ok(), Some(IncomingCommand::IsReady));
}

#[test]
fn protocol_not_isready() {
    let input = "not_isready";
    assert_ne!(parse_isready(input).ok(), Some(IncomingCommand::IsReady));
}

#[test]
fn protocol_ucinewgame() {
    let input = "ucinewgame";
    assert_eq!(parse_ucinewgame(input).ok(), Some(IncomingCommand::UciNewGame));
}

#[test]
fn protocol_not_ucinewgame() {
    let input = "not_ucinewgame";
    assert_ne!(parse_ucinewgame(input).ok(), Some(IncomingCommand::UciNewGame));
}

#[test]
fn protocol_position() {
    let input = "position startpos";
    assert_eq!(
        parse_position(input).ok(),
        Some(IncomingCommand::Position(START_FEN.to_owned(), Vec::new()))
    );
}

#[test]
fn protocol_position_with_moves() {
    let input = "position startpos moves e2e4 e7e5";
    assert_eq!(
        parse_position(input).ok(),
        Some(IncomingCommand::Position(
            START_FEN.to_owned(),
            vec!["e2e4".to_owned(), "e7e5".to_owned()],
        ))
    );
}

#[test]
fn protocol_position_with_fen() {
    let input = "position rnbqkbnr/pppppppp/8/8/8/8/PPPPPPPP/RNBQKBNR w KQkq - 0 1";
    assert_eq!(
        parse_position(input).ok(),
        Some(IncomingCommand::Position(START_FEN.to_owned(), Vec::new()))
    );
}

#[test]
fn protocol_position_with_fen_and_moves() {
    let input =
        "position rnbqkbnr/pppppppp/8/8/8/8/PPPPPPPP/RNBQKBNR w KQkq - 0 1 moves e2e4 e7e5";
    assert_eq!(
        parse_position(input).ok(),
        Some(IncomingCommand::Position(
            START_FEN.to_owned(),
            vec!["e2e4".to_owned(), "e7e5".to_owned()],
        ))
    );
}

#[test]
fn protocol_just_move() {
    let input = "e2e4";
    assert_eq!(parse_move(input).ok(), Some("e2e4".to_owned()));
}

#[test]
fn protocol_just_move_promotion() {
    let input = "e2e4q";
    assert_eq!(parse_move(input).ok(), Some("e2e4q".to_owned()));
}

#[test]
fn go_depth() {
    let input = "go depth 4";
    assert_eq!(
        parse_go(input).ok(),
        Some(IncomingCommand::Go(GoPayload {
            depth: Some(4),
            ..GoPayload::default()
        }))
    );
}

#[test]
fn protocol_go_movetime() {
    let input = "go movetime 10000";
    assert_eq!(
        parse_go(input).ok(),
        Some(IncomingCommand::Go(GoPayload {
            move_time: Some(10000),
            ..GoPayload::default()
        }))
    );
}

#[test]
fn go_times() {
    let input = "go wtime 1 winc 2 binc 3 btime 4";
    assert_eq!(
        parse_go(input).ok(),
        Some(IncomingCommand::Go(GoPayload {
            wtime: Some(1),
            btime: Some(4),
            winc: Some(2),
            binc: Some(3),
            ..GoPayload::default()
        }))
    );
}

#[test]
fn go_times_and_depth() {
    let input = "go wtime 1 winc 2 depth 5 binc 3 btime 4";
    assert_eq!(
        parse_go(input).ok(),
        Some(IncomingCommand::Go(GoPayload {
            wtime: Some(1),
            btime: Some(4),
            winc: Some(2),
            binc: Some(3),
            depth: Some(5),
            ..GoPayload::default()
        }))
    );
}

#[test]
fn stop() {
    let input = "stop";
    assert_eq!(parse_stop(input).ok(), Some(IncomingCommand::Stop))
}

#[test]
fn quit() {
    let input = "quit";
    assert_eq!(parse_quit(input).ok(), Some(IncomingCommand::Quit))
}

#[test]
fn exit_as_quit() {
    let input = "exit";
    assert_eq!(parse_quit(input).ok(), Some(IncomingCommand::Quit))
}

#[test]
fn protocol_parser_tries_each_command() {
    let parser = UciParser::new();
    assert_eq!(parser.parse("ucinewgame").ok(), Some(IncomingCommand::UciNewGame));
    assert_eq!(parser.parse("uci").ok(), Some(IncomingCommand::Uci));
    assert_eq!(parser.parse("exit").ok(), Some(IncomingCommand::Quit));
    assert!(parser.parse("go").is_err());
    assert!(parser.parse("go nothing").is_err());
    assert!(parser.parse("position").is_err());
}

#[test]
fn protocol_command_text() {
    let g = GoPayload {
        depth: Some(5),
        wtime: Some(1),
        binc: Some(3),
        ..GoPayload::default()
    };
    assert_eq!(g.to_text(), "depth 5 wtime 1 binc 3 ");
    assert_eq!(IncomingCommand::Go(g).to_text(), "go depth 5 wtime 1 binc 3 ");
    assert_eq!(IncomingCommand::Go(GoPayload::default()).to_text(), "go ");
    assert_eq!(IncomingCommand::Quit.to_text(), "quit");
    assert_eq!(
        OutgoingCommand::Info(InfoPayload::String("x y".to_owned())).to_text(),
        "info string x y"
    );
    assert_eq!(
        OutgoingCommand::Id("author", "Tim E (https://lichess.org/@/Dragnmn)").to_text(),
        "id author Tim E (https://lichess.org/@/Dragnmn)"
    );
}

#[test]
fn manager_answers_uci_and_isready() {
    let a = actions_for(IncomingCommand::Uci);
    assert_eq!(a.len(), 3);
    match (&a[0], &a[1], &a[2]) {
        (
            ManagerAction::Send(OutgoingCommand::Id("name", "Chessatiel")),
            ManagerAction::Send(OutgoingCommand::Id(
                "author",
                "Tim E (https://lichess.org/@/Dragnmn)",
            )),
            ManagerAction::Send(OutgoingCommand::UciOk),
        ) => {}
        other => panic!("unexpected {:?}", other),
    }
    let a = actions_for(IncomingCommand::IsReady);
    assert!(matches!(a.as_slice(), [ManagerAction::Send(OutgoingCommand::ReadyOk)]));
    assert!(actions_for(IncomingCommand::Debug(true)).is_empty());
    assert!(matches!(
        actions_for(IncomingCommand::Quit).as_slice(),
        [ManagerAction::Quit]
    ));
    assert!(matches!(
        actions_for(IncomingCommand::Stop).as_slice(),
        [ManagerAction::StopSearch]
    ));
    assert!(matches!(
        actions_for(IncomingCommand::UciNewGame).as_slice(),
        [ManagerAction::RestartEngine]
    ));
}

#[test]
fn manager_configuration_prefers_movetime() {
    let g = GoPayload {
        move_time: Some(300),
        wtime: Some(1000),
        ..GoPayload::default()
    };
    let c = build_configuration(&g, Color::White);
    assert_eq!(c.remaining_time, Some(RemainingTime::ForMove(300)));
    assert_eq!(c.depth, None);
}

#[test]
fn manager_configuration_uses_own_clock() {
    let g = GoPayload {
        depth: Some(7),
        wtime: Some(1000),
        winc: Some(10),
        btime: Some(2000),
        ..GoPayload::default()
    };
    let white = build_configuration(&g, Color::White);
    assert_eq!(
        white.remaining_time,
        Some(RemainingTime::ForGame { remaining: 1000, increment: 10 })
    );
    assert_eq!(white.depth, Some(7));
    let black = build_configuration(&g, Color::Black);
    assert_eq!(
        black.remaining_time,
        Some(RemainingTime::ForGame { remaining: 2000, increment: 0 })
    );
    let none = build_configuration(&GoPayload::default(), Color::Black);
    assert_eq!(none.remaining_time, None);
    let deep = build_configuration(
        &GoPayload {
            depth: Some(100000),
            ..GoPayload::default()
        },
        Color::White,
    );
    assert_eq!(deep.depth, Some(u16::MAX));
}

#[test]
fn manager_writes_best_move() {
    let mut mr = MoveResult::new(CentipawnScore(5));
    mr.push(ChessMove::new(
        Square::from_index(12),
        Square::from_index(28),
        Piece::Pawn,
        MoveType::push(),
        None,
    ));
    assert_eq!(
        update_to_command(&EngineUpdate::BestMove(mr)),
        Some(OutgoingCommand::BestMove("e2e4".to_owned()))
    );
    assert_eq!(
        update_to_command(&EngineUpdate::BestMove(MoveResult::new(CentipawnScore(0)))),
        Some(OutgoingCommand::Info(InfoPayload::String(
            "Did not find best move!".to_owned()
        )))
    );
    assert_eq!(
        update_to_command(&EngineUpdate::Info {
            nps: Some(1),
            depth: None,
            nodes: None,
            tt_hits: None,
            score: None
        }),
        None
    );
}

#[test]
fn manager_messages() {
    assert_eq!(
        ready_message(),
        OutgoingCommand::Info(InfoPayload::String("Ready for commands".to_owned()))
    );
    assert_eq!(
        search_error_message(&EngineError::CalculationAlreadyInProgress).to_text(),
        "info string Tried to start a search, but had an error: calculation already in progress"
    );
}

#[test]
fn protocol_input_lines_are_trimmed() {
    let parser = UciParser::new();
    assert_eq!(
        chessatiel::uci::parse_input_line(&parser, "go depth 3 \r\n").ok(),
        Some(IncomingCommand::Go(GoPayload { depth: Some(3), ..GoPayload::default() }))
    );
    match chessatiel::uci::parse_input_line(&parser, "hello\n") {
        Err(OutgoingCommand::Info(InfoPayload::String(s))) => assert_eq!(
            s,
            "Could not parse UCI input 'hello': Error: unrecognized command: hello"
        ),
        other => panic!("unexpected {:?}", other),
    }
}

#[test]
fn profile_workloads() {
    assert_eq!(
        profile_run(ProfileMode::PerftDefault7),
        ProfileRun::Perft { fen: START_FEN.to_owned(), depth: 7 }
    );
    assert_eq!(
        profile_run(ProfileMode::PerftOneOfEach6),
        ProfileRun::Perft {
            fen: "rnbqkbnr/7p/8/8/8/8/P7/RNBQKBNR w KQkq - 0 1".to_owned(),
            depth: 6
        }
    );
    assert_eq!(
        profile_run(ProfileMode::SearchDepth),
        ProfileRun::Search { fen: START_FEN.to_owned(), depth: 9 }
    );
}

#[test]
fn first_legal_move_is_played() {
    let m = ChessMove::new(Square::from_index(6), Square::from_index(21), Piece::Knight, MoveType::push(), None);
    let r = first_move_result(&vec![m]).unwrap();
    assert_eq!(r.chess_move, m);
    assert_eq!(r.pv, vec![m]);
    assert!(first_move_result(&Vec::new()).is_none());
}

#[test]
fn protocol_written_commands_read_back() {
    let parser = UciParser::new();
    let commands = vec![
        IncomingCommand::Uci,
        IncomingCommand::UciNewGame,
        IncomingCommand::Debug(false),
        IncomingCommand::IsReady,
        IncomingCommand::Stop,
        IncomingCommand::Quit,
        IncomingCommand::Go(GoPayload { depth: Some(3), ..GoPayload::default() }),
        IncomingCommand::Go(GoPayload {
            depth: Some(12),
            move_time: Some(5),
            wtime: Some(60000),
            winc: Some(100),
            btime: Some(59000),
            binc: Some(0),
        }),
        IncomingCommand::Go(GoPayload { binc: Some(9), ..GoPayload::default() }),
    ];
    for c in commands {
        assert_eq!(parser.parse(&c.to_text()).ok(), Some(c));
    }
}
