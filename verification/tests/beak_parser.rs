use chessatiel::beak::{
    parse_debug, parse_go, parse_isready, parse_move, parse_position, parse_uci,
    parse_ucinewgame, start_position_fen, GoPayload, IncomingCommand, InfoPayload,
    OutgoingCommand, UciParser, DEFAULT_DEPTH,
};

const START_FEN: &str = "rnbqkbnr/pppppppp/8/8/8/8/PPPPPPPP/RNBQKBNR w KQkq - 0 1";

#[test]
fn lib_uci() {
    let input = "uci";
    assert_eq!(parse_uci(input).ok(), Some(IncomingCommand::Uci));
}

#[test]
fn lib_not_uci() {
    let input = "not_uci";
    assert_ne!(parse_uci(input).ok(), Some(IncomingCommand::Uci));
}

#[test]
fn lib_debug() {
    let input = "debug on";
    assert_eq!(parse_debug(input).ok(), Some(IncomingCommand::Debug(true)));
}

#[test]
fn lib_not_debug() {
    let input = "debug optional";
    assert_ne!(parse_debug(input).ok(), Some(IncomingCommand::Debug(true)));
}

#[test]
fn lib_isready() {
    let input = "isready";
    assert_eq!(parse_isready(input).ok(), Some(IncomingCommand::IsReady));
}

#[test]
fn lib_not_isready() {
    let input = "not_isready";
    assert_ne!(parse_isready(input).ok(), Some(IncomingCommand::IsReady));
}

#[test]
fn lib_ucinewgame() {
    let input = "ucinewgame";
    assert_eq!(parse_ucinewgame(input).ok(), Some(IncomingCommand::UciNewGame));
}

#[test]
fn lib_not_ucinewgame() {
    let input = "not_ucinewgame";
    assert_ne!(parse_ucinewgame(input).ok(), Some(IncomingCommand::UciNewGame));
}

#[test]
fn lib_position() {
    let input = "position startpos";
    assert_eq!(
        parse_position(input).ok(),
        Some(IncomingCommand::Position(START_FEN.to_owned(), Vec::new()))
    );
}

#[test]
fn lib_position_with_moves() {
    let input = "position startpos e2e4 e7e5";
    assert_eq!(
        parse_position(input).ok(),
        Some(IncomingCommand::Position(
            START_FEN.to_owned(),
            vec!["e2e4".to_owned(), "e7e5".to_owned()]
        ))
    );
}

#[test]
fn lib_position_with_fen() {
    let input = "position rnbqkbnr/pppppppp/8/8/8/8/PPPPPPPP/RNBQKBNR w KQkq - 0 1";
    assert_eq!(
        parse_position(input).ok(),
        Some(IncomingCommand::Position(START_FEN.to_owned(), Vec::new()))
    );
}

#[test]
fn lib_position_with_fen_and_moves() {
    let input = "position rnbqkbnr/pppppppp/8/8/8/8/PPPPPPPP/RNBQKBNR w KQkq - 0 1 e2e4 e7e5";
    assert_eq!(
        parse_position(input).ok(),
        Some(IncomingCommand::Position(
            START_FEN.to_owned(),
            vec!["e2e4".to_owned(), "e7e5".to_owned()]
        ))
    );
}

#[test]
fn lib_just_move() {
    let input = "e2e4";
    assert_eq!(parse_move(input).ok(), Some("e2e4".to_owned()));
}

#[test]
fn lib_just_move_promotion() {
    let input = "e2e4q";
    assert_eq!(parse_move(input).ok(), Some("e2e4q".to_owned()));
}

#[test]
fn go_default() {
    let input = "go depth 4";
    assert_eq!(parse_go(input).ok(), Some(IncomingCommand::Go(GoPayload::Depth(4))));
}

#[test]
fn go_perft() {
    let input = "go perft 5";
    assert_eq!(parse_go(input).ok(), Some(IncomingCommand::Go(GoPayload::Perft(5))));
}

#[test]
fn lib_go_movetime() {
    let input = "go movetime 10000";
    assert_eq!(
        parse_go(input).ok(),
        Some(IncomingCommand::Go(GoPayload::Movetime(10000)))
    );
}

#[test]
fn go_unrecognized() {
    let input = "go invalid input";
    assert_eq!(
        parse_go(input).ok(),
        Some(IncomingCommand::Go(GoPayload::Depth(DEFAULT_DEPTH)))
    );
}

#[test]
fn lib_start_position_fen_is_initial_position() {
    assert_eq!(start_position_fen(), START_FEN);
}

#[test]
fn lib_parser_tries_each_command() {
    let parser = UciParser::new();
    assert_eq!(parser.parse("ucinewgame").ok(), Some(IncomingCommand::UciNewGame));
    assert_eq!(parser.parse("uci").ok(), Some(IncomingCommand::Uci));
    assert_eq!(parser.parse("debug off").ok(), Some(IncomingCommand::Debug(false)));
    assert_eq!(parser.parse("isready").ok(), Some(IncomingCommand::IsReady));
    assert_eq!(parser.parse("stop").ok(), Some(IncomingCommand::Stop));
    assert_eq!(parser.parse("quit").ok(), Some(IncomingCommand::Quit));
    assert_eq!(
        parser.parse("go perft 3").ok(),
        Some(IncomingCommand::Go(GoPayload::Perft(3)))
    );
    assert!(parser.parse("hello").is_err());
    assert!(parser.parse("").is_err());
}

#[test]
fn lib_go_without_payload_is_refused() {
    assert!(parse_go("go").is_err());
    assert!(parse_go("gone").is_err());
}

#[test]
fn lib_command_text() {
    assert_eq!(IncomingCommand::Uci.to_text(), "uci");
    assert_eq!(IncomingCommand::Debug(true).to_text(), "debug on");
    assert_eq!(IncomingCommand::Debug(false).to_text(), "debug off");
    assert_eq!(
        IncomingCommand::SetOption("Hash".to_owned(), None).to_text(),
        "setoption"
    );
    assert_eq!(IncomingCommand::Go(GoPayload::Depth(12)).to_text(), "go depth 12");
    assert_eq!(IncomingCommand::Go(GoPayload::Perft(0)).to_text(), "go perft 0");
    assert_eq!(
        IncomingCommand::Go(GoPayload::Movetime(1500)).to_text(),
        "go movetime 1500"
    );
    assert_eq!(
        IncomingCommand::Position("8/8/8/8/8/8/8/8 w - - 0 1".to_owned(), Vec::new()).to_text(),
        "position 8/8/8/8/8/8/8/8 w - - 0 1"
    );
    assert_eq!(
        IncomingCommand::Position(
            "fen".to_owned(),
            vec!["e2e4".to_owned(), "e7e5".to_owned()]
        )
        .to_text(),
        "position fen e2e4 e7e5"
    );
}

#[test]
fn lib_outgoing_text() {
    assert_eq!(OutgoingCommand::Id("name", "chessatiel").to_text(), "id name chessatiel");
    assert_eq!(OutgoingCommand::UciOk.to_text(), "uciok");
    assert_eq!(OutgoingCommand::ReadyOk.to_text(), "readyok");
    assert_eq!(OutgoingCommand::BestMove("e2e4".to_owned()).to_text(), "bestmove e2e4");
    assert_eq!(
        OutgoingCommand::Info(InfoPayload::String("hello".to_owned())).to_text(),
        "info string hello"
    );
    assert_eq!(OutgoingCommand::Info(InfoPayload::Nps(1234567)).to_text(), "info nps 1234567");
    assert_eq!(OutgoingCommand::Option.to_text(), "option");
}

#[test]
fn lib_input_lines() {
    let parser = UciParser::new();
    assert_eq!(
        chessatiel::beak::parse_input_line(&parser, "isready").ok(),
        Some(IncomingCommand::IsReady)
    );
    match chessatiel::beak::parse_input_line(&parser, "hello") {
        Err(OutgoingCommand::Info(InfoPayload::String(s))) => assert_eq!(
            s,
            "Could not parse UCI input 'hello': Error: unrecognized command: hello"
        ),
        other => panic!("unexpected {:?}", other),
    }
    assert_eq!(
        parser.parse("nope").err().map(|e| e.to_text()),
        Some("Error: unrecognized command: nope".to_owned())
    );
}

#[test]
fn lib_written_commands_read_back() {
    let parser = UciParser::new();
    let commands = vec![
        IncomingCommand::Uci,
        IncomingCommand::UciNewGame,
        IncomingCommand::Debug(true),
        IncomingCommand::Debug(false),
        IncomingCommand::IsReady,
        IncomingCommand::Stop,
        IncomingCommand::Quit,
        IncomingCommand::Go(GoPayload::Depth(0)),
        IncomingCommand::Go(GoPayload::Perft(7)),
        IncomingCommand::Go(GoPayload::Movetime(123456789)),
    ];
    for c in commands {
        assert_eq!(parser.parse(&c.to_text()).ok(), Some(c));
    }
}
