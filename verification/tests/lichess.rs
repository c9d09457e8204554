use chessatiel::brain::RemainingTime;
use chessatiel::chess::Color;
use chessatiel::lichess::account::{
    handle_account_event, should_accept_challenge, AccountAction, AccountClient, Challenge,
    ChallengeUser, DeclineReason, Game, LichessEvent, TimeControl, Variant,
};
use chessatiel::lichess::engine_handler::{
    build_configuration, engine_color, handle_game_event, split_moves, GameAction,
};
use chessatiel::lichess::game::{
    Clock, GameClient, GameStateEvent, ImmutableInfo, MakeMove, Player, State,
};
use chessatiel::lichess::{is_keepalive, LichessClient};

fn challenge(challenger: &str, variant: &str, rated: bool, time_control: TimeControl) -> Challenge {
    Challenge {
        id: "bGeawCe6".to_owned(),
        challenger: ChallengeUser { id: challenger.to_owned() },
        variant: Variant { key: variant.to_owned() },
        rated,
        speed: "blitz".to_owned(),
        time_control,
        color: "random".to_owned(),
    }
}

fn clock() -> TimeControl {
    TimeControl::Clock { limit: 299, increment: 7 }
}

fn state(moves: &str, status: &str) -> State {
    State {
        moves: moves.to_owned(),
        wtime: 7598039,
        btime: 8395219,
        winc: 9999,
        binc: 8888,
        status: status.to_owned(),
    }
}

fn player(id: &str) -> Player {
    Player { id: id.to_owned(), name: id.to_owned() }
}

#[test]
fn challenges_accepted_only_from_owner_casual_standard_with_clock() {
    assert_eq!(should_accept_challenge(0, &challenge("dragnmn", "standard", false, clock())), None);
    assert_eq!(
        should_accept_challenge(1, &challenge("dragnmn", "standard", false, clock())),
        Some(DeclineReason::Generic)
    );
    assert_eq!(
        should_accept_challenge(0, &challenge("someone", "standard", false, clock())),
        Some(DeclineReason::Generic)
    );
    assert_eq!(
        should_accept_challenge(0, &challenge("dragnmn", "chess960", false, clock())),
        Some(DeclineReason::Variant)
    );
    assert_eq!(
        should_accept_challenge(0, &challenge("dragnmn", "standard", true, clock())),
        Some(DeclineReason::Casual)
    );
    assert_eq!(
        should_accept_challenge(0, &challenge("dragnmn", "standard", false, TimeControl::Unlimited)),
        Some(DeclineReason::TimeControl)
    );
}

#[test]
fn account_events_become_actions() {
    let accept = handle_account_event(
        0,
        LichessEvent::Challenge { challenge: challenge("dragnmn", "standard", false, clock()) },
    );
    assert_eq!(accept, AccountAction::Accept("bGeawCe6".to_owned()));
    let decline = handle_account_event(
        0,
        LichessEvent::Challenge { challenge: challenge("dragnmn", "standard", true, clock()) },
    );
    assert_eq!(decline, AccountAction::Decline("bGeawCe6".to_owned(), DeclineReason::Casual));
    assert_eq!(
        handle_account_event(3, LichessEvent::GameStart { game: Game { id: "0lsvP62l".to_owned() } }),
        AccountAction::StartGame("0lsvP62l".to_owned())
    );
    assert_eq!(
        handle_account_event(1, LichessEvent::GameFinish { game: Game { id: "g".to_owned() } }),
        AccountAction::FinishGame("g".to_owned())
    );
    assert_eq!(handle_account_event(0, LichessEvent::ChallengeCanceled), AccountAction::Ignore);
    assert_eq!(handle_account_event(0, LichessEvent::ChallengeDeclined), AccountAction::Ignore);
}

#[test]
fn addresses_of_the_api() {
    let client = LichessClient::new("https://lichess.org".to_owned());
    assert_eq!(client.lichess_base_url(), "https://lichess.org");
    let account = AccountClient::new(client.clone());
    assert_eq!(account.lichess_event_stream_url(), "https://lichess.org/api/stream/event");
    assert_eq!(account.challenge_base_url("abc"), "https://lichess.org/api/challenge/abc");
    assert_eq!(account.challenge_accept_url("abc"), "https://lichess.org/api/challenge/abc/accept");
    assert_eq!(account.challenge_decline_url("abc"), "https://lichess.org/api/challenge/abc/decline");
    let game = GameClient::new(client, "4IrD6Gzz".to_owned());
    assert_eq!(game.game_event_stream_url(), "https://lichess.org/api/bot/game/stream/4IrD6Gzz");
    assert_eq!(
        game.make_move_url(&MakeMove { chess_move: "e2e4".to_owned() }),
        "https://lichess.org/api/bot/game/4IrD6Gzz/move/e2e4"
    );
    assert_eq!(game.resign_url(), "https://lichess.org/api/bot/game/4IrD6Gzz/resign");
}

#[test]
fn keepalive_is_a_lone_newline() {
    assert!(is_keepalive(b"\n"));
    assert!(!is_keepalive(b"\n\n"));
    assert!(!is_keepalive(b""));
    assert!(!is_keepalive(b"{}"));
}

#[test]
fn moves_are_split_on_spaces() {
    assert_eq!(split_moves("e2e4 c7c5 f2f4"), vec!["e2e4", "c7c5", "f2f4"]);
    assert_eq!(split_moves(""), Vec::<String>::new());
    assert_eq!(split_moves("  e2e4   e7e5 "), vec!["e2e4", "e7e5"]);
}

#[test]
fn bot_configuration() {
    let s = state("", "started");
    let first = build_configuration(true, &s, Color::Black);
    assert_eq!(first.remaining_time, Some(RemainingTime::ForMove(15000)));
    assert_eq!(first.depth, None);
    let white = build_configuration(false, &s, Color::White);
    assert_eq!(
        white.remaining_time,
        Some(RemainingTime::ForGame { remaining: 7598039, increment: 9999 })
    );
    let black = build_configuration(false, &s, Color::Black);
    assert_eq!(
        black.remaining_time,
        Some(RemainingTime::ForGame { remaining: 8395219, increment: 8888 })
    );
}

#[test]
fn game_events_become_actions() {
    let info = ImmutableInfo {
        clock: Clock { initial: 1199999, increment: 9999 },
        initial_fen: "startpos".to_owned(),
        white: player("lovlas"),
        black: player("chessatiel"),
    };
    assert_eq!(engine_color(&info), Color::Black);
    let full = GameStateEvent::GameFull { immutable_info: info, state: state("e2e4 c7c5", "started") };
    match handle_game_event(Color::White, full) {
        (Color::Black, GameAction::Setup { initial_fen, moves, config }) => {
            assert_eq!(initial_fen, "startpos");
            assert_eq!(moves, vec!["e2e4", "c7c5"]);
            assert_eq!(config.remaining_time, Some(RemainingTime::ForMove(15000)));
        }
        other => panic!("unexpected {:?}", other),
    }
    match handle_game_event(Color::White, GameStateEvent::GameState { state: state("e2e4", "started") }) {
        (Color::White, GameAction::Reply { moves, config }) => {
            assert_eq!(moves, vec!["e2e4"]);
            assert_eq!(
                config.remaining_time,
                Some(RemainingTime::ForGame { remaining: 7598039, increment: 9999 })
            );
        }
        other => panic!("unexpected {:?}", other),
    }
    assert!(matches!(
        handle_game_event(Color::Black, GameStateEvent::GameState { state: state("e2e4", "mate") }),
        (Color::Black, GameAction::Stopped)
    ));
    assert!(matches!(
        handle_game_event(Color::Black, GameStateEvent::ChatLine),
        (Color::Black, GameAction::Ignore)
    ));
}
