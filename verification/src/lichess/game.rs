//! Game events, and the addresses of one game.
use vstd::prelude::*;
use crate::lichess::LichessClient;

verus! {

/// An event of a game's event stream.
#[derive(Debug, Eq, PartialEq)]
pub enum GameStateEvent {
    GameFull { immutable_info: ImmutableInfo, state: State },
    GameState { state: State },
    ChatLine,
}

/// What does not change during a game.
#[derive(Debug, Eq, PartialEq)]
pub struct ImmutableInfo {
    pub clock: Clock,
    pub initial_fen: String,
    pub white: Player,
    pub black: Player,
}

#[derive(Debug, Eq, PartialEq)]
pub struct Player {
    pub id: String,
    pub name: String,
}

/// The initial time and the increment, in milliseconds.
#[derive(Debug, Eq, PartialEq, Clone, Copy, Structural)]
pub struct Clock {
    pub initial: u64,
    pub increment: u64,
}

/// The moves played so far, separated by spaces, the clocks in
/// milliseconds, and the game's status.
#[derive(Debug, Eq, PartialEq)]
pub struct State {
    pub moves: String,
    pub wtime: u64,
    pub btime: u64,
    pub winc: u64,
    pub binc: u64,
    pub status: String,
}

/// A move to play, in UCI notation.
pub struct MakeMove {
    pub chess_move: String,
}

/// One game's side of the API.
#[derive(Debug)]
pub struct GameClient {
    lichess_client: LichessClient,
    game_id: String,
}

impl GameClient {
    pub closed spec fn base_url_spec(&self) -> Seq<char> {
        self.lichess_client.base_url_spec()
    }

    pub closed spec fn game_id_spec(&self) -> Seq<char> {
        self.game_id@
    }

    pub fn new(lichess_client: LichessClient, game_id: String) -> (c: GameClient)
        ensures
            c.base_url_spec() == lichess_client.base_url_spec(),
            c.game_id_spec() == game_id@,
    {
        GameClient { lichess_client, game_id }
    }

    pub fn game_event_stream_url(&self) -> (s: String)
        ensures
            s@ == self.base_url_spec() + "/api/bot/game/stream/"@ + self.game_id_spec(),
    {
        self.lichess_client.lichess_base_url().to_owned().concat("/api/bot/game/stream/").concat(
            self.game_id.as_str(),
        )
    }

    pub fn make_move_url(&self, m: &MakeMove) -> (s: String)
        ensures
            s@ == self.base_url_spec() + "/api/bot/game/"@ + self.game_id_spec() + "/move/"@
                + m.chess_move@,
    {
        self.lichess_client.lichess_base_url().to_owned().concat("/api/bot/game/").concat(
            self.game_id.as_str(),
        ).concat("/move/").concat(m.chess_move.as_str())
    }

    /// Where the bot resigns this game.
    pub fn resign_url(&self) -> (s: String)
        ensures
            s@ == self.base_url_spec() + "/api/bot/game/"@ + self.game_id_spec() + "/resign"@,
    {
        self.lichess_client.lichess_base_url().to_owned().concat("/api/bot/game/").concat(
            self.game_id.as_str(),
        ).concat("/resign")
    }
}

} // verus!
