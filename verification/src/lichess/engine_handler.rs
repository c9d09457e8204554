//! The decisions of the bot during one game.
use vstd::prelude::*;
use crate::brain::{RemainingTime, SearchConfiguration};
use crate::chess::Color;
use crate::lichess::game::{GameStateEvent, ImmutableInfo, State};
use crate::lichess::same_text;
use crate::uci_text::chars_of;

verus! {

/// The bot's account name.
pub open spec fn my_id() -> Seq<char> {
    "chessatiel"@
}

/// The words read so far from a move list, and the word being read, after
/// reading `s`: a space ends the current word, and empty words are dropped.
pub open spec fn split_state(s: Seq<char>) -> (Seq<Seq<char>>, Seq<char>)
    decreases s.len(),
{
    if s.len() == 0 {
        (Seq::empty(), Seq::empty())
    } else {
        let (words, current) = split_state(s.drop_last());
        if s.last() == ' ' {
            (if current.len() > 0 {
                words.push(current)
            } else {
                words
            }, Seq::empty())
        } else {
            (words, current.push(s.last()))
        }
    }
}

/// The non-empty pieces of `s` between single spaces, in order.
pub open spec fn split_moves_spec(s: Seq<char>) -> Seq<Seq<char>> {
    let (words, current) = split_state(s);
    if current.len() > 0 {
        words.push(current)
    } else {
        words
    }
}

/// Every piece that `split_moves_spec` gives is non-empty and holds no space.
pub proof fn law_split_moves_clean(s: Seq<char>)
    ensures
        forall|i: int|
            0 <= i < split_moves_spec(s).len() ==> #[trigger] split_moves_spec(s)[i].len() > 0
                && !split_moves_spec(s)[i].contains(' '),
{
    lemma_split_state_clean(s);
}

proof fn lemma_split_state_clean(s: Seq<char>)
    ensures
        forall|i: int|
            0 <= i < split_state(s).0.len() ==> #[trigger] split_state(s).0[i].len() > 0
                && !split_state(s).0[i].contains(' '),
        !split_state(s).1.contains(' '),
    decreases s.len(),
{
    if s.len() > 0 {
        lemma_split_state_clean(s.drop_last());
        let (words, current) = split_state(s.drop_last());
        if s.last() != ' ' {
            assert forall|j: int| 0 <= j < current.push(s.last()).len() implies #[trigger] current.push(
                s.last(),
            )[j] != ' ' by {
                if j < current.len() {
                    assert(!current.contains(' '));
                    if current[j] == ' ' {
                        assert(current.contains(' '));
                    }
                }
            }
        } else {
            assert(!Seq::<char>::empty().contains(' '));
        }
    }
}

/// The moves of a move list: the pieces between spaces.
pub fn split_moves(moves: &str) -> (r: Vec<String>)
    ensures
        r@.map_values(|x: String| x@) == split_moves_spec(moves@),
{
    let v = chars_of(moves);
    let mut words: Vec<String> = Vec::new();
    let mut current = String::new();
    let mut i: usize = 0;
    while i < v.len()
        invariant
            v@ == moves@,
            i <= v@.len(),
            (words@.map_values(|x: String| x@), current@) == split_state(v@.subrange(0, i as int)),
        decreases v@.len() - i,
    {
        assert(v@.subrange(0, i as int) =~= v@.subrange(0, i + 1).drop_last());
        let c = v[i];
        if c == ' ' {
            if current.unicode_len() > 0 {
                let mut done = String::new();
                std::mem::swap(&mut done, &mut current);
                let ghost before = words@.map_values(|x: String| x@);
                words.push(done);
                assert(words@.map_values(|x: String| x@) =~= before.push(done@));
            }
        } else {
            crate::chess::push_char(&mut current, c);
        }
        i = i + 1;
        assert(v@.subrange(0, i as int).last() == c);
    }
    assert(v@.subrange(0, i as int) =~= moves@);
    if current.unicode_len() > 0 {
        let ghost before = words@.map_values(|x: String| x@);
        words.push(current);
        assert(words@.map_values(|x: String| x@) =~= before.push(split_state(moves@).1));
    }
    words
}

/// The bot plays white when the white player is the bot's account.
pub fn engine_color(info: &ImmutableInfo) -> (c: Color)
    ensures
        c == if info.white.id@ == my_id() {
            Color::White
        } else {
            Color::Black
        },
{
    if same_text(&info.white.id, "chessatiel") {
        Color::White
    } else {
        Color::Black
    }
}

/// The limit of the bot's search: fifteen seconds for the first move of a
/// game, else the clock and increment of the bot's side.
pub open spec fn configuration_spec(is_first_move: bool, state: State, my_color: Color) -> SearchConfiguration {
    SearchConfiguration {
        depth: None,
        remaining_time: Some(
            if is_first_move {
                RemainingTime::ForMove(15000)
            } else {
                match my_color {
                    Color::White => RemainingTime::ForGame {
                        remaining: state.wtime,
                        increment: state.winc,
                    },
                    Color::Black => RemainingTime::ForGame {
                        remaining: state.btime,
                        increment: state.binc,
                    },
                }
            },
        ),
    }
}

pub fn build_configuration(is_first_move: bool, state: &State, my_color: Color) -> (c: SearchConfiguration)
    ensures
        c == configuration_spec(is_first_move, *state, my_color),
{
    let remaining_time = if is_first_move {
        RemainingTime::ForMove(15000)
    } else {
        match my_color {
            Color::White => RemainingTime::ForGame { remaining: state.wtime, increment: state.winc },
            Color::Black => RemainingTime::ForGame { remaining: state.btime, increment: state.binc },
        }
    };
    SearchConfiguration { depth: None, remaining_time: Some(remaining_time) }
}

/// What the bot does about a game event.
#[derive(Debug)]
pub enum GameAction {
    /// Set up the game from this FEN record and these moves; when it is the
    /// bot's turn, search with this configuration and play the result.
    Setup { initial_fen: String, moves: Vec<String>, config: SearchConfiguration },
    /// Play these moves on the starting position, then search with this
    /// configuration and play the result.
    Reply { moves: Vec<String>, config: SearchConfiguration },
    /// The game is no longer running: stop handling it.
    Stopped,
    /// Nothing to do.
    Ignore,
}

/// The bot's colour after `event`, and what it does. A full game tells the
/// bot its colour; a state of a game that is not `started` stops it.
pub fn handle_game_event(my_color: Color, event: GameStateEvent) -> (r: (Color, GameAction))
    ensures
        match event {
            GameStateEvent::GameFull { immutable_info, state } => {
                let c = if immutable_info.white.id@ == my_id() {
                    Color::White
                } else {
                    Color::Black
                };
                &&& r.0 == c
                &&& r.1 matches GameAction::Setup { initial_fen, moves, config }
                &&& initial_fen@ == immutable_info.initial_fen@
                &&& moves@.map_values(|x: String| x@) == split_moves_spec(state.moves@)
                &&& config == configuration_spec(true, state, c)
            },
            GameStateEvent::GameState { state } => {
                &&& r.0 == my_color
                &&& state.status@ != "started"@ ==> r.1 is Stopped
                &&& state.status@ == "started"@ ==> (r.1 matches GameAction::Reply { moves, config }
                    && moves@.map_values(|x: String| x@) == split_moves_spec(state.moves@)
                    && config == configuration_spec(false, state, my_color))
            },
            GameStateEvent::ChatLine => r.0 == my_color && r.1 is Ignore,
        },
{
    match event {
        GameStateEvent::GameFull { immutable_info, state } => {
            let c = engine_color(&immutable_info);
            let moves = split_moves(state.moves.as_str());
            let config = build_configuration(true, &state, c);
            (c, GameAction::Setup { initial_fen: immutable_info.initial_fen, moves, config })
        },
        GameStateEvent::GameState { state } => {
            if !same_text(&state.status, "started") {
                (my_color, GameAction::Stopped)
            } else {
                let moves = split_moves(state.moves.as_str());
                let config = build_configuration(false, &state, my_color);
                (my_color, GameAction::Reply { moves, config })
            }
        },
        GameStateEvent::ChatLine => (my_color, GameAction::Ignore),
    }
}

} // verus!
