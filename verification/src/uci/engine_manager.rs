//! What the UCI front end does with each command it reads, and what it
//! writes for each report of the engine.
use vstd::prelude::*;
use crate::brain::{EngineError, EngineUpdate, RemainingTime, SearchConfiguration};
use crate::chess::Color;
use crate::uci::{GoPayload, IncomingCommand, InfoPayload, OutgoingCommand};

verus! {

/// One step the front end takes.
#[derive(Debug)]
pub enum ManagerAction {
    /// Write this command.
    Send(OutgoingCommand),
    /// Drop the engine and start a fresh one.
    RestartEngine,
    /// Set up this position (a FEN record) and play these moves from it.
    SetPosition(String, Vec<String>),
    /// Ask the engine for the side to move, then start a search with the
    /// configuration that `build_configuration` makes of this payload.
    StartSearch(GoPayload),
    /// Stop the running search.
    StopSearch,
    /// Stop reading commands.
    Quit,
}

/// The steps for one command: `uci` is answered with the engine's name, its
/// author and `uciok`, `isready` with `readyok`; `debug` changes nothing.
pub fn actions_for(command: IncomingCommand) -> (r: Vec<ManagerAction>)
    ensures
        command is Uci ==> r@.len() == 3 && r@[0] == ManagerAction::Send(
            OutgoingCommand::Id("name", "Chessatiel"),
        ) && r@[1] == ManagerAction::Send(
            OutgoingCommand::Id("author", "Tim E (https://lichess.org/@/Dragnmn)"),
        ) && r@[2] == ManagerAction::Send(OutgoingCommand::UciOk),
        command is Debug ==> r@.len() == 0,
        command is IsReady ==> r@ == seq![ManagerAction::Send(OutgoingCommand::ReadyOk)],
        command is UciNewGame ==> r@ == seq![ManagerAction::RestartEngine],
        command matches IncomingCommand::Position(p, m) ==> (r@.len() == 1 && (r@[0] matches ManagerAction::SetPosition(q, n) && q == p && n == m)),
        command matches IncomingCommand::Go(g) ==> r@ == seq![ManagerAction::StartSearch(g)],
        command is Stop ==> r@ == seq![ManagerAction::StopSearch],
        command is Quit ==> r@ == seq![ManagerAction::Quit],
{
    let mut r: Vec<ManagerAction> = Vec::new();
    match command {
        IncomingCommand::Uci => {
            r.push(ManagerAction::Send(OutgoingCommand::Id("name", "Chessatiel")));
            r.push(
                ManagerAction::Send(
                    OutgoingCommand::Id("author", "Tim E (https://lichess.org/@/Dragnmn)"),
                ),
            );
            r.push(ManagerAction::Send(OutgoingCommand::UciOk));
        },
        IncomingCommand::Debug(_) => {},
        IncomingCommand::IsReady => {
            r.push(ManagerAction::Send(OutgoingCommand::ReadyOk));
        },
        IncomingCommand::UciNewGame => {
            r.push(ManagerAction::RestartEngine);
        },
        IncomingCommand::Position(p, m) => {
            r.push(ManagerAction::SetPosition(p, m));
        },
        IncomingCommand::Go(g) => {
            r.push(ManagerAction::StartSearch(g));
        },
        IncomingCommand::Stop => {
            r.push(ManagerAction::StopSearch);
        },
        IncomingCommand::Quit => {
            r.push(ManagerAction::Quit);
        },
    }
    assert(command is IsReady ==> r@ =~= seq![ManagerAction::Send(OutgoingCommand::ReadyOk)]);
    assert(command is UciNewGame ==> r@ =~= seq![ManagerAction::RestartEngine]);
    assert(command matches IncomingCommand::Go(g) ==> r@ =~= seq![ManagerAction::StartSearch(g)]);
    assert(command is Stop ==> r@ =~= seq![ManagerAction::StopSearch]);
    assert(command is Quit ==> r@ =~= seq![ManagerAction::Quit]);
    r
}

/// The line written when the front end starts.
pub fn ready_message() -> (c: OutgoingCommand)
    ensures
        c matches OutgoingCommand::Info(InfoPayload::String(s)) && s@ == "Ready for commands"@,
{
    OutgoingCommand::Info(InfoPayload::String("Ready for commands".to_owned()))
}

/// The depth of a `go` payload as a search depth; depths beyond `u16::MAX`
/// are searched to `u16::MAX`, the deepest a search goes.
pub open spec fn search_depth(depth: Option<usize>) -> Option<u16> {
    match depth {
        Some(d) => Some(if d > u16::MAX { u16::MAX } else { d as u16 }),
        None => None,
    }
}

/// The time limit of a `go` payload for the side `color`: the time for the
/// move when one is given, else the clock of `color` with its increment
/// (zero when none is given).
pub open spec fn remaining_time_for(go: GoPayload, color: Color) -> Option<RemainingTime> {
    match go.move_time {
        Some(t) => Some(RemainingTime::ForMove(t)),
        None => match color {
            Color::White => match go.wtime {
                Some(d) => Some(RemainingTime::ForGame { remaining: d, increment: match go.winc {
                    Some(i) => i,
                    None => 0,
                } }),
                None => None,
            },
            Color::Black => match go.btime {
                Some(d) => Some(RemainingTime::ForGame { remaining: d, increment: match go.binc {
                    Some(i) => i,
                    None => 0,
                } }),
                None => None,
            },
        },
    }
}

/// The search configuration for the payload `go` when `color` is to move.
pub fn build_configuration(go: &GoPayload, color: Color) -> (c: SearchConfiguration)
    ensures
        c.depth == search_depth(go.depth),
        c.remaining_time == remaining_time_for(*go, color),
{
    let remaining_time = match go.move_time {
        Some(t) => Some(RemainingTime::ForMove(t)),
        None => match color {
            Color::White => match go.wtime {
                Some(d) => Some(RemainingTime::ForGame { remaining: d, increment: match go.winc {
                    Some(i) => i,
                    None => 0,
                } }),
                None => None,
            },
            Color::Black => match go.btime {
                Some(d) => Some(RemainingTime::ForGame { remaining: d, increment: match go.binc {
                    Some(i) => i,
                    None => 0,
                } }),
                None => None,
            },
        },
    };
    let depth: Option<u16> = match go.depth {
        Some(d) => Some(if d > 65535 { 65535u16 } else { d as u16 }),
        None => None,
    };
    SearchConfiguration { depth, remaining_time }
}

/// What the front end writes for a report of the engine: the first move of
/// the best line, or a note when the line is empty. Progress figures have
/// no form in this protocol and are not written.
pub fn update_to_command(update: &EngineUpdate) -> (r: Option<OutgoingCommand>)
    ensures
        match update {
            EngineUpdate::BestMove(mr) => if mr@.1.len() > 0 {
                r matches Some(OutgoingCommand::BestMove(s)) && s@ == mr@.1.last().uci()
            } else {
                r matches Some(OutgoingCommand::Info(InfoPayload::String(s))) && s@
                    == "Did not find best move!"@
            },
            EngineUpdate::Info { .. } => r is None,
        },
{
    match update {
        EngineUpdate::BestMove(mr) => match mr.first_move() {
            Some(m) => Some(OutgoingCommand::BestMove(m.as_uci())),
            None => Some(
                OutgoingCommand::Info(InfoPayload::String("Did not find best move!".to_owned())),
            ),
        },
        EngineUpdate::Info { .. } => None,
    }
}

/// The note written when the engine refuses to start a search.
pub fn search_error_message(e: &EngineError) -> (c: OutgoingCommand)
    ensures
        c matches OutgoingCommand::Info(InfoPayload::String(s)) && s@
            == "Tried to start a search, but had an error: "@ + e.message_spec(),
{
    let m = e.message();
    OutgoingCommand::Info(
        InfoPayload::String(
            "Tried to start a search, but had an error: ".to_owned().concat(m.as_str()),
        ),
    )
}

} // verus!
