//! What the engine's first UCI front end does with each command it reads.
use vstd::prelude::*;
use crate::beak::{command_text, GoPayload, IncomingCommand, InfoPayload, OutgoingCommand};
use crate::uci_text::decimal;

verus! {

/// One step the front end takes.
#[derive(Debug)]
pub enum ManagerAction {
    /// Write this command.
    Send(OutgoingCommand),
    /// Create the engine, and the reporter that writes its speed every five
    /// seconds while it searches.
    StartEngine,
    /// Empty the engine's transposition table.
    ResetTables,
    /// Set up this position (a FEN record) and play these moves from it.
    SetPosition(String, Vec<String>),
    /// Count the positions this many plies deep, and write the count with
    /// `perft_message`.
    Perft(usize),
    /// Search this many plies deep and write the best move.
    Search(usize),
    /// Stop reading commands.
    Quit,
}

/// The steps for `command` after the echo of the command itself, given
/// whether the engine was created.
pub open spec fn command_steps(engine_started: bool, command: IncomingCommand) -> Seq<ManagerAction> {
    match command {
        IncomingCommand::Uci => seq![
            ManagerAction::Send(OutgoingCommand::Id("name", "chessatiel")),
            ManagerAction::Send(OutgoingCommand::Id("author", "Tim E (https://lichess.org/@/Dragnmn)")),
            ManagerAction::Send(OutgoingCommand::UciOk),
        ],
        IncomingCommand::IsReady => if engine_started {
            seq![ManagerAction::Send(OutgoingCommand::ReadyOk)]
        } else {
            seq![ManagerAction::StartEngine, ManagerAction::Send(OutgoingCommand::ReadyOk)]
        },
        IncomingCommand::UciNewGame => seq![ManagerAction::ResetTables],
        IncomingCommand::Go(GoPayload::Perft(d)) => seq![ManagerAction::Perft(d)],
        IncomingCommand::Go(GoPayload::Depth(d)) => seq![ManagerAction::Search(d)],
        IncomingCommand::Quit => seq![ManagerAction::Quit],
        _ => Seq::empty(),
    }
}

/// The steps for one command. Every command is first echoed as an `info
/// string`. `uci` is answered with the engine's name, its author and
/// `uciok`; `isready` creates the engine when there is none and answers
/// `readyok`; a `go` with a time limit searches five plies deep, after a
/// note that says so.
pub fn actions_for(engine_started: bool, command: IncomingCommand) -> (r: Vec<ManagerAction>)
    requires
        command is UciNewGame || command is Go ==> engine_started,
        command matches IncomingCommand::Position(_, m) && m@.len() > 0 ==> engine_started,
    ensures
        r@.len() >= 1,
        r@[0] matches ManagerAction::Send(OutgoingCommand::Info(InfoPayload::String(s))) && s@
            == command_text(command@),
        command matches IncomingCommand::Position(p, m) ==> (r@.len() == 2 && (r@[1] matches ManagerAction::SetPosition(q, n) && q == p && n == m)),
        command matches IncomingCommand::Go(GoPayload::Movetime(_)) ==> (r@.len() == 3 && (r@[1] matches ManagerAction::Send(OutgoingCommand::Info(InfoPayload::String(s))) && s@ == "Ignoring movetime, going depth 5 instead..."@) && r@[2] == ManagerAction::Search(5)),
        !(command is Position) && !(command matches IncomingCommand::Go(GoPayload::Movetime(_))) ==> r@.subrange(1, r@.len() as int) == command_steps(engine_started, command),
        command matches IncomingCommand::Go(GoPayload::Depth(d)) ==> (r@.len() == 2 && r@[1] == ManagerAction::Search(d)),
        command matches IncomingCommand::Go(GoPayload::Perft(d)) ==> (r@.len() == 2 && r@[1] == ManagerAction::Perft(d)),
{
    let mut r: Vec<ManagerAction> = Vec::new();
    r.push(ManagerAction::Send(OutgoingCommand::Info(InfoPayload::String(command.to_text()))));
    let ghost first = r@[0];
    match command {
        IncomingCommand::Uci => {
            r.push(ManagerAction::Send(OutgoingCommand::Id("name", "chessatiel")));
            r.push(
                ManagerAction::Send(
                    OutgoingCommand::Id("author", "Tim E (https://lichess.org/@/Dragnmn)"),
                ),
            );
            r.push(ManagerAction::Send(OutgoingCommand::UciOk));
        },
        IncomingCommand::IsReady => {
            if !engine_started {
                r.push(ManagerAction::StartEngine);
            }
            r.push(ManagerAction::Send(OutgoingCommand::ReadyOk));
        },
        IncomingCommand::UciNewGame => {
            r.push(ManagerAction::ResetTables);
        },
        IncomingCommand::Position(p, m) => {
            r.push(ManagerAction::SetPosition(p, m));
        },
        IncomingCommand::Go(GoPayload::Perft(d)) => {
            r.push(ManagerAction::Perft(d));
        },
        IncomingCommand::Go(GoPayload::Depth(d)) => {
            r.push(ManagerAction::Search(d));
        },
        IncomingCommand::Go(GoPayload::Movetime(_)) => {
            r.push(
                ManagerAction::Send(
                    OutgoingCommand::Info(
                        InfoPayload::String("Ignoring movetime, going depth 5 instead...".to_owned()),
                    ),
                ),
            );
            r.push(ManagerAction::Search(5));
        },
        IncomingCommand::Quit => {
            r.push(ManagerAction::Quit);
        },
        _ => {},
    }
    assert(r@[0] == first);
    assert(!(command is Position) && !(command matches IncomingCommand::Go(GoPayload::Movetime(_)))
        ==> r@.subrange(1, r@.len() as int) =~= command_steps(engine_started, command));
    r
}

/// `go depth d` searches exactly `d` plies and does nothing else, and `go
/// perft d` counts exactly `d` plies: the depth done is the depth asked, so
/// two different depths never lead to the same step.
pub proof fn law_go_does_requested_depth(engine_started: bool, d: usize, e: usize)
    ensures
        command_steps(engine_started, IncomingCommand::Go(GoPayload::Depth(d))).len() == 1,
        command_steps(engine_started, IncomingCommand::Go(GoPayload::Depth(d)))[0]
            == ManagerAction::Search(d),
        command_steps(engine_started, IncomingCommand::Go(GoPayload::Perft(d))).len() == 1,
        command_steps(engine_started, IncomingCommand::Go(GoPayload::Perft(d)))[0]
            == ManagerAction::Perft(d),
        d != e ==> command_steps(engine_started, IncomingCommand::Go(GoPayload::Depth(d)))
            != command_steps(engine_started, IncomingCommand::Go(GoPayload::Depth(e))),
{
    if d != e {
        assert(command_steps(engine_started, IncomingCommand::Go(GoPayload::Depth(d)))[0]
            != command_steps(engine_started, IncomingCommand::Go(GoPayload::Depth(e)))[0]);
    }
}

/// The line that reports a count of positions.
pub fn perft_message(count: usize) -> (c: OutgoingCommand)
    ensures
        c matches OutgoingCommand::Info(InfoPayload::String(s)) && s@ == "perft "@ + decimal(
            count as nat,
        ),
{
    let mut s = "perft ".to_owned();
    crate::uci_text::push_decimal(&mut s, count as u64);
    OutgoingCommand::Info(InfoPayload::String(s))
}

/// The speed report: the nodes searched since the previous report, five
/// seconds ago, per second.
pub fn nps_message(current: u64, previous: u64) -> (c: OutgoingCommand)
    requires
        current >= previous,
    ensures
        c == OutgoingCommand::Info(InfoPayload::Nps(((current - previous) / 5) as u64)),
{
    OutgoingCommand::Info(InfoPayload::Nps((current - previous) / 5))
}

} // verus!
