//! The first UCI command language: `go` takes one of `perft`, `depth` or
//! `movetime`, and moves follow the position directly.
//!
//! A position is held as the text of its FEN record; `startpos` stands for
//! the FEN record of the initial position.
use vstd::prelude::*;
use crate::uci_text::{
    CharClass, after_tag, chars_of, decimal, fen_fields, has_prefix_at, join_fields,
    joined_with_spaces, keyword_number, move_list, push_decimal, run_end, scan_fen,
    scan_keyword_number, scan_moves, scan_run, tag_at,
};

verus! {

/// The depth searched by a `go` command whose payload is not recognised.
pub const DEFAULT_DEPTH: usize = 5;

/// The FEN record of the initial position of a game of chess.
pub open spec fn start_fen() -> Seq<char> {
    "rnbqkbnr/pppppppp/8/8/8/8/PPPPPPPP/RNBQKBNR w KQkq - 0 1"@
}

/// The FEN record of the initial position of a game of chess.
pub fn start_position_fen() -> (r: String)
    ensures
        r@ == start_fen(),
{
    "rnbqkbnr/pppppppp/8/8/8/8/PPPPPPPP/RNBQKBNR w KQkq - 0 1".to_owned()
}

#[derive(Debug)]
pub enum UciParseError {
    Error(String),
}

impl UciParseError {
    /// The error in words: `Error: ` and its message.
    pub open spec fn text_spec(&self) -> Seq<char> {
        match self {
            UciParseError::Error(m) => "Error: "@ + m@,
        }
    }

    pub fn to_text(&self) -> (s: String)
        ensures
            s@ == self.text_spec(),
    {
        match self {
            UciParseError::Error(m) => "Error: ".to_owned().concat(m.as_str()),
        }
    }
}

#[derive(Debug, Clone, Copy, PartialEq, Eq)]
pub enum GoPayload {
    Perft(usize),
    Depth(usize),
    Movetime(u64),
}

#[derive(Debug, Clone, PartialEq, Eq)]
pub enum IncomingCommand {
    Uci,
    Debug(bool),
    IsReady,
    SetOption(String, Option<String>),
    UciNewGame,
    /// A position, as the text of its FEN record, and the moves played from it.
    Position(String, Vec<String>),
    Go(GoPayload),
    Stop,
    Quit,
}

/// An incoming command with its strings taken as sequences of characters.
pub enum CommandView {
    Uci,
    Debug(bool),
    IsReady,
    SetOption(Seq<char>, Option<Seq<char>>),
    UciNewGame,
    Position(Seq<char>, Seq<Seq<char>>),
    Go(GoPayload),
    Stop,
    Quit,
}

impl View for IncomingCommand {
    type V = CommandView;

    open spec fn view(&self) -> CommandView {
        match self {
            IncomingCommand::Uci => CommandView::Uci,
            IncomingCommand::Debug(b) => CommandView::Debug(*b),
            IncomingCommand::IsReady => CommandView::IsReady,
            IncomingCommand::SetOption(k, v) => CommandView::SetOption(
                k@,
                match v {
                    Some(x) => Some(x@),
                    None => None,
                },
            ),
            IncomingCommand::UciNewGame => CommandView::UciNewGame,
            IncomingCommand::Position(p, m) => CommandView::Position(
                p@,
                m@.map_values(|x: String| x@),
            ),
            IncomingCommand::Go(g) => CommandView::Go(*g),
            IncomingCommand::Stop => CommandView::Stop,
            IncomingCommand::Quit => CommandView::Quit,
        }
    }
}

/// `debug`, spaces, then `on` or `off`.
pub open spec fn debug_command(s: Seq<char>) -> Option<bool> {
    let a = "debug"@.len() as int;
    let b = run_end(s, a, CharClass::Space);
    if has_prefix_at(s, 0, "debug"@) && b > a {
        if has_prefix_at(s, b, "on"@) {
            Some(true)
        } else if has_prefix_at(s, b, "off"@) {
            Some(false)
        } else {
            None
        }
    } else {
        None
    }
}

/// Six FEN fields, or `startpos`, at `pos`: the FEN text and the position after it.
pub open spec fn position_board(s: Seq<char>, pos: int) -> Option<(Seq<char>, int)> {
    match fen_fields(s, pos, 6) {
        Some((gs, e)) => Some((join_fields(gs), e)),
        None => if has_prefix_at(s, pos, "startpos"@) {
            Some((start_fen(), pos + "startpos"@.len()))
        } else {
            None
        },
    }
}

/// `position`, spaces, a board, optional spaces and the moves.
pub open spec fn position_command(s: Seq<char>) -> Option<(Seq<char>, Seq<Seq<char>>)> {
    let a = "position"@.len() as int;
    let b = run_end(s, a, CharClass::Space);
    if has_prefix_at(s, 0, "position"@) && b > a {
        match position_board(s, b) {
            Some((fen, e)) => Some((fen, move_list(s, run_end(s, e, CharClass::Space)).0)),
            None => None,
        }
    } else {
        None
    }
}

/// The payload of `go` at `pos`: the first of `perft n`, `depth n`, `movetime n`
/// whose number fits its type, else a search to the default depth.
pub open spec fn go_payload(s: Seq<char>, pos: int) -> GoPayload {
    let perft = keyword_number(s, pos, "perft"@);
    let depth = keyword_number(s, pos, "depth"@);
    let movetime = keyword_number(s, pos, "movetime"@);
    if perft is Some && perft.unwrap().0 <= usize::MAX {
        GoPayload::Perft(perft.unwrap().0 as usize)
    } else if depth is Some && depth.unwrap().0 <= usize::MAX {
        GoPayload::Depth(depth.unwrap().0 as usize)
    } else if movetime is Some && movetime.unwrap().0 <= u64::MAX {
        GoPayload::Movetime(movetime.unwrap().0 as u64)
    } else {
        GoPayload::Depth(DEFAULT_DEPTH)
    }
}

/// `go`, spaces, and a payload.
pub open spec fn go_command(s: Seq<char>) -> Option<GoPayload> {
    let a = "go"@.len() as int;
    let b = run_end(s, a, CharClass::Space);
    if has_prefix_at(s, 0, "go"@) && b > a {
        Some(go_payload(s, b))
    } else {
        None
    }
}

/// The command that a line starts with, trying in turn `ucinewgame`, `uci`,
/// `debug`, `isready`, `position`, `stop`, `quit` and `go`; what follows the
/// command is ignored.
pub open spec fn parse_command(s: Seq<char>) -> Option<CommandView> {
    if has_prefix_at(s, 0, "ucinewgame"@) {
        Some(CommandView::UciNewGame)
    } else if has_prefix_at(s, 0, "uci"@) {
        Some(CommandView::Uci)
    } else if debug_command(s) is Some {
        Some(CommandView::Debug(debug_command(s)->0))
    } else if has_prefix_at(s, 0, "isready"@) {
        Some(CommandView::IsReady)
    } else if position_command(s) is Some {
        Some(CommandView::Position(position_command(s).unwrap().0, position_command(s).unwrap().1))
    } else if has_prefix_at(s, 0, "stop"@) {
        Some(CommandView::Stop)
    } else if has_prefix_at(s, 0, "quit"@) {
        Some(CommandView::Quit)
    } else if go_command(s) is Some {
        Some(CommandView::Go(go_command(s)->0))
    } else {
        None
    }
}

fn scan_debug(v: &Vec<char>) -> (r: Option<bool>)
    ensures
        r == debug_command(v@),
{
    match after_tag(v, 0, "debug") {
        None => None,
        Some(a) => {
            let b = scan_run(v, a, CharClass::Space);
            if b > a {
                if tag_at(v, b, "on") {
                    Some(true)
                } else if tag_at(v, b, "off") {
                    Some(false)
                } else {
                    None
                }
            } else {
                None
            }
        },
    }
}

fn scan_position(s: &str, v: &Vec<char>) -> (r: Option<(String, Vec<String>)>)
    requires
        v@ == s@,
    ensures
        match position_command(v@) {
            None => r is None,
            Some((fen, moves)) => r matches Some((f, m)) && f@ == fen && m@.map_values(
                |x: String| x@,
            ) == moves,
        },
{
    match after_tag(v, 0, "position") {
        None => None,
        Some(a) => {
            let b = scan_run(v, a, CharClass::Space);
            if b == a {
                return None;
            }
            let board = match scan_fen(s, v, b) {
                Some(x) => Some(x),
                None => match after_tag(v, b, "startpos") {
                    Some(e) => Some((start_position_fen(), e)),
                    None => None,
                },
            };
            match board {
                None => None,
                Some((fen, e)) => {
                    let m = scan_run(v, e, CharClass::Space);
                    let (moves, _end) = scan_moves(s, v, m);
                    Some((fen, moves))
                },
            }
        },
    }
}

fn scan_go_payload(v: &Vec<char>, pos: usize) -> (r: GoPayload)
    requires
        pos <= v@.len(),
    ensures
        r == go_payload(v@, pos as int),
{
    if let Some((Some(n), _)) = scan_keyword_number(v, pos, "perft") {
        if n <= usize::MAX as u64 {
            return GoPayload::Perft(n as usize);
        }
    }
    if let Some((Some(n), _)) = scan_keyword_number(v, pos, "depth") {
        if n <= usize::MAX as u64 {
            return GoPayload::Depth(n as usize);
        }
    }
    if let Some((Some(n), _)) = scan_keyword_number(v, pos, "movetime") {
        return GoPayload::Movetime(n);
    }
    GoPayload::Depth(DEFAULT_DEPTH)
}

fn scan_go(v: &Vec<char>) -> (r: Option<GoPayload>)
    ensures
        r == go_command(v@),
{
    match after_tag(v, 0, "go") {
        None => None,
        Some(a) => {
            let b = scan_run(v, a, CharClass::Space);
            if b > a {
                Some(scan_go_payload(v, b))
            } else {
                None
            }
        },
    }
}

fn unrecognized(s: &str) -> (e: UciParseError)
    ensures
        e.text_spec() == "Error: unrecognized command: "@ + s@,
{
    proof {
        reveal_strlit("Error: unrecognized command: ");
        reveal_strlit("Error: ");
        reveal_strlit("unrecognized command: ");
    }
    let e = UciParseError::Error("unrecognized command: ".to_owned().concat(s));
    assert(e.text_spec() =~= "Error: unrecognized command: "@ + s@);
    e
}

/// Recognises `uci` at the start of `s`.
pub fn parse_uci(s: &str) -> (r: Result<IncomingCommand, UciParseError>)
    ensures
        r is Ok <==> has_prefix_at(s@, 0, "uci"@),
        r matches Ok(c) ==> c == IncomingCommand::Uci,
{
    let v = chars_of(s);
    if tag_at(&v, 0, "uci") {
        Ok(IncomingCommand::Uci)
    } else {
        Err(unrecognized(s))
    }
}

/// Recognises `debug on` or `debug off` at the start of `s`.
pub fn parse_debug(s: &str) -> (r: Result<IncomingCommand, UciParseError>)
    ensures
        r is Ok <==> debug_command(s@) is Some,
        r matches Ok(c) ==> c == IncomingCommand::Debug(debug_command(s@)->0),
{
    let v = chars_of(s);
    match scan_debug(&v) {
        Some(b) => Ok(IncomingCommand::Debug(b)),
        None => Err(unrecognized(s)),
    }
}

/// Recognises `isready` at the start of `s`.
pub fn parse_isready(s: &str) -> (r: Result<IncomingCommand, UciParseError>)
    ensures
        r is Ok <==> has_prefix_at(s@, 0, "isready"@),
        r matches Ok(c) ==> c == IncomingCommand::IsReady,
{
    let v = chars_of(s);
    if tag_at(&v, 0, "isready") {
        Ok(IncomingCommand::IsReady)
    } else {
        Err(unrecognized(s))
    }
}

/// Recognises `ucinewgame` at the start of `s`.
pub fn parse_ucinewgame(s: &str) -> (r: Result<IncomingCommand, UciParseError>)
    ensures
        r is Ok <==> has_prefix_at(s@, 0, "ucinewgame"@),
        r matches Ok(c) ==> c == IncomingCommand::UciNewGame,
{
    let v = chars_of(s);
    if tag_at(&v, 0, "ucinewgame") {
        Ok(IncomingCommand::UciNewGame)
    } else {
        Err(unrecognized(s))
    }
}

/// Recognises `stop` at the start of `s`.
pub fn parse_stop(s: &str) -> (r: Result<IncomingCommand, UciParseError>)
    ensures
        r is Ok <==> has_prefix_at(s@, 0, "stop"@),
        r matches Ok(c) ==> c == IncomingCommand::Stop,
{
    let v = chars_of(s);
    if tag_at(&v, 0, "stop") {
        Ok(IncomingCommand::Stop)
    } else {
        Err(unrecognized(s))
    }
}

/// Recognises `quit` at the start of `s`.
pub fn parse_quit(s: &str) -> (r: Result<IncomingCommand, UciParseError>)
    ensures
        r is Ok <==> has_prefix_at(s@, 0, "quit"@),
        r matches Ok(c) ==> c == IncomingCommand::Quit,
{
    let v = chars_of(s);
    if tag_at(&v, 0, "quit") {
        Ok(IncomingCommand::Quit)
    } else {
        Err(unrecognized(s))
    }
}

/// Recognises a `position` command at the start of `s`.
pub fn parse_position(s: &str) -> (r: Result<IncomingCommand, UciParseError>)
    ensures
        r is Ok <==> position_command(s@) is Some,
        r matches Ok(c) ==> c@ == CommandView::Position(
            position_command(s@).unwrap().0,
            position_command(s@).unwrap().1,
        ),
{
    let v = chars_of(s);
    match scan_position(s, &v) {
        Some((fen, moves)) => Ok(IncomingCommand::Position(fen, moves)),
        None => Err(unrecognized(s)),
    }
}

/// Recognises six FEN fields at the start of `s`, returning them joined by single spaces.
pub fn parse_fen(s: &str) -> (r: Result<String, UciParseError>)
    ensures
        r is Ok <==> fen_fields(s@, 0, 6) is Some,
        r matches Ok(f) ==> f@ == join_fields(fen_fields(s@, 0, 6).unwrap().0),
{
    let v = chars_of(s);
    match scan_fen(s, &v, 0) {
        Some((fen, _)) => Ok(fen),
        None => Err(unrecognized(s)),
    }
}

/// Recognises a move (letters and digits) at the start of `s`.
pub fn parse_move(s: &str) -> (r: Result<String, UciParseError>)
    ensures
        r is Ok <==> run_end(s@, 0, CharClass::Alnum) > 0,
        r matches Ok(m) ==> m@ == s@.subrange(0, run_end(s@, 0, CharClass::Alnum)),
{
    let v = chars_of(s);
    let e = scan_run(&v, 0, CharClass::Alnum);
    if e > 0 {
        Ok(s.substring_char(0, e).to_owned())
    } else {
        Err(unrecognized(s))
    }
}

/// Recognises a `go` command at the start of `s`.
pub fn parse_go(s: &str) -> (r: Result<IncomingCommand, UciParseError>)
    ensures
        r is Ok <==> go_command(s@) is Some,
        r matches Ok(c) ==> c == IncomingCommand::Go(go_command(s@)->0),
{
    let v = chars_of(s);
    match scan_go(&v) {
        Some(g) => Ok(IncomingCommand::Go(g)),
        None => Err(unrecognized(s)),
    }
}

pub struct UciParser();

impl UciParser {
    pub fn new() -> (p: UciParser) {
        UciParser()
    }

    /// Parses one line of input.
    pub fn parse(&self, s: &str) -> (r: Result<IncomingCommand, UciParseError>)
        ensures
            match r {
                Ok(c) => parse_command(s@) == Some(c@),
                Err(e) => parse_command(s@) is None && e.text_spec() == "Error: unrecognized command: "@
                    + s@,
            },
    {
        let v = chars_of(s);
        if tag_at(&v, 0, "ucinewgame") {
            return Ok(IncomingCommand::UciNewGame);
        }
        if tag_at(&v, 0, "uci") {
            return Ok(IncomingCommand::Uci);
        }
        if let Some(b) = scan_debug(&v) {
            return Ok(IncomingCommand::Debug(b));
        }
        if tag_at(&v, 0, "isready") {
            return Ok(IncomingCommand::IsReady);
        }
        if let Some((fen, moves)) = scan_position(s, &v) {
            return Ok(IncomingCommand::Position(fen, moves));
        }
        if tag_at(&v, 0, "stop") {
            return Ok(IncomingCommand::Stop);
        }
        if tag_at(&v, 0, "quit") {
            return Ok(IncomingCommand::Quit);
        }
        if let Some(g) = scan_go(&v) {
            return Ok(IncomingCommand::Go(g));
        }
        Err(unrecognized(s))
    }
}

impl Default for UciParser {
    fn default() -> (p: UciParser) {
        UciParser::new()
    }
}


/// The text of a `go` payload.
pub open spec fn go_payload_text(g: GoPayload) -> Seq<char> {
    match g {
        GoPayload::Depth(d) => "depth "@ + decimal(d as nat),
        GoPayload::Perft(d) => "perft "@ + decimal(d as nat),
        GoPayload::Movetime(t) => "movetime "@ + decimal(t as nat),
    }
}

/// The text of an incoming command. A position is written as its FEN
/// record, followed by its moves when there are any.
pub open spec fn command_text(c: CommandView) -> Seq<char> {
    match c {
        CommandView::Uci => "uci"@,
        CommandView::Debug(d) => if d {
            "debug on"@
        } else {
            "debug off"@
        },
        CommandView::IsReady => "isready"@,
        CommandView::UciNewGame => "ucinewgame"@,
        CommandView::Position(p, mvs) => "position "@ + p + if mvs.len() == 0 {
            Seq::<char>::empty()
        } else {
            seq![' '] + join_fields(mvs)
        },
        CommandView::Stop => "stop"@,
        CommandView::Quit => "quit"@,
        CommandView::SetOption(_, _) => "setoption"@,
        CommandView::Go(g) => "go "@ + go_payload_text(g),
    }
}

impl GoPayload {
    pub fn to_text(&self) -> (s: String)
        ensures
            s@ == go_payload_text(*self),
    {
        let (mut s, n): (String, u64) = match self {
            GoPayload::Depth(d) => ("depth ".to_owned(), *d as u64),
            GoPayload::Perft(d) => ("perft ".to_owned(), *d as u64),
            GoPayload::Movetime(t) => ("movetime ".to_owned(), *t),
        };
        push_decimal(&mut s, n);
        s
    }
}

impl IncomingCommand {
    pub fn to_text(&self) -> (s: String)
        ensures
            s@ == command_text(self@),
    {
        match self {
            IncomingCommand::Uci => "uci".to_owned(),
            IncomingCommand::Debug(d) => if *d {
                "debug on".to_owned()
            } else {
                "debug off".to_owned()
            },
            IncomingCommand::IsReady => "isready".to_owned(),
            IncomingCommand::UciNewGame => "ucinewgame".to_owned(),
            IncomingCommand::Position(p, mvs) => {
                let s = "position ".to_owned().concat(p.as_str());
                if mvs.len() == 0 {
                    s
                } else {
                    let mut s = s;
                    crate::chess::push_char(&mut s, ' ');
                    let j = joined_with_spaces(mvs);
                    s.concat(j.as_str())
                }
            },
            IncomingCommand::Stop => "stop".to_owned(),
            IncomingCommand::Quit => "quit".to_owned(),
            IncomingCommand::SetOption(_, _) => "setoption".to_owned(),
            IncomingCommand::Go(g) => "go ".to_owned().concat(g.to_text().as_str()),
        }
    }
}

/// What the engine tells the GUI.
#[derive(Debug, Clone, Eq, PartialEq)]
pub enum OutgoingCommand {
    Id(&'static str, &'static str),
    UciOk,
    ReadyOk,
    BestMove(String),
    Info(InfoPayload),
    Option,
}

/// The payload of an `info` line.
#[derive(Debug, Clone, Eq, PartialEq)]
pub enum InfoPayload {
    String(String),
    Nps(u64),
}

impl InfoPayload {
    pub open spec fn text_spec(&self) -> Seq<char> {
        match self {
            InfoPayload::String(s) => "string "@ + s@,
            InfoPayload::Nps(n) => "nps "@ + decimal(*n as nat),
        }
    }

    pub fn to_text(&self) -> (s: String)
        ensures
            s@ == self.text_spec(),
    {
        match self {
            InfoPayload::String(s) => "string ".to_owned().concat(s.as_str()),
            InfoPayload::Nps(n) => {
                let mut s = "nps ".to_owned();
                push_decimal(&mut s, *n);
                s
            },
        }
    }
}

impl OutgoingCommand {
    /// The line the engine writes for this command.
    pub open spec fn text_spec(&self) -> Seq<char> {
        match self {
            OutgoingCommand::Id(k, v) => "id "@ + k@ + " "@ + v@,
            OutgoingCommand::UciOk => "uciok"@,
            OutgoingCommand::ReadyOk => "readyok"@,
            OutgoingCommand::BestMove(m) => "bestmove "@ + m@,
            OutgoingCommand::Info(p) => "info "@ + p.text_spec(),
            OutgoingCommand::Option => "option"@,
        }
    }

    pub fn to_text(&self) -> (s: String)
        ensures
            s@ == self.text_spec(),
    {
        match self {
            OutgoingCommand::Id(k, v) => "id ".to_owned().concat(k).concat(" ").concat(v),
            OutgoingCommand::UciOk => "uciok".to_owned(),
            OutgoingCommand::ReadyOk => "readyok".to_owned(),
            OutgoingCommand::BestMove(m) => "bestmove ".to_owned().concat(m.as_str()),
            OutgoingCommand::Info(p) => "info ".to_owned().concat(p.to_text().as_str()),
            OutgoingCommand::Option => "option".to_owned(),
        }
    }
}

/// The note written for a line that is not a command.
pub open spec fn unparsed_note(line: Seq<char>) -> Seq<char> {
    "Could not parse UCI input '"@ + line + "': Error: unrecognized command: "@ + line
}

/// What the input handler makes of one line read: the command it holds, or
/// the note written when it holds none.
pub fn parse_input_line(parser: &UciParser, line: &str) -> (r: Result<IncomingCommand, OutgoingCommand>)
    ensures
        match parse_command(line@) {
            Some(c) => r matches Ok(x) && x@ == c,
            None => r matches Err(OutgoingCommand::Info(InfoPayload::String(s))) && s@
                == unparsed_note(line@),
        },
{
    match parser.parse(line) {
        Ok(c) => Ok(c),
        Err(e) => {
            let note = "Could not parse UCI input '".to_owned().concat(line).concat("': ").concat(
                e.to_text().as_str(),
            );
            proof {
                reveal_strlit("Error: unrecognized command: ");
                reveal_strlit("': ");
                reveal_strlit("': Error: unrecognized command: ");
            }
            assert(note@ =~= unparsed_note(line@));
            Err(OutgoingCommand::Info(InfoPayload::String(note)))
        },
    }
}


/// `go` and the text of a payload read back as that payload.
proof fn lemma_go_text_reads_back(g: GoPayload)
    ensures
        parse_command("go "@ + go_payload_text(g)) == Some(CommandView::Go(g)),
{
    reveal_strlit("go ");
    reveal_strlit("go");
    reveal_strlit("perft ");
    reveal_strlit("depth ");
    reveal_strlit("movetime ");
    reveal_strlit("perft");
    reveal_strlit("depth");
    reveal_strlit("movetime");
    reveal_strlit("ucinewgame");
    reveal_strlit("uci");
    reveal_strlit("debug");
    reveal_strlit("isready");
    reveal_strlit("position");
    reveal_strlit("stop");
    reveal_strlit("quit");
    let s = "go "@ + go_payload_text(g);
    let (kw, n): (Seq<char>, nat) = match g {
        GoPayload::Perft(d) => ("perft"@, d as nat),
        GoPayload::Depth(d) => ("depth"@, d as nat),
        GoPayload::Movetime(t) => ("movetime"@, t as nat),
    };
    assert(go_payload_text(g) =~= kw + seq![' '] + decimal(n));
    assert(s.subrange(3, s.len() as int) =~= kw + seq![' '] + decimal(n));
    assert(s[0] == 'g');
    assert(s[1] == 'o');
    assert(s[2] == ' ');
    assert(s[3] == kw[0]);
    crate::uci_text::lemma_no_prefix(s, 0, "ucinewgame"@, 0);
    crate::uci_text::lemma_no_prefix(s, 0, "uci"@, 0);
    crate::uci_text::lemma_no_prefix(s, 0, "debug"@, 0);
    crate::uci_text::lemma_no_prefix(s, 0, "isready"@, 0);
    crate::uci_text::lemma_no_prefix(s, 0, "position"@, 0);
    crate::uci_text::lemma_no_prefix(s, 0, "stop"@, 0);
    crate::uci_text::lemma_no_prefix(s, 0, "quit"@, 0);
    assert(s.subrange(0, 2) =~= "go"@);
    assert(run_end(s, 3, CharClass::Space) == 3);
    assert(run_end(s, 2, CharClass::Space) == 3);
    crate::uci_text::lemma_keyword_number_reads_back(s, 3, s.len() as int, kw, n);
    match g {
        GoPayload::Perft(_) => {},
        GoPayload::Depth(_) => {
            crate::uci_text::lemma_no_prefix(s, 3, "perft"@, 0);
        },
        GoPayload::Movetime(_) => {
            crate::uci_text::lemma_no_prefix(s, 3, "perft"@, 0);
            crate::uci_text::lemma_no_prefix(s, 3, "depth"@, 0);
        },
    }
}

/// The text written for a command reads back as that command, for every
/// command but `position`, whose board text is read back only when it forms
/// six FEN fields, and `setoption`, which is not read.
pub proof fn law_command_text_reads_back(c: CommandView)
    requires
        !(c is Position),
        !(c is SetOption),
    ensures
        parse_command(command_text(c)) == Some(c),
{
    reveal_strlit("ucinewgame");
    reveal_strlit("uci");
    reveal_strlit("debug");
    reveal_strlit("debug on");
    reveal_strlit("debug off");
    reveal_strlit("on");
    reveal_strlit("off");
    reveal_strlit("isready");
    reveal_strlit("position");
    reveal_strlit("stop");
    reveal_strlit("quit");
    reveal_strlit("go");
    let s = command_text(c);
    match c {
        CommandView::Go(g) => {
            lemma_go_text_reads_back(g);
        },
        CommandView::Uci => {
            assert(s.subrange(0, 3) =~= "uci"@);
        },
        CommandView::UciNewGame => {
            assert(s.subrange(0, 10) =~= "ucinewgame"@);
        },
        CommandView::Debug(b) => {
            crate::uci_text::lemma_no_prefix(s, 0, "ucinewgame"@, 0);
            crate::uci_text::lemma_no_prefix(s, 0, "uci"@, 0);
            assert(s.subrange(0, 5) =~= "debug"@);
            assert(run_end(s, 6, CharClass::Space) == 6);
            assert(run_end(s, 5, CharClass::Space) == 6);
            if b {
                assert(s.subrange(6, 8) =~= "on"@);
            } else {
                crate::uci_text::lemma_no_prefix(s, 6, "on"@, 1);
                assert(s.subrange(6, 9) =~= "off"@);
            }
        },
        CommandView::IsReady => {
            crate::uci_text::lemma_no_prefix(s, 0, "ucinewgame"@, 0);
            crate::uci_text::lemma_no_prefix(s, 0, "uci"@, 0);
            crate::uci_text::lemma_no_prefix(s, 0, "debug"@, 0);
            assert(s.subrange(0, 7) =~= "isready"@);
        },
        CommandView::Stop => {
            crate::uci_text::lemma_no_prefix(s, 0, "ucinewgame"@, 0);
            crate::uci_text::lemma_no_prefix(s, 0, "uci"@, 0);
            crate::uci_text::lemma_no_prefix(s, 0, "debug"@, 0);
            crate::uci_text::lemma_no_prefix(s, 0, "isready"@, 0);
            crate::uci_text::lemma_no_prefix(s, 0, "position"@, 0);
            assert(s.subrange(0, 4) =~= "stop"@);
        },
        CommandView::Quit => {
            crate::uci_text::lemma_no_prefix(s, 0, "ucinewgame"@, 0);
            crate::uci_text::lemma_no_prefix(s, 0, "uci"@, 0);
            crate::uci_text::lemma_no_prefix(s, 0, "debug"@, 0);
            crate::uci_text::lemma_no_prefix(s, 0, "isready"@, 0);
            crate::uci_text::lemma_no_prefix(s, 0, "position"@, 0);
            crate::uci_text::lemma_no_prefix(s, 0, "stop"@, 0);
            assert(s.subrange(0, 4) =~= "quit"@);
        },
        _ => {},
    }
}

} // verus!
