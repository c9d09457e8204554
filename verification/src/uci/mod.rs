//! The UCI command language spoken by the engine: `go` takes any combination
//! of `depth`, `movetime`, `wtime`, `btime`, `winc` and `binc`, and moves
//! follow the keyword `moves`.
//!
//! A position is held as the text of its FEN record, and times as whole
//! milliseconds, the unit in which UCI sends them.
pub mod engine_manager;

use vstd::prelude::*;
use crate::beak::{position_board, start_position_fen};
use crate::uci_text::{
    CharClass, after_tag, chars_of, decimal, fen_fields, has_prefix_at, join_fields,
    joined_with_spaces, keyword_number, move_list, push_decimal, run_end, scan_fen,
    scan_keyword_number, scan_moves, scan_run, tag_at,
};

verus! {

#[derive(Debug)]
pub enum UciParseError {
    Error(String),
}

impl UciParseError {
    /// The error in words: `Error: ` and its message.
    pub open spec fn text_spec(&self) -> Seq<char> {
        match self {
            UciParseError::Error(m) => "Error: "@ + m@,
        }
    }

    pub fn to_text(&self) -> (s: String)
        ensures
            s@ == self.text_spec(),
    {
        match self {
            UciParseError::Error(m) => "Error: ".to_owned().concat(m.as_str()),
        }
    }
}

#[derive(Debug, Clone, PartialEq, Eq)]
pub enum IncomingCommand {
    Uci,
    Debug(bool),
    IsReady,
    UciNewGame,
    /// A position, as the text of its FEN record, and the moves played from it.
    Position(String, Vec<String>),
    Go(GoPayload),
    Stop,
    Quit,
}

/// The limits of a search; times are in milliseconds.
#[derive(Debug, Clone, Copy, PartialEq, Eq)]
pub struct GoPayload {
    pub depth: Option<usize>,
    pub move_time: Option<u64>,
    pub wtime: Option<u64>,
    pub winc: Option<u64>,
    pub btime: Option<u64>,
    pub binc: Option<u64>,
}

pub open spec fn empty_payload() -> GoPayload {
    GoPayload {
        depth: None,
        move_time: None,
        wtime: None,
        winc: None,
        btime: None,
        binc: None,
    }
}

impl Default for GoPayload {
    fn default() -> (g: GoPayload)
        ensures
            g == empty_payload(),
    {
        GoPayload { depth: None, move_time: None, wtime: None, winc: None, btime: None, binc: None }
    }
}

/// One item of the payload of `go`; times are in milliseconds.
#[derive(Debug, Clone, Copy, PartialEq, Eq)]
pub enum GoPayloadOption {
    Depth(usize),
    MoveTime(u64),
    WTime(u64),
    BTime(u64),
    WInc(u64),
    BInc(u64),
}

/// An incoming command with its strings taken as sequences of characters.
pub enum CommandView {
    Uci,
    Debug(bool),
    IsReady,
    UciNewGame,
    Position(Seq<char>, Seq<Seq<char>>),
    Go(GoPayload),
    Stop,
    Quit,
}

impl View for IncomingCommand {
    type V = CommandView;

    open spec fn view(&self) -> CommandView {
        match self {
            IncomingCommand::Uci => CommandView::Uci,
            IncomingCommand::Debug(b) => CommandView::Debug(*b),
            IncomingCommand::IsReady => CommandView::IsReady,
            IncomingCommand::UciNewGame => CommandView::UciNewGame,
            IncomingCommand::Position(p, m) => CommandView::Position(
                p@,
                m@.map_values(|x: String| x@),
            ),
            IncomingCommand::Go(g) => CommandView::Go(*g),
            IncomingCommand::Stop => CommandView::Stop,
            IncomingCommand::Quit => CommandView::Quit,
        }
    }
}

/// `debug`, spaces, then `on` or `off`.
pub open spec fn debug_command(s: Seq<char>) -> Option<bool> {
    crate::beak::debug_command(s)
}

/// The moves of a `position` command: after optional spaces, the keyword
/// `moves`, spaces, and the moves; no moves when the keyword is missing.
pub open spec fn moves_clause(s: Seq<char>, pos: int) -> Seq<Seq<char>> {
    let a = run_end(s, pos, CharClass::Space);
    let b = a + "moves"@.len();
    let c = run_end(s, b, CharClass::Space);
    if has_prefix_at(s, a, "moves"@) && c > b {
        move_list(s, c).0
    } else {
        Seq::empty()
    }
}

/// `position`, spaces, a board, and its moves.
pub open spec fn position_command(s: Seq<char>) -> Option<(Seq<char>, Seq<Seq<char>>)> {
    let a = "position"@.len() as int;
    let b = run_end(s, a, CharClass::Space);
    if has_prefix_at(s, 0, "position"@) && b > a {
        match position_board(s, b) {
            Some((fen, e)) => Some((fen, moves_clause(s, e))),
            None => None,
        }
    } else {
        None
    }
}

/// The first of `depth n`, `movetime n`, `wtime n`, `btime n`, `winc n`,
/// `binc n` at `pos` whose number fits its type, and the position after it.
pub open spec fn go_option(s: Seq<char>, pos: int) -> Option<(GoPayloadOption, int)> {
    let depth = keyword_number(s, pos, "depth"@);
    let movetime = keyword_number(s, pos, "movetime"@);
    let wtime = keyword_number(s, pos, "wtime"@);
    let btime = keyword_number(s, pos, "btime"@);
    let winc = keyword_number(s, pos, "winc"@);
    let binc = keyword_number(s, pos, "binc"@);
    if depth is Some && depth.unwrap().0 <= usize::MAX {
        Some((GoPayloadOption::Depth(depth.unwrap().0 as usize), depth.unwrap().1))
    } else if movetime is Some && movetime.unwrap().0 <= u64::MAX {
        Some((GoPayloadOption::MoveTime(movetime.unwrap().0 as u64), movetime.unwrap().1))
    } else if wtime is Some && wtime.unwrap().0 <= u64::MAX {
        Some((GoPayloadOption::WTime(wtime.unwrap().0 as u64), wtime.unwrap().1))
    } else if btime is Some && btime.unwrap().0 <= u64::MAX {
        Some((GoPayloadOption::BTime(btime.unwrap().0 as u64), btime.unwrap().1))
    } else if winc is Some && winc.unwrap().0 <= u64::MAX {
        Some((GoPayloadOption::WInc(winc.unwrap().0 as u64), winc.unwrap().1))
    } else if binc is Some && binc.unwrap().0 <= u64::MAX {
        Some((GoPayloadOption::BInc(binc.unwrap().0 as u64), binc.unwrap().1))
    } else {
        None
    }
}

/// The payload `g` with the field that `o` names set to its value.
pub open spec fn with_option(g: GoPayload, o: GoPayloadOption) -> GoPayload {
    match o {
        GoPayloadOption::Depth(d) => GoPayload { depth: Some(d), ..g },
        GoPayloadOption::MoveTime(t) => GoPayload { move_time: Some(t), ..g },
        GoPayloadOption::WTime(t) => GoPayload { wtime: Some(t), ..g },
        GoPayloadOption::BTime(t) => GoPayload { btime: Some(t), ..g },
        GoPayloadOption::WInc(t) => GoPayload { winc: Some(t), ..g },
        GoPayloadOption::BInc(t) => GoPayload { binc: Some(t), ..g },
    }
}

pub proof fn lemma_go_option_bounds(s: Seq<char>, pos: int)
    requires
        0 <= pos <= s.len(),
    ensures
        go_option(s, pos) matches Some((o, e)) ==> pos < e <= s.len(),
{
    let kws = seq!["depth"@, "movetime"@, "wtime"@, "btime"@, "winc"@, "binc"@];
    assert forall|i: int| 0 <= i < 6 implies (keyword_number(s, pos, #[trigger] kws[i]) matches Some(
        (n, e),
    ) ==> pos < e <= s.len()) by {
        let kw = kws[i];
        if has_prefix_at(s, pos, kw) {
            let a = pos + kw.len();
            crate::uci_text::lemma_run_end_bounds(s, a, CharClass::Space);
            let b = run_end(s, a, CharClass::Space);
            crate::uci_text::lemma_run_end_bounds(s, b, CharClass::Digit);
        }
    }
    assert(kws[0] == "depth"@);
    assert(kws[1] == "movetime"@);
    assert(kws[2] == "wtime"@);
    assert(kws[3] == "btime"@);
    assert(kws[4] == "winc"@);
    assert(kws[5] == "binc"@);
}

/// Further payload items, each after one or more spaces, folded into `acc`;
/// the list ends before the first spaces that no item follows.
pub open spec fn go_options_from(s: Seq<char>, pos: int, acc: GoPayload) -> GoPayload
    decreases s.len() - pos,
{
    if pos < 0 || pos >= s.len() {
        acc
    } else {
        let sp = run_end(s, pos, CharClass::Space);
        if sp == pos {
            acc
        } else {
            proof {
                crate::uci_text::lemma_run_end_bounds(s, pos, CharClass::Space);
                lemma_go_option_bounds(s, sp);
            }
            match go_option(s, sp) {
                None => acc,
                Some((o, e)) => go_options_from(s, e, with_option(acc, o)),
            }
        }
    }
}

/// One or more payload items separated by spaces, at `pos`.
pub open spec fn go_payload(s: Seq<char>, pos: int) -> Option<GoPayload> {
    match go_option(s, pos) {
        None => None,
        Some((o, e)) => Some(go_options_from(s, e, with_option(empty_payload(), o))),
    }
}

/// `go`, spaces, and a payload.
pub open spec fn go_command(s: Seq<char>) -> Option<GoPayload> {
    let a = "go"@.len() as int;
    let b = run_end(s, a, CharClass::Space);
    if has_prefix_at(s, 0, "go"@) && b > a {
        go_payload(s, b)
    } else {
        None
    }
}

/// The command that a line starts with, trying in turn `ucinewgame`, `uci`,
/// `debug`, `isready`, `position`, `stop`, `quit` (or `exit`) and `go`; what
/// follows the command is ignored.
pub open spec fn parse_command(s: Seq<char>) -> Option<CommandView> {
    if has_prefix_at(s, 0, "ucinewgame"@) {
        Some(CommandView::UciNewGame)
    } else if has_prefix_at(s, 0, "uci"@) {
        Some(CommandView::Uci)
    } else if debug_command(s) is Some {
        Some(CommandView::Debug(debug_command(s).unwrap()))
    } else if has_prefix_at(s, 0, "isready"@) {
        Some(CommandView::IsReady)
    } else if position_command(s) is Some {
        Some(CommandView::Position(position_command(s).unwrap().0, position_command(s).unwrap().1))
    } else if has_prefix_at(s, 0, "stop"@) {
        Some(CommandView::Stop)
    } else if has_prefix_at(s, 0, "quit"@) || has_prefix_at(s, 0, "exit"@) {
        Some(CommandView::Quit)
    } else if go_command(s) is Some {
        Some(CommandView::Go(go_command(s).unwrap()))
    } else {
        None
    }
}

fn apply_option(g: GoPayload, o: GoPayloadOption) -> (r: GoPayload)
    ensures
        r == with_option(g, o),
{
    match o {
        GoPayloadOption::Depth(d) => GoPayload { depth: Some(d), ..g },
        GoPayloadOption::MoveTime(t) => GoPayload { move_time: Some(t), ..g },
        GoPayloadOption::WTime(t) => GoPayload { wtime: Some(t), ..g },
        GoPayloadOption::BTime(t) => GoPayload { btime: Some(t), ..g },
        GoPayloadOption::WInc(t) => GoPayload { winc: Some(t), ..g },
        GoPayloadOption::BInc(t) => GoPayload { binc: Some(t), ..g },
    }
}

fn scan_time(v: &Vec<char>, pos: usize, kw: &str) -> (r: Option<(u64, usize)>)
    requires
        pos <= v@.len(),
    ensures
        match keyword_number(v@, pos as int, kw@) {
            Some((n, e)) => if n <= u64::MAX {
                r matches Some((x, f)) && x == n && f == e
            } else {
                r is None
            },
            None => r is None,
        },
        r matches Some((_, e)) ==> e <= v@.len(),
{
    match scan_keyword_number(v, pos, kw) {
        Some((Some(n), e)) => Some((n, e)),
        _ => None,
    }
}

fn scan_go_option(v: &Vec<char>, pos: usize) -> (r: Option<(GoPayloadOption, usize)>)
    requires
        pos <= v@.len(),
    ensures
        match go_option(v@, pos as int) {
            Some((o, e)) => r matches Some((o2, f)) && o2 == o && f == e && e <= v@.len(),
            None => r is None,
        },
{
    if let Some((Some(n), e)) = scan_keyword_number(v, pos, "depth") {
        if n <= usize::MAX as u64 {
            return Some((GoPayloadOption::Depth(n as usize), e));
        }
    }
    if let Some((n, e)) = scan_time(v, pos, "movetime") {
        return Some((GoPayloadOption::MoveTime(n), e));
    }
    if let Some((n, e)) = scan_time(v, pos, "wtime") {
        return Some((GoPayloadOption::WTime(n), e));
    }
    if let Some((n, e)) = scan_time(v, pos, "btime") {
        return Some((GoPayloadOption::BTime(n), e));
    }
    if let Some((n, e)) = scan_time(v, pos, "winc") {
        return Some((GoPayloadOption::WInc(n), e));
    }
    if let Some((n, e)) = scan_time(v, pos, "binc") {
        return Some((GoPayloadOption::BInc(n), e));
    }
    None
}

fn scan_go_payload(v: &Vec<char>, pos: usize) -> (r: Option<GoPayload>)
    requires
        pos <= v@.len(),
    ensures
        r == go_payload(v@, pos as int),
{
    let (o, e) = match scan_go_option(v, pos) {
        None => {
            return None;
        },
        Some(x) => x,
    };
    let mut acc = apply_option(GoPayload::default(), o);
    let mut p = e;
    loop
        invariant
            p <= v@.len(),
            go_payload(v@, pos as int) == Some(go_options_from(v@, p as int, acc)),
        decreases v@.len() - p,
    {
        if p >= v.len() {
            return Some(acc);
        }
        let sp = scan_run(v, p, CharClass::Space);
        if sp == p {
            return Some(acc);
        }
        proof {
            lemma_go_option_bounds(v@, sp as int);
        }
        match scan_go_option(v, sp) {
            None => {
                return Some(acc);
            },
            Some((o2, e2)) => {
                acc = apply_option(acc, o2);
                p = e2;
            },
        }
    }
}

fn scan_go(v: &Vec<char>) -> (r: Option<GoPayload>)
    ensures
        r == go_command(v@),
{
    match after_tag(v, 0, "go") {
        None => None,
        Some(a) => {
            let b = scan_run(v, a, CharClass::Space);
            if b > a {
                scan_go_payload(v, b)
            } else {
                None
            }
        },
    }
}

fn scan_moves_clause(s: &str, v: &Vec<char>, pos: usize) -> (r: Vec<String>)
    requires
        v@ == s@,
        pos <= v@.len(),
    ensures
        r@.map_values(|x: String| x@) == moves_clause(v@, pos as int),
{
    let a = scan_run(v, pos, CharClass::Space);
    match after_tag(v, a, "moves") {
        None => Vec::new(),
        Some(b) => {
            let c = scan_run(v, b, CharClass::Space);
            if c > b {
                let (moves, _end) = scan_moves(s, v, c);
                moves
            } else {
                let r: Vec<String> = Vec::new();
                assert(r@.map_values(|x: String| x@) =~= Seq::<Seq<char>>::empty());
                r
            }
        },
    }
}

fn scan_position(s: &str, v: &Vec<char>) -> (r: Option<(String, Vec<String>)>)
    requires
        v@ == s@,
    ensures
        match position_command(v@) {
            None => r is None,
            Some((fen, moves)) => r matches Some((f, m)) && f@ == fen && m@.map_values(
                |x: String| x@,
            ) == moves,
        },
{
    match after_tag(v, 0, "position") {
        None => None,
        Some(a) => {
            let b = scan_run(v, a, CharClass::Space);
            if b == a {
                return None;
            }
            let board = match scan_fen(s, v, b) {
                Some(x) => Some(x),
                None => match after_tag(v, b, "startpos") {
                    Some(e) => Some((start_position_fen(), e)),
                    None => None,
                },
            };
            match board {
                None => None,
                Some((fen, e)) => Some((fen, scan_moves_clause(s, v, e))),
            }
        },
    }
}

fn unrecognized(s: &str) -> (e: UciParseError)
    ensures
        e.text_spec() == "Error: unrecognized command: "@ + s@,
{
    proof {
        reveal_strlit("Error: unrecognized command: ");
        reveal_strlit("Error: ");
        reveal_strlit("unrecognized command: ");
    }
    let e = UciParseError::Error("unrecognized command: ".to_owned().concat(s));
    assert(e.text_spec() =~= "Error: unrecognized command: "@ + s@);
    e
}

/// Recognises `uci` at the start of `s`.
pub fn parse_uci(s: &str) -> (r: Result<IncomingCommand, UciParseError>)
    ensures
        r is Ok <==> has_prefix_at(s@, 0, "uci"@),
        r matches Ok(c) ==> c == IncomingCommand::Uci,
{
    let v = chars_of(s);
    if tag_at(&v, 0, "uci") {
        Ok(IncomingCommand::Uci)
    } else {
        Err(unrecognized(s))
    }
}

/// Recognises `debug on` or `debug off` at the start of `s`.
pub fn parse_debug(s: &str) -> (r: Result<IncomingCommand, UciParseError>)
    ensures
        r is Ok <==> debug_command(s@) is Some,
        r matches Ok(c) ==> c == IncomingCommand::Debug(debug_command(s@).unwrap()),
{
    match crate::beak::parse_debug(s) {
        Ok(crate::beak::IncomingCommand::Debug(b)) => Ok(IncomingCommand::Debug(b)),
        _ => Err(unrecognized(s)),
    }
}

/// Recognises `isready` at the start of `s`.
pub fn parse_isready(s: &str) -> (r: Result<IncomingCommand, UciParseError>)
    ensures
        r is Ok <==> has_prefix_at(s@, 0, "isready"@),
        r matches Ok(c) ==> c == IncomingCommand::IsReady,
{
    let v = chars_of(s);
    if tag_at(&v, 0, "isready") {
        Ok(IncomingCommand::IsReady)
    } else {
        Err(unrecognized(s))
    }
}

/// Recognises `ucinewgame` at the start of `s`.
pub fn parse_ucinewgame(s: &str) -> (r: Result<IncomingCommand, UciParseError>)
    ensures
        r is Ok <==> has_prefix_at(s@, 0, "ucinewgame"@),
        r matches Ok(c) ==> c == IncomingCommand::UciNewGame,
{
    let v = chars_of(s);
    if tag_at(&v, 0, "ucinewgame") {
        Ok(IncomingCommand::UciNewGame)
    } else {
        Err(unrecognized(s))
    }
}

/// Recognises `stop` at the start of `s`.
pub fn parse_stop(s: &str) -> (r: Result<IncomingCommand, UciParseError>)
    ensures
        r is Ok <==> has_prefix_at(s@, 0, "stop"@),
        r matches Ok(c) ==> c == IncomingCommand::Stop,
{
    let v = chars_of(s);
    if tag_at(&v, 0, "stop") {
        Ok(IncomingCommand::Stop)
    } else {
        Err(unrecognized(s))
    }
}

/// Recognises `quit` or `exit` at the start of `s`.
pub fn parse_quit(s: &str) -> (r: Result<IncomingCommand, UciParseError>)
    ensures
        r is Ok <==> has_prefix_at(s@, 0, "quit"@) || has_prefix_at(s@, 0, "exit"@),
        r matches Ok(c) ==> c == IncomingCommand::Quit,
{
    let v = chars_of(s);
    if tag_at(&v, 0, "quit") || tag_at(&v, 0, "exit") {
        Ok(IncomingCommand::Quit)
    } else {
        Err(unrecognized(s))
    }
}

/// Recognises a `position` command at the start of `s`.
pub fn parse_position(s: &str) -> (r: Result<IncomingCommand, UciParseError>)
    ensures
        r is Ok <==> position_command(s@) is Some,
        r matches Ok(c) ==> c@ == CommandView::Position(
            position_command(s@).unwrap().0,
            position_command(s@).unwrap().1,
        ),
{
    let v = chars_of(s);
    match scan_position(s, &v) {
        Some((fen, moves)) => Ok(IncomingCommand::Position(fen, moves)),
        None => Err(unrecognized(s)),
    }
}

/// Recognises a `go` command at the start of `s`.
pub fn parse_go(s: &str) -> (r: Result<IncomingCommand, UciParseError>)
    ensures
        r is Ok <==> go_command(s@) is Some,
        r matches Ok(c) ==> c == IncomingCommand::Go(go_command(s@).unwrap()),
{
    let v = chars_of(s);
    match scan_go(&v) {
        Some(g) => Ok(IncomingCommand::Go(g)),
        None => Err(unrecognized(s)),
    }
}

/// Reads the move at the start of `s`: its letters and digits.
pub fn parse_move(s: &str) -> (r: Result<String, UciParseError>)
    ensures
        r is Ok <==> run_end(s@, 0, CharClass::Alnum) > 0,
        r matches Ok(m) ==> m@ == s@.subrange(0, run_end(s@, 0, CharClass::Alnum)),
{
    let v = chars_of(s);
    let e = scan_run(&v, 0, CharClass::Alnum);
    if e > 0 {
        Ok(s.substring_char(0, e).to_owned())
    } else {
        Err(unrecognized(s))
    }
}

pub struct UciParser();

impl UciParser {
    pub fn new() -> (p: UciParser) {
        UciParser()
    }

    /// Parses one line of input.
    pub fn parse(&self, s: &str) -> (r: Result<IncomingCommand, UciParseError>)
        ensures
            match r {
                Ok(c) => parse_command(s@) == Some(c@),
                Err(e) => parse_command(s@) is None && e.text_spec() == "Error: unrecognized command: "@
                    + s@,
            },
    {
        let v = chars_of(s);
        if tag_at(&v, 0, "ucinewgame") {
            return Ok(IncomingCommand::UciNewGame);
        }
        if tag_at(&v, 0, "uci") {
            return Ok(IncomingCommand::Uci);
        }
        if let Ok(crate::beak::IncomingCommand::Debug(b)) = crate::beak::parse_debug(s) {
            return Ok(IncomingCommand::Debug(b));
        }
        if tag_at(&v, 0, "isready") {
            return Ok(IncomingCommand::IsReady);
        }
        if let Some((fen, moves)) = scan_position(s, &v) {
            return Ok(IncomingCommand::Position(fen, moves));
        }
        if tag_at(&v, 0, "stop") {
            return Ok(IncomingCommand::Stop);
        }
        if tag_at(&v, 0, "quit") || tag_at(&v, 0, "exit") {
            return Ok(IncomingCommand::Quit);
        }
        if let Some(g) = scan_go(&v) {
            return Ok(IncomingCommand::Go(g));
        }
        Err(unrecognized(s))
    }
}

impl Default for UciParser {
    fn default() -> (p: UciParser) {
        UciParser::new()
    }
}


/// `label`, the number `n` and a space, when there is a number.
pub open spec fn field_text(label: Seq<char>, n: Option<u64>) -> Seq<char> {
    match n {
        Some(x) => label + decimal(x as nat) + seq![' '],
        None => Seq::empty(),
    }
}

/// The text of a `go` payload: each limit that is set, in a fixed order,
/// each followed by a space.
pub open spec fn go_payload_text(g: GoPayload) -> Seq<char> {
    field_text("depth "@, match g.depth {
        Some(d) => Some(d as u64),
        None => None,
    }) + field_text("movetime "@, g.move_time) + field_text("wtime "@, g.wtime) + field_text(
        "winc "@,
        g.winc,
    ) + field_text("btime "@, g.btime) + field_text("binc "@, g.binc)
}

/// The text of an incoming command. A position is written as its FEN
/// record, followed by its moves when there are any.
pub open spec fn command_text(c: CommandView) -> Seq<char> {
    match c {
        CommandView::Uci => "uci"@,
        CommandView::Debug(d) => if d {
            "debug on"@
        } else {
            "debug off"@
        },
        CommandView::IsReady => "isready"@,
        CommandView::UciNewGame => "ucinewgame"@,
        CommandView::Position(p, mvs) => "position "@ + p + if mvs.len() == 0 {
            Seq::<char>::empty()
        } else {
            seq![' '] + join_fields(mvs)
        },
        CommandView::Stop => "stop"@,
        CommandView::Quit => "quit"@,
        CommandView::Go(g) => "go "@ + go_payload_text(g),
    }
}

fn push_field(s: &mut String, label: &str, n: Option<u64>)
    ensures
        final(s)@ == old(s)@ + field_text(label@, n),
{
    if let Some(x) = n {
        let mut t = String::new();
        std::mem::swap(&mut t, s);
        let mut t = t.concat(label);
        push_decimal(&mut t, x);
        crate::chess::push_char(&mut t, ' ');
        *s = t;
        assert(final(s)@ =~= old(s)@ + field_text(label@, n));
    } else {
        assert(final(s)@ =~= old(s)@ + field_text(label@, n));
    }
}

impl GoPayload {
    pub fn to_text(&self) -> (s: String)
        ensures
            s@ == go_payload_text(*self),
    {
        let mut s = String::new();
        let depth: Option<u64> = match self.depth {
            Some(d) => Some(d as u64),
            None => None,
        };
        push_field(&mut s, "depth ", depth);
        push_field(&mut s, "movetime ", self.move_time);
        push_field(&mut s, "wtime ", self.wtime);
        push_field(&mut s, "winc ", self.winc);
        push_field(&mut s, "btime ", self.btime);
        push_field(&mut s, "binc ", self.binc);
        assert(s@ =~= go_payload_text(*self));
        s
    }
}

impl IncomingCommand {
    pub fn to_text(&self) -> (s: String)
        ensures
            s@ == command_text(self@),
    {
        match self {
            IncomingCommand::Uci => "uci".to_owned(),
            IncomingCommand::Debug(d) => if *d {
                "debug on".to_owned()
            } else {
                "debug off".to_owned()
            },
            IncomingCommand::IsReady => "isready".to_owned(),
            IncomingCommand::UciNewGame => "ucinewgame".to_owned(),
            IncomingCommand::Position(p, mvs) => {
                let s = "position ".to_owned().concat(p.as_str());
                if mvs.len() == 0 {
                    s
                } else {
                    let mut s = s;
                    crate::chess::push_char(&mut s, ' ');
                    let j = joined_with_spaces(mvs);
                    s.concat(j.as_str())
                }
            },
            IncomingCommand::Stop => "stop".to_owned(),
            IncomingCommand::Quit => "quit".to_owned(),
            IncomingCommand::Go(g) => "go ".to_owned().concat(g.to_text().as_str()),
        }
    }
}

/// What the engine tells the GUI.
#[derive(Debug, Clone, Eq, PartialEq)]
pub enum OutgoingCommand {
    Id(&'static str, &'static str),
    UciOk,
    ReadyOk,
    BestMove(String),
    Info(InfoPayload),
}

/// The payload of an `info` line.
#[derive(Debug, Clone, Eq, PartialEq)]
pub enum InfoPayload {
    String(String),
}

impl InfoPayload {
    pub open spec fn text_spec(&self) -> Seq<char> {
        match self {
            InfoPayload::String(s) => "string "@ + s@,
        }
    }

    pub fn to_text(&self) -> (s: String)
        ensures
            s@ == self.text_spec(),
    {
        match self {
            InfoPayload::String(s) => "string ".to_owned().concat(s.as_str()),
        }
    }
}

impl OutgoingCommand {
    /// The line the engine writes for this command.
    pub open spec fn text_spec(&self) -> Seq<char> {
        match self {
            OutgoingCommand::Id(k, v) => "id "@ + k@ + " "@ + v@,
            OutgoingCommand::UciOk => "uciok"@,
            OutgoingCommand::ReadyOk => "readyok"@,
            OutgoingCommand::BestMove(m) => "bestmove "@ + m@,
            OutgoingCommand::Info(p) => "info "@ + p.text_spec(),
        }
    }

    pub fn to_text(&self) -> (s: String)
        ensures
            s@ == self.text_spec(),
    {
        match self {
            OutgoingCommand::Id(k, v) => "id ".to_owned().concat(k).concat(" ").concat(v),
            OutgoingCommand::UciOk => "uciok".to_owned(),
            OutgoingCommand::ReadyOk => "readyok".to_owned(),
            OutgoingCommand::BestMove(m) => "bestmove ".to_owned().concat(m.as_str()),
            OutgoingCommand::Info(p) => "info ".to_owned().concat(p.to_text().as_str()),
        }
    }
}

/// The note written for a line that is not a command, given the line without
/// its trailing whitespace.
pub open spec fn unparsed_note(line: Seq<char>) -> Seq<char> {
    "Could not parse UCI input '"@ + line + "': Error: unrecognized command: "@ + line
}

/// What the input handler makes of one line read: the command that the line
/// holds once its trailing whitespace is cut off, or the note written when
/// it holds none.
pub fn parse_input_line(parser: &UciParser, line: &str) -> (r: Result<IncomingCommand, OutgoingCommand>)
    ensures
        match parse_command(crate::uci_text::trimmed_end(line@)) {
            Some(c) => r matches Ok(x) && x@ == c,
            None => r matches Err(OutgoingCommand::Info(InfoPayload::String(s))) && s@
                == unparsed_note(crate::uci_text::trimmed_end(line@)),
        },
{
    let t = crate::uci_text::trim_end(line);
    match parser.parse(t) {
        Ok(c) => Ok(c),
        Err(e) => {
            let note = "Could not parse UCI input '".to_owned().concat(t).concat("': ").concat(
                e.to_text().as_str(),
            );
            proof {
                reveal_strlit("Error: unrecognized command: ");
                reveal_strlit("': ");
                reveal_strlit("': Error: unrecognized command: ");
            }
            assert(note@ =~= unparsed_note(t@));
            Err(OutgoingCommand::Info(InfoPayload::String(note)))
        },
    }
}


/// The keyword of a payload item.
pub open spec fn option_keyword(o: GoPayloadOption) -> Seq<char> {
    match o {
        GoPayloadOption::Depth(_) => "depth"@,
        GoPayloadOption::MoveTime(_) => "movetime"@,
        GoPayloadOption::WTime(_) => "wtime"@,
        GoPayloadOption::BTime(_) => "btime"@,
        GoPayloadOption::WInc(_) => "winc"@,
        GoPayloadOption::BInc(_) => "binc"@,
    }
}

/// The number of a payload item.
pub open spec fn option_value(o: GoPayloadOption) -> nat {
    match o {
        GoPayloadOption::Depth(d) => d as nat,
        GoPayloadOption::MoveTime(t) => t as nat,
        GoPayloadOption::WTime(t) => t as nat,
        GoPayloadOption::BTime(t) => t as nat,
        GoPayloadOption::WInc(t) => t as nat,
        GoPayloadOption::BInc(t) => t as nat,
    }
}

/// The text of a payload item: its keyword, its number, and a space after each.
pub open spec fn option_text(o: GoPayloadOption) -> Seq<char> {
    option_keyword(o) + seq![' '] + decimal(option_value(o)) + seq![' ']
}

/// The texts of the items `os`, one after the other.
pub open spec fn options_text(os: Seq<GoPayloadOption>) -> Seq<char>
    decreases os.len(),
{
    if os.len() == 0 {
        Seq::empty()
    } else {
        option_text(os[0]) + options_text(os.drop_first())
    }
}

/// `acc` with the items `os` set in turn.
pub open spec fn fold_options(acc: GoPayload, os: Seq<GoPayloadOption>) -> GoPayload
    decreases os.len(),
{
    if os.len() == 0 {
        acc
    } else {
        fold_options(with_option(acc, os[0]), os.drop_first())
    }
}

/// The item for a field, when the field is set.
pub open spec fn option_seq(o: Option<GoPayloadOption>) -> Seq<GoPayloadOption> {
    match o {
        Some(x) => seq![x],
        None => Seq::empty(),
    }
}

/// The items of a payload, in the order its text writes them.
pub open spec fn payload_options(g: GoPayload) -> Seq<GoPayloadOption> {
    option_seq(
        match g.depth {
            Some(d) => Some(GoPayloadOption::Depth(d)),
            None => None,
        },
    ) + option_seq(
        match g.move_time {
            Some(t) => Some(GoPayloadOption::MoveTime(t)),
            None => None,
        },
    ) + option_seq(
        match g.wtime {
            Some(t) => Some(GoPayloadOption::WTime(t)),
            None => None,
        },
    ) + option_seq(
        match g.winc {
            Some(t) => Some(GoPayloadOption::WInc(t)),
            None => None,
        },
    ) + option_seq(
        match g.btime {
            Some(t) => Some(GoPayloadOption::BTime(t)),
            None => None,
        },
    ) + option_seq(
        match g.binc {
            Some(t) => Some(GoPayloadOption::BInc(t)),
            None => None,
        },
    )
}

proof fn lemma_options_text_append(a: Seq<GoPayloadOption>, b: Seq<GoPayloadOption>)
    ensures
        options_text(a + b) == options_text(a) + options_text(b),
    decreases a.len(),
{
    if a.len() == 0 {
        assert(a + b =~= b);
        assert(options_text(a) + options_text(b) =~= options_text(b));
    } else {
        lemma_options_text_append(a.drop_first(), b);
        assert((a + b).drop_first() =~= a.drop_first() + b);
        assert(options_text(a + b) =~= options_text(a) + options_text(b));
    }
}

proof fn lemma_fold_options_append(acc: GoPayload, a: Seq<GoPayloadOption>, b: Seq<GoPayloadOption>)
    ensures
        fold_options(acc, a + b) == fold_options(fold_options(acc, a), b),
    decreases a.len(),
{
    if a.len() == 0 {
        assert(a + b =~= b);
    } else {
        lemma_fold_options_append(with_option(acc, a[0]), a.drop_first(), b);
        assert((a + b).drop_first() =~= a.drop_first() + b);
    }
}

proof fn lemma_field_text(label: Seq<char>, o: Option<GoPayloadOption>, n: Option<u64>)
    requires
        n is None <==> o is None,
        o matches Some(x) ==> label == option_keyword(x) + seq![' '] && n.unwrap() as nat
            == option_value(x),
    ensures
        field_text(label, n) == options_text(option_seq(o)),
{
    reveal_with_fuel(options_text, 2);
    if let Some(x) = o {
        assert(seq![x].drop_first() =~= Seq::<GoPayloadOption>::empty());
        assert(field_text(label, n) =~= options_text(option_seq(o)));
    }
}

/// The text of a payload is the text of its items.
proof fn lemma_payload_text(g: GoPayload)
    ensures
        go_payload_text(g) == options_text(payload_options(g)),
        fold_options(empty_payload(), payload_options(g)) == g,
{
    reveal_strlit("depth ");
    reveal_strlit("depth");
    reveal_strlit("movetime ");
    reveal_strlit("movetime");
    reveal_strlit("wtime ");
    reveal_strlit("wtime");
    reveal_strlit("winc ");
    reveal_strlit("winc");
    reveal_strlit("btime ");
    reveal_strlit("btime");
    reveal_strlit("binc ");
    reveal_strlit("binc");
    let o1 = match g.depth {
        Some(d) => Some(GoPayloadOption::Depth(d)),
        None => None,
    };
    let o2 = match g.move_time {
        Some(t) => Some(GoPayloadOption::MoveTime(t)),
        None => None,
    };
    let o3 = match g.wtime {
        Some(t) => Some(GoPayloadOption::WTime(t)),
        None => None,
    };
    let o4 = match g.winc {
        Some(t) => Some(GoPayloadOption::WInc(t)),
        None => None,
    };
    let o5 = match g.btime {
        Some(t) => Some(GoPayloadOption::BTime(t)),
        None => None,
    };
    let o6 = match g.binc {
        Some(t) => Some(GoPayloadOption::BInc(t)),
        None => None,
    };
    let d64: Option<u64> = match g.depth {
        Some(d) => Some(d as u64),
        None => None,
    };
    assert("depth "@ =~= "depth"@ + seq![' ']);
    lemma_field_text("depth "@, o1, d64);
    assert("movetime "@ =~= "movetime"@ + seq![' ']);
    lemma_field_text("movetime "@, o2, g.move_time);
    assert("wtime "@ =~= "wtime"@ + seq![' ']);
    lemma_field_text("wtime "@, o3, g.wtime);
    assert("winc "@ =~= "winc"@ + seq![' ']);
    lemma_field_text("winc "@, o4, g.winc);
    assert("btime "@ =~= "btime"@ + seq![' ']);
    lemma_field_text("btime "@, o5, g.btime);
    assert("binc "@ =~= "binc"@ + seq![' ']);
    lemma_field_text("binc "@, o6, g.binc);
    let s1 = option_seq(o1);
    let s2 = option_seq(o2);
    let s3 = option_seq(o3);
    let s4 = option_seq(o4);
    let s5 = option_seq(o5);
    let s6 = option_seq(o6);
    lemma_options_text_append(s1, s2);
    lemma_options_text_append(s1 + s2, s3);
    lemma_options_text_append(s1 + s2 + s3, s4);
    lemma_options_text_append(s1 + s2 + s3 + s4, s5);
    lemma_options_text_append(s1 + s2 + s3 + s4 + s5, s6);
    let e = empty_payload();
    lemma_fold_options_append(e, s1, s2);
    lemma_fold_options_append(e, s1 + s2, s3);
    lemma_fold_options_append(e, s1 + s2 + s3, s4);
    lemma_fold_options_append(e, s1 + s2 + s3 + s4, s5);
    lemma_fold_options_append(e, s1 + s2 + s3 + s4 + s5, s6);
    reveal_with_fuel(fold_options, 2);
    assert(seq![GoPayloadOption::Depth(0)].drop_first() =~= Seq::<GoPayloadOption>::empty());
    assert(forall|x: GoPayloadOption| #[trigger] seq![x].drop_first() =~= Seq::<GoPayloadOption>::empty());
}


proof fn reveal_keywords()
    ensures
        "depth"@ == seq!['d', 'e', 'p', 't', 'h'],
        "movetime"@ == seq!['m', 'o', 'v', 'e', 't', 'i', 'm', 'e'],
        "wtime"@ == seq!['w', 't', 'i', 'm', 'e'],
        "btime"@ == seq!['b', 't', 'i', 'm', 'e'],
        "winc"@ == seq!['w', 'i', 'n', 'c'],
        "binc"@ == seq!['b', 'i', 'n', 'c'],
{
    reveal_strlit("depth");
    reveal_strlit("movetime");
    reveal_strlit("wtime");
    reveal_strlit("btime");
    reveal_strlit("winc");
    reveal_strlit("binc");
}

/// The text of an item starts with a letter and ends with a space.
proof fn lemma_option_text_ends(o: GoPayloadOption)
    ensures
        option_text(o).len() > 1,
        !crate::uci_text::in_class(CharClass::Space, option_text(o)[0]),
        option_text(o)[option_text(o).len() - 1] == ' ',
{
    reveal_keywords();
    let kw = option_keyword(o);
    assert(kw.len() > 0);
    assert(option_text(o)[0] == kw[0]);
}

/// The text of an item, where it stands in `s`, reads back as that item.
proof fn lemma_go_option_reads(s: Seq<char>, pos: int, o: GoPayloadOption)
    requires
        0 <= pos,
        pos + option_text(o).len() <= s.len(),
        s.subrange(pos, pos + option_text(o).len()) == option_text(o),
    ensures
        go_option(s, pos) == Some((o, pos + option_text(o).len() - 1)),
{
    reveal_keywords();
    let kw = option_keyword(o);
    let n = option_value(o);
    crate::uci_text::lemma_decimal_reads_back(n);
    let t = option_text(o);
    let end = pos + t.len() - 1;
    assert(forall|j: int| 0 <= j < t.len() ==> #[trigger] t[j] == s[pos + j]) by {
        assert forall|j: int| 0 <= j < t.len() implies #[trigger] t[j] == s[pos + j] by {
            assert(s.subrange(pos, pos + t.len())[j] == s[pos + j]);
        }
    }
    assert(t[t.len() - 1] == ' ');
    assert(s[end] == ' ');
    assert(s.subrange(pos, end) =~= kw + seq![' '] + decimal(n));
    assert(forall|i: int| 0 <= i < kw.len() ==> !crate::uci_text::in_class(CharClass::Space, #[trigger] kw[i]));
    crate::uci_text::lemma_keyword_number_reads_back(s, pos, end, kw, n);
    assert(s[pos] == kw[0]);
    assert(s[pos + 1] == kw[1]);
    match o {
        GoPayloadOption::Depth(_) => {},
        GoPayloadOption::MoveTime(_) => {
            crate::uci_text::lemma_no_prefix(s, pos, "depth"@, 0);
        },
        GoPayloadOption::WTime(_) => {
            crate::uci_text::lemma_no_prefix(s, pos, "depth"@, 0);
            crate::uci_text::lemma_no_prefix(s, pos, "movetime"@, 0);
        },
        GoPayloadOption::BTime(_) => {
            crate::uci_text::lemma_no_prefix(s, pos, "depth"@, 0);
            crate::uci_text::lemma_no_prefix(s, pos, "movetime"@, 0);
            crate::uci_text::lemma_no_prefix(s, pos, "wtime"@, 0);
        },
        GoPayloadOption::WInc(_) => {
            crate::uci_text::lemma_no_prefix(s, pos, "depth"@, 0);
            crate::uci_text::lemma_no_prefix(s, pos, "movetime"@, 0);
            crate::uci_text::lemma_no_prefix(s, pos, "wtime"@, 1);
            crate::uci_text::lemma_no_prefix(s, pos, "btime"@, 0);
        },
        GoPayloadOption::BInc(_) => {
            crate::uci_text::lemma_no_prefix(s, pos, "depth"@, 0);
            crate::uci_text::lemma_no_prefix(s, pos, "movetime"@, 0);
            crate::uci_text::lemma_no_prefix(s, pos, "wtime"@, 0);
            crate::uci_text::lemma_no_prefix(s, pos, "btime"@, 1);
            crate::uci_text::lemma_no_prefix(s, pos, "winc"@, 0);
        },
    }
}

/// The texts of items, from `pos` to the end of `s` and after a space, read
/// back as those items.
proof fn lemma_options_from_reads(s: Seq<char>, pos: int, os: Seq<GoPayloadOption>, acc: GoPayload)
    requires
        1 <= pos <= s.len(),
        s[pos - 1] == ' ',
        s.subrange(pos, s.len() as int) == options_text(os),
    ensures
        go_options_from(s, pos - 1, acc) == fold_options(acc, os),
    decreases os.len(),
{
    reveal_keywords();
    if os.len() == 0 {
        assert(pos == s.len());
        assert(run_end(s, pos, CharClass::Space) == pos);
        assert(!has_prefix_at(s, pos, "depth"@));
        assert(!has_prefix_at(s, pos, "movetime"@));
        assert(!has_prefix_at(s, pos, "wtime"@));
        assert(!has_prefix_at(s, pos, "btime"@));
        assert(!has_prefix_at(s, pos, "winc"@));
        assert(!has_prefix_at(s, pos, "binc"@));
    } else {
        let t0 = option_text(os[0]);
        let rest = options_text(os.drop_first());
        assert(options_text(os) == t0 + rest);
        let next = pos + t0.len();
        assert(s.subrange(pos, s.len() as int).subrange(0, t0.len() as int) =~= t0);
        assert(s.subrange(pos, next) =~= t0);
        lemma_option_text_ends(os[0]);
        assert(s[pos] == t0[0]);
        assert(!crate::uci_text::in_class(CharClass::Space, s[pos]));
        assert(run_end(s, pos, CharClass::Space) == pos);
        lemma_go_option_reads(s, pos, os[0]);
        assert(s[next - 1] == t0[t0.len() - 1]);
        assert forall|i: int| 0 <= i < rest.len() implies #[trigger] s.subrange(
            next,
            s.len() as int,
        )[i] == rest[i] by {
            assert(s.subrange(pos, s.len() as int)[t0.len() + i] == (t0 + rest)[t0.len() + i]);
        }
        assert(s.subrange(next, s.len() as int) =~= rest);
        lemma_options_from_reads(s, next, os.drop_first(), with_option(acc, os[0]));
    }
}

/// `go `, then the texts of the items `os` of a payload, read back as a `go`
/// command.
#[verifier::rlimit(30)]
proof fn lemma_go_command_reads(s: Seq<char>, os: Seq<GoPayloadOption>)
    requires
        os.len() > 0,
        s == "go "@ + options_text(os),
    ensures
        go_command(s) == Some(fold_options(empty_payload(), os)),
{
    reveal_strlit("go ");
    reveal_strlit("go");
    assert(s.subrange(3, s.len() as int) =~= options_text(os));
    let t0 = option_text(os[0]);
    let rest = options_text(os.drop_first());
    assert(options_text(os) == t0 + rest);
    lemma_option_text_ends(os[0]);
    assert(s[2] == ' ');
    assert(s[3] == t0[0]);
    assert(!crate::uci_text::in_class(CharClass::Space, s[3]));
    assert(s.subrange(0, 2) =~= "go"@);
    assert(run_end(s, 3, CharClass::Space) == 3);
    assert(run_end(s, 2, CharClass::Space) == 3);
    let next: int = 3 + t0.len() as int;
    assert(s.subrange(3, next) =~= t0);
    lemma_go_option_reads(s, 3, os[0]);
    assert(s[next - 1] == t0[t0.len() - 1]);
    assert forall|i: int| 0 <= i < rest.len() implies #[trigger] s.subrange(
        next,
        s.len() as int,
    )[i] == rest[i] by {
        assert(s[next + i] == (t0 + rest)[t0.len() + i]);
    }
    assert(s.subrange(next, s.len() as int) =~= rest);
    lemma_options_from_reads(s, next, os.drop_first(), with_option(empty_payload(), os[0]));
}

/// `go` and the text of a payload with at least one item read back as that
/// payload.
proof fn lemma_go_text_reads_back(g: GoPayload)
    requires
        payload_options(g).len() > 0,
    ensures
        parse_command("go "@ + go_payload_text(g)) == Some(CommandView::Go(g)),
{
    lemma_payload_text(g);
    let os = payload_options(g);
    let s = "go "@ + go_payload_text(g);
    lemma_go_command_reads(s, os);
    reveal_strlit("go ");
    reveal_strlit("ucinewgame");
    reveal_strlit("uci");
    reveal_strlit("debug");
    reveal_strlit("isready");
    reveal_strlit("position");
    reveal_strlit("stop");
    reveal_strlit("quit");
    reveal_strlit("exit");
    assert(s[0] == 'g');
    crate::uci_text::lemma_no_prefix(s, 0, "ucinewgame"@, 0);
    crate::uci_text::lemma_no_prefix(s, 0, "uci"@, 0);
    crate::uci_text::lemma_no_prefix(s, 0, "debug"@, 0);
    crate::uci_text::lemma_no_prefix(s, 0, "isready"@, 0);
    crate::uci_text::lemma_no_prefix(s, 0, "position"@, 0);
    crate::uci_text::lemma_no_prefix(s, 0, "stop"@, 0);
    crate::uci_text::lemma_no_prefix(s, 0, "quit"@, 0);
    crate::uci_text::lemma_no_prefix(s, 0, "exit"@, 0);
}

/// The text written for a command reads back as that command, for every
/// command but `position`, whose board text is read back only when it forms
/// six FEN fields, and a `go` without any limit, whose text `go ` is not a
/// command.
pub proof fn law_command_text_reads_back(c: CommandView)
    requires
        !(c is Position),
        c matches CommandView::Go(g) ==> payload_options(g).len() > 0,
    ensures
        parse_command(command_text(c)) == Some(c),
{
    reveal_strlit("ucinewgame");
    reveal_strlit("uci");
    reveal_strlit("debug");
    reveal_strlit("debug on");
    reveal_strlit("debug off");
    reveal_strlit("on");
    reveal_strlit("off");
    reveal_strlit("isready");
    reveal_strlit("position");
    reveal_strlit("stop");
    reveal_strlit("quit");
    let s = command_text(c);
    match c {
        CommandView::Go(g) => {
            lemma_go_text_reads_back(g);
        },
        CommandView::Uci => {
            assert(s.subrange(0, 3) =~= "uci"@);
        },
        CommandView::UciNewGame => {
            assert(s.subrange(0, 10) =~= "ucinewgame"@);
        },
        CommandView::Debug(b) => {
            crate::uci_text::lemma_no_prefix(s, 0, "ucinewgame"@, 0);
            crate::uci_text::lemma_no_prefix(s, 0, "uci"@, 0);
            assert(s.subrange(0, 5) =~= "debug"@);
            assert(run_end(s, 6, CharClass::Space) == 6);
            assert(run_end(s, 5, CharClass::Space) == 6);
            if b {
                assert(s.subrange(6, 8) =~= "on"@);
            } else {
                crate::uci_text::lemma_no_prefix(s, 6, "on"@, 1);
                assert(s.subrange(6, 9) =~= "off"@);
            }
        },
        CommandView::IsReady => {
            crate::uci_text::lemma_no_prefix(s, 0, "ucinewgame"@, 0);
            crate::uci_text::lemma_no_prefix(s, 0, "uci"@, 0);
            crate::uci_text::lemma_no_prefix(s, 0, "debug"@, 0);
            assert(s.subrange(0, 7) =~= "isready"@);
        },
        CommandView::Stop => {
            crate::uci_text::lemma_no_prefix(s, 0, "ucinewgame"@, 0);
            crate::uci_text::lemma_no_prefix(s, 0, "uci"@, 0);
            crate::uci_text::lemma_no_prefix(s, 0, "debug"@, 0);
            crate::uci_text::lemma_no_prefix(s, 0, "isready"@, 0);
            crate::uci_text::lemma_no_prefix(s, 0, "position"@, 0);
            assert(s.subrange(0, 4) =~= "stop"@);
        },
        CommandView::Quit => {
            crate::uci_text::lemma_no_prefix(s, 0, "ucinewgame"@, 0);
            crate::uci_text::lemma_no_prefix(s, 0, "uci"@, 0);
            crate::uci_text::lemma_no_prefix(s, 0, "debug"@, 0);
            crate::uci_text::lemma_no_prefix(s, 0, "isready"@, 0);
            crate::uci_text::lemma_no_prefix(s, 0, "position"@, 0);
            crate::uci_text::lemma_no_prefix(s, 0, "stop"@, 0);
            assert(s.subrange(0, 4) =~= "quit"@);
        },
        _ => {},
    }
}

} // verus!
