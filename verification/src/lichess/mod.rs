//! The engine's side of the Lichess bot API: the events Lichess sends, the
//! decisions the bot takes on them, and the addresses it calls.
//!
//! The HTTP client and the JSON decoding live with the caller; this module
//! holds the base address of the service and works on decoded values.
pub mod account;
pub mod game;
pub mod engine_handler;

use vstd::prelude::*;

verus! {

/// The address of the Lichess service the bot talks to.
#[derive(Debug, Clone)]
pub struct LichessClient {
    lichess_base_url: String,
}

impl LichessClient {
    pub closed spec fn base_url_spec(&self) -> Seq<char> {
        self.lichess_base_url@
    }

    pub fn new(lichess_base_url: String) -> (c: LichessClient)
        ensures
            c.base_url_spec() == lichess_base_url@,
    {
        LichessClient { lichess_base_url }
    }

    pub fn lichess_base_url(&self) -> (s: &str)
        ensures
            s@ == self.base_url_spec(),
    {
        self.lichess_base_url.as_str()
    }
}

/// A chunk of a Lichess event stream that holds a single newline is a
/// keep-alive signal, not an event.
pub open spec fn is_keepalive_spec(bytes: Seq<u8>) -> bool {
    bytes == seq![10u8]
}

pub fn is_keepalive(bytes: &[u8]) -> (b: bool)
    ensures
        b == is_keepalive_spec(bytes@),
{
    if bytes.len() == 1 && bytes[0] == 10u8 {
        assert(bytes@ =~= seq![10u8]);
        true
    } else {
        false
    }
}

/// Whether the text `s` is exactly `t`.
pub fn same_text(s: &String, t: &str) -> (b: bool)
    ensures
        b == (s@ == t@),
{
    let owned = t.to_owned();
    *s == owned
}

} // verus!
