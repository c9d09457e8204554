//! Account events: challenges and the start and end of games.
use vstd::prelude::*;
use crate::lichess::{same_text, LichessClient};

verus! {

/// An event of the account's event stream.
#[derive(Debug, Eq, PartialEq)]
pub enum LichessEvent {
    GameStart { game: Game },
    Challenge { challenge: Challenge },
    ChallengeCanceled,
    GameFinish { game: Game },
    ChallengeDeclined,
}

#[derive(Debug, Eq, PartialEq)]
pub struct Challenge {
    pub id: String,
    pub challenger: ChallengeUser,
    pub variant: Variant,
    pub rated: bool,
    pub speed: String,
    pub time_control: TimeControl,
    pub color: String,
}

#[derive(Debug, Eq, PartialEq)]
pub struct ChallengeUser {
    pub id: String,
}

#[derive(Debug, Eq, PartialEq)]
pub struct Variant {
    pub key: String,
}

#[derive(Debug, Eq, PartialEq)]
pub struct Game {
    pub id: String,
}

/// The clock of a challenge: none, or a limit and an increment in seconds.
#[derive(Debug, Eq, PartialEq, Clone, Copy, Structural)]
pub enum TimeControl {
    Unlimited,
    Clock { limit: u64, increment: u64 },
}

/// The reasons Lichess knows for declining a challenge.
#[derive(Debug, Eq, PartialEq, Copy, Clone, Structural)]
pub enum DeclineReason {
    Generic,
    Later,
    TooFast,
    TooSlow,
    TimeControl,
    Rated,
    Casual,
    Standard,
    Variant,
    NoBot,
    OnlyBot,
}

/// Whether the bot plays a challenge, given the number of games it is
/// playing: it plays one game at a time, only against its owner `dragnmn`,
/// only standard chess, only casual games, and only with a clock. `None`
/// accepts; otherwise the reason to decline.
pub open spec fn challenge_decision(games_in_progress: nat, challenge: Challenge) -> Option<DeclineReason> {
    if games_in_progress >= 1 {
        Some(DeclineReason::Generic)
    } else if challenge.challenger.id@ != "dragnmn"@ {
        Some(DeclineReason::Generic)
    } else if challenge.variant.key@ != "standard"@ {
        Some(DeclineReason::Variant)
    } else if challenge.rated {
        Some(DeclineReason::Casual)
    } else if challenge.time_control == TimeControl::Unlimited {
        Some(DeclineReason::TimeControl)
    } else {
        None
    }
}

pub fn should_accept_challenge(games_in_progress: usize, challenge: &Challenge) -> (r: Option<DeclineReason>)
    ensures
        r == challenge_decision(games_in_progress as nat, *challenge),
        r is None <==> (games_in_progress == 0 && challenge.challenger.id@ == "dragnmn"@
            && challenge.variant.key@ == "standard"@ && !challenge.rated
            && challenge.time_control is Clock),
        games_in_progress == 0 && challenge.challenger.id@ == "dragnmn"@
            && challenge.variant.key@ != "standard"@ ==> r == Some(DeclineReason::Variant),
{
    if games_in_progress >= 1 {
        Some(DeclineReason::Generic)
    } else if !same_text(&challenge.challenger.id, "dragnmn") {
        Some(DeclineReason::Generic)
    } else if !same_text(&challenge.variant.key, "standard") {
        Some(DeclineReason::Variant)
    } else if challenge.rated {
        Some(DeclineReason::Casual)
    } else if challenge.time_control == TimeControl::Unlimited {
        Some(DeclineReason::TimeControl)
    } else {
        None
    }
}

/// The bot accepts a challenge exactly when it plays no game yet, the
/// challenger is its owner `dragnmn`, the variant is standard chess, the
/// game is casual and has a clock; a challenge from the owner in any other
/// variant, while no game runs, is declined for its variant.
pub proof fn law_accepted_challenges(games_in_progress: nat, challenge: Challenge)
    ensures
        challenge_decision(games_in_progress, challenge) is None <==> (games_in_progress == 0
            && challenge.challenger.id@ == "dragnmn"@ && challenge.variant.key@ == "standard"@
            && !challenge.rated && challenge.time_control is Clock),
        games_in_progress == 0 && challenge.challenger.id@ == "dragnmn"@
            && challenge.variant.key@ != "standard"@ ==> challenge_decision(
            games_in_progress,
            challenge,
        ) == Some(DeclineReason::Variant),
{
}

/// What the bot does about an account event.
#[derive(Debug, Eq, PartialEq)]
pub enum AccountAction {
    /// Accept the challenge with this id.
    Accept(String),
    /// Decline the challenge with this id, for this reason.
    Decline(String, DeclineReason),
    /// Start playing the game with this id.
    StartGame(String),
    /// Stop playing the game with this id.
    FinishGame(String),
    /// Nothing.
    Ignore,
}

/// The action for `event` when the bot is playing `games_in_progress` games.
pub fn handle_account_event(games_in_progress: usize, event: LichessEvent) -> (r: AccountAction)
    ensures
        match event {
            LichessEvent::Challenge { challenge } => match challenge_decision(
                games_in_progress as nat,
                challenge,
            ) {
                Some(reason) => r == AccountAction::Decline(challenge.id, reason),
                None => r == AccountAction::Accept(challenge.id),
            },
            LichessEvent::GameStart { game } => r == AccountAction::StartGame(game.id),
            LichessEvent::GameFinish { game } => r == AccountAction::FinishGame(game.id),
            LichessEvent::ChallengeCanceled => r == AccountAction::Ignore,
            LichessEvent::ChallengeDeclined => r == AccountAction::Ignore,
        },
{
    match event {
        LichessEvent::Challenge { challenge } => match should_accept_challenge(
            games_in_progress,
            &challenge,
        ) {
            Some(reason) => AccountAction::Decline(challenge.id, reason),
            None => AccountAction::Accept(challenge.id),
        },
        LichessEvent::GameStart { game } => AccountAction::StartGame(game.id),
        LichessEvent::GameFinish { game } => AccountAction::FinishGame(game.id),
        LichessEvent::ChallengeCanceled => AccountAction::Ignore,
        LichessEvent::ChallengeDeclined => AccountAction::Ignore,
    }
}

/// The account's side of the API.
#[derive(Debug, Clone)]
pub struct AccountClient {
    base_client: LichessClient,
}

impl AccountClient {
    pub closed spec fn base_url_spec(&self) -> Seq<char> {
        self.base_client.base_url_spec()
    }

    pub fn new(base_client: LichessClient) -> (c: AccountClient)
        ensures
            c.base_url_spec() == base_client.base_url_spec(),
    {
        AccountClient { base_client }
    }

    pub fn lichess_event_stream_url(&self) -> (s: String)
        ensures
            s@ == self.base_url_spec() + "/api/stream/event"@,
    {
        self.base_client.lichess_base_url().to_owned().concat("/api/stream/event")
    }

    pub fn challenge_base_url(&self, challenge_id: &str) -> (s: String)
        ensures
            s@ == self.base_url_spec() + "/api/challenge/"@ + challenge_id@,
    {
        self.base_client.lichess_base_url().to_owned().concat("/api/challenge/").concat(challenge_id)
    }

    pub fn challenge_accept_url(&self, challenge_id: &str) -> (s: String)
        ensures
            s@ == self.base_url_spec() + "/api/challenge/"@ + challenge_id@ + "/accept"@,
    {
        self.challenge_base_url(challenge_id).concat("/accept")
    }

    pub fn challenge_decline_url(&self, challenge_id: &str) -> (s: String)
        ensures
            s@ == self.base_url_spec() + "/api/challenge/"@ + challenge_id@ + "/decline"@,
    {
        self.challenge_base_url(challenge_id).concat("/decline")
    }
}

} // verus!
