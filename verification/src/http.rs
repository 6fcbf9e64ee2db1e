//! What the server answers on its HTTP routes, as status and texts.

use crate::auth::{AuthFailure, failure_text};
use crate::matchmaking::EnqueueError;
use crate::model::opt_text;
use crate::text::{decimal_digits, format_u32, parse_u32, parsed_u32};
use vstd::prelude::*;
use vstd::string::*;

verus! {

/// An answer: the HTTP status, a message and, where the client has to act,
/// what to do next.
#[derive(Debug)]
pub struct Reply {
    pub status: u16,
    pub message: String,
    pub instructions: Option<String>,
}

/// The mathematical value of a [`Reply`].
pub struct ReplyView {
    pub status: u16,
    pub message: Seq<char>,
    pub instructions: Option<Seq<char>>,
}

impl View for Reply {
    type V = ReplyView;

    open spec fn view(&self) -> ReplyView {
        ReplyView {
            status: self.status,
            message: self.message@,
            instructions: opt_text(self.instructions),
        }
    }
}

/// An answer without instructions.
fn plain(status: u16, message: &str) -> (r: Reply)
    ensures
        r@ == (ReplyView { status, message: message@, instructions: None }),
{
    Reply { status, message: String::from_str(message), instructions: None }
}

/// The answer to a preflight request on the matchmaking route.
pub fn matchmaking_options(is_options: bool) -> (r: Reply)
    ensures
        r@ == if is_options {
            ReplyView { status: 200, message: "Preflight request OK"@, instructions: None }
        } else {
            ReplyView {
                status: 500,
                message: "Request method is not OPTIONS!"@,
                instructions: None,
            }
        },
{
    if is_options {
        plain(200, "Preflight request OK")
    } else {
        plain(500, "Request method is not OPTIONS!")
    }
}

/// What happened to a request to be queued.
#[derive(Clone, Copy, Debug, PartialEq, Eq, Structural)]
pub enum EnqueueResult {
    /// No player could be made out for the request.
    Unauthorised(AuthFailure),
    /// The store could not be read.
    StoreUnreadable,
    /// The player was not admitted.
    Refused(EnqueueError),
    /// The player was admitted, but the store did not take the entry.
    StoreRejected,
    /// The player waits.
    Queued,
}

/// The answer to a request to be queued.
pub open spec fn enqueue_reply(outcome: EnqueueResult) -> ReplyView {
    match outcome {
        EnqueueResult::Unauthorised(f) => ReplyView {
            status: 500,
            message: "encountered error: "@ + failure_text(f),
            instructions: None,
        },
        EnqueueResult::StoreUnreadable => ReplyView {
            status: 500,
            message: "encountered error fetching matchmaking pool from redis"@,
            instructions: None,
        },
        EnqueueResult::Refused(EnqueueError::AlreadyQueued) => ReplyView {
            status: 400,
            message: "User already in matchmaking pool"@,
            instructions: None,
        },
        EnqueueResult::Refused(EnqueueError::AlreadyInGame) => ReplyView {
            status: 400,
            message: "User already has an active game"@,
            instructions: None,
        },
        EnqueueResult::StoreRejected => ReplyView {
            status: 500,
            message: "Failed to add to Redis matchmaking pool"@,
            instructions: None,
        },
        EnqueueResult::Queued => ReplyView {
            status: 200,
            message: "User has been added to matchmaking pool successfully"@,
            instructions: Some("Query GET /matchmaking for an update on matchmaking status"@),
        },
    }
}

/// Builds the answer to a request to be queued.
pub fn matchmaking_handler(outcome: EnqueueResult) -> (r: Reply)
    ensures
        r@ == enqueue_reply(outcome),
{
    match outcome {
        EnqueueResult::Unauthorised(f) => Reply {
            status: 500,
            message: String::from_str("encountered error: ").concat(f.message().as_str()),
            instructions: None,
        },
        EnqueueResult::StoreUnreadable => plain(
            500,
            "encountered error fetching matchmaking pool from redis",
        ),
        EnqueueResult::Refused(EnqueueError::AlreadyQueued) => plain(
            400,
            "User already in matchmaking pool",
        ),
        EnqueueResult::Refused(EnqueueError::AlreadyInGame) => plain(
            400,
            "User already has an active game",
        ),
        EnqueueResult::StoreRejected => plain(500, "Failed to add to Redis matchmaking pool"),
        EnqueueResult::Queued => Reply {
            status: 200,
            message: String::from_str("User has been added to matchmaking pool successfully"),
            instructions: Some(
                String::from_str("Query GET /matchmaking for an update on matchmaking status"),
            ),
        },
    }
}

/// The answer to a question after the state of matchmaking, given the
/// player who asks, if one could be made out, and what the store holds as
/// the player's game.  A value that is no game id counts as no game.
pub open spec fn status_reply(user: Option<u32>, game_field: Option<Seq<char>>) -> ReplyView {
    match user {
        None => ReplyView {
            status: 400,
            message: "Failed to find user from provided bearer token"@,
            instructions: None,
        },
        Some(_) => match game_field {
            Some(t) => match parsed_u32(t) {
                Some(game_id) => ReplyView {
                    status: 200,
                    message: "Found game: "@ + decimal_digits(game_id as nat) + " for user"@,
                    instructions: Some("Open a websocket request to the server at /ws"@),
                },
                None => waiting_reply(),
            },
            None => waiting_reply(),
        },
    }
}

/// The answer that tells a player to go on waiting.
pub open spec fn waiting_reply() -> ReplyView {
    ReplyView {
        status: 202,
        message: "User is waiting in the matchmaking pool..."@,
        instructions: None,
    }
}

/// Builds the answer to a question after the state of matchmaking.
pub fn matchmaking_status(user: Option<u32>, game_field: Option<&str>) -> (r: Reply)
    ensures
        r@ == status_reply(
            user,
            match game_field {
                Some(t) => Some(t@),
                None => None,
            },
        ),
{
    if user.is_none() {
        return plain(400, "Failed to find user from provided bearer token");
    }
    let game_id = match game_field {
        Some(t) => parse_u32(t),
        None => None,
    };
    match game_id {
        Some(game_id) => Reply {
            status: 200,
            message: String::from_str("Found game: ").concat(format_u32(game_id).as_str()).concat(
                " for user",
            ),
            instructions: Some(String::from_str("Open a websocket request to the server at /ws")),
        },
        None => plain(202, "User is waiting in the matchmaking pool..."),
    }
}

/// The statistics of a player, each count as the store holds it.
#[derive(Debug)]
pub struct PlayerStats {
    pub wins: String,
    pub draws: String,
    pub losses: String,
}

/// A count as the store holds it, or `0` if the store holds none.
pub open spec fn count_or_zero(t: Option<Seq<char>>) -> Seq<char> {
    match t {
        Some(t) => t,
        None => "0"@,
    }
}

/// Fills in a count that the store does not hold.
fn or_zero(t: Option<String>) -> (r: String)
    ensures
        r@ == count_or_zero(opt_text(t)),
{
    match t {
        Some(t) => t,
        None => String::from_str("0"),
    }
}

/// Builds the statistics of a player from what the store holds.
pub fn player_stats(wins: Option<String>, draws: Option<String>, losses: Option<String>) -> (r:
    PlayerStats)
    ensures
        r.wins@ == count_or_zero(opt_text(wins)),
        r.draws@ == count_or_zero(opt_text(draws)),
        r.losses@ == count_or_zero(opt_text(losses)),
{
    PlayerStats { wins: or_zero(wins), draws: or_zero(draws), losses: or_zero(losses) }
}

/// The answer to a request to wait no longer.
pub fn matchmaking_cancel(user: Option<u32>, waited: bool) -> (r: Reply)
    ensures
        r@ == match user {
            None => ReplyView {
                status: 400,
                message: "Failed to find user from provided bearer token"@,
                instructions: None,
            },
            Some(_) => if waited {
                ReplyView {
                    status: 200,
                    message: "User has left the matchmaking pool"@,
                    instructions: None,
                }
            } else {
                ReplyView {
                    status: 404,
                    message: "User is not in the matchmaking pool"@,
                    instructions: None,
                }
            },
        },
{
    if user.is_none() {
        plain(400, "Failed to find user from provided bearer token")
    } else if waited {
        plain(200, "User has left the matchmaking pool")
    } else {
        plain(404, "User is not in the matchmaking pool")
    }
}

} // verus!
