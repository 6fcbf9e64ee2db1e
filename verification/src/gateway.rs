//! The life of one connection, from its first frame to its end.
//!
//! A connection is authenticated, bound to the game of its player, held
//! until both players are ready, and then active until it closes.  This
//! module decides what follows from each thing that happens to a
//! connection; the server around it does what is decided and reports back.

use crate::text::same_text;
use vstd::prelude::*;
use vstd::string::*;

verus! {

/// Where a connection stands.
#[derive(Clone, Copy, Debug, PartialEq, Eq, Structural)]
pub enum GatewayState {
    /// Nothing has been received yet.
    AwaitingAuth,
    /// The credential was valid; the player it belongs to is looked up.
    Authenticated,
    /// The player is known; its game is looked up.
    AwaitingGame { user_id: u32 },
    /// The game is known; the connection waits for both players.
    AwaitingReadiness { user_id: u32, game_id: u32 },
    /// Requests are served and notices forwarded.
    Active { user_id: u32, game_id: u32 },
    /// The connection is over.
    Closed,
}

/// What happened to a connection.
#[derive(Clone, Copy, Debug, PartialEq, Eq, Structural)]
pub enum GatewayEvent {
    /// The first frame arrived, with or without a credential in it.
    FirstFrame { has_token: bool },
    /// The credential was checked.
    CredentialChecked { valid: bool },
    /// The player of the credential was looked up.
    PlayerResolved { user_id: Option<u32> },
    /// The game of the player was looked up.
    GameLookedUp { game_id: Option<u32> },
    /// The readiness of the players was looked at.
    ReadinessSeen { complete: bool },
    /// The client's socket closed or failed.
    TransportClosed,
    /// The shared store failed.
    StoreFailed,
}

/// Why a connection is turned away, as the client is told.
#[derive(Clone, Copy, Debug, PartialEq, Eq, Structural)]
pub enum Rejection {
    AuthenticationFailed,
    NoAssociatedGame,
}

/// What the server does next for a connection.
#[derive(Clone, Copy, Debug, PartialEq, Eq, Structural)]
pub enum GatewayAction {
    /// Hand the credential to the validator.
    CheckCredential,
    /// Look up, or create, the player of the credential.
    ResolvePlayer,
    /// Look up the game of the player.
    LookUpGame { user_id: u32 },
    /// Signal that the player is ready, and look at the readiness.
    SignalReady { user_id: u32, game_id: u32 },
    /// Wait, then look at the readiness again.
    AwaitOpponent { user_id: u32, game_id: u32 },
    /// Tell the client its colour and start both duties.
    Activate { user_id: u32, game_id: u32 },
    /// Tell the client why it is turned away, and close.
    Reject { reason: Rejection },
    /// Tell the other player that this one has left; then stop both duties,
    /// release the subscription, and close.
    Leave { user_id: u32, game_id: u32 },
    /// Stop both duties, release the subscription, and close.
    Release,
    /// Nothing: the event does not belong to the state.
    Ignore,
}

/// The step of a connection: its next state and what the server does next.
/// A missing or invalid credential and a player without a game turn the
/// connection away; a closed socket or a failed store ends it in any state,
/// and the other player is told if the connection was active and the store
/// still works; an event that the state does not wait for changes nothing;
/// nothing happens to a closed connection.
pub open spec fn step(s: GatewayState, e: GatewayEvent) -> (GatewayState, GatewayAction) {
    match (s, e) {
        (GatewayState::Closed, _) => (GatewayState::Closed, GatewayAction::Ignore),
        (GatewayState::Active { user_id, game_id }, GatewayEvent::TransportClosed) => (
            GatewayState::Closed,
            GatewayAction::Leave { user_id, game_id },
        ),
        (_, GatewayEvent::TransportClosed) => (GatewayState::Closed, GatewayAction::Release),
        (_, GatewayEvent::StoreFailed) => (GatewayState::Closed, GatewayAction::Release),
        (GatewayState::AwaitingAuth, GatewayEvent::FirstFrame { has_token }) => if has_token {
            (GatewayState::AwaitingAuth, GatewayAction::CheckCredential)
        } else {
            (
                GatewayState::Closed,
                GatewayAction::Reject { reason: Rejection::AuthenticationFailed },
            )
        },
        (GatewayState::AwaitingAuth, GatewayEvent::CredentialChecked { valid }) => if valid {
            (GatewayState::Authenticated, GatewayAction::ResolvePlayer)
        } else {
            (
                GatewayState::Closed,
                GatewayAction::Reject { reason: Rejection::AuthenticationFailed },
            )
        },
        (GatewayState::Authenticated, GatewayEvent::PlayerResolved { user_id }) => match user_id {
            Some(user_id) => (
                GatewayState::AwaitingGame { user_id },
                GatewayAction::LookUpGame { user_id },
            ),
            None => (
                GatewayState::Closed,
                GatewayAction::Reject { reason: Rejection::AuthenticationFailed },
            ),
        },
        (GatewayState::AwaitingGame { user_id }, GatewayEvent::GameLookedUp { game_id }) => match game_id {
            Some(game_id) => (
                GatewayState::AwaitingReadiness { user_id, game_id },
                GatewayAction::SignalReady { user_id, game_id },
            ),
            None => (
                GatewayState::Closed,
                GatewayAction::Reject { reason: Rejection::NoAssociatedGame },
            ),
        },
        (
            GatewayState::AwaitingReadiness { user_id, game_id },
            GatewayEvent::ReadinessSeen { complete },
        ) => if complete {
            (GatewayState::Active { user_id, game_id }, GatewayAction::Activate { user_id, game_id })
        } else {
            (
                GatewayState::AwaitingReadiness { user_id, game_id },
                GatewayAction::AwaitOpponent { user_id, game_id },
            )
        },
        _ => (s, GatewayAction::Ignore),
    }
}

/// Decides the step of a connection.
pub fn gateway_step(s: GatewayState, e: GatewayEvent) -> (r: (GatewayState, GatewayAction))
    ensures
        r == step(s, e),
{
    match (s, e) {
        (GatewayState::Closed, _) => (GatewayState::Closed, GatewayAction::Ignore),
        (GatewayState::Active { user_id, game_id }, GatewayEvent::TransportClosed) => (
            GatewayState::Closed,
            GatewayAction::Leave { user_id, game_id },
        ),
        (_, GatewayEvent::TransportClosed) => (GatewayState::Closed, GatewayAction::Release),
        (_, GatewayEvent::StoreFailed) => (GatewayState::Closed, GatewayAction::Release),
        (GatewayState::AwaitingAuth, GatewayEvent::FirstFrame { has_token }) => if has_token {
            (GatewayState::AwaitingAuth, GatewayAction::CheckCredential)
        } else {
            (
                GatewayState::Closed,
                GatewayAction::Reject { reason: Rejection::AuthenticationFailed },
            )
        },
        (GatewayState::AwaitingAuth, GatewayEvent::CredentialChecked { valid }) => if valid {
            (GatewayState::Authenticated, GatewayAction::ResolvePlayer)
        } else {
            (
                GatewayState::Closed,
                GatewayAction::Reject { reason: Rejection::AuthenticationFailed },
            )
        },
        (GatewayState::Authenticated, GatewayEvent::PlayerResolved { user_id }) => match user_id {
            Some(user_id) => (
                GatewayState::AwaitingGame { user_id },
                GatewayAction::LookUpGame { user_id },
            ),
            None => (
                GatewayState::Closed,
                GatewayAction::Reject { reason: Rejection::AuthenticationFailed },
            ),
        },
        (GatewayState::AwaitingGame { user_id }, GatewayEvent::GameLookedUp { game_id }) => match game_id {
            Some(game_id) => (
                GatewayState::AwaitingReadiness { user_id, game_id },
                GatewayAction::SignalReady { user_id, game_id },
            ),
            None => (
                GatewayState::Closed,
                GatewayAction::Reject { reason: Rejection::NoAssociatedGame },
            ),
        },
        (
            GatewayState::AwaitingReadiness { user_id, game_id },
            GatewayEvent::ReadinessSeen { complete },
        ) => if complete {
            (GatewayState::Active { user_id, game_id }, GatewayAction::Activate { user_id, game_id })
        } else {
            (
                GatewayState::AwaitingReadiness { user_id, game_id },
                GatewayAction::AwaitOpponent { user_id, game_id },
            )
        },
        _ => (s, GatewayAction::Ignore),
    }
}

/// The text that tells a client why it is turned away.
pub open spec fn rejection_text(reason: Rejection) -> Seq<char> {
    match reason {
        Rejection::AuthenticationFailed => "Authentication failed"@,
        Rejection::NoAssociatedGame => "User has no associated game"@,
    }
}

/// Writes the text that tells a client why it is turned away.
pub fn rejection_message(reason: Rejection) -> (r: String)
    ensures
        r@ == rejection_text(reason),
{
    match reason {
        Rejection::AuthenticationFailed => String::from_str("Authentication failed"),
        Rejection::NoAssociatedGame => String::from_str("User has no associated game"),
    }
}

/// How far a connection has come: the states in their order.
pub open spec fn rank(s: GatewayState) -> nat {
    match s {
        GatewayState::AwaitingAuth => 0,
        GatewayState::Authenticated => 1,
        GatewayState::AwaitingGame { .. } => 2,
        GatewayState::AwaitingReadiness { .. } => 3,
        GatewayState::Active { .. } => 4,
        GatewayState::Closed => 5,
    }
}

/// A connection never goes back, skips no state on its way to being active,
/// stays closed once closed, and keeps its player and its game once they
/// are known.
pub proof fn lemma_connection_order(s: GatewayState, e: GatewayEvent)
    ensures
        rank(step(s, e).0) >= rank(s),
        step(s, e).0 != GatewayState::Closed ==> rank(step(s, e).0) <= rank(s) + 1,
        s == GatewayState::Closed ==> step(s, e) == (GatewayState::Closed, GatewayAction::Ignore),
        step(s, e).0 is Active ==> (s is Active && step(s, e).0 == s) || (s is AwaitingReadiness
            && e == (GatewayEvent::ReadinessSeen { complete: true })),
        step(s, e).1 is Activate ==> s is AwaitingReadiness && step(s, e).0 is Active,
        (s is AwaitingAuth || s is Authenticated) && !(step(s, e).0 is AwaitingAuth || step(
            s,
            e,
        ).0 is Authenticated || step(s, e).0 is AwaitingGame) ==> step(s, e).0
            == GatewayState::Closed,
{
}

/// The kinds of frame that a client sends.
#[derive(Clone, Copy, Debug, PartialEq, Eq, Structural)]
pub enum FrameKind {
    /// A text frame; its text comes with it.
    Text,
    /// The frame that closes the connection.
    Close,
    /// A frame of another kind.
    Other,
    /// No frame: receiving failed.
    Failed,
}

/// What the inbound duty does with a frame.
#[derive(Clone, Copy, Debug, PartialEq, Eq, Structural)]
pub enum InboundAction {
    /// Answer the keep-alive with `PONG`.
    Pong,
    /// Hand the text to the protocol engine.
    Serve,
    /// Send the close frame back and stop.
    CloseAndStop,
    /// Stop.
    Stop,
    /// Go on with the next frame.
    Skip,
}

/// What the inbound duty does with a frame of kind `kind` and text `text`:
/// the text `0` is the client's keep-alive, any other text is a request.
pub open spec fn inbound(kind: FrameKind, text: Seq<char>) -> InboundAction {
    match kind {
        FrameKind::Text => if text == "0"@ {
            InboundAction::Pong
        } else {
            InboundAction::Serve
        },
        FrameKind::Close => InboundAction::CloseAndStop,
        FrameKind::Other => InboundAction::Skip,
        FrameKind::Failed => InboundAction::Stop,
    }
}

/// Decides what the inbound duty does with a frame.
pub fn message_receiver(kind: FrameKind, text: &str) -> (r: InboundAction)
    ensures
        r == inbound(kind, text@),
{
    match kind {
        FrameKind::Text => if same_text(text, "0") {
            InboundAction::Pong
        } else {
            InboundAction::Serve
        },
        FrameKind::Close => InboundAction::CloseAndStop,
        FrameKind::Other => InboundAction::Skip,
        FrameKind::Failed => InboundAction::Stop,
    }
}

} // verus!
