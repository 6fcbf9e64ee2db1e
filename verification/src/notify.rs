//! Notifications between the two connections of a game.
//!
//! A connection that changes a game publishes a compact notice on the game's
//! channel: what happened and who did it, as three fields between colons.
//! Every connection of the game reads the notice, looks the game up again
//! and tells its client what the notice means for that client.

use crate::model::{EventData, EventDataView, EventMessage, EventMessageView, EventStatus, Game,
    GameView, clone_opt_move};
use crate::text::{decimal_digits, format_u32, has_char, lemma_digits_denote, lemma_split_joined,
    lemma_split_plain, parse_u32, parsed_u32, same_text, split, split_text, texts};
use vstd::prelude::*;
use vstd::string::*;

verus! {

/// What a notice reports.
#[derive(Clone, Copy, Debug, PartialEq, Eq, Structural)]
pub enum Signal {
    /// A move was made.
    MoveNew,
    /// A player gave the game up.
    Surrender,
    /// A player offered a draw.
    DrawOffered,
    /// A player accepted the draw offered.
    DrawAccepted,
    /// A player declined the draw offered.
    DrawDeclined,
    /// A player's connection ended.
    PeerDisconnected,
}

/// A notice on a game's channel.
#[derive(Clone, Copy, Debug, PartialEq, Eq, Structural)]
pub struct Notification {
    pub signal: Signal,
    /// The player whose request caused the notice.
    pub actor: u32,
}

/// The first field of a notice, its category.
pub open spec fn category_text(s: Signal) -> Seq<char> {
    match s {
        Signal::MoveNew => "move"@,
        _ => "player"@,
    }
}

/// The second field of a notice, its kind within the category.
pub open spec fn kind_text(s: Signal) -> Seq<char> {
    match s {
        Signal::MoveNew => "new"@,
        Signal::Surrender => "surrender"@,
        Signal::DrawOffered => "offer_draw"@,
        Signal::DrawAccepted => "accept_draw"@,
        Signal::DrawDeclined => "decline_draw"@,
        Signal::PeerDisconnected => "disconnect"@,
    }
}

/// The signal that a category and a kind stand for, if they stand for one.
pub open spec fn signal_of(category: Seq<char>, kind: Seq<char>) -> Option<Signal> {
    if category == "move"@ && kind == "new"@ {
        Some(Signal::MoveNew)
    } else if category == "player"@ && kind == "surrender"@ {
        Some(Signal::Surrender)
    } else if category == "player"@ && kind == "offer_draw"@ {
        Some(Signal::DrawOffered)
    } else if category == "player"@ && kind == "accept_draw"@ {
        Some(Signal::DrawAccepted)
    } else if category == "player"@ && kind == "decline_draw"@ {
        Some(Signal::DrawDeclined)
    } else if category == "player"@ && kind == "disconnect"@ {
        Some(Signal::PeerDisconnected)
    } else {
        None
    }
}

/// The text of a notice: category, kind and actor between colons.
pub open spec fn encoded(n: Notification) -> Seq<char> {
    category_text(n.signal) + seq![':'] + (kind_text(n.signal) + seq![':'] + decimal_digits(
        n.actor as nat,
    ))
}

/// The notice that a text stands for: exactly three fields between colons,
/// of which the first two name a signal and the third is the actor's number.
pub open spec fn decoded(payload: Seq<char>) -> Option<Notification> {
    let f = split(payload, ':');
    if f.len() != 3 {
        None
    } else {
        match (signal_of(f[0], f[1]), parsed_u32(f[2])) {
            (Some(signal), Some(actor)) => Some(Notification { signal, actor }),
            _ => None,
        }
    }
}

/// The words of the signals hold no colon and tell the signals apart.
pub proof fn lemma_signal_words(s: Signal)
    ensures
        !has_char(category_text(s), ':'),
        !has_char(kind_text(s), ':'),
        signal_of(category_text(s), kind_text(s)) == Some(s),
{
    reveal_strlit("move");
    reveal_strlit("player");
    reveal_strlit("new");
    reveal_strlit("surrender");
    reveal_strlit("offer_draw");
    reveal_strlit("accept_draw");
    reveal_strlit("decline_draw");
    reveal_strlit("disconnect");
    assert("disconnect"@.len() != "new"@.len());
    assert("disconnect"@.len() != "surrender"@.len());
    assert("disconnect"@.len() != "accept_draw"@.len());
    assert("disconnect"@.len() != "decline_draw"@.len());
    assert("disconnect"@[0] != "offer_draw"@[0]);
    assert("move"@.len() != "player"@.len());
    assert("new"@[0] != "surrender"@[0]);
    assert("surrender"@[0] != "offer_draw"@[0]);
    assert("surrender"@[0] != "accept_draw"@[0]);
    assert("surrender"@[0] != "decline_draw"@[0]);
    assert("offer_draw"@[0] != "accept_draw"@[0]);
    assert("offer_draw"@[0] != "decline_draw"@[0]);
    assert("accept_draw"@[0] != "decline_draw"@[0]);
}

/// Reading the text of a notice gives the notice back.
pub proof fn lemma_notification_round_trip(n: Notification)
    ensures
        decoded(encoded(n)) == Some(n),
{
    let c = category_text(n.signal);
    let k = kind_text(n.signal);
    let a = decimal_digits(n.actor as nat);
    lemma_signal_words(n.signal);
    lemma_digits_denote(n.actor as nat);
    assert(!has_char(a, ':')) by {
        if has_char(a, ':') {
            let i = choose|i: int| 0 <= i < a.len() && a[i] == ':';
            assert(crate::text::is_digit(a[i]));
        }
    }
    lemma_split_plain(c, ':');
    lemma_split_plain(k, ':');
    lemma_split_plain(a, ':');
    lemma_split_joined(k, a, ':');
    lemma_split_joined(c, k + seq![':'] + a, ':');
    let f = split(encoded(n), ':');
    assert(f =~= seq![c, k, a]);
}

impl Notification {
    /// Writes the notice as it is published on the channel.
    pub fn encode(&self) -> (r: String)
        ensures
            r@ == encoded(*self),
            decoded(r@) == Some(*self),
    {
        let category = match self.signal {
            Signal::MoveNew => "move",
            _ => "player",
        };
        let kind = match self.signal {
            Signal::MoveNew => "new",
            Signal::Surrender => "surrender",
            Signal::DrawOffered => "offer_draw",
            Signal::DrawAccepted => "accept_draw",
            Signal::DrawDeclined => "decline_draw",
            Signal::PeerDisconnected => "disconnect",
        };
        let actor = format_u32(self.actor);
        let tail = String::from_str(kind).concat(":").concat(actor.as_str());
        let r = String::from_str(category).concat(":").concat(tail.as_str());
        proof {
            reveal_strlit(":");
            assert(":"@ =~= seq![':']);
            assert(r@ =~= encoded(*self));
            lemma_notification_round_trip(*self);
        }
        r
    }
}

/// Reads the signal that a category and a kind stand for.
fn read_signal(category: &str, kind: &str) -> (r: Option<Signal>)
    ensures
        r == signal_of(category@, kind@),
{
    if same_text(category, "move") && same_text(kind, "new") {
        Some(Signal::MoveNew)
    } else if same_text(category, "player") {
        if same_text(kind, "surrender") {
            Some(Signal::Surrender)
        } else if same_text(kind, "offer_draw") {
            Some(Signal::DrawOffered)
        } else if same_text(kind, "accept_draw") {
            Some(Signal::DrawAccepted)
        } else if same_text(kind, "decline_draw") {
            Some(Signal::DrawDeclined)
        } else if same_text(kind, "disconnect") {
            Some(Signal::PeerDisconnected)
        } else {
            None
        }
    } else {
        None
    }
}

/// Reads a notice from the text received on the channel.
pub fn parse_notification(payload: &str) -> (r: Option<Notification>)
    ensures
        r == decoded(payload@),
{
    let f = split_text(payload, ':');
    if f.len() != 3 {
        return None;
    }
    assert(texts(f@)[0] == f@[0]@);
    assert(texts(f@)[1] == f@[1]@);
    assert(texts(f@)[2] == f@[2]@);
    let signal = read_signal(f[0].as_str(), f[1].as_str());
    let actor = parse_u32(f[2].as_str());
    match (signal, actor) {
        (Some(signal), Some(actor)) => Some(Notification { signal, actor }),
        _ => None,
    }
}

/// What a notice means for the client `me`: its own move or request was
/// carried out, or the opponent moved, surrendered, spoke about a draw or
/// left.
pub open spec fn relayed_status(n: Notification, me: u32) -> EventStatus {
    match n.signal {
        Signal::MoveNew => if n.actor == me {
            EventStatus::EchoSuccess
        } else {
            EventStatus::UpdateNewMove
        },
        Signal::Surrender => if n.actor == me {
            EventStatus::ConfirmSurrendered
        } else {
            EventStatus::OpponentSurrender
        },
        _ => if n.actor == me {
            EventStatus::EchoSuccess
        } else {
            EventStatus::ClientMessage
        },
    }
}

/// The name of the event that tells a client of a signal.
pub open spec fn event_name(s: Signal) -> Seq<char> {
    match s {
        Signal::MoveNew => "game_move"@,
        Signal::Surrender => "game_surrender"@,
        Signal::DrawOffered => "game_offer_draw"@,
        Signal::DrawAccepted => "game_accept_draw"@,
        Signal::DrawDeclined => "game_decline_draw"@,
        Signal::PeerDisconnected => "peer_disconnected"@,
    }
}

/// Writes the name of the event that tells a client of a signal.
pub fn event_name_of(s: Signal) -> (r: &'static str)
    ensures
        r@ == event_name(s),
{
    match s {
        Signal::MoveNew => "game_move",
        Signal::Surrender => "game_surrender",
        Signal::DrawOffered => "game_offer_draw",
        Signal::DrawAccepted => "game_accept_draw",
        Signal::DrawDeclined => "game_decline_draw",
        Signal::PeerDisconnected => "peer_disconnected",
    }
}

/// The event that tells the client `me` of the notice `n`, given the game
/// `g` as it stands after the notice.  The event addresses the client by its
/// colour; an event about a move carries the move and the position reached.
pub open spec fn relayed(n: Notification, g: GameView, me: u32) -> EventMessageView {
    EventMessageView {
        event: event_name(n.signal),
        data: EventDataView {
            player: g.colour_of(me),
            this_move: if n.signal == Signal::MoveNew {
                g.previous_move
            } else {
                None
            },
            position: if n.signal == Signal::MoveNew {
                Some(g.board_state)
            } else {
                None
            },
            status: relayed_status(n, me),
        },
    }
}

/// Builds the event that reports the last move of `game` to `user_id`.
pub fn format_game_move(game: &Game, user_id: u32, event_status: EventStatus) -> (r: EventMessage)
    ensures
        r@ == (EventMessageView {
            event: "game_move"@,
            data: EventDataView {
                player: game@.colour_of(user_id),
                this_move: game@.previous_move,
                position: Some(game@.board_state),
                status: event_status,
            },
        }),
{
    EventMessage {
        event: String::from_str("game_move"),
        data: EventData {
            player: game.colour_of(user_id),
            this_move: clone_opt_move(&game.previous_move),
            position: Some(game.board_state.clone()),
            status: event_status,
        },
    }
}

/// Builds an event named `name` that carries no move, addressed to
/// `user_id`.
pub fn format_plain(name: &str, user_id: u32, game: &Game, event_status: EventStatus) -> (r:
    EventMessage)
    ensures
        r@ == (EventMessageView {
            event: name@,
            data: EventDataView {
                player: game@.colour_of(user_id),
                this_move: None,
                position: None,
                status: event_status,
            },
        }),
{
    EventMessage {
        event: String::from_str(name),
        data: EventData {
            player: game.colour_of(user_id),
            this_move: None,
            position: None,
            status: event_status,
        },
    }
}

/// Builds the event that reports a surrender to `user_id`.
pub fn format_surrender(user_id: u32, game: &Game, event_status: EventStatus) -> (r: EventMessage)
    ensures
        r@ == (EventMessageView {
            event: "game_surrender"@,
            data: EventDataView {
                player: game@.colour_of(user_id),
                this_move: None,
                position: None,
                status: event_status,
            },
        }),
{
    format_plain("game_surrender", user_id, game, event_status)
}

/// Computes what a notice means for the client `me`.
pub fn status_for(n: &Notification, me: u32) -> (r: EventStatus)
    ensures
        r == relayed_status(*n, me),
{
    let own = n.actor == me;
    match n.signal {
        Signal::MoveNew => if own {
            EventStatus::EchoSuccess
        } else {
            EventStatus::UpdateNewMove
        },
        Signal::Surrender => if own {
            EventStatus::ConfirmSurrendered
        } else {
            EventStatus::OpponentSurrender
        },
        _ => if own {
            EventStatus::EchoSuccess
        } else {
            EventStatus::ClientMessage
        },
    }
}

/// Builds the event that tells the client `user_id` of the notice `n`, from
/// the game as read after the notice.
pub fn relay_event(n: &Notification, game: &Game, user_id: u32) -> (r: EventMessage)
    ensures
        r@ == relayed(*n, game@, user_id),
{
    let status = status_for(n, user_id);
    match n.signal {
        Signal::MoveNew => format_game_move(game, user_id, status),
        Signal::Surrender => format_surrender(user_id, game, status),
        Signal::DrawOffered => format_plain("game_offer_draw", user_id, game, status),
        Signal::DrawAccepted => format_plain("game_accept_draw", user_id, game, status),
        Signal::DrawDeclined => format_plain("game_decline_draw", user_id, game, status),
        Signal::PeerDisconnected => format_plain("peer_disconnected", user_id, game, status),
    }
}

/// What a connection forwards to its client for the text `payload` received
/// on the channel: nothing for a malformed text, else the event that the
/// notice means for the client.
pub open spec fn forwarded(payload: Seq<char>, g: GameView, me: u32) -> Option<EventMessageView> {
    match decoded(payload) {
        Some(n) => Some(relayed(n, g, me)),
        None => None,
    }
}

/// Decides what to forward to the client `user_id` for a text received on
/// the channel of `game`.
pub fn relay_update(payload: &str, game: &Game, user_id: u32) -> (r: Option<EventMessage>)
    ensures
        match r {
            Some(e) => forwarded(payload@, game@, user_id) == Some(e@),
            None => forwarded(payload@, game@, user_id) is None,
        },
{
    match parse_notification(payload) {
        Some(n) => Some(relay_event(&n, game, user_id)),
        None => None,
    }
}

/// Builds the event that opens play for `user_id`: it names the client's
/// colour.
pub fn initiated_event(game: &Game, user_id: u32) -> (r: EventMessage)
    ensures
        r@ == (EventMessageView {
            event: "game_initiated"@,
            data: EventDataView {
                player: game@.colour_of(user_id),
                this_move: None,
                position: None,
                status: EventStatus::ClientMessage,
            },
        }),
{
    format_plain("game_initiated", user_id, game, EventStatus::ClientMessage)
}

} // verus!
