//! The protocol engine of one connection: what each request of a client does
//! to the game, what is published to the other connection, and what the
//! requester is told.
//!
//! A request never changes a game in part: it is either carried out, and the
//! change is published, or refused, and the game is left as it was.  White
//! opens: a new game names black as the player who moved last, and only the
//! player who did not move last may move.

use crate::chess::{constructed_move, construct_bit_move};
use crate::clock::unix_now;
use crate::envelope::{ProtocolEvent, ProtocolEventView, event_of, event_view, parse_event,
    parts_of};
use crate::model::{DrawOffer, ErrorKind, EventDataView, EventMessage, EventMessageView,
    EventStatus, FinishReason, Game, GameStatus, GameView, Move, MoveView, clone_opt_move};
use crate::model::EventData;
use crate::notify::{Notification, Signal, event_name, event_name_of, format_plain};
use crate::position::has_fen_shape;
use crate::rules::{play, position_after, rewrite, stable_position};
use crate::session::opening_game;
use crate::text::same_text;
use vstd::prelude::*;
use vstd::string::*;

verus! {

/// How long an offer of a draw stands, in seconds.
pub const DRAW_OFFER_SECONDS: i64 = 60;

/// Why a request on the game `g` by `requester` is refused before it is
/// looked at: the game is finished, or the requester is not one of its
/// players.
pub open spec fn gate(g: GameView, requester: u32) -> Option<ErrorKind> {
    if g.is_finished() {
        Some(ErrorKind::GameClosedError)
    } else if !g.has_player(requester) {
        Some(ErrorKind::ProtocolError)
    } else {
        None
    }
}

/// Whether the move `m` of `requester` is accepted in the game `g`, and the
/// position it leads to.  In this order: a finished game takes no move; the
/// player who moved last may not move; nor may a stranger; the stored
/// position must be usable; the move must be readable and legal; and the
/// position reached must be one that is read back as it was written.
pub open spec fn move_verdict(g: GameView, requester: u32, m: MoveView) -> Result<
    Seq<char>,
    ErrorKind,
> {
    if g.is_finished() {
        Err(ErrorKind::GameClosedError)
    } else if requester == g.last_moved.0 {
        Err(ErrorKind::TurnError)
    } else if !g.has_player(requester) {
        Err(ErrorKind::ProtocolError)
    } else {
        match constructed_move(m, g.board_state) {
            Err(e) => Err(e),
            Ok(code) => {
                let next = position_after(g.board_state, code);
                if stable_position(next) {
                    Ok(next)
                } else {
                    Err(ErrorKind::StoreError)
                }
            },
        }
    }
}

/// The game `g` after the accepted move `m` of `requester` at the time
/// `now`, which led to the position `next`.
pub open spec fn after_move(
    g: GameView,
    requester: u32,
    m: MoveView,
    next: Seq<char>,
    now: i64,
) -> GameView {
    GameView { board_state: next, last_moved: (requester, now), previous_move: Some(m), ..g }
}

/// A move request: the game afterwards, and the notice to publish or the
/// reason of the refusal.
pub open spec fn move_step(g: GameView, requester: u32, m: MoveView, now: i64) -> (
    GameView,
    Result<Notification, ErrorKind>,
) {
    match move_verdict(g, requester, m) {
        Ok(next) => (
            after_move(g, requester, m, next, now),
            Ok(Notification { signal: Signal::MoveNew, actor: requester }),
        ),
        Err(e) => (g, Err(e)),
    }
}

/// A surrender: it ends the game.
pub open spec fn surrender_step(g: GameView, requester: u32) -> (
    GameView,
    Result<Notification, ErrorKind>,
) {
    match gate(g, requester) {
        Some(e) => (g, Err(e)),
        None => (
            GameView {
                status: GameStatus::Finished(FinishReason::Surrender),
                draw_offer: None,
                ..g
            },
            Ok(Notification { signal: Signal::Surrender, actor: requester }),
        ),
    }
}

/// The offer of a draw that stands in `g` at the time `now`: the recorded
/// one, unless its deadline has passed.
pub open spec fn live_offer(g: GameView, now: i64) -> Option<DrawOffer> {
    match g.draw_offer {
        Some(offer) => if now <= offer.deadline {
            Some(offer)
        } else {
            None
        },
        None => None,
    }
}

/// The deadline of an offer made at `now`.
pub open spec fn deadline_after(now: i64) -> i64 {
    if now > i64::MAX - DRAW_OFFER_SECONDS {
        i64::MAX
    } else {
        (now + DRAW_OFFER_SECONDS) as i64
    }
}

/// An offer of a draw: it is recorded with its deadline, unless an offer
/// already stands.
pub open spec fn offer_step(g: GameView, requester: u32, now: i64) -> (
    GameView,
    Result<Notification, ErrorKind>,
) {
    match gate(g, requester) {
        Some(e) => (g, Err(e)),
        None => if live_offer(g, now) is Some {
            (g, Err(ErrorKind::ProtocolError))
        } else {
            (
                GameView {
                    draw_offer: Some(DrawOffer { by: requester, deadline: deadline_after(now) }),
                    ..g
                },
                Ok(Notification { signal: Signal::DrawOffered, actor: requester }),
            )
        },
    }
}

/// Whether `requester` may answer an offer of a draw at `now`: an offer of
/// the other player stands.
pub open spec fn may_answer(g: GameView, requester: u32, now: i64) -> bool {
    live_offer(g, now) matches Some(offer) && offer.by != requester
}

/// The acceptance of a draw: it ends the game.
pub open spec fn accept_step(g: GameView, requester: u32, now: i64) -> (
    GameView,
    Result<Notification, ErrorKind>,
) {
    match gate(g, requester) {
        Some(e) => (g, Err(e)),
        None => if may_answer(g, requester, now) {
            (
                GameView {
                    status: GameStatus::Finished(FinishReason::Draw),
                    draw_offer: None,
                    ..g
                },
                Ok(Notification { signal: Signal::DrawAccepted, actor: requester }),
            )
        } else {
            (g, Err(ErrorKind::ProtocolError))
        },
    }
}

/// The refusal of a draw: it clears the offer.
pub open spec fn decline_step(g: GameView, requester: u32, now: i64) -> (
    GameView,
    Result<Notification, ErrorKind>,
) {
    match gate(g, requester) {
        Some(e) => (g, Err(e)),
        None => if may_answer(g, requester, now) {
            (
                GameView { draw_offer: None, ..g },
                Ok(Notification { signal: Signal::DrawDeclined, actor: requester }),
            )
        } else {
            (g, Err(ErrorKind::ProtocolError))
        },
    }
}

/// The answer to a request for the current state: the last move and the
/// position, addressed to the requester by colour.
pub open spec fn reminder_of(g: GameView, requester: u32) -> Result<EventMessageView, ErrorKind> {
    match gate(g, requester) {
        Some(e) => Err(e),
        None => Ok(
            EventMessageView {
                event: "game_reminder"@,
                data: EventDataView {
                    player: g.colour_of(requester),
                    this_move: g.previous_move,
                    position: Some(g.board_state),
                    status: EventStatus::Reminder,
                },
            },
        ),
    }
}

/// Computes why a request is refused before it is looked at.
fn check_gate(game: &Game, requester: u32) -> (r: Option<ErrorKind>)
    ensures
        r == gate(game@, requester),
{
    if game.is_finished() {
        Some(ErrorKind::GameClosedError)
    } else if !game.has_player(requester) {
        Some(ErrorKind::ProtocolError)
    } else {
        None
    }
}

/// Carries out the move `mv` of `requester` at the time `now`, or refuses
/// it and leaves the game as it was.
pub fn handle_move(game: &mut Game, requester: u32, mv: &Move, now: i64) -> (r: Result<
    Notification,
    ErrorKind,
>)
    ensures
        (final(game)@, r) == move_step(old(game)@, requester, mv@, now),
        requester == old(game)@.last_moved.0 ==> r is Err && final(game)@ == old(game)@,
        r is Err ==> final(game)@ == old(game)@,
        r is Ok ==> final(game)@.last_moved == (requester, now) && final(game)@.previous_move
            == Some(mv@),
        r is Ok ==> stable_position(final(game)@.board_state),
{
    if game.is_finished() {
        return Err(ErrorKind::GameClosedError);
    }
    if requester == game.last_moved.0 {
        return Err(ErrorKind::TurnError);
    }
    if !game.has_player(requester) {
        return Err(ErrorKind::ProtocolError);
    }
    let code = match construct_bit_move(mv, game.board_state.as_str()) {
        Ok(code) => code,
        Err(e) => {
            return Err(e);
        },
    };
    let next = play(game.board_state.as_str(), code);
    if !has_fen_shape(next.as_str()) {
        return Err(ErrorKind::StoreError);
    }
    match rewrite(next.as_str()) {
        Some(again) => if !same_text(again.as_str(), next.as_str()) {
            return Err(ErrorKind::StoreError);
        },
        None => {
            return Err(ErrorKind::StoreError);
        },
    }
    game.board_state = next;
    game.last_moved = (requester, now);
    game.previous_move = Some(mv.clone());
    Ok(Notification { signal: Signal::MoveNew, actor: requester })
}

/// Ends the game by the surrender of `requester`.
pub fn handle_surrender(game: &mut Game, requester: u32) -> (r: Result<Notification, ErrorKind>)
    ensures
        (final(game)@, r) == surrender_step(old(game)@, requester),
{
    match check_gate(game, requester) {
        Some(e) => Err(e),
        None => {
            game.status = GameStatus::Finished(FinishReason::Surrender);
            game.draw_offer = None;
            Ok(Notification { signal: Signal::Surrender, actor: requester })
        },
    }
}

/// Tells which offer of a draw stands at `now`.
pub fn standing_offer(game: &Game, now: i64) -> (r: Option<DrawOffer>)
    ensures
        r == live_offer(game@, now),
{
    match game.draw_offer {
        Some(offer) => if now <= offer.deadline {
            Some(offer)
        } else {
            None
        },
        None => None,
    }
}

/// Records the offer of a draw by `requester` at `now`.
pub fn handle_offer_draw(game: &mut Game, requester: u32, now: i64) -> (r: Result<
    Notification,
    ErrorKind,
>)
    ensures
        (final(game)@, r) == offer_step(old(game)@, requester, now),
{
    match check_gate(game, requester) {
        Some(e) => Err(e),
        None => if standing_offer(game, now).is_some() {
            Err(ErrorKind::ProtocolError)
        } else {
            let deadline = if now > i64::MAX - DRAW_OFFER_SECONDS {
                i64::MAX
            } else {
                now + DRAW_OFFER_SECONDS
            };
            game.draw_offer = Some(DrawOffer { by: requester, deadline });
            Ok(Notification { signal: Signal::DrawOffered, actor: requester })
        },
    }
}

/// Tells whether `requester` may answer an offer of a draw at `now`.
fn can_answer(game: &Game, requester: u32, now: i64) -> (r: bool)
    ensures
        r == may_answer(game@, requester, now),
{
    match standing_offer(game, now) {
        Some(offer) => offer.by != requester,
        None => false,
    }
}

/// Ends the game in a draw, if `requester` accepts an offer of the other
/// player that stands at `now`.
pub fn handle_accept_draw(game: &mut Game, requester: u32, now: i64) -> (r: Result<
    Notification,
    ErrorKind,
>)
    ensures
        (final(game)@, r) == accept_step(old(game)@, requester, now),
{
    match check_gate(game, requester) {
        Some(e) => Err(e),
        None => if can_answer(game, requester, now) {
            game.status = GameStatus::Finished(FinishReason::Draw);
            game.draw_offer = None;
            Ok(Notification { signal: Signal::DrawAccepted, actor: requester })
        } else {
            Err(ErrorKind::ProtocolError)
        },
    }
}

/// Clears the offer of a draw, if `requester` declines an offer of the other
/// player that stands at `now`.
pub fn handle_decline_draw(game: &mut Game, requester: u32, now: i64) -> (r: Result<
    Notification,
    ErrorKind,
>)
    ensures
        (final(game)@, r) == decline_step(old(game)@, requester, now),
{
    match check_gate(game, requester) {
        Some(e) => Err(e),
        None => if can_answer(game, requester, now) {
            game.draw_offer = None;
            Ok(Notification { signal: Signal::DrawDeclined, actor: requester })
        } else {
            Err(ErrorKind::ProtocolError)
        },
    }
}

/// Clears an offer of a draw whose deadline has passed at `now`.  Tells
/// whether there was one.
pub fn expire_draw_offer(game: &mut Game, now: i64) -> (cleared: bool)
    ensures
        cleared == (old(game)@.draw_offer is Some && live_offer(old(game)@, now) is None),
        final(game)@ == if cleared {
            GameView { draw_offer: None, ..old(game)@ }
        } else {
            old(game)@
        },
{
    match game.draw_offer {
        Some(offer) => if now > offer.deadline {
            game.draw_offer = None;
            true
        } else {
            false
        },
        None => false,
    }
}

/// Builds the answer to a request of `requester` for the current state.
pub fn handle_send_reminder(game: &Game, requester: u32) -> (r: Result<EventMessage, ErrorKind>)
    ensures
        match r {
            Ok(e) => reminder_of(game@, requester) == Ok::<EventMessageView, ErrorKind>(e@),
            Err(k) => reminder_of(game@, requester) == Err::<EventMessageView, ErrorKind>(k),
        },
{
    match check_gate(game, requester) {
        Some(e) => Err(e),
        None => Ok(
            EventMessage {
                event: String::from_str("game_reminder"),
                data: EventData {
                    player: game.colour_of(requester),
                    this_move: clone_opt_move(&game.previous_move),
                    position: Some(game.board_state.clone()),
                    status: EventStatus::Reminder,
                },
            },
        ),
    }
}

/// What the store must take over after a request.
#[derive(Clone, Copy, Debug, PartialEq, Eq, Structural)]
pub enum StoreUpdate {
    /// Nothing changed.
    Nothing,
    /// The position, the last mover and the last move changed together.
    SaveMove,
    /// The offer of a draw changed.
    SaveDrawOffer,
    /// The game is finished: it leaves the index of active games, and both
    /// players lose their entry in the index from player to game.
    CloseGame,
}

/// What a connection does after a request of its client.
#[derive(Debug)]
pub struct Outcome {
    /// Why the request was refused, if it was.
    pub error: Option<ErrorKind>,
    pub update: StoreUpdate,
    /// The last-move stamp of the record that the request was decided on.
    /// The store takes the update only while the stored record still
    /// carries this stamp.
    pub version: (u32, i64),
    /// The notice to publish on the game's channel.
    pub publish: Option<Notification>,
    /// The event to send to the requester itself.
    pub reply: Option<EventMessage>,
}

/// The mathematical value of an [`Outcome`].
pub struct OutcomeView {
    pub error: Option<ErrorKind>,
    pub update: StoreUpdate,
    pub version: (u32, i64),
    pub publish: Option<Notification>,
    pub reply: Option<EventMessageView>,
}

impl View for Outcome {
    type V = OutcomeView;

    open spec fn view(&self) -> OutcomeView {
        OutcomeView {
            error: self.error,
            update: self.update,
            version: self.version,
            publish: self.publish,
            reply: match self.reply {
                Some(e) => Some(e@),
                None => None,
            },
        }
    }
}

/// The event that tells `user` that its request `name` was refused.
pub open spec fn failure_reply(g: GameView, user: u32, name: Seq<char>) -> EventMessageView {
    EventMessageView {
        event: name,
        data: EventDataView {
            player: g.colour_of(user),
            this_move: None,
            position: None,
            status: EventStatus::EchoFailure,
        },
    }
}

/// The outcome of a request `name` on the game `g` that changes the game:
/// carried out, the change goes to the store as `update` and the notice is
/// published; refused, nothing goes to the store and the requester gets a
/// failure event.
pub open spec fn settled(
    g: GameView,
    user: u32,
    name: Seq<char>,
    result: Result<Notification, ErrorKind>,
    update: StoreUpdate,
) -> OutcomeView {
    match result {
        Ok(n) => OutcomeView {
            error: None,
            update,
            version: g.last_moved,
            publish: Some(n),
            reply: None,
        },
        Err(e) => OutcomeView {
            error: Some(e),
            update: StoreUpdate::Nothing,
            version: g.last_moved,
            publish: None,
            reply: Some(failure_reply(g, user, name)),
        },
    }
}

/// What the connection of `user` to the game `game_id` makes of a request
/// at the time `now`, given the game `g` as the store holds it: the game
/// afterwards and the outcome.  A record of another game is a store error;
/// an envelope that could not be read is answered as `protocol_error`.
pub open spec fn response(
    game_id: u32,
    user: u32,
    g: GameView,
    event: Result<ProtocolEventView, ErrorKind>,
    now: i64,
) -> (GameView, OutcomeView) {
    if g.game_id != game_id {
        (g, settled(g, user, "store_error"@, Err(ErrorKind::StoreError), StoreUpdate::Nothing))
    } else {
        match event {
            Err(e) => (g, settled(g, user, "protocol_error"@, Err(e), StoreUpdate::Nothing)),
            Ok(ProtocolEventView::Move(m)) => {
                let (after, r) = move_step(g, user, m, now);
                (after, settled(g, user, "game_move"@, r, StoreUpdate::SaveMove))
            },
            Ok(ProtocolEventView::Surrender) => {
                let (after, r) = surrender_step(g, user);
                (after, settled(g, user, "game_surrender"@, r, StoreUpdate::CloseGame))
            },
            Ok(ProtocolEventView::OfferDraw) => {
                let (after, r) = offer_step(g, user, now);
                (after, settled(g, user, "game_offer_draw"@, r, StoreUpdate::SaveDrawOffer))
            },
            Ok(ProtocolEventView::AcceptDraw) => {
                let (after, r) = accept_step(g, user, now);
                (after, settled(g, user, "game_accept_draw"@, r, StoreUpdate::CloseGame))
            },
            Ok(ProtocolEventView::DeclineDraw) => {
                let (after, r) = decline_step(g, user, now);
                (after, settled(g, user, "game_decline_draw"@, r, StoreUpdate::SaveDrawOffer))
            },
            Ok(ProtocolEventView::Reminder) => (
                g,
                match reminder_of(g, user) {
                    Ok(e) => OutcomeView {
                        error: None,
                        update: StoreUpdate::Nothing,
                        version: g.last_moved,
                        publish: None,
                        reply: Some(e),
                    },
                    Err(k) => settled(g, user, "game_reminder"@, Err(k), StoreUpdate::Nothing),
                },
            ),
        }
    }
}

/// Builds the outcome of a request that changes the game.
fn settle(
    before: &Game,
    user: u32,
    name: &str,
    result: Result<Notification, ErrorKind>,
    update: StoreUpdate,
) -> (r: Outcome)
    ensures
        r@ == settled(before@, user, name@, result, update),
{
    match result {
        Ok(n) => Outcome {
            error: None,
            update,
            version: before.last_moved,
            publish: Some(n),
            reply: None,
        },
        Err(e) => Outcome {
            error: Some(e),
            update: StoreUpdate::Nothing,
            version: before.last_moved,
            publish: None,
            reply: Some(format_plain(name, user, before, EventStatus::EchoFailure)),
        },
    }
}

/// The engine of one connection: it serves the requests of one player in
/// one game.
#[derive(Clone, Copy, Debug, PartialEq, Eq, Structural)]
pub struct GameServer {
    pub game_id: u32,
    pub user_id: u32,
}

impl GameServer {
    /// The engine for the connection of `user_id` to the game `game_id`.
    pub fn new(game_id: u32, user_id: u32) -> (r: Self)
        ensures
            r.game_id == game_id,
            r.user_id == user_id,
    {
        GameServer { game_id, user_id }
    }

    /// Carries out the move `data` of this connection's player.
    pub fn handle_move(&self, game: &mut Game, data: &Move, now: i64) -> (r: Result<
        Notification,
        ErrorKind,
    >)
        ensures
            (final(game)@, r) == move_step(old(game)@, self.user_id, data@, now),
    {
        handle_move(game, self.user_id, data, now)
    }

    /// Ends the game by the surrender of this connection's player.
    pub fn handle_surrender(&self, game: &mut Game) -> (r: Result<Notification, ErrorKind>)
        ensures
            (final(game)@, r) == surrender_step(old(game)@, self.user_id),
    {
        handle_surrender(game, self.user_id)
    }

    /// Serves a request that was read, or answers one that could not be
    /// read, at the time `now`.
    pub fn respond(
        &self,
        game: &mut Game,
        event: Result<ProtocolEvent, ErrorKind>,
        now: i64,
    ) -> (r: Outcome)
        ensures
            (final(game)@, r@) == response(
                self.game_id,
                self.user_id,
                old(game)@,
                event_view(event),
                now,
            ),
    {
        let before = game.clone();
        if game.game_id != self.game_id {
            return settle(
                &before,
                self.user_id,
                "store_error",
                Err(ErrorKind::StoreError),
                StoreUpdate::Nothing,
            );
        }
        match event {
            Err(e) => settle(&before, self.user_id, "protocol_error", Err(e), StoreUpdate::Nothing),
            Ok(ProtocolEvent::Move(m)) => {
                let r = handle_move(game, self.user_id, &m, now);
                settle(&before, self.user_id, "game_move", r, StoreUpdate::SaveMove)
            },
            Ok(ProtocolEvent::Surrender) => {
                let r = handle_surrender(game, self.user_id);
                settle(&before, self.user_id, "game_surrender", r, StoreUpdate::CloseGame)
            },
            Ok(ProtocolEvent::OfferDraw) => {
                let r = handle_offer_draw(game, self.user_id, now);
                settle(&before, self.user_id, "game_offer_draw", r, StoreUpdate::SaveDrawOffer)
            },
            Ok(ProtocolEvent::AcceptDraw) => {
                let r = handle_accept_draw(game, self.user_id, now);
                settle(&before, self.user_id, "game_accept_draw", r, StoreUpdate::CloseGame)
            },
            Ok(ProtocolEvent::DeclineDraw) => {
                let r = handle_decline_draw(game, self.user_id, now);
                settle(&before, self.user_id, "game_decline_draw", r, StoreUpdate::SaveDrawOffer)
            },
            Ok(ProtocolEvent::Reminder) => match handle_send_reminder(game, self.user_id) {
                Ok(e) => Outcome {
                    error: None,
                    update: StoreUpdate::Nothing,
                    version: before.last_moved,
                    publish: None,
                    reply: Some(e),
                },
                Err(k) => settle(
                    &before,
                    self.user_id,
                    "game_reminder",
                    Err(k),
                    StoreUpdate::Nothing,
                ),
            },
        }
    }

    /// Serves the request in the text frame `msg`: reads the envelope,
    /// reads the clock, and responds.  The outcome is that of
    /// [`GameServer::respond`] at some time.
    pub fn handle_received_message(&self, game: &mut Game, msg: &str) -> (r: Outcome)
        ensures
            exists|now: i64|
                (final(game)@, r@) == #[trigger] response(
                    self.game_id,
                    self.user_id,
                    old(game)@,
                    event_of(parts_of(msg@)),
                    now,
                ),
    {
        let event = parse_event(msg);
        let now = unix_now();
        self.respond(game, event, now)
    }
}

/// A request that is refused leaves the game as it was and publishes
/// nothing; one that is carried out is answered only through the notice.
pub proof fn lemma_refusal_changes_nothing(
    game_id: u32,
    user: u32,
    g: GameView,
    event: Result<ProtocolEventView, ErrorKind>,
    now: i64,
)
    ensures
        response(game_id, user, g, event, now).1.error is Some ==> {
            &&& response(game_id, user, g, event, now).0 == g
            &&& response(game_id, user, g, event, now).1.publish is None
            &&& response(game_id, user, g, event, now).1.update == StoreUpdate::Nothing
            &&& response(game_id, user, g, event, now).1.reply matches Some(e) && e.data.status
                == EventStatus::EchoFailure
        },
{
}

/// Only the player who may move has a move accepted, and an accepted move
/// hands the turn to the other player of a well-formed game.
pub proof fn lemma_only_the_entitled_move(g: GameView, requester: u32, m: MoveView, now: i64)
    requires
        move_step(g, requester, m, now).1 is Ok,
    ensures
        g.may_move(requester),
        !move_step(g, requester, m, now).0.may_move(requester),
        g.wf() ==> move_step(g, requester, m, now).0.may_move(g.opponent_of(requester)),
{
}

/// A move of the player who moved last is always refused: as out of turn
/// while the game is played, as closed once it is finished.
pub proof fn lemma_out_of_turn_refused(g: GameView, m: MoveView, now: i64)
    ensures
        move_step(g, g.last_moved.0, m, now).0 == g,
        move_step(g, g.last_moved.0, m, now).1 == Err::<Notification, ErrorKind>(
            if g.is_finished() {
                ErrorKind::GameClosedError
            } else {
                ErrorKind::TurnError
            },
        ),
{
}

/// A finished game stays finished, whatever is requested of it, and is
/// never changed again.
pub proof fn lemma_finished_is_final(
    game_id: u32,
    user: u32,
    g: GameView,
    event: Result<ProtocolEventView, ErrorKind>,
    now: i64,
)
    requires
        g.is_finished(),
    ensures
        response(game_id, user, g, event, now).0 == g,
        response(game_id, user, g, event, now).1.error is Some,
{
}

/// Every request keeps a well-formed game well formed, and keeps its
/// identity, its players and the time of its creation.
pub proof fn lemma_response_keeps_game(
    game_id: u32,
    user: u32,
    g: GameView,
    event: Result<ProtocolEventView, ErrorKind>,
    now: i64,
)
    requires
        g.wf(),
    ensures
        response(game_id, user, g, event, now).0.wf(),
        response(game_id, user, g, event, now).0.game_id == g.game_id,
        response(game_id, user, g, event, now).0.player_white == g.player_white,
        response(game_id, user, g, event, now).0.player_black == g.player_black,
        response(game_id, user, g, event, now).0.game_created == g.game_created,
        response(game_id, user, g, event, now).0.game_initiated == g.game_initiated,
{
}

/// One request for a move: who asks, what, and when.
pub struct MoveRequest {
    pub requester: u32,
    pub requested: MoveView,
    pub now: i64,
}

/// The game `g` after the requests `moves`, taken in order.
pub open spec fn after_all(g: GameView, moves: Seq<MoveRequest>) -> GameView
    decreases moves.len(),
{
    if moves.len() == 0 {
        g
    } else {
        let r = moves.last();
        move_step(after_all(g, moves.drop_last()), r.requester, r.requested, r.now).0
    }
}

/// Whether each of the requests `moves`, taken in order on the game `g`, is
/// accepted.
pub open spec fn all_accepted(g: GameView, moves: Seq<MoveRequest>) -> bool
    decreases moves.len(),
{
    moves.len() == 0 || {
        let r = moves.last();
        &&& all_accepted(g, moves.drop_last())
        &&& move_step(after_all(g, moves.drop_last()), r.requester, r.requested, r.now).1 is Ok
    }
}

/// The player who makes the accepted move number `i`, counted from 0, in a
/// game that `g` describes: the two players take turns, and the one who did
/// not move last in `g` begins.
pub open spec fn mover(g: GameView, i: int) -> u32 {
    if i % 2 == 0 {
        g.opponent_of(g.last_moved.0)
    } else {
        g.last_moved.0
    }
}

/// An accepted move in a well-formed game is made by the player who did
/// not move last; it leaves the game well formed with the same players and
/// names its maker as the player who moved last.
pub proof fn lemma_accepted_step(g: GameView, requester: u32, m: MoveView, now: i64)
    requires
        g.wf(),
        move_step(g, requester, m, now).1 is Ok,
    ensures
        requester == g.opponent_of(g.last_moved.0),
        move_step(g, requester, m, now).0.wf(),
        move_step(g, requester, m, now).0.player_white == g.player_white,
        move_step(g, requester, m, now).0.player_black == g.player_black,
        move_step(g, requester, m, now).0.last_moved.0 == requester,
{
}

/// After any sequence of accepted moves the game is well formed, has the
/// same players, and names the maker of the last move as the player who
/// moved last.
pub proof fn lemma_after_all(g: GameView, moves: Seq<MoveRequest>)
    requires
        g.wf(),
        all_accepted(g, moves),
    ensures
        after_all(g, moves).wf(),
        after_all(g, moves).player_white == g.player_white,
        after_all(g, moves).player_black == g.player_black,
        after_all(g, moves).last_moved.0 == mover(g, moves.len() - 1),
        moves.len() > 0 ==> moves.last().requester == mover(g, moves.len() - 1),
    decreases moves.len(),
{
    if moves.len() > 0 {
        let head = moves.drop_last();
        lemma_after_all(g, head);
        let r = moves.last();
        lemma_accepted_step(after_all(g, head), r.requester, r.requested, r.now);
        let n = moves.len() as int;
        assert(((n - 1) % 2 == 0) != ((n - 2) % 2 == 0));
    }
}

/// Across any sequence of accepted moves the two players alternate: the
/// move number `i` is made by `mover(g, i)`, and after all of them the game
/// names the maker of the last one as the player who moved last.  In a new
/// game, which names black, white makes the moves of even number.
pub proof fn lemma_turns_alternate(g: GameView, moves: Seq<MoveRequest>)
    requires
        g.wf(),
        all_accepted(g, moves),
    ensures
        forall|i: int| 0 <= i < moves.len() ==> (#[trigger] moves[i]).requester == mover(g, i),
        after_all(g, moves).wf(),
        after_all(g, moves).player_white == g.player_white,
        after_all(g, moves).player_black == g.player_black,
        after_all(g, moves).last_moved.0 == mover(g, moves.len() - 1),
    decreases moves.len(),
{
    lemma_after_all(g, moves);
    if moves.len() > 0 {
        let head = moves.drop_last();
        lemma_turns_alternate(g, head);
        assert forall|i: int| 0 <= i < moves.len() implies (#[trigger] moves[i]).requester
            == mover(g, i) by {
            if i < head.len() {
                assert(head[i] == moves[i]);
            }
        }
    }
}

/// The position that an accepted move leaves in the game is one that the
/// engine reads and writes back letter for letter, and it is the position
/// that applying the move to the position before gave.
pub proof fn lemma_position_is_read_back(g: GameView, requester: u32, m: MoveView, now: i64)
    requires
        move_step(g, requester, m, now).1 is Ok,
    ensures
        ({
            let after = move_step(g, requester, m, now).0;
            &&& constructed_move(m, g.board_state) matches Ok(code) && after.board_state
                == position_after(g.board_state, code)
            &&& stable_position(after.board_state)
            &&& crate::rules::position_rewritten(after.board_state) == after.board_state
        }),
{
}

/// The end of a game for the reason `reason`: a game that is played
/// becomes finished, and a pending offer of a draw falls; a finished game
/// stays as it is.
pub open spec fn finish_step(g: GameView, reason: FinishReason) -> (
    GameView,
    Result<(), ErrorKind>,
) {
    if g.is_finished() {
        (g, Err(ErrorKind::GameClosedError))
    } else {
        (GameView { status: GameStatus::Finished(reason), draw_offer: None, ..g }, Ok(()))
    }
}

/// Ends the game for the reason `reason`, unless it is finished already.
pub fn finish_game(game: &mut Game, reason: FinishReason) -> (r: Result<(), ErrorKind>)
    ensures
        (final(game)@, r) == finish_step(old(game)@, reason),
{
    if game.is_finished() {
        Err(ErrorKind::GameClosedError)
    } else {
        game.status = GameStatus::Finished(reason);
        game.draw_offer = None;
        Ok(())
    }
}

/// Whether the game `g` has run out of time at `now`: it is played, and
/// more than `allowance` seconds have passed since the last move.
pub open spec fn overdue(g: GameView, now: i64, allowance: i64) -> bool {
    !g.is_finished() && now - g.last_moved.1 > allowance
}

/// Ends the game by timeout if it has run out of time at `now`.  Tells
/// whether it did.
pub fn close_if_overdue(game: &mut Game, now: i64, allowance: i64) -> (closed: bool)
    ensures
        closed == overdue(old(game)@, now, allowance),
        final(game)@ == if closed {
            finish_step(old(game)@, FinishReason::Timeout).0
        } else {
            old(game)@
        },
{
    if game.is_finished() {
        return false;
    }
    let late = (now as i128) - (game.last_moved.1 as i128) > allowance as i128;
    if late {
        game.status = GameStatus::Finished(FinishReason::Timeout);
        game.draw_offer = None;
        true
    } else {
        false
    }
}

/// White opens: in a new game the first accepted move is white's, and a
/// move of black is refused as out of turn.
pub proof fn lemma_white_opens(
    game_id: u32,
    white: u32,
    black: u32,
    created: i64,
    m: MoveView,
    now: i64,
)
    requires
        white != black,
    ensures
        ({
            let g = opening_game(game_id, white, black, created);
            &&& g.wf()
            &&& mover(g, 0) == white
            &&& move_step(g, black, m, now) == (g, Err::<Notification, ErrorKind>(ErrorKind::TurnError))
            &&& forall|p: u32| move_step(g, p, m, now).1 is Ok ==> p == white
        }),
{
}

/// What a connection does once the store has answered the update of an
/// outcome.
#[derive(Debug)]
pub struct FollowUp {
    /// The notice to publish on the game's channel.
    pub publish: Option<Notification>,
    /// The event to send to the requester itself.
    pub reply: Option<EventMessage>,
    /// Whether the game leaves the index of active games and both players
    /// lose their entry in the index from player to game.
    pub unregister: bool,
    /// Whether the connection ends.
    pub fatal: bool,
}

/// The mathematical value of a [`FollowUp`].
pub struct FollowUpView {
    pub publish: Option<Notification>,
    pub reply: Option<EventMessageView>,
    pub unregister: bool,
    pub fatal: bool,
}

impl View for FollowUp {
    type V = FollowUpView;

    open spec fn view(&self) -> FollowUpView {
        FollowUpView {
            publish: self.publish,
            reply: match self.reply {
                Some(e) => Some(e@),
                None => None,
            },
            unregister: self.unregister,
            fatal: self.fatal,
        }
    }
}

/// The name of the request that led to the outcome `o`, as far as the
/// outcome tells: the event of the notice it would publish.
pub open spec fn request_of(o: OutcomeView) -> Seq<char> {
    match o.publish {
        Some(n) => event_name(n.signal),
        None => "store_error"@,
    }
}

/// What follows the outcome `o` of a request of `user`, once the store has
/// said whether it took the update (`written`; true where nothing was to be
/// written).  An update that the store did not take, because the record had
/// changed since it was read, undoes the request: nothing is published, and
/// the requester is told that the request failed, under the name of the
/// request.  Otherwise the notice is published and the reply sent as the
/// outcome says; a finished game is unregistered; a store error ends the
/// connection.
pub open spec fn follow_up(o: OutcomeView, written: bool, g: GameView, user: u32) -> FollowUpView {
    if o.update != StoreUpdate::Nothing && !written {
        FollowUpView {
            publish: None,
            reply: Some(failure_reply(g, user, request_of(o))),
            unregister: false,
            fatal: false,
        }
    } else {
        FollowUpView {
            publish: o.publish,
            reply: o.reply,
            unregister: o.update == StoreUpdate::CloseGame,
            fatal: o.error == Some(ErrorKind::StoreError),
        }
    }
}

/// Decides what follows an outcome once the store has answered.
pub fn conclude(outcome: Outcome, written: bool, game: &Game, user: u32) -> (r: FollowUp)
    ensures
        r@ == follow_up(outcome@, written, game@, user),
{
    let stale = match outcome.update {
        StoreUpdate::Nothing => false,
        _ => !written,
    };
    if stale {
        let name = match outcome.publish {
            Some(n) => event_name_of(n.signal),
            None => "store_error",
        };
        FollowUp {
            publish: None,
            reply: Some(format_plain(name, user, game, EventStatus::EchoFailure)),
            unregister: false,
            fatal: false,
        }
    } else {
        let unregister = match outcome.update {
            StoreUpdate::CloseGame => true,
            _ => false,
        };
        let fatal = match outcome.error {
            Some(ErrorKind::StoreError) => true,
            _ => false,
        };
        FollowUp { publish: outcome.publish, reply: outcome.reply, unregister, fatal }
    }
}

/// A move is accepted exactly if the game is played, the requester is the
/// player of the game who did not move last, the stored position is usable,
/// the move is readable, legal and takes no king, and the position that the
/// engine gives for it is read back as written.  An accepted move stores
/// that position, names the requester as the player who moved last, and
/// records the move.
pub proof fn lemma_acceptance(g: GameView, requester: u32, m: MoveView, now: i64)
    ensures
        move_step(g, requester, m, now).1 is Ok <==> {
            &&& g.may_move(requester)
            &&& constructed_move(m, g.board_state) matches Ok(code) && stable_position(
                position_after(g.board_state, code),
            )
        },
        move_step(g, requester, m, now).1 is Ok ==> {
            &&& move_step(g, requester, m, now).0.last_moved == (requester, now)
            &&& move_step(g, requester, m, now).0.last_moved.0 != g.last_moved.0
            &&& move_step(g, requester, m, now).0.previous_move == Some(m)
            &&& constructed_move(m, g.board_state) matches Ok(code) && move_step(
                g,
                requester,
                m,
                now,
            ).0.board_state == position_after(g.board_state, code)
        },
{
}

} // verus!
