//! The records that the server keeps and exchanges: games, moves and the
//! events sent to clients, each with the mathematical value that contracts
//! speak of.

use vstd::prelude::*;

verus! {

/// The side a player has in a game.
#[derive(Clone, Copy, Debug, PartialEq, Eq, Structural)]
pub enum PlayerColour {
    White,
    Black,
}

/// What an event sent to a client reports.
#[derive(Clone, Copy, Debug, PartialEq, Eq, Structural)]
pub enum EventStatus {
    /// The client's own request was carried out.
    EchoSuccess,
    /// The client's own request was refused; nothing changed.
    EchoFailure,
    /// The opponent made a move.
    UpdateNewMove,
    /// The client's own surrender ended the game.
    ConfirmSurrendered,
    /// The opponent's surrender ended the game.
    OpponentSurrender,
    /// The current state, sent again on request.
    Reminder,
    /// A message about what the opponent did, other than a move or a
    /// surrender.
    ClientMessage,
}

/// Why a game ended.
#[derive(Clone, Copy, Debug, PartialEq, Eq, Structural)]
pub enum FinishReason {
    Surrender,
    Checkmate,
    Draw,
    Timeout,
}

/// Whether a game is still played.
#[derive(Clone, Copy, Debug, PartialEq, Eq, Structural)]
pub enum GameStatus {
    InProgress,
    Finished(FinishReason),
}

/// The kinds of failure that the server tells apart.
#[derive(Clone, Copy, Debug, PartialEq, Eq, Structural)]
pub enum ErrorKind {
    /// The credential is missing, invalid or expired.
    AuthError,
    /// The envelope is malformed or names no known event.
    ProtocolError,
    /// The requester is not the player entitled to move.
    TurnError,
    /// The move is not legal in the current position.
    IllegalMoveError,
    /// The game is finished.
    GameClosedError,
    /// The shared store failed or holds a record that cannot be used.
    StoreError,
    /// The client's socket failed.
    TransportError,
}

/// A move as clients send it and as a game records it.
#[derive(Debug)]
pub struct Move {
    /// Name of the square the piece leaves, such as `e2`.
    pub from: String,
    /// Name of the square the piece reaches.
    pub to: String,
    /// One of the flag words understood by [`crate::chess::flag_from_str`].
    pub flags: String,
    /// Kind of the captured piece, if any.
    pub captured: Option<String>,
    /// Kind of the piece a pawn is promoted to, if any.
    pub promotion: Option<String>,
}

/// The mathematical value of a [`Move`].
pub struct MoveView {
    pub from: Seq<char>,
    pub to: Seq<char>,
    pub flags: Seq<char>,
    pub captured: Option<Seq<char>>,
    pub promotion: Option<Seq<char>>,
}

/// The text of an optional string.
pub open spec fn opt_text(o: Option<String>) -> Option<Seq<char>> {
    match o {
        Some(s) => Some(s@),
        None => None,
    }
}

/// The value of an optional move.
pub open spec fn opt_move(o: Option<Move>) -> Option<MoveView> {
    match o {
        Some(m) => Some(m@),
        None => None,
    }
}

impl View for Move {
    type V = MoveView;

    open spec fn view(&self) -> MoveView {
        MoveView {
            from: self.from@,
            to: self.to@,
            flags: self.flags@,
            captured: opt_text(self.captured),
            promotion: opt_text(self.promotion),
        }
    }
}

/// Copies an optional string.
pub fn clone_opt_text(o: &Option<String>) -> (r: Option<String>)
    ensures
        opt_text(r) == opt_text(*o),
{
    match o {
        Some(s) => Some(s.clone()),
        None => None,
    }
}

impl Clone for Move {
    fn clone(&self) -> (r: Self)
        ensures
            r@ == self@,
    {
        Move {
            from: self.from.clone(),
            to: self.to.clone(),
            flags: self.flags.clone(),
            captured: clone_opt_text(&self.captured),
            promotion: clone_opt_text(&self.promotion),
        }
    }
}

/// Copies an optional move.
pub fn clone_opt_move(o: &Option<Move>) -> (r: Option<Move>)
    ensures
        opt_move(r) == opt_move(*o),
{
    match o {
        Some(m) => Some(m.clone()),
        None => None,
    }
}

/// A pending offer of a draw.
#[derive(Clone, Copy, Debug, PartialEq, Eq, Structural)]
pub struct DrawOffer {
    /// The player who offered.
    pub by: u32,
    /// The time after which the offer no longer stands.
    pub deadline: i64,
}

/// The authoritative record of one match.
#[derive(Debug)]
pub struct Game {
    pub game_id: u32,
    pub player_white: u32,
    pub player_black: u32,
    /// When the game was created, in seconds since the epoch.
    pub game_created: i64,
    /// When both players were first seen ready; unset until then.
    pub game_initiated: Option<i64>,
    /// The player who moved last, and when.  A new game names black here,
    /// so that white opens.
    pub last_moved: (u32, i64),
    /// The position, in Forsyth-Edwards notation.
    pub board_state: String,
    pub previous_move: Option<Move>,
    pub status: GameStatus,
    pub draw_offer: Option<DrawOffer>,
}

/// The mathematical value of a [`Game`].
pub struct GameView {
    pub game_id: u32,
    pub player_white: u32,
    pub player_black: u32,
    pub game_created: i64,
    pub game_initiated: Option<i64>,
    pub last_moved: (u32, i64),
    pub board_state: Seq<char>,
    pub previous_move: Option<MoveView>,
    pub status: GameStatus,
    pub draw_offer: Option<DrawOffer>,
}

impl View for Game {
    type V = GameView;

    open spec fn view(&self) -> GameView {
        GameView {
            game_id: self.game_id,
            player_white: self.player_white,
            player_black: self.player_black,
            game_created: self.game_created,
            game_initiated: self.game_initiated,
            last_moved: self.last_moved,
            board_state: self.board_state@,
            previous_move: opt_move(self.previous_move),
            status: self.status,
            draw_offer: self.draw_offer,
        }
    }
}

impl Clone for Game {
    fn clone(&self) -> (r: Self)
        ensures
            r@ == self@,
    {
        Game {
            game_id: self.game_id,
            player_white: self.player_white,
            player_black: self.player_black,
            game_created: self.game_created,
            game_initiated: self.game_initiated,
            last_moved: self.last_moved,
            board_state: self.board_state.clone(),
            previous_move: clone_opt_move(&self.previous_move),
            status: self.status,
            draw_offer: self.draw_offer,
        }
    }
}

impl GameView {
    /// Whether `player` is one of the two players of the game.
    pub open spec fn has_player(self, player: u32) -> bool {
        player == self.player_white || player == self.player_black
    }

    /// The other player of the game, seen from `player`.
    pub open spec fn opponent_of(self, player: u32) -> u32 {
        if player == self.player_white {
            self.player_black
        } else {
            self.player_white
        }
    }

    /// The colour under which `player` is addressed: white for the white
    /// player, black for anyone else.
    pub open spec fn colour_of(self, player: u32) -> PlayerColour {
        if player == self.player_white {
            PlayerColour::White
        } else {
            PlayerColour::Black
        }
    }

    /// Whether the game is finished.
    pub open spec fn is_finished(self) -> bool {
        self.status is Finished
    }

    /// Whether `player` may move now: the game is played, `player` is one
    /// of its players and did not make the last move.
    pub open spec fn may_move(self, player: u32) -> bool {
        &&& !self.is_finished()
        &&& self.has_player(player)
        &&& player != self.last_moved.0
    }

    /// What a record of a game always satisfies: two distinct players, the
    /// last move made by one of them, a draw offered only by one of them.
    pub open spec fn wf(self) -> bool {
        &&& self.player_white != self.player_black
        &&& self.has_player(self.last_moved.0)
        &&& match self.draw_offer {
            Some(offer) => self.has_player(offer.by),
            None => true,
        }
    }
}

impl Game {
    /// Whether `player` is one of the two players.
    pub fn has_player(&self, player: u32) -> (r: bool)
        ensures
            r == self@.has_player(player),
    {
        player == self.player_white || player == self.player_black
    }

    /// The other player, seen from `player`.
    pub fn opponent_of(&self, player: u32) -> (r: u32)
        ensures
            r == self@.opponent_of(player),
    {
        if player == self.player_white {
            self.player_black
        } else {
            self.player_white
        }
    }

    /// The colour under which `player` is addressed.
    pub fn colour_of(&self, player: u32) -> (r: PlayerColour)
        ensures
            r == self@.colour_of(player),
    {
        if player == self.player_white {
            PlayerColour::White
        } else {
            PlayerColour::Black
        }
    }

    /// Whether the game is finished.
    pub fn is_finished(&self) -> (r: bool)
        ensures
            r == self@.is_finished(),
    {
        match self.status {
            GameStatus::InProgress => false,
            GameStatus::Finished(_) => true,
        }
    }

    /// Whether `player` may move now.
    pub fn may_move(&self, player: u32) -> (r: bool)
        ensures
            r == self@.may_move(player),
    {
        !self.is_finished() && self.has_player(player) && player != self.last_moved.0
    }

    /// Whether the record is well formed.
    pub fn is_well_formed(&self) -> (r: bool)
        ensures
            r == self@.wf(),
    {
        self.player_white != self.player_black && self.has_player(self.last_moved.0)
            && match self.draw_offer {
            Some(offer) => self.has_player(offer.by),
            None => true,
        }
    }
}

/// The payload of an event sent to a client.
#[derive(Debug)]
pub struct EventData {
    /// The colour of the client addressed.
    pub player: PlayerColour,
    /// The move the event is about, if it is about one.
    pub this_move: Option<Move>,
    /// The position the game is in, where the event reports one.
    pub position: Option<String>,
    pub status: EventStatus,
}

/// The mathematical value of an [`EventData`].
pub struct EventDataView {
    pub player: PlayerColour,
    pub this_move: Option<MoveView>,
    pub position: Option<Seq<char>>,
    pub status: EventStatus,
}

impl View for EventData {
    type V = EventDataView;

    open spec fn view(&self) -> EventDataView {
        EventDataView {
            player: self.player,
            this_move: opt_move(self.this_move),
            position: opt_text(self.position),
            status: self.status,
        }
    }
}

/// An event sent to a client: its name and its payload.
#[derive(Debug)]
pub struct EventMessage {
    pub event: String,
    pub data: EventData,
}

/// The mathematical value of an [`EventMessage`].
pub struct EventMessageView {
    pub event: Seq<char>,
    pub data: EventDataView,
}

impl View for EventMessage {
    type V = EventMessageView;

    open spec fn view(&self) -> EventMessageView {
        EventMessageView { event: self.event@, data: self.data@ }
    }
}

} // verus!
