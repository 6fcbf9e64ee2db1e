//! How a game begins: the record of a new game, and the rendezvous of its
//! two players before play starts.
//!
//! White opens.  A new game therefore names black as the player who moved
//! last, so that the turn rule lets white, and only white, make the first
//! move.

use crate::clock::unix_now;
use crate::model::{ErrorKind, Game, GameStatus, GameView};
use crate::rules::{opening_fen, opening_position};
use vstd::prelude::*;

verus! {

/// The record of the game `game_id` that pairs `white` with `black` at the
/// time `now`: the opening position, no move made, play not yet started.
pub open spec fn opening_game(game_id: u32, white: u32, black: u32, now: i64) -> GameView {
    GameView {
        game_id,
        player_white: white,
        player_black: black,
        game_created: now,
        game_initiated: None,
        last_moved: (black, now),
        board_state: opening_fen(),
        previous_move: None,
        status: GameStatus::InProgress,
        draw_offer: None,
    }
}

/// Builds the record of a new game.  The first player plays white.
pub fn new_game(game_id: u32, player1: u32, player2: u32, now: i64) -> (g: Game)
    ensures
        g@ == opening_game(game_id, player1, player2, now),
        player1 != player2 ==> g@.wf(),
{
    Game {
        game_id,
        player_white: player1,
        player_black: player2,
        game_created: now,
        game_initiated: None,
        last_moved: (player2, now),
        board_state: opening_position(),
        previous_move: None,
        status: GameStatus::InProgress,
        draw_offer: None,
    }
}

/// Builds the record of a new game, created now.  The record is that of
/// [`new_game`] at some time.
pub fn create_game(game_id: u32, player1: u32, player2: u32) -> (g: Game)
    ensures
        exists|now: i64| g@ == #[trigger] opening_game(game_id, player1, player2, now),
{
    let now = unix_now();
    new_game(game_id, player1, player2, now)
}

/// Which players of a game have been seen ready.
#[derive(Clone, Copy, Debug, PartialEq, Eq, Structural)]
pub struct ReadinessRecord {
    pub game_id: u32,
    pub white_ready: bool,
    pub black_ready: bool,
}

impl ReadinessRecord {
    /// Whether both players have been seen ready.
    pub open spec fn complete(self) -> bool {
        self.white_ready && self.black_ready
    }

    /// The players of `g` that have been seen ready.
    pub open spec fn signalled(self, g: GameView) -> Set<u32> {
        Set::new(
            |p: u32|
                (p == g.player_white && self.white_ready) || (p == g.player_black
                    && self.black_ready),
        )
    }

    /// The record of a game of which nobody has been seen yet.
    pub fn new(game_id: u32) -> (r: Self)
        ensures
            r == (ReadinessRecord { game_id, white_ready: false, black_ready: false }),
    {
        ReadinessRecord { game_id, white_ready: false, black_ready: false }
    }

    /// Tells whether both players have been seen ready.
    pub fn is_complete(&self) -> (r: bool)
        ensures
            r == self.complete(),
    {
        self.white_ready && self.black_ready
    }
}

/// What a player learns when it signals that it is ready.
#[derive(Clone, Copy, Debug, PartialEq, Eq, Structural)]
pub enum Rendezvous {
    /// The other player has not been seen yet.
    Waiting,
    /// Both players are ready, and this signal was the first to find them
    /// so: it set the time at which play started.
    Started,
    /// Both players are ready, and play had been started before.
    AlreadyStarted,
}

/// The record `r` after `player` has signalled.  A signal of a player
/// already seen changes nothing.
pub open spec fn after_signal(r: ReadinessRecord, g: GameView, player: u32) -> ReadinessRecord {
    ReadinessRecord {
        game_id: r.game_id,
        white_ready: r.white_ready || player == g.player_white,
        black_ready: r.black_ready || player == g.player_black,
    }
}

/// The game `g` after an attempt to start play at `now`: the time is set
/// only if none was set before.
pub open spec fn after_start(g: GameView, now: i64) -> GameView {
    GameView {
        game_initiated: match g.game_initiated {
            Some(t) => Some(t),
            None => Some(now),
        },
        ..g
    }
}

/// A readiness signal of `player` at `now`: the record and the game
/// afterwards, and what the player learns.  A signal for another game's
/// record is a store error, one of a stranger a protocol error; neither
/// changes anything.
pub open spec fn ready_step(r: ReadinessRecord, g: GameView, player: u32, now: i64) -> (
    ReadinessRecord,
    GameView,
    Result<Rendezvous, ErrorKind>,
) {
    if r.game_id != g.game_id {
        (r, g, Err(ErrorKind::StoreError))
    } else if !g.has_player(player) {
        (r, g, Err(ErrorKind::ProtocolError))
    } else {
        let seen = after_signal(r, g, player);
        if !seen.complete() {
            (seen, g, Ok(Rendezvous::Waiting))
        } else if g.game_initiated is Some {
            (seen, g, Ok(Rendezvous::AlreadyStarted))
        } else {
            (seen, after_start(g, now), Ok(Rendezvous::Started))
        }
    }
}

/// Sets the time at which play started, unless it is set already.  Tells
/// whether this call set it.
pub fn initiate_game(game: &mut Game, now: i64) -> (set: bool)
    ensures
        set == (old(game)@.game_initiated is None),
        final(game)@ == after_start(old(game)@, now),
{
    match game.game_initiated {
        Some(_) => false,
        None => {
            game.game_initiated = Some(now);
            true
        },
    }
}

/// Records that `user_id` is ready at `now`, and starts play if that makes
/// the rendezvous complete for the first time.
pub fn ready_up(record: &mut ReadinessRecord, game: &mut Game, user_id: u32, now: i64) -> (r:
    Result<Rendezvous, ErrorKind>)
    ensures
        (*final(record), final(game)@, r) == ready_step(*old(record), old(game)@, user_id, now),
{
    if record.game_id != game.game_id {
        return Err(ErrorKind::StoreError);
    }
    if !game.has_player(user_id) {
        return Err(ErrorKind::ProtocolError);
    }
    if user_id == game.player_white {
        record.white_ready = true;
    }
    if user_id == game.player_black {
        record.black_ready = true;
    }
    if !record.is_complete() {
        Ok(Rendezvous::Waiting)
    } else if initiate_game(game, now) {
        Ok(Rendezvous::Started)
    } else {
        Ok(Rendezvous::AlreadyStarted)
    }
}

/// Once play has started, no readiness signal changes the time at which it
/// did, whoever signals and whenever.
pub proof fn lemma_start_is_kept(r: ReadinessRecord, g: GameView, player: u32, now: i64)
    requires
        g.game_initiated is Some,
    ensures
        ready_step(r, g, player, now).1 == g,
{
}

/// A second signal of the same player changes neither the record nor the
/// game that the first one left, and the time at which play started is set
/// by at most one of the two.
pub proof fn lemma_signal_idempotent(
    r: ReadinessRecord,
    g: GameView,
    player: u32,
    first: i64,
    second: i64,
)
    ensures
        ({
            let once = ready_step(r, g, player, first);
            let twice = ready_step(once.0, once.1, player, second);
            &&& twice.0 == once.0
            &&& twice.1 == once.1
            &&& !(once.2 == Ok::<Rendezvous, ErrorKind>(Rendezvous::Started) && twice.2 == Ok::<
                Rendezvous,
                ErrorKind,
            >(Rendezvous::Started))
        }),
{
}

/// One readiness signal: who signals, and when.
pub struct ReadySignal {
    pub player: u32,
    pub now: i64,
}

/// The record and the game after the signals `signals`, taken in order.
pub open spec fn after_signals(r: ReadinessRecord, g: GameView, signals: Seq<ReadySignal>) -> (
    ReadinessRecord,
    GameView,
)
    decreases signals.len(),
{
    if signals.len() == 0 {
        (r, g)
    } else {
        let before = after_signals(r, g, signals.drop_last());
        let s = signals.last();
        let step = ready_step(before.0, before.1, s.player, s.now);
        (step.0, step.1)
    }
}

/// How many of the signals `signals`, taken in order, started play.
pub open spec fn starts(r: ReadinessRecord, g: GameView, signals: Seq<ReadySignal>) -> nat
    decreases signals.len(),
{
    if signals.len() == 0 {
        0
    } else {
        let before = after_signals(r, g, signals.drop_last());
        let s = signals.last();
        starts(r, g, signals.drop_last()) + if ready_step(before.0, before.1, s.player, s.now).2
            == Ok::<Rendezvous, ErrorKind>(Rendezvous::Started) {
            1nat
        } else {
            0nat
        }
    }
}

/// Across any sequence of readiness signals on a game not yet started, at
/// most one starts play; the time of the start is set exactly if one did,
/// and nothing else of the game changes.  Play has started as soon as the
/// record of the game, incomplete before, is complete.
pub proof fn lemma_started_at_most_once(r: ReadinessRecord, g: GameView, signals: Seq<ReadySignal>)
    requires
        g.game_initiated is None,
    ensures
        starts(r, g, signals) <= 1,
        (starts(r, g, signals) == 1) <==> after_signals(r, g, signals).1.game_initiated is Some,
        after_signals(r, g, signals).1 == (GameView {
            game_initiated: after_signals(r, g, signals).1.game_initiated,
            ..g
        }),
        after_signals(r, g, signals).0.game_id == r.game_id,
        r.game_id == g.game_id && !r.complete() && after_signals(r, g, signals).0.complete()
            ==> after_signals(r, g, signals).1.game_initiated is Some,
    decreases signals.len(),
{
    if signals.len() > 0 {
        lemma_started_at_most_once(r, g, signals.drop_last());
    }
}

/// A record that is complete stays complete under any signals.
pub proof fn lemma_complete_is_kept(r: ReadinessRecord, g: GameView, signals: Seq<ReadySignal>)
    requires
        r.complete(),
    ensures
        after_signals(r, g, signals).0.complete(),
    decreases signals.len(),
{
    if signals.len() > 0 {
        lemma_complete_is_kept(r, g, signals.drop_last());
    }
}

} // verus!
