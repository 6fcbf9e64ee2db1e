//! The lobby: the queue of waiting players together with the games that
//! pairing has made.
//!
//! The lobby is the server's whole shared state in one place.  Whatever is
//! done to it, in whatever order, a game has two different players, game
//! ids count up from 1 without gaps, nobody plays in two games at once, and
//! nobody waits while playing.

use crate::engine::{GameServer, Outcome, lemma_finished_is_final, lemma_response_keeps_game,
    response};
use crate::envelope::{ProtocolEvent, ProtocolEventView, event_view};
use crate::matchmaking::{EnqueueError, MatchmakingEntry, MatchmakingQueue, admission, joined,
    lemma_join, lemma_leave, lemma_leave_pair, place_of, queue_wf, waits, without};
use crate::model::{ErrorKind, Game, GameView};
use crate::session::{new_game, opening_game};
use vstd::prelude::*;

verus! {

/// The queue and the games made so far.
#[derive(Debug)]
pub struct Lobby {
    queue: MatchmakingQueue,
    /// Every game made, in the order of their making.
    games: Vec<Game>,
}

/// The mathematical value of a [`Lobby`].
pub struct LobbyView {
    pub queue: Seq<MatchmakingEntry>,
    pub games: Seq<GameView>,
}

/// The values of the games `games`.
pub open spec fn game_views(games: Seq<Game>) -> Seq<GameView> {
    Seq::new(games.len(), |i: int| games[i]@)
}

impl View for Lobby {
    type V = LobbyView;

    closed spec fn view(&self) -> LobbyView {
        LobbyView { queue: self.queue@, games: game_views(self.games@) }
    }
}

/// Whether `player` plays in the game at the place `i` of `games`: the game
/// is not finished and `player` is one of its two players.
pub open spec fn plays_in(games: Seq<GameView>, i: int, player: u32) -> bool {
    0 <= i < games.len() && !games[i].is_finished() && games[i].has_player(player)
}

/// Whether `player` plays in one of the games `games`.
pub open spec fn plays(games: Seq<GameView>, player: u32) -> bool {
    exists|i: int| #[trigger] plays_in(games, i, player)
}

/// The most games a lobby can hold: the ids must fit the type.
pub open spec fn max_games() -> int {
    0xffff_fffe
}

/// What holds of a lobby at all times.
pub open spec fn lobby_wf(l: LobbyView) -> bool {
    &&& queue_wf(l.queue)
    &&& l.games.len() <= max_games()
    &&& forall|i: int|
        0 <= i < l.games.len() ==> (#[trigger] l.games[i]).game_id == i + 1 && l.games[i].wf()
    &&& forall|i: int, j: int, p: u32|
        #[trigger] plays_in(l.games, i, p) && #[trigger] plays_in(l.games, j, p) ==> i == j
    &&& forall|k: int, i: int|
        0 <= k < l.queue.len() ==> !#[trigger] plays_in(l.games, i, (#[trigger] l.queue[k]).player_id)
}

/// A request to wait: the player joins the queue if it is admitted.
pub open spec fn enqueue_step(l: LobbyView, player_id: u32, now: i64) -> LobbyView {
    if admission(waits(l.queue, player_id), plays(l.games, player_id)) is Ok {
        LobbyView { queue: joined(l.queue, player_id, now), ..l }
    } else {
        l
    }
}

/// Whether the lobby `l` can pair: two players wait, and an id is left for
/// their game.
pub open spec fn can_pair(l: LobbyView) -> bool {
    l.queue.len() >= 2 && l.games.len() < max_games()
}

/// A pairing: the two who waited longest leave the queue, and one game is
/// made for them, in which the one who waited longest plays white.
pub open spec fn pair_step(l: LobbyView, now: i64) -> LobbyView {
    if can_pair(l) {
        LobbyView {
            queue: l.queue.skip(2),
            games: l.games.push(
                opening_game(
                    (l.games.len() + 1) as u32,
                    l.queue[0].player_id,
                    l.queue[1].player_id,
                    now,
                ),
            ),
        }
    } else {
        l
    }
}

/// A request of `user` on the game `game_id`: the game changes as the
/// protocol engine decides; a request on a game that does not exist changes
/// nothing.
pub open spec fn serve_step(
    l: LobbyView,
    game_id: u32,
    user: u32,
    event: Result<ProtocolEventView, ErrorKind>,
    now: i64,
) -> LobbyView {
    if 1 <= game_id <= l.games.len() {
        LobbyView {
            games: l.games.update(
                game_id - 1,
                response(game_id, user, l.games[game_id - 1], event, now).0,
            ),
            ..l
        }
    } else {
        l
    }
}

/// A withdrawal: the player leaves the queue.
pub open spec fn cancel_step(l: LobbyView, player_id: u32) -> LobbyView {
    LobbyView { queue: without(l.queue, player_id), ..l }
}

/// Waiting keeps the lobby in order.
pub proof fn lemma_enqueue_keeps(l: LobbyView, player_id: u32, now: i64)
    requires
        lobby_wf(l),
    ensures
        lobby_wf(enqueue_step(l, player_id, now)),
{
    if admission(waits(l.queue, player_id), plays(l.games, player_id)) is Ok {
        lemma_join(l.queue, player_id, now);
        let after = enqueue_step(l, player_id, now);
        assert forall|k: int, i: int| 0 <= k < after.queue.len() implies !#[trigger] plays_in(
            after.games,
            i,
            (#[trigger] after.queue[k]).player_id,
        ) by {
            let p = after.queue[k].player_id;
            if plays_in(l.games, i, p) {
                if p == player_id {
                    assert(plays(l.games, player_id));
                } else {
                    assert(waits(after.queue, p));
                    assert(waits(l.queue, p));
                    let k0 = choose|k0: int| 0 <= k0 < l.queue.len() && (#[trigger] l.queue[k0]).player_id == p;
                    assert(!plays_in(l.games, i, l.queue[k0].player_id));
                }
            }
        }
    }
}

/// Pairing keeps the lobby in order.
pub proof fn lemma_pair_keeps(l: LobbyView, now: i64)
    requires
        lobby_wf(l),
    ensures
        lobby_wf(pair_step(l, now)),
{
    if can_pair(l) {
        lemma_leave_pair(l.queue);
        let after = pair_step(l, now);
        let n = l.games.len() as int;
        let a = l.queue[0].player_id;
        let b = l.queue[1].player_id;
        assert(after.games[n] == opening_game((n + 1) as u32, a, b, now));
        assert forall|i: int| 0 <= i < after.games.len() implies (#[trigger] after.games[i]).game_id
            == i + 1 && after.games[i].wf() by {
            if i < n {
                assert(after.games[i] == l.games[i]);
            }
        }
        assert forall|i: int, p: u32| i != n implies plays_in(after.games, i, p) == plays_in(
            l.games,
            i,
            p,
        ) by {
            if 0 <= i < n {
                assert(after.games[i] == l.games[i]);
            }
        }
        assert forall|i: int| !plays_in(l.games, i, a) && !plays_in(l.games, i, b) by {
            assert(!plays_in(l.games, i, l.queue[0].player_id));
            assert(!plays_in(l.games, i, l.queue[1].player_id));
        }
        assert forall|i: int, j: int, p: u32| #[trigger]
            plays_in(after.games, i, p) && #[trigger] plays_in(after.games, j, p) implies i
            == j by {
            if i != n && j != n {
                assert(plays_in(l.games, i, p) && plays_in(l.games, j, p));
            } else if i != n {
                assert(plays_in(l.games, i, p));
            } else if j != n {
                assert(plays_in(l.games, j, p));
            }
        }
        assert forall|k: int, i: int| 0 <= k < after.queue.len() implies !#[trigger] plays_in(
            after.games,
            i,
            (#[trigger] after.queue[k]).player_id,
        ) by {
            let p = after.queue[k].player_id;
            assert(after.queue[k] == l.queue[k + 2]);
            assert(waits(after.queue, p));
            if i == n {
            } else {
                assert(!plays_in(l.games, i, l.queue[k + 2].player_id));
            }
        }
    }
}

/// Serving a request keeps the lobby in order.
pub proof fn lemma_serve_keeps(
    l: LobbyView,
    game_id: u32,
    user: u32,
    event: Result<ProtocolEventView, ErrorKind>,
    now: i64,
)
    requires
        lobby_wf(l),
    ensures
        lobby_wf(serve_step(l, game_id, user, event, now)),
{
    if 1 <= game_id <= l.games.len() {
        let at = game_id - 1;
        let g = l.games[at];
        let after = serve_step(l, game_id, user, event, now);
        lemma_response_keeps_game(game_id, user, g, event, now);
        if g.is_finished() {
            lemma_finished_is_final(game_id, user, g, event, now);
        }
        assert forall|i: int| 0 <= i < after.games.len() implies (#[trigger] after.games[i]).game_id
            == i + 1 && after.games[i].wf() by {
            if i != at {
                assert(after.games[i] == l.games[i]);
            }
        }
        assert forall|i: int, p: u32| plays_in(after.games, i, p) implies plays_in(
            l.games,
            i,
            p,
        ) by {
            if i != at {
                assert(after.games[i] == l.games[i]);
            }
        }
        assert forall|i: int, j: int, p: u32| #[trigger]
            plays_in(after.games, i, p) && #[trigger] plays_in(after.games, j, p) implies i
            == j by {
            assert(plays_in(l.games, i, p) && plays_in(l.games, j, p));
        }
        assert forall|k: int, i: int| 0 <= k < after.queue.len() implies !#[trigger] plays_in(
            after.games,
            i,
            (#[trigger] after.queue[k]).player_id,
        ) by {
            assert(!plays_in(l.games, i, l.queue[k].player_id));
        }
    }
}

/// A withdrawal keeps the lobby in order.
pub proof fn lemma_cancel_keeps(l: LobbyView, player_id: u32)
    requires
        lobby_wf(l),
    ensures
        lobby_wf(cancel_step(l, player_id)),
{
    if waits(l.queue, player_id) {
        let at = place_of(l.queue, player_id);
        lemma_leave(l.queue, at);
        let after = cancel_step(l, player_id);
        assert forall|k: int, i: int| 0 <= k < after.queue.len() implies !#[trigger] plays_in(
            after.games,
            i,
            (#[trigger] after.queue[k]).player_id,
        ) by {
            let k0 = if k < at {
                k
            } else {
                k + 1
            };
            assert(after.queue[k] == l.queue[k0]);
            assert(!plays_in(l.games, i, l.queue[k0].player_id));
        }
    }
}

/// One thing done to a lobby.
pub enum LobbyOp {
    Enqueue { player_id: u32, now: i64 },
    Cancel { player_id: u32 },
    Pair { now: i64 },
    Serve { game_id: u32, user: u32, event: Result<ProtocolEventView, ErrorKind>, now: i64 },
}

/// The lobby `l` after `op`.
pub open spec fn apply(l: LobbyView, op: LobbyOp) -> LobbyView {
    match op {
        LobbyOp::Enqueue { player_id, now } => enqueue_step(l, player_id, now),
        LobbyOp::Cancel { player_id } => cancel_step(l, player_id),
        LobbyOp::Pair { now } => pair_step(l, now),
        LobbyOp::Serve { game_id, user, event, now } => serve_step(l, game_id, user, event, now),
    }
}

/// The lobby `l` after the operations `ops`, taken in order.
pub open spec fn run(l: LobbyView, ops: Seq<LobbyOp>) -> LobbyView
    decreases ops.len(),
{
    if ops.len() == 0 {
        l
    } else {
        apply(run(l, ops.drop_last()), ops.last())
    }
}

/// The empty lobby.
pub open spec fn empty_lobby() -> LobbyView {
    LobbyView { queue: Seq::<MatchmakingEntry>::empty(), games: Seq::<GameView>::empty() }
}

/// Whatever is done to a lobby, in whatever order and however the requests
/// of the players interleave, the lobby stays in order.
pub proof fn lemma_run_keeps(l: LobbyView, ops: Seq<LobbyOp>)
    requires
        lobby_wf(l),
    ensures
        lobby_wf(run(l, ops)),
    decreases ops.len(),
{
    if ops.len() > 0 {
        lemma_run_keeps(l, ops.drop_last());
        let before = run(l, ops.drop_last());
        match ops.last() {
            LobbyOp::Enqueue { player_id, now } => lemma_enqueue_keeps(before, player_id, now),
            LobbyOp::Cancel { player_id } => lemma_cancel_keeps(before, player_id),
            LobbyOp::Pair { now } => lemma_pair_keeps(before, now),
            LobbyOp::Serve { game_id, user, event, now } => lemma_serve_keeps(
                before,
                game_id,
                user,
                event,
                now,
            ),
        }
    }
}

/// In a lobby that started empty, after any operations: every game has two
/// different players; two games never share an id; nobody plays in two
/// games at once; and nobody who waits is playing.
pub proof fn lemma_pairing_sound(ops: Seq<LobbyOp>)
    ensures
        ({
            let l = run(empty_lobby(), ops);
            &&& forall|i: int|
                0 <= i < l.games.len() ==> (#[trigger] l.games[i]).player_white
                    != l.games[i].player_black
            &&& forall|i: int, j: int|
                0 <= i < j < l.games.len() ==> (#[trigger] l.games[i]).game_id < (
                #[trigger] l.games[j]).game_id
            &&& forall|i: int, j: int, p: u32|
                #[trigger] plays_in(l.games, i, p) && #[trigger] plays_in(l.games, j, p) ==> i
                    == j
            &&& forall|p: u32| waits(l.queue, p) ==> !plays(l.games, p)
        }),
{
    lemma_run_keeps(empty_lobby(), ops);
    let l = run(empty_lobby(), ops);
    assert forall|p: u32| waits(l.queue, p) implies !plays(l.games, p) by {
        let k = choose|k: int| 0 <= k < l.queue.len() && (#[trigger] l.queue[k]).player_id == p;
        assert forall|i: int| !plays_in(l.games, i, p) by {
            assert(!plays_in(l.games, i, l.queue[k].player_id));
        }
    }
}

/// A pairing that takes place makes exactly one game, for the two players
/// who waited longest; they are two different players, neither of whom was
/// playing, and both play in the new game and in no other.
pub proof fn lemma_one_game_per_pair(l: LobbyView, now: i64)
    requires
        lobby_wf(l),
        can_pair(l),
    ensures
        ({
            let after = pair_step(l, now);
            let a = l.queue[0].player_id;
            let b = l.queue[1].player_id;
            &&& after.games.len() == l.games.len() + 1
            &&& after.games.subrange(0, l.games.len() as int) == l.games
            &&& after.games.last().game_id == l.games.len() + 1
            &&& after.games.last().player_white == a
            &&& after.games.last().player_black == b
            &&& a != b
            &&& !plays(l.games, a) && !plays(l.games, b)
            &&& !waits(after.queue, a) && !waits(after.queue, b)
            &&& forall|i: int| plays_in(after.games, i, a) <==> i == l.games.len()
            &&& forall|i: int| plays_in(after.games, i, b) <==> i == l.games.len()
        }),
{
    lemma_leave_pair(l.queue);
    lemma_pair_keeps(l, now);
    let after = pair_step(l, now);
    let n = l.games.len() as int;
    let a = l.queue[0].player_id;
    let b = l.queue[1].player_id;
    assert(after.games.subrange(0, n) =~= l.games);
    assert forall|i: int| !plays_in(l.games, i, a) && !plays_in(l.games, i, b) by {
        assert(!plays_in(l.games, i, l.queue[0].player_id));
        assert(!plays_in(l.games, i, l.queue[1].player_id));
    }
    assert(plays_in(after.games, n, a));
    assert(plays_in(after.games, n, b));
    assert forall|i: int| plays_in(after.games, i, a) <==> i == n by {
        if i != n && plays_in(after.games, i, a) {
            assert(after.games[i] == l.games[i]);
            assert(plays_in(l.games, i, a));
        }
    }
    assert forall|i: int| plays_in(after.games, i, b) <==> i == n by {
        if i != n && plays_in(after.games, i, b) {
            assert(after.games[i] == l.games[i]);
            assert(plays_in(l.games, i, b));
        }
    }
}

impl Lobby {
    /// Whether the lobby is in order.
    pub open spec fn wf(&self) -> bool {
        lobby_wf(self@)
    }

    /// An empty lobby.
    pub fn new() -> (l: Self)
        ensures
            l@ == empty_lobby(),
            l.wf(),
    {
        let l = Lobby { queue: MatchmakingQueue::new(), games: Vec::new() };
        proof {
            assert(l@.games =~= Seq::<GameView>::empty());
        }
        l
    }

    /// The players who wait, the one who waits longest first.
    pub fn waiting(&self) -> (list: Vec<MatchmakingEntry>)
        ensures
            list@ == self@.queue,
    {
        self.queue.entries()
    }

    /// The number of games made so far.
    pub fn game_count(&self) -> (n: usize)
        ensures
            n == self@.games.len(),
    {
        self.games.len()
    }

    /// The game `game_id`, if it has been made.
    pub fn game(&self, game_id: u32) -> (g: Option<Game>)
        ensures
            match g {
                Some(game) => 1 <= game_id <= self@.games.len() && game@ == self@.games[game_id
                    - 1],
                None => !(1 <= game_id <= self@.games.len()),
            },
    {
        if game_id == 0 || game_id as usize > self.games.len() {
            return None;
        }
        let at = (game_id - 1) as usize;
        assert(self@.games[at as int] == self.games@[at as int]@);
        Some(self.games[at].clone())
    }

    /// The id of the game in which `player` plays, if it plays.
    pub fn game_of(&self, player: u32) -> (r: Option<u32>)
        requires
            self.wf(),
        ensures
            r is Some <==> plays(self@.games, player),
            r matches Some(id) ==> plays_in(self@.games, id - 1, player),
    {
        let mut i: usize = 0;
        while i < self.games.len()
            invariant
                i <= self.games@.len(),
                self.wf(),
                forall|j: int| 0 <= j < i ==> !plays_in(self@.games, j, player),
            decreases self.games@.len() - i,
        {
            let g = &self.games[i];
            assert(self@.games[i as int] == g@);
            if !g.is_finished() && g.has_player(player) {
                assert(plays_in(self@.games, i as int, player));
                return Some((i + 1) as u32);
            }
            i = i + 1;
        }
        assert forall|j: int| !plays_in(self@.games, j, player) by {}
        None
    }

    /// Lets `player_id` wait from the time `now` on, unless it waits
    /// already or is playing.
    pub fn enqueue(&mut self, player_id: u32, now: i64) -> (r: Result<(), EnqueueError>)
        requires
            old(self).wf(),
        ensures
            final(self).wf(),
            r == admission(waits(old(self)@.queue, player_id), plays(old(self)@.games, player_id)),
            final(self)@ == enqueue_step(old(self)@, player_id, now),
    {
        let in_game = self.game_of(player_id).is_some();
        proof {
            lemma_enqueue_keeps(self@, player_id, now);
        }
        self.queue.enqueue(player_id, now, in_game)
    }

    /// Lets `player_id` wait no longer.  Tells whether it waited.
    pub fn cancel(&mut self, player_id: u32) -> (r: bool)
        requires
            old(self).wf(),
        ensures
            final(self).wf(),
            r == waits(old(self)@.queue, player_id),
            final(self)@ == cancel_step(old(self)@, player_id),
    {
        proof {
            lemma_cancel_keeps(self@, player_id);
        }
        self.queue.cancel(player_id)
    }

    /// Pairs the two players who have waited longest, if two wait: they
    /// leave the queue, and one game is made for them at the time `now`.
    /// Gives the id of the game made.
    pub fn pair_next(&mut self, now: i64) -> (r: Option<u32>)
        requires
            old(self).wf(),
        ensures
            final(self).wf(),
            final(self)@ == pair_step(old(self)@, now),
            r == if can_pair(old(self)@) {
                Some((old(self)@.games.len() + 1) as u32)
            } else {
                None
            },
    {
        if self.queue.len() < 2 || self.games.len() >= 0xffff_fffe {
            return None;
        }
        proof {
            lemma_pair_keeps(self@, now);
        }
        let ghost before = self@;
        match self.queue.pop_pair() {
            None => None,
            Some((a, b)) => {
                let id = (self.games.len() + 1) as u32;
                let g = new_game(id, a.player_id, b.player_id, now);
                self.games.push(g);
                proof {
                    assert(self@.games =~= pair_step(before, now).games);
                }
                Some(id)
            },
        }
    }

    /// Serves a request of `user` on the game `game_id` at the time `now`.
    /// Gives nothing if there is no such game.
    pub fn serve(
        &mut self,
        game_id: u32,
        user: u32,
        event: Result<ProtocolEvent, ErrorKind>,
        now: i64,
    ) -> (r: Option<Outcome>)
        requires
            old(self).wf(),
        ensures
            final(self).wf(),
            final(self)@ == serve_step(old(self)@, game_id, user, event_view(event), now),
            r is Some <==> 1 <= game_id <= old(self)@.games.len(),
            r matches Some(outcome) ==> outcome@ == response(
                game_id,
                user,
                old(self)@.games[game_id - 1],
                event_view(event),
                now,
            ).1,
    {
        if game_id == 0 || game_id as usize > self.games.len() {
            return None;
        }
        let at = (game_id - 1) as usize;
        let ghost before = self@;
        proof {
            lemma_serve_keeps(self@, game_id, user, event_view(event), now);
            assert(before.games[at as int] == self.games@[at as int]@);
        }
        let mut game = self.games[at].clone();
        let outcome = GameServer::new(game_id, user).respond(&mut game, event, now);
        self.games.set(at, game);
        proof {
            assert(self@.games =~= serve_step(before, game_id, user, event_view(event), now).games);
        }
        Some(outcome)
    }
}

/// The lobby `l` after `k` pairings, made at the times `nows`.
pub open spec fn pair_all(l: LobbyView, nows: Seq<i64>) -> LobbyView
    decreases nows.len(),
{
    if nows.len() == 0 {
        l
    } else {
        pair_step(pair_all(l, nows.drop_last()), nows.last())
    }
}

/// Pairing as often as pairs wait empties the queue: from a queue of `2k`
/// players, with ids left for `k` games, `k` pairings make exactly `k`
/// games, the game number `i` of them for the players who stood at the
/// places `2i` and `2i + 1`, white first, and nobody waits afterwards.
pub proof fn lemma_pairs_drain(l: LobbyView, nows: Seq<i64>)
    requires
        lobby_wf(l),
        l.queue.len() == 2 * nows.len(),
        l.games.len() + nows.len() <= max_games(),
    ensures
        lobby_wf(pair_all(l, nows)),
        pair_all(l, nows).queue.len() == 0,
        pair_all(l, nows).games.len() == l.games.len() + nows.len(),
        pair_all(l, nows).games.subrange(0, l.games.len() as int) == l.games,
        forall|i: int|
            0 <= i < nows.len() ==> #[trigger] pair_all(l, nows).games[l.games.len() + i]
                == opening_game(
                (l.games.len() + i + 1) as u32,
                l.queue[2 * i].player_id,
                l.queue[2 * i + 1].player_id,
                nows[i],
            ),
{
    lemma_pairs_progress(l, nows, nows.len() as int);
    let after = pair_all(l, nows);
    assert(nows.subrange(0, nows.len() as int) =~= nows);
    assert(after.queue =~= Seq::<MatchmakingEntry>::empty());
}

/// The first `k` of the pairings `nows` take the first `2k` players from
/// the queue and make a game for each two of them.
pub proof fn lemma_pairs_progress(l: LobbyView, nows: Seq<i64>, k: int)
    requires
        lobby_wf(l),
        l.queue.len() == 2 * nows.len(),
        l.games.len() + nows.len() <= max_games(),
        0 <= k <= nows.len(),
    ensures
        lobby_wf(pair_all(l, nows.subrange(0, k))),
        pair_all(l, nows.subrange(0, k)).queue == l.queue.skip(2 * k),
        pair_all(l, nows.subrange(0, k)).games.len() == l.games.len() + k,
        pair_all(l, nows.subrange(0, k)).games.subrange(0, l.games.len() as int) == l.games,
        forall|i: int|
            0 <= i < k ==> #[trigger] pair_all(l, nows.subrange(0, k)).games[l.games.len() + i]
                == opening_game(
                (l.games.len() + i + 1) as u32,
                l.queue[2 * i].player_id,
                l.queue[2 * i + 1].player_id,
                nows[i],
            ),
    decreases k,
{
    let n = l.games.len() as int;
    if k == 0 {
        assert(nows.subrange(0, 0) =~= Seq::<i64>::empty());
        assert(l.queue.skip(0) =~= l.queue);
        assert(l.games.subrange(0, n) =~= l.games);
    } else {
        lemma_pairs_progress(l, nows, k - 1);
        let head = nows.subrange(0, k - 1);
        let upto = nows.subrange(0, k);
        assert(upto.drop_last() =~= head);
        assert(upto.last() == nows[k - 1]);
        let before = pair_all(l, head);
        lemma_pair_keeps(before, nows[k - 1]);
        let after = pair_all(l, upto);
        assert(can_pair(before));
        assert(before.queue[0] == l.queue[2 * (k - 1)]);
        assert(before.queue[1] == l.queue[2 * (k - 1) + 1]);
        assert(after.queue =~= l.queue.skip(2 * k));
        assert(after.games.subrange(0, n) =~= before.games.subrange(0, n));
        assert forall|i: int| 0 <= i < k implies #[trigger] after.games[n + i] == opening_game(
            (n + i + 1) as u32,
            l.queue[2 * i].player_id,
            l.queue[2 * i + 1].player_id,
            nows[i],
        ) by {
            if i < k - 1 {
                assert(after.games[n + i] == before.games[n + i]);
            }
        }
    }
}

} // verus!
