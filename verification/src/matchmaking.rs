//! The matchmaking queue: who waits for an opponent, and who is paired next.
//!
//! Players wait in the order in which they asked; the two who have waited
//! longest are paired first.  Nobody waits twice, and nobody waits while
//! playing.

use crate::text::{parse_u32, parsed_u32};
use vstd::prelude::*;

verus! {

/// Why a player is not admitted to the queue.
#[derive(Clone, Copy, Debug, PartialEq, Eq, Structural)]
pub enum EnqueueError {
    /// The player waits already.
    AlreadyQueued,
    /// The player has a game that is still played.
    AlreadyInGame,
}

/// Whether a player is admitted to the queue, given whether it waits
/// already and whether it is playing.
pub open spec fn admission(queued: bool, in_game: bool) -> Result<(), EnqueueError> {
    if queued {
        Err(EnqueueError::AlreadyQueued)
    } else if in_game {
        Err(EnqueueError::AlreadyInGame)
    } else {
        Ok(())
    }
}

/// Decides whether a player is admitted to the queue.
pub fn check_admission(queued: bool, in_game: bool) -> (r: Result<(), EnqueueError>)
    ensures
        r == admission(queued, in_game),
{
    if queued {
        Err(EnqueueError::AlreadyQueued)
    } else if in_game {
        Err(EnqueueError::AlreadyInGame)
    } else {
        Ok(())
    }
}

/// Tells whether a queue of `waiting` players holds a pair.
pub fn pair_ready(waiting: u64) -> (r: bool)
    ensures
        r == (waiting >= 2),
{
    waiting >= 2
}

/// A member taken from the store's queue that names a player: the
/// player, the member as the store held it, and the score it had.
#[derive(Debug)]
pub struct QueuedPlayer {
    pub player_id: u32,
    pub member: String,
    pub score: i64,
}

/// The mathematical value of a [`QueuedPlayer`].
pub struct QueuedPlayerView {
    pub player_id: u32,
    pub member: Seq<char>,
    pub score: i64,
}

impl View for QueuedPlayer {
    type V = QueuedPlayerView;

    open spec fn view(&self) -> QueuedPlayerView {
        QueuedPlayerView { player_id: self.player_id, member: self.member@, score: self.score }
    }
}

impl Clone for QueuedPlayer {
    fn clone(&self) -> (r: Self)
        ensures
            r@ == self@,
    {
        QueuedPlayer { player_id: self.player_id, member: self.member.clone(), score: self.score }
    }
}

/// The values of the players `v`.
pub open spec fn player_views(v: Seq<QueuedPlayer>) -> Seq<QueuedPlayerView> {
    Seq::new(v.len(), |i: int| v[i]@)
}

/// The members and scores that the store handed over.
pub open spec fn member_texts(v: Seq<(String, i64)>) -> Seq<(Seq<char>, i64)> {
    Seq::new(v.len(), |i: int| (v[i].0@, v[i].1))
}

/// The players among the members `popped`, in order: a member that is not
/// the decimal writing of a player id is left out.
pub open spec fn valid_players(popped: Seq<(Seq<char>, i64)>) -> Seq<QueuedPlayerView>
    decreases popped.len(),
{
    if popped.len() == 0 {
        Seq::<QueuedPlayerView>::empty()
    } else {
        match parsed_u32(popped.last().0) {
            Some(id) => valid_players(popped.drop_last()).push(
                QueuedPlayerView {
                    player_id: id,
                    member: popped.last().0,
                    score: popped.last().1,
                },
            ),
            None => valid_players(popped.drop_last()),
        }
    }
}

/// What becomes of the players taken from the queue.
#[derive(Debug)]
pub struct Pairing {
    /// The two players to pair: white, then black.
    pub pair: Option<(QueuedPlayer, QueuedPlayer)>,
    /// The players to put back, each as the member and with the score it
    /// had, because no opponent came with them.
    pub requeue: Vec<QueuedPlayer>,
}

/// The pair among the players `players`: the first two, if they are two
/// different players.
pub open spec fn paired(players: Seq<QueuedPlayerView>) -> Option<
    (QueuedPlayerView, QueuedPlayerView),
> {
    if players.len() >= 2 && players[0].player_id != players[1].player_id {
        Some((players[0], players[1]))
    } else {
        None
    }
}

/// The players among `players` that are put back: all but the pair; of two
/// members at the head that name the same player, only the second.
pub open spec fn put_back(players: Seq<QueuedPlayerView>) -> Seq<QueuedPlayerView> {
    if paired(players) is Some {
        players.skip(2)
    } else if players.len() >= 2 {
        players.skip(1)
    } else {
        players
    }
}

/// The value of a pair.
pub open spec fn pair_view(pair: Option<(QueuedPlayer, QueuedPlayer)>) -> Option<
    (QueuedPlayerView, QueuedPlayerView),
> {
    match pair {
        Some((a, b)) => Some((a@, b@)),
        None => None,
    }
}

/// Reads the players among the members taken from the queue.
pub fn read_players(popped: &Vec<(String, i64)>) -> (players: Vec<QueuedPlayer>)
    ensures
        player_views(players@) == valid_players(member_texts(popped@)),
{
    let mut players: Vec<QueuedPlayer> = Vec::new();
    let mut i: usize = 0;
    let ghost all = member_texts(popped@);
    proof {
        assert(all.subrange(0, 0) =~= Seq::<(Seq<char>, i64)>::empty());
        assert(player_views(players@) =~= Seq::<QueuedPlayerView>::empty());
    }
    while i < popped.len()
        invariant
            i <= popped@.len(),
            all == member_texts(popped@),
            player_views(players@) == valid_players(all.subrange(0, i as int)),
        decreases popped@.len() - i,
    {
        proof {
            let next = all.subrange(0, i + 1);
            assert(next.drop_last() =~= all.subrange(0, i as int));
            assert(next.last() == (popped@[i as int].0@, popped@[i as int].1));
        }
        match parse_u32(popped[i].0.as_str()) {
            Some(id) => {
                let ghost before = players@;
                let player = QueuedPlayer {
                    player_id: id,
                    member: popped[i].0.clone(),
                    score: popped[i].1,
                };
                players.push(player);
                proof {
                    assert(player_views(players@) =~= player_views(before).push(player@));
                }
            },
            None => {},
        }
        i = i + 1;
    }
    proof {
        assert(all.subrange(0, popped@.len() as int) =~= all);
    }
    players
}

/// Decides what becomes of the players taken from the queue: the first two
/// are paired if they are two players, the others are put back.  A player
/// is never paired with itself.
pub fn pair_players(players: &Vec<QueuedPlayer>) -> (r: Pairing)
    ensures
        pair_view(r.pair) == paired(player_views(players@)),
        player_views(r.requeue@) == put_back(player_views(players@)),
        r.pair matches Some((a, b)) ==> a.player_id != b.player_id,
{
    let n = players.len();
    let ghost all = player_views(players@);
    let pair = if n >= 2 && players[0].player_id != players[1].player_id {
        assert(all[0] == players@[0]@ && all[1] == players@[1]@);
        Some((players[0].clone(), players[1].clone()))
    } else {
        None
    };
    let from: usize = if pair.is_some() {
        2
    } else if n >= 2 {
        1
    } else {
        0
    };
    let mut requeue: Vec<QueuedPlayer> = Vec::new();
    let mut i: usize = from;
    proof {
        assert(player_views(requeue@) =~= all.subrange(from as int, from as int));
    }
    while i < n
        invariant
            from <= i <= n,
            n == players@.len(),
            all == player_views(players@),
            player_views(requeue@) == all.subrange(from as int, i as int),
        decreases n - i,
    {
        let ghost before = requeue@;
        let player = players[i].clone();
        requeue.push(player);
        proof {
            assert(player_views(requeue@) =~= player_views(before).push(player@));
            assert(player_views(requeue@) =~= all.subrange(from as int, i + 1));
        }
        i = i + 1;
    }
    proof {
        assert(all.subrange(from as int, n as int) =~= all.skip(from as int));
        assert(all.skip(0) =~= all);
    }
    Pairing { pair, requeue }
}

/// Decides what becomes of the members `popped` that were taken from the
/// queue with their scores: members that name no player are dropped, the
/// first two players are paired, the others are put back as they were.
pub fn select_pair(popped: &Vec<(String, i64)>) -> (r: Pairing)
    ensures
        pair_view(r.pair) == paired(valid_players(member_texts(popped@))),
        player_views(r.requeue@) == put_back(valid_players(member_texts(popped@))),
        r.pair matches Some((a, b)) ==> a.player_id != b.player_id,
{
    let players = read_players(popped);
    pair_players(&players)
}

/// A player who waits, and since when.
#[derive(Clone, Copy, Debug, PartialEq, Eq, Structural)]
pub struct MatchmakingEntry {
    pub player_id: u32,
    pub enqueued_at: i64,
}

/// The players who wait for an opponent, the one who waits longest first.
#[derive(Debug)]
pub struct MatchmakingQueue {
    entries: Vec<MatchmakingEntry>,
}

/// Whether `player` waits in `q`.
pub open spec fn waits(q: Seq<MatchmakingEntry>, player: u32) -> bool {
    exists|i: int| 0 <= i < q.len() && (#[trigger] q[i]).player_id == player
}

/// Whether `q` is a queue: nobody waits twice, and nobody stands before a
/// player who has waited longer.
pub open spec fn queue_wf(q: Seq<MatchmakingEntry>) -> bool {
    &&& forall|i: int, j: int|
        0 <= i < j < q.len() ==> (#[trigger] q[i]).player_id != (#[trigger] q[j]).player_id
    &&& forall|i: int, j: int|
        0 <= i < j < q.len() ==> (#[trigger] q[i]).enqueued_at <= (#[trigger] q[j]).enqueued_at
}

/// The place at which a player who asks at `now` joins `q`: behind everyone
/// who asked no later.
pub open spec fn place(q: Seq<MatchmakingEntry>, now: i64) -> int
    decreases q.len(),
{
    if q.len() == 0 {
        0
    } else if q.last().enqueued_at <= now {
        q.len() as int
    } else {
        place(q.drop_last(), now)
    }
}

/// The place of a newcomer lies in the queue, behind all who asked no
/// later and before all who asked later.
pub proof fn lemma_place(q: Seq<MatchmakingEntry>, now: i64)
    requires
        queue_wf(q),
    ensures
        0 <= place(q, now) <= q.len(),
        forall|i: int| 0 <= i < place(q, now) ==> (#[trigger] q[i]).enqueued_at <= now,
        forall|i: int| place(q, now) <= i < q.len() ==> (#[trigger] q[i]).enqueued_at > now,
    decreases q.len(),
{
    if q.len() > 0 {
        let head = q.drop_last();
        assert(queue_wf(head)) by {
            assert forall|i: int, j: int| 0 <= i < j < head.len() implies (#[trigger] head[i]).player_id
                != (#[trigger] head[j]).player_id && head[i].enqueued_at <= head[j].enqueued_at by {
                assert(head[i] == q[i] && head[j] == q[j]);
            }
        }
        lemma_place(head, now);
        if q.last().enqueued_at <= now {
            assert forall|i: int| 0 <= i < q.len() implies (#[trigger] q[i]).enqueued_at <= now by {
                if i < q.len() - 1 {
                    assert(q[i].enqueued_at <= q[q.len() - 1].enqueued_at);
                }
            }
        } else {
            assert forall|i: int| 0 <= i < place(q, now) implies (#[trigger] q[i]).enqueued_at
                <= now by {
                assert(head[i] == q[i]);
            }
            assert forall|i: int| place(q, now) <= i < q.len() implies (#[trigger] q[i]).enqueued_at
                > now by {
                if i < q.len() - 1 {
                    assert(head[i] == q[i]);
                }
            }
        }
    }
}

/// The queue `q` after a player who asks at `now` has joined.
pub open spec fn joined(q: Seq<MatchmakingEntry>, player_id: u32, now: i64) -> Seq<
    MatchmakingEntry,
> {
    q.insert(place(q, now), MatchmakingEntry { player_id, enqueued_at: now })
}

/// The place at which `player_id` waits in `q`, if it waits.
pub open spec fn place_of(q: Seq<MatchmakingEntry>, player_id: u32) -> int {
    choose|i: int| 0 <= i < q.len() && (#[trigger] q[i]).player_id == player_id
}

/// The queue `q` without `player_id`.
pub open spec fn without(q: Seq<MatchmakingEntry>, player_id: u32) -> Seq<MatchmakingEntry> {
    if waits(q, player_id) {
        q.remove(place_of(q, player_id))
    } else {
        q
    }
}

/// A newcomer who did not wait joins the queue at its place: the queue
/// stays in order, the newcomer waits, and nobody else comes or goes.
pub proof fn lemma_join(q: Seq<MatchmakingEntry>, player_id: u32, now: i64)
    requires
        queue_wf(q),
        !waits(q, player_id),
    ensures
        queue_wf(joined(q, player_id, now)),
        waits(joined(q, player_id, now), player_id),
        forall|p: u32| p != player_id ==> waits(joined(q, player_id, now), p) == waits(q, p),
{
    lemma_place(q, now);
    let k = place(q, now);
    let entry = MatchmakingEntry { player_id, enqueued_at: now };
    let after = joined(q, player_id, now);
    assert forall|i: int, j: int| 0 <= i < j < after.len() implies (#[trigger] after[i]).player_id
        != (#[trigger] after[j]).player_id && after[i].enqueued_at <= after[j].enqueued_at by {
        let bi = if i < k {
            i
        } else {
            i - 1
        };
        let bj = if j < k {
            j
        } else {
            j - 1
        };
        if i != k {
            assert(after[i] == q[bi]);
        }
        if j != k {
            assert(after[j] == q[bj]);
        }
    }
    assert(after[k] == entry);
    assert forall|p: u32| p != player_id implies waits(after, p) == waits(q, p) by {
        if waits(q, p) {
            let i = choose|i: int| 0 <= i < q.len() && (#[trigger] q[i]).player_id == p;
            let shifted = if i < k {
                i
            } else {
                i + 1
            };
            assert(after[shifted] == q[i]);
        }
        if waits(after, p) {
            let i = choose|i: int| 0 <= i < after.len() && (#[trigger] after[i]).player_id == p;
            let bi = if i < k {
                i
            } else {
                i - 1
            };
            assert(after[i] == q[bi]);
        }
    }
}

/// When the two who waited longest leave, the queue stays in order, the
/// two wait no more, they are two different players, and nobody comes.
pub proof fn lemma_leave_pair(q: Seq<MatchmakingEntry>)
    requires
        queue_wf(q),
        q.len() >= 2,
    ensures
        queue_wf(q.skip(2)),
        q[0].player_id != q[1].player_id,
        q[0].enqueued_at <= q[1].enqueued_at,
        !waits(q.skip(2), q[0].player_id),
        !waits(q.skip(2), q[1].player_id),
        forall|p: u32| waits(q.skip(2), p) ==> waits(q, p),
        forall|p: u32| waits(q, p) && p != q[0].player_id && p != q[1].player_id ==> waits(
            q.skip(2),
            p,
        ),
{
    let after = q.skip(2);
    assert forall|i: int, j: int| 0 <= i < j < after.len() implies (#[trigger] after[i]).player_id
        != (#[trigger] after[j]).player_id && after[i].enqueued_at <= after[j].enqueued_at by {
        assert(after[i] == q[i + 2] && after[j] == q[j + 2]);
    }
    assert(!waits(after, q[0].player_id)) by {
        if waits(after, q[0].player_id) {
            let i = choose|i: int|
                0 <= i < after.len() && (#[trigger] after[i]).player_id == q[0].player_id;
            assert(after[i] == q[i + 2]);
        }
    }
    assert(!waits(after, q[1].player_id)) by {
        if waits(after, q[1].player_id) {
            let i = choose|i: int|
                0 <= i < after.len() && (#[trigger] after[i]).player_id == q[1].player_id;
            assert(after[i] == q[i + 2]);
        }
    }
    assert forall|p: u32| waits(after, p) implies waits(q, p) by {
        let i = choose|i: int| 0 <= i < after.len() && (#[trigger] after[i]).player_id == p;
        assert(after[i] == q[i + 2]);
    }
    assert forall|p: u32|
        waits(q, p) && p != q[0].player_id && p != q[1].player_id implies waits(after, p) by {
        let i = choose|i: int| 0 <= i < q.len() && (#[trigger] q[i]).player_id == p;
        assert(after[i - 2] == q[i]);
    }
}

/// When the player at the place `i` leaves, the queue stays in order, the
/// player waits no more, and nobody else comes or goes.
pub proof fn lemma_leave(q: Seq<MatchmakingEntry>, i: int)
    requires
        queue_wf(q),
        0 <= i < q.len(),
    ensures
        queue_wf(q.remove(i)),
        !waits(q.remove(i), q[i].player_id),
        forall|p: u32| p != q[i].player_id ==> waits(q.remove(i), p) == waits(q, p),
{
    let after = q.remove(i);
    let player_id = q[i].player_id;
    assert forall|a: int, b: int| 0 <= a < b < after.len() implies (#[trigger] after[a]).player_id
        != (#[trigger] after[b]).player_id && after[a].enqueued_at <= after[b].enqueued_at by {
        let ba = if a < i {
            a
        } else {
            a + 1
        };
        let bb = if b < i {
            b
        } else {
            b + 1
        };
        assert(after[a] == q[ba] && after[b] == q[bb]);
    }
    assert(!waits(after, player_id)) by {
        if waits(after, player_id) {
            let a = choose|a: int| 0 <= a < after.len() && (#[trigger] after[a]).player_id == player_id;
            let ba = if a < i {
                a
            } else {
                a + 1
            };
            assert(after[a] == q[ba]);
            assert(q[ba].player_id != q[i].player_id);
        }
    }
    assert forall|p: u32| p != player_id implies waits(after, p) == waits(q, p) by {
        if waits(q, p) {
            let b = choose|b: int| 0 <= b < q.len() && (#[trigger] q[b]).player_id == p;
            let ab = if b < i {
                b
            } else {
                b - 1
            };
            assert(after[ab] == q[b]);
        }
        if waits(after, p) {
            let a = choose|a: int| 0 <= a < after.len() && (#[trigger] after[a]).player_id == p;
            let ba = if a < i {
                a
            } else {
                a + 1
            };
            assert(after[a] == q[ba]);
        }
    }
}

impl View for MatchmakingQueue {
    type V = Seq<MatchmakingEntry>;

    closed spec fn view(&self) -> Seq<MatchmakingEntry> {
        self.entries@
    }
}

impl MatchmakingQueue {
    /// Whether the queue is in order.
    pub open spec fn wf(&self) -> bool {
        queue_wf(self@)
    }

    /// An empty queue.
    pub fn new() -> (q: Self)
        ensures
            q@ == Seq::<MatchmakingEntry>::empty(),
            q.wf(),
    {
        MatchmakingQueue { entries: Vec::new() }
    }

    /// The number of players who wait.
    pub fn len(&self) -> (n: usize)
        ensures
            n == self@.len(),
    {
        self.entries.len()
    }

    /// The players who wait, the one who waits longest first.
    pub fn entries(&self) -> (list: Vec<MatchmakingEntry>)
        ensures
            list@ == self@,
    {
        let mut list: Vec<MatchmakingEntry> = Vec::new();
        let mut i: usize = 0;
        while i < self.entries.len()
            invariant
                i <= self.entries@.len(),
                list@ == self.entries@.subrange(0, i as int),
            decreases self.entries@.len() - i,
        {
            list.push(self.entries[i]);
            proof {
                assert(list@ =~= self.entries@.subrange(0, i + 1));
            }
            i = i + 1;
        }
        proof {
            assert(self.entries@.subrange(0, self.entries@.len() as int) =~= self.entries@);
        }
        list
    }

    /// Tells whether `player` waits.
    pub fn contains(&self, player: u32) -> (r: bool)
        ensures
            r == waits(self@, player),
    {
        let mut i: usize = 0;
        while i < self.entries.len()
            invariant
                i <= self.entries@.len(),
                forall|j: int| 0 <= j < i ==> (#[trigger] self.entries@[j]).player_id != player,
            decreases self.entries@.len() - i,
        {
            if self.entries[i].player_id == player {
                return true;
            }
            i = i + 1;
        }
        false
    }

    /// Finds the place at which a player who asks at `now` joins.
    fn find_place(&self, now: i64) -> (k: usize)
        requires
            self.wf(),
        ensures
            k == place(self@, now),
            k <= self@.len(),
    {
        proof {
            lemma_place(self@, now);
        }
        let mut k: usize = 0;
        while k < self.entries.len() && self.entries[k].enqueued_at <= now
            invariant
                k <= self.entries@.len(),
                k <= place(self@, now),
                place(self@, now) <= self@.len(),
                forall|i: int|
                    place(self@, now) <= i < self@.len() ==> (#[trigger] self@[i]).enqueued_at
                        > now,
                forall|i: int| 0 <= i < place(self@, now) ==> (#[trigger] self@[i]).enqueued_at <= now,
            decreases self.entries@.len() - k,
        {
            k = k + 1;
        }
        k
    }

    /// Admits `player_id` at the time `now`, unless it waits already or, as
    /// `in_game` says, is playing.  An admitted player joins behind everyone
    /// who asked no later.
    pub fn enqueue(&mut self, player_id: u32, now: i64, in_game: bool) -> (r: Result<
        (),
        EnqueueError,
    >)
        requires
            old(self).wf(),
        ensures
            final(self).wf(),
            r == admission(waits(old(self)@, player_id), in_game),
            r is Err ==> final(self)@ == old(self)@,
            r is Ok ==> final(self)@ == joined(old(self)@, player_id, now),
            r is Ok ==> waits(final(self)@, player_id),
            forall|p: u32| p != player_id ==> waits(final(self)@, p) == waits(old(self)@, p),
    {
        if self.contains(player_id) {
            return Err(EnqueueError::AlreadyQueued);
        }
        if in_game {
            return Err(EnqueueError::AlreadyInGame);
        }
        let k = self.find_place(now);
        proof {
            lemma_join(self@, player_id, now);
        }
        self.entries.insert(k, MatchmakingEntry { player_id, enqueued_at: now });
        Ok(())
    }

    /// Takes the two players who have waited longest out of the queue, if
    /// two players wait.  They are two different players, and nobody left in
    /// the queue has waited longer than either.
    pub fn pop_pair(&mut self) -> (r: Option<(MatchmakingEntry, MatchmakingEntry)>)
        requires
            old(self).wf(),
        ensures
            final(self).wf(),
            old(self)@.len() < 2 ==> r is None && final(self)@ == old(self)@,
            old(self)@.len() >= 2 ==> r == Some((old(self)@[0], old(self)@[1])) && final(self)@
                == old(self)@.skip(2),
            r matches Some((a, b)) ==> {
                &&& a.player_id != b.player_id
                &&& a.enqueued_at <= b.enqueued_at
                &&& !waits(final(self)@, a.player_id)
                &&& !waits(final(self)@, b.player_id)
                &&& forall|i: int|
                    0 <= i < old(self)@.len() - 2 ==> b.enqueued_at <= (#[trigger] old(self)@[i
                        + 2]).enqueued_at
            },
            forall|p: u32| waits(final(self)@, p) ==> waits(old(self)@, p),
    {
        if self.entries.len() < 2 {
            return None;
        }
        proof {
            lemma_leave_pair(self@);
        }
        let ghost before = self@;
        let a = self.entries.remove(0);
        let b = self.entries.remove(0);
        proof {
            assert(self@ =~= before.skip(2));
        }
        Some((a, b))
    }

    /// Takes `player_id` out of the queue, if it waits.  Tells whether it
    /// did.
    pub fn cancel(&mut self, player_id: u32) -> (r: bool)
        requires
            old(self).wf(),
        ensures
            final(self).wf(),
            r == waits(old(self)@, player_id),
            !waits(final(self)@, player_id),
            forall|p: u32| p != player_id ==> waits(final(self)@, p) == waits(old(self)@, p),
            final(self)@ == without(old(self)@, player_id),
    {
        let mut i: usize = 0;
        while i < self.entries.len()
            invariant
                i <= self.entries@.len(),
                self@ == old(self)@,
                queue_wf(self@),
                forall|j: int| 0 <= j < i ==> (#[trigger] self.entries@[j]).player_id != player_id,
            decreases self.entries@.len() - i,
        {
            if self.entries[i].player_id == player_id {
                proof {
                    lemma_leave(self@, i as int);
                    let j = place_of(self@, player_id);
                    if j != i {
                        assert(self@[j].player_id == self@[i as int].player_id);
                    }
                }
                self.entries.remove(i);
                return true;
            }
            i = i + 1;
        }
        false
    }
}

} // verus!
