//! How the shared store holds the server's records: the names of its keys
//! and channels, and the text of a game record, field by field.
//!
//! Numbers are written in decimal.  A part of a record that is unset has no
//! field.  Reading a record that this module wrote gives the game back.

use crate::model::{DrawOffer, FinishReason, Game, GameStatus, GameView, Move, MoveView,
    clone_opt_text, opt_move, opt_text};
use crate::text::{decimal_digits, format_i64, format_u32, lemma_i64_round_trip,
    lemma_u32_round_trip, parse_i64, parse_u32, parsed_i64, parsed_u32, same_text, signed_digits};
use vstd::prelude::*;
use vstd::string::*;

verus! {

/// The sorted set of the players who wait.
pub fn matchmaking_pool_key() -> (r: &'static str)
    ensures
        r@ == "matchmaking_pool"@,
{
    "matchmaking_pool"
}

/// The sorted set of the games that are played.
pub fn active_games_key() -> (r: &'static str)
    ensures
        r@ == "active_games"@,
{
    "active_games"
}

/// The counter from which game ids are drawn.
pub fn game_counter_key() -> (r: &'static str)
    ensures
        r@ == "game_id_counter"@,
{
    "game_id_counter"
}

/// The hash field under which a player's key names the player's game.
pub fn game_id_field() -> (r: &'static str)
    ensures
        r@ == "game_id"@,
{
    "game_id"
}

/// A name made of a prefix and a number.
pub open spec fn numbered(prefix: Seq<char>, id: u32) -> Seq<char> {
    prefix + decimal_digits(id as nat)
}

/// Writes a name made of a prefix and a number.
fn numbered_name(prefix: &str, id: u32) -> (r: String)
    ensures
        r@ == numbered(prefix@, id),
{
    String::from_str(prefix).concat(format_u32(id).as_str())
}

/// The key of the record of the game `game_id`.
pub fn game_key(game_id: u32) -> (r: String)
    ensures
        r@ == numbered("game:"@, game_id),
{
    numbered_name("game:", game_id)
}

/// The key under which the player `user_id` is bound to its game.
pub fn user_key(user_id: u32) -> (r: String)
    ensures
        r@ == numbered("user:"@, user_id),
{
    numbered_name("user:", user_id)
}

/// The channel on which changes of the game `game_id` are announced.
pub fn channel_name(game_id: u32) -> (r: String)
    ensures
        r@ == numbered("game_updates:"@, game_id),
{
    numbered_name("game_updates:", game_id)
}

/// The key of the readiness record of the game `game_id`.
pub fn readiness_key(game_id: u32) -> (r: String)
    ensures
        r@ == numbered("game_readiness:"@, game_id),
{
    numbered_name("game_readiness:", game_id)
}

/// The key of the statistics of the player `user_id`.
pub fn player_stats_key(user_id: u32) -> (r: String)
    ensures
        r@ == numbered("player_stats:"@, user_id),
{
    numbered_name("player_stats:", user_id)
}

/// Names with the same prefix and different numbers differ.
pub proof fn lemma_names_differ(prefix: Seq<char>, a: u32, b: u32)
    ensures
        numbered(prefix, a) == numbered(prefix, b) ==> a == b,
{
    if numbered(prefix, a) == numbered(prefix, b) {
        let n = prefix.len() as int;
        let x = numbered(prefix, a);
        let y = numbered(prefix, b);
        assert(x.subrange(n, x.len() as int) =~= decimal_digits(a as nat));
        assert(y.subrange(n, y.len() as int) =~= decimal_digits(b as nat));
        lemma_u32_round_trip(a);
        lemma_u32_round_trip(b);
    }
}

/// The text that stands for a status.
pub open spec fn status_text(s: GameStatus) -> Seq<char> {
    match s {
        GameStatus::InProgress => "in_progress"@,
        GameStatus::Finished(FinishReason::Surrender) => "surrender"@,
        GameStatus::Finished(FinishReason::Checkmate) => "checkmate"@,
        GameStatus::Finished(FinishReason::Draw) => "draw"@,
        GameStatus::Finished(FinishReason::Timeout) => "timeout"@,
    }
}

/// The status that a text stands for.
pub open spec fn status_of(t: Seq<char>) -> Option<GameStatus> {
    if t == "in_progress"@ {
        Some(GameStatus::InProgress)
    } else if t == "surrender"@ {
        Some(GameStatus::Finished(FinishReason::Surrender))
    } else if t == "checkmate"@ {
        Some(GameStatus::Finished(FinishReason::Checkmate))
    } else if t == "draw"@ {
        Some(GameStatus::Finished(FinishReason::Draw))
    } else if t == "timeout"@ {
        Some(GameStatus::Finished(FinishReason::Timeout))
    } else {
        None
    }
}

/// The texts of the statuses tell the statuses apart.
pub proof fn lemma_status_round_trip(s: GameStatus)
    ensures
        status_of(status_text(s)) == Some(s),
{
    reveal_strlit("in_progress");
    reveal_strlit("surrender");
    reveal_strlit("checkmate");
    reveal_strlit("draw");
    reveal_strlit("timeout");
    assert("in_progress"@[0] != "surrender"@[0]);
    assert("in_progress"@[0] != "checkmate"@[0]);
    assert("in_progress"@[0] != "draw"@[0]);
    assert("in_progress"@[0] != "timeout"@[0]);
    assert("surrender"@[0] != "checkmate"@[0]);
    assert("surrender"@[0] != "draw"@[0]);
    assert("surrender"@[0] != "timeout"@[0]);
    assert("checkmate"@[0] != "draw"@[0]);
    assert("checkmate"@[0] != "timeout"@[0]);
    assert("draw"@[0] != "timeout"@[0]);
}

/// Writes the text that stands for a status.
pub fn format_status(s: GameStatus) -> (r: String)
    ensures
        r@ == status_text(s),
{
    match s {
        GameStatus::InProgress => String::from_str("in_progress"),
        GameStatus::Finished(FinishReason::Surrender) => String::from_str("surrender"),
        GameStatus::Finished(FinishReason::Checkmate) => String::from_str("checkmate"),
        GameStatus::Finished(FinishReason::Draw) => String::from_str("draw"),
        GameStatus::Finished(FinishReason::Timeout) => String::from_str("timeout"),
    }
}

/// Reads the status that a text stands for.
pub fn parse_status(t: &str) -> (r: Option<GameStatus>)
    ensures
        r == status_of(t@),
{
    if same_text(t, "in_progress") {
        Some(GameStatus::InProgress)
    } else if same_text(t, "surrender") {
        Some(GameStatus::Finished(FinishReason::Surrender))
    } else if same_text(t, "checkmate") {
        Some(GameStatus::Finished(FinishReason::Checkmate))
    } else if same_text(t, "draw") {
        Some(GameStatus::Finished(FinishReason::Draw))
    } else if same_text(t, "timeout") {
        Some(GameStatus::Finished(FinishReason::Timeout))
    } else {
        None
    }
}

/// A game as the store holds it: one text for every part that is set.
#[derive(Debug)]
pub struct GameRecord {
    pub game_id: String,
    pub player_white: String,
    pub player_black: String,
    pub game_created: String,
    pub game_initiated: Option<String>,
    pub last_moved_by: String,
    pub last_moved_at: String,
    pub board_state: String,
    pub status: String,
    pub move_from: Option<String>,
    pub move_to: Option<String>,
    pub move_flags: Option<String>,
    pub move_captured: Option<String>,
    pub move_promotion: Option<String>,
    pub draw_offer_by: Option<String>,
    pub draw_offer_deadline: Option<String>,
}

/// The mathematical value of a [`GameRecord`].
pub struct GameRecordView {
    pub game_id: Seq<char>,
    pub player_white: Seq<char>,
    pub player_black: Seq<char>,
    pub game_created: Seq<char>,
    pub game_initiated: Option<Seq<char>>,
    pub last_moved_by: Seq<char>,
    pub last_moved_at: Seq<char>,
    pub board_state: Seq<char>,
    pub status: Seq<char>,
    pub move_from: Option<Seq<char>>,
    pub move_to: Option<Seq<char>>,
    pub move_flags: Option<Seq<char>>,
    pub move_captured: Option<Seq<char>>,
    pub move_promotion: Option<Seq<char>>,
    pub draw_offer_by: Option<Seq<char>>,
    pub draw_offer_deadline: Option<Seq<char>>,
}

impl View for GameRecord {
    type V = GameRecordView;

    open spec fn view(&self) -> GameRecordView {
        GameRecordView {
            game_id: self.game_id@,
            player_white: self.player_white@,
            player_black: self.player_black@,
            game_created: self.game_created@,
            game_initiated: opt_text(self.game_initiated),
            last_moved_by: self.last_moved_by@,
            last_moved_at: self.last_moved_at@,
            board_state: self.board_state@,
            status: self.status@,
            move_from: opt_text(self.move_from),
            move_to: opt_text(self.move_to),
            move_flags: opt_text(self.move_flags),
            move_captured: opt_text(self.move_captured),
            move_promotion: opt_text(self.move_promotion),
            draw_offer_by: opt_text(self.draw_offer_by),
            draw_offer_deadline: opt_text(self.draw_offer_deadline),
        }
    }
}

/// The record that holds the game `g`.
pub open spec fn record_of(g: GameView) -> GameRecordView {
    GameRecordView {
        game_id: decimal_digits(g.game_id as nat),
        player_white: decimal_digits(g.player_white as nat),
        player_black: decimal_digits(g.player_black as nat),
        game_created: signed_digits(g.game_created as int),
        game_initiated: match g.game_initiated {
            Some(t) => Some(signed_digits(t as int)),
            None => None,
        },
        last_moved_by: decimal_digits(g.last_moved.0 as nat),
        last_moved_at: signed_digits(g.last_moved.1 as int),
        board_state: g.board_state,
        status: status_text(g.status),
        move_from: match g.previous_move {
            Some(m) => Some(m.from),
            None => None,
        },
        move_to: match g.previous_move {
            Some(m) => Some(m.to),
            None => None,
        },
        move_flags: match g.previous_move {
            Some(m) => Some(m.flags),
            None => None,
        },
        move_captured: match g.previous_move {
            Some(m) => m.captured,
            None => None,
        },
        move_promotion: match g.previous_move {
            Some(m) => m.promotion,
            None => None,
        },
        draw_offer_by: match g.draw_offer {
            Some(o) => Some(decimal_digits(o.by as nat)),
            None => None,
        },
        draw_offer_deadline: match g.draw_offer {
            Some(o) => Some(signed_digits(o.deadline as int)),
            None => None,
        },
    }
}

/// What an optional text denotes as a time: no text is no time, a text must
/// be a number.  The outer option tells whether the text could be read.
pub open spec fn optional_time(t: Option<Seq<char>>) -> Option<Option<i64>> {
    match t {
        None => Some(None),
        Some(s) => match parsed_i64(s) {
            Some(v) => Some(Some(v)),
            None => None,
        },
    }
}

/// The last move that a record holds: one, if the record names both of its
/// squares and its flag.
pub open spec fn recorded_move(r: GameRecordView) -> Option<MoveView> {
    match (r.move_from, r.move_to, r.move_flags) {
        (Some(from), Some(to), Some(flags)) => Some(
            MoveView { from, to, flags, captured: r.move_captured, promotion: r.move_promotion },
        ),
        _ => None,
    }
}

/// The offer of a draw that a record holds.  The outer option tells whether
/// the two fields could be read: both must be there and be numbers, or
/// neither.
pub open spec fn recorded_offer(r: GameRecordView) -> Option<Option<DrawOffer>> {
    match (r.draw_offer_by, r.draw_offer_deadline) {
        (None, None) => Some(None),
        (Some(by), Some(deadline)) => match (parsed_u32(by), parsed_i64(deadline)) {
            (Some(by), Some(deadline)) => Some(Some(DrawOffer { by, deadline })),
            _ => None,
        },
        _ => None,
    }
}

/// The game that the record `r` holds, if every field of it can be read.
pub open spec fn game_of_record(r: GameRecordView) -> Option<GameView> {
    match (
        parsed_u32(r.game_id),
        parsed_u32(r.player_white),
        parsed_u32(r.player_black),
        parsed_i64(r.game_created),
        optional_time(r.game_initiated),
        parsed_u32(r.last_moved_by),
        parsed_i64(r.last_moved_at),
        status_of(r.status),
        recorded_offer(r),
    ) {
        (
            Some(game_id),
            Some(player_white),
            Some(player_black),
            Some(game_created),
            Some(game_initiated),
            Some(by),
            Some(at),
            Some(status),
            Some(draw_offer),
        ) => Some(
            GameView {
                game_id,
                player_white,
                player_black,
                game_created,
                game_initiated,
                last_moved: (by, at),
                board_state: r.board_state,
                previous_move: recorded_move(r),
                status,
                draw_offer,
            },
        ),
        _ => None,
    }
}

/// Reading the record of a game gives the game back.
pub proof fn lemma_record_round_trip(g: GameView)
    ensures
        game_of_record(record_of(g)) == Some(g),
{
    lemma_u32_round_trip(g.game_id);
    lemma_u32_round_trip(g.player_white);
    lemma_u32_round_trip(g.player_black);
    lemma_u32_round_trip(g.last_moved.0);
    lemma_i64_round_trip(g.game_created);
    lemma_i64_round_trip(g.last_moved.1);
    lemma_status_round_trip(g.status);
    if let Some(t) = g.game_initiated {
        lemma_i64_round_trip(t);
    }
    if let Some(o) = g.draw_offer {
        lemma_u32_round_trip(o.by);
        lemma_i64_round_trip(o.deadline);
    }
    let r = record_of(g);
    assert(recorded_move(r) == g.previous_move);
}

/// Writes the record that holds `game`.
pub fn encode_game(game: &Game) -> (r: GameRecord)
    ensures
        r@ == record_of(game@),
        game_of_record(r@) == Some(game@),
{
    proof {
        lemma_record_round_trip(game@);
    }
    let (move_from, move_to, move_flags, move_captured, move_promotion) =
        match &game.previous_move {
        Some(m) => (
            Some(m.from.clone()),
            Some(m.to.clone()),
            Some(m.flags.clone()),
            clone_opt_text(&m.captured),
            clone_opt_text(&m.promotion),
        ),
        None => (None, None, None, None, None),
    };
    let (draw_offer_by, draw_offer_deadline) = match game.draw_offer {
        Some(o) => (Some(format_u32(o.by)), Some(format_i64(o.deadline))),
        None => (None, None),
    };
    GameRecord {
        game_id: format_u32(game.game_id),
        player_white: format_u32(game.player_white),
        player_black: format_u32(game.player_black),
        game_created: format_i64(game.game_created),
        game_initiated: match game.game_initiated {
            Some(t) => Some(format_i64(t)),
            None => None,
        },
        last_moved_by: format_u32(game.last_moved.0),
        last_moved_at: format_i64(game.last_moved.1),
        board_state: game.board_state.clone(),
        status: format_status(game.status),
        move_from,
        move_to,
        move_flags,
        move_captured,
        move_promotion,
        draw_offer_by,
        draw_offer_deadline,
    }
}

/// Reads an optional time.
fn read_optional_time(t: &Option<String>) -> (r: Option<Option<i64>>)
    ensures
        r == optional_time(opt_text(*t)),
{
    match t {
        None => Some(None),
        Some(s) => match parse_i64(s.as_str()) {
            Some(v) => Some(Some(v)),
            None => None,
        },
    }
}

/// Reads the last move that a record holds.
fn read_move(r: &GameRecord) -> (m: Option<Move>)
    ensures
        opt_move(m) == recorded_move(r@),
{
    match (&r.move_from, &r.move_to, &r.move_flags) {
        (Some(from), Some(to), Some(flags)) => Some(
            Move {
                from: from.clone(),
                to: to.clone(),
                flags: flags.clone(),
                captured: clone_opt_text(&r.move_captured),
                promotion: clone_opt_text(&r.move_promotion),
            },
        ),
        _ => None,
    }
}

/// Reads the offer of a draw that a record holds.
fn read_offer(r: &GameRecord) -> (o: Option<Option<DrawOffer>>)
    ensures
        o == recorded_offer(r@),
{
    match (&r.draw_offer_by, &r.draw_offer_deadline) {
        (None, None) => Some(None),
        (Some(by), Some(deadline)) => match (parse_u32(by.as_str()), parse_i64(deadline.as_str())) {
            (Some(by), Some(deadline)) => Some(Some(DrawOffer { by, deadline })),
            _ => None,
        },
        _ => None,
    }
}

/// Reads the game that the record `r` holds.
pub fn decode_game(r: &GameRecord) -> (g: Option<Game>)
    ensures
        match g {
            Some(game) => game_of_record(r@) == Some(game@),
            None => game_of_record(r@) is None,
        },
{
    let game_id = parse_u32(r.game_id.as_str());
    let player_white = parse_u32(r.player_white.as_str());
    let player_black = parse_u32(r.player_black.as_str());
    let game_created = parse_i64(r.game_created.as_str());
    let game_initiated = read_optional_time(&r.game_initiated);
    let by = parse_u32(r.last_moved_by.as_str());
    let at = parse_i64(r.last_moved_at.as_str());
    let status = parse_status(r.status.as_str());
    let draw_offer = read_offer(r);
    match (
        game_id,
        player_white,
        player_black,
        game_created,
        game_initiated,
        by,
        at,
        status,
        draw_offer,
    ) {
        (
            Some(game_id),
            Some(player_white),
            Some(player_black),
            Some(game_created),
            Some(game_initiated),
            Some(by),
            Some(at),
            Some(status),
            Some(draw_offer),
        ) => Some(
            Game {
                game_id,
                player_white,
                player_black,
                game_created,
                game_initiated,
                last_moved: (by, at),
                board_state: r.board_state.clone(),
                previous_move: read_move(r),
                status,
                draw_offer,
            },
        ),
        _ => None,
    }
}

/// A hash as the store hands it over: fields and their values.
pub open spec fn pair_texts(v: Seq<(String, String)>) -> Seq<(Seq<char>, Seq<char>)> {
    Seq::new(v.len(), |i: int| (v[i].0@, v[i].1@))
}

/// The value of the first field named `name` among `fields`.
pub open spec fn lookup(fields: Seq<(Seq<char>, Seq<char>)>, name: Seq<char>) -> Option<
    Seq<char>,
>
    decreases fields.len(),
{
    if fields.len() == 0 {
        None
    } else if fields[0].0 == name {
        Some(fields[0].1)
    } else {
        lookup(fields.drop_first(), name)
    }
}

/// A field that is always written.
pub open spec fn one(name: Seq<char>, value: Seq<char>) -> Seq<(Seq<char>, Seq<char>)> {
    seq![(name, value)]
}

/// A field that is written only if it is set.
pub open spec fn maybe(name: Seq<char>, value: Option<Seq<char>>) -> Seq<
    (Seq<char>, Seq<char>),
> {
    match value {
        Some(v) => seq![(name, v)],
        None => Seq::empty(),
    }
}

/// The fields of the hash that holds the record `r`.
pub open spec fn fields_of(r: GameRecordView) -> Seq<(Seq<char>, Seq<char>)> {
    one("game_id"@, r.game_id)
        + one("player_white"@, r.player_white)
        + one("player_black"@, r.player_black)
        + one("game_created"@, r.game_created)
        + one("last_moved_by"@, r.last_moved_by)
        + one("last_moved_at"@, r.last_moved_at)
        + one("board_state"@, r.board_state)
        + one("status"@, r.status)
        + maybe("game_initiated"@, r.game_initiated)
        + maybe("move_from"@, r.move_from)
        + maybe("move_to"@, r.move_to)
        + maybe("move_flags"@, r.move_flags)
        + maybe("move_captured"@, r.move_captured)
        + maybe("move_promotion"@, r.move_promotion)
        + maybe("draw_offer_by"@, r.draw_offer_by)
        + maybe("draw_offer_deadline"@, r.draw_offer_deadline)
}

/// The record that the hash `f` holds, if the hash has every field that is
/// always written.
pub open spec fn record_of_fields(f: Seq<(Seq<char>, Seq<char>)>) -> Option<GameRecordView> {
    match (
        lookup(f, "game_id"@),
        lookup(f, "player_white"@),
        lookup(f, "player_black"@),
        lookup(f, "game_created"@),
        lookup(f, "last_moved_by"@),
        lookup(f, "last_moved_at"@),
        lookup(f, "board_state"@),
        lookup(f, "status"@),
    ) {
        (
            Some(game_id),
            Some(player_white),
            Some(player_black),
            Some(game_created),
            Some(last_moved_by),
            Some(last_moved_at),
            Some(board_state),
            Some(status),
        ) => Some(
            GameRecordView {
                game_id,
                player_white,
                player_black,
                game_created,
                last_moved_by,
                last_moved_at,
                board_state,
                status,
                game_initiated: lookup(f, "game_initiated"@),
                move_from: lookup(f, "move_from"@),
                move_to: lookup(f, "move_to"@),
                move_flags: lookup(f, "move_flags"@),
                move_captured: lookup(f, "move_captured"@),
                move_promotion: lookup(f, "move_promotion"@),
                draw_offer_by: lookup(f, "draw_offer_by"@),
                draw_offer_deadline: lookup(f, "draw_offer_deadline"@),
            },
        ),
        _ => None,
    }
}

/// Looking a field up in two lists joined: the first list decides if it
/// has the field.
pub proof fn lemma_lookup_joined(
    a: Seq<(Seq<char>, Seq<char>)>,
    b: Seq<(Seq<char>, Seq<char>)>,
    name: Seq<char>,
)
    ensures
        lookup(a + b, name) == match lookup(a, name) {
            Some(v) => Some(v),
            None => lookup(b, name),
        },
    decreases a.len(),
{
    if a.len() == 0 {
        assert(a + b =~= b);
    } else {
        assert((a + b).drop_first() =~= a.drop_first() + b);
        lemma_lookup_joined(a.drop_first(), b, name);
    }
}

/// Looking a field up in a list with one more field at its end.
pub proof fn lemma_lookup_appended(
    a: Seq<(Seq<char>, Seq<char>)>,
    name: Seq<char>,
    value: Option<Seq<char>>,
)
    ensures
        forall|q: Seq<char>| #[trigger]
            lookup(a + maybe(name, value), q) == match lookup(a, q) {
                Some(v) => Some(v),
                None => if q == name {
                    value
                } else {
                    None
                },
            },
{
    let b = maybe(name, value);
    assert forall|q: Seq<char>| #[trigger]
        lookup(a + b, q) == match lookup(a, q) {
            Some(v) => Some(v),
            None => if q == name {
                value
            } else {
                None
            },
        } by {
        lemma_lookup_joined(a, b, q);
        if value is Some {
            assert(b.drop_first() =~= Seq::empty());
            assert(lookup(b.drop_first(), q) is None);
        }
    }
}

/// Finds the value of the first field named `name`.
pub fn find_field(fields: &Vec<(String, String)>, name: &str) -> (r: Option<String>)
    ensures
        opt_text(r) == lookup(pair_texts(fields@), name@),
{
    let ghost all = pair_texts(fields@);
    let mut i: usize = 0;
    proof {
        assert(all.skip(0) =~= all);
    }
    while i < fields.len()
        invariant
            i <= fields@.len(),
            all == pair_texts(fields@),
            lookup(all, name@) == lookup(all.skip(i as int), name@),
        decreases fields@.len() - i,
    {
        proof {
            assert(all.skip(i as int)[0] == all[i as int]);
            assert(all.skip(i as int).drop_first() =~= all.skip(i + 1));
        }
        if same_text(fields[i].0.as_str(), name) {
            return Some(fields[i].1.clone());
        }
        i = i + 1;
    }
    None
}

/// Appends a field that is set.
fn put(fields: &mut Vec<(String, String)>, name: &str, value: &String)
    ensures
        pair_texts(final(fields)@) == pair_texts(old(fields)@) + one(name@, value@),
{
    fields.push((String::from_str(name), value.clone()));
    proof {
        assert(pair_texts(fields@) =~= pair_texts(old(fields)@) + one(name@, value@));
    }
}

/// Appends a field if it is set.
fn put_if_set(fields: &mut Vec<(String, String)>, name: &str, value: &Option<String>)
    ensures
        pair_texts(final(fields)@) == pair_texts(old(fields)@) + maybe(name@, opt_text(*value)),
{
    match value {
        Some(v) => {
            put(fields, name, v);
        },
        None => {
            proof {
                assert(pair_texts(fields@) =~= pair_texts(old(fields)@) + maybe(
                    name@,
                    opt_text(*value),
                ));
            }
        },
    }
}

/// Lists the fields of the hash that holds the record `r`.
pub fn record_fields(r: &GameRecord) -> (fields: Vec<(String, String)>)
    ensures
        pair_texts(fields@) == fields_of(r@),
{
    let mut fields: Vec<(String, String)> = Vec::new();
    proof {
        assert(pair_texts(fields@) =~= Seq::empty());
    }
    let ghost start = pair_texts(fields@);
    put(&mut fields, "game_id", &r.game_id);
    put(&mut fields, "player_white", &r.player_white);
    put(&mut fields, "player_black", &r.player_black);
    put(&mut fields, "game_created", &r.game_created);
    put(&mut fields, "last_moved_by", &r.last_moved_by);
    put(&mut fields, "last_moved_at", &r.last_moved_at);
    put(&mut fields, "board_state", &r.board_state);
    put(&mut fields, "status", &r.status);
    put_if_set(&mut fields, "game_initiated", &r.game_initiated);
    put_if_set(&mut fields, "move_from", &r.move_from);
    put_if_set(&mut fields, "move_to", &r.move_to);
    put_if_set(&mut fields, "move_flags", &r.move_flags);
    put_if_set(&mut fields, "move_captured", &r.move_captured);
    put_if_set(&mut fields, "move_promotion", &r.move_promotion);
    put_if_set(&mut fields, "draw_offer_by", &r.draw_offer_by);
    put_if_set(&mut fields, "draw_offer_deadline", &r.draw_offer_deadline);
    proof {
        assert(start + one("game_id"@, r@.game_id) =~= one("game_id"@, r@.game_id));
    }
    fields
}

/// Reads the record that a hash holds.
pub fn record_from_fields(fields: &Vec<(String, String)>) -> (r: Option<GameRecord>)
    ensures
        match r {
            Some(record) => record_of_fields(pair_texts(fields@)) == Some(record@),
            None => record_of_fields(pair_texts(fields@)) is None,
        },
{
    match (
        find_field(fields, "game_id"),
        find_field(fields, "player_white"),
        find_field(fields, "player_black"),
        find_field(fields, "game_created"),
        find_field(fields, "last_moved_by"),
        find_field(fields, "last_moved_at"),
        find_field(fields, "board_state"),
        find_field(fields, "status"),
    ) {
        (
            Some(game_id),
            Some(player_white),
            Some(player_black),
            Some(game_created),
            Some(last_moved_by),
            Some(last_moved_at),
            Some(board_state),
            Some(status),
        ) => Some(
            GameRecord {
                game_id,
                player_white,
                player_black,
                game_created,
                last_moved_by,
                last_moved_at,
                board_state,
                status,
                game_initiated: find_field(fields, "game_initiated"),
                move_from: find_field(fields, "move_from"),
                move_to: find_field(fields, "move_to"),
                move_flags: find_field(fields, "move_flags"),
                move_captured: find_field(fields, "move_captured"),
                move_promotion: find_field(fields, "move_promotion"),
                draw_offer_by: find_field(fields, "draw_offer_by"),
                draw_offer_deadline: find_field(fields, "draw_offer_deadline"),
            },
        ),
        _ => None,
    }
}

/// Reading the hash that holds a record gives the record back.
pub proof fn lemma_fields_round_trip(r: GameRecordView)
    ensures
        record_of_fields(fields_of(r)) == Some(r),
{
    reveal_strlit("game_id");
    reveal_strlit("player_white");
    reveal_strlit("player_black");
    reveal_strlit("game_created");
    reveal_strlit("last_moved_by");
    reveal_strlit("last_moved_at");
    reveal_strlit("board_state");
    reveal_strlit("status");
    reveal_strlit("game_initiated");
    reveal_strlit("move_from");
    reveal_strlit("move_to");
    reveal_strlit("move_flags");
    reveal_strlit("move_captured");
    reveal_strlit("move_promotion");
    reveal_strlit("draw_offer_by");
    reveal_strlit("draw_offer_deadline");
    assert("game_id"@.len() == 7 && "game_id"@[0] == 'g');
    assert("player_white"@.len() == 12 && "player_white"@[0] == 'p');
    assert("player_black"@.len() == 12 && "player_black"@[0] == 'p');
    assert("game_created"@.len() == 12 && "game_created"@[0] == 'g');
    assert("last_moved_by"@.len() == 13 && "last_moved_by"@[0] == 'l');
    assert("last_moved_at"@.len() == 13 && "last_moved_at"@[0] == 'l');
    assert("board_state"@.len() == 11 && "board_state"@[0] == 'b');
    assert("status"@.len() == 6 && "status"@[0] == 's');
    assert("game_initiated"@.len() == 14 && "game_initiated"@[0] == 'g');
    assert("move_from"@.len() == 9 && "move_from"@[0] == 'm');
    assert("move_to"@.len() == 7 && "move_to"@[0] == 'm');
    assert("move_flags"@.len() == 10 && "move_flags"@[0] == 'm');
    assert("move_captured"@.len() == 13 && "move_captured"@[0] == 'm');
    assert("move_promotion"@.len() == 14 && "move_promotion"@[0] == 'm');
    assert("draw_offer_by"@.len() == 13 && "draw_offer_by"@[0] == 'd');
    assert("draw_offer_deadline"@.len() == 19 && "draw_offer_deadline"@[0] == 'd');
    assert("player_white"@[7] != "player_black"@[7]);
    assert("last_moved_by"@[11] != "last_moved_at"@[11]);
    let s0 = Seq::<(Seq<char>, Seq<char>)>::empty();
    lemma_lookup_appended(s0, "game_id"@, Some(r.game_id));
    let s1 = s0 + maybe("game_id"@, Some(r.game_id));
    lemma_lookup_appended(s1, "player_white"@, Some(r.player_white));
    let s2 = s1 + maybe("player_white"@, Some(r.player_white));
    lemma_lookup_appended(s2, "player_black"@, Some(r.player_black));
    let s3 = s2 + maybe("player_black"@, Some(r.player_black));
    lemma_lookup_appended(s3, "game_created"@, Some(r.game_created));
    let s4 = s3 + maybe("game_created"@, Some(r.game_created));
    lemma_lookup_appended(s4, "last_moved_by"@, Some(r.last_moved_by));
    let s5 = s4 + maybe("last_moved_by"@, Some(r.last_moved_by));
    lemma_lookup_appended(s5, "last_moved_at"@, Some(r.last_moved_at));
    let s6 = s5 + maybe("last_moved_at"@, Some(r.last_moved_at));
    lemma_lookup_appended(s6, "board_state"@, Some(r.board_state));
    let s7 = s6 + maybe("board_state"@, Some(r.board_state));
    lemma_lookup_appended(s7, "status"@, Some(r.status));
    let s8 = s7 + maybe("status"@, Some(r.status));
    lemma_lookup_appended(s8, "game_initiated"@, r.game_initiated);
    let s9 = s8 + maybe("game_initiated"@, r.game_initiated);
    lemma_lookup_appended(s9, "move_from"@, r.move_from);
    let s10 = s9 + maybe("move_from"@, r.move_from);
    lemma_lookup_appended(s10, "move_to"@, r.move_to);
    let s11 = s10 + maybe("move_to"@, r.move_to);
    lemma_lookup_appended(s11, "move_flags"@, r.move_flags);
    let s12 = s11 + maybe("move_flags"@, r.move_flags);
    lemma_lookup_appended(s12, "move_captured"@, r.move_captured);
    let s13 = s12 + maybe("move_captured"@, r.move_captured);
    lemma_lookup_appended(s13, "move_promotion"@, r.move_promotion);
    let s14 = s13 + maybe("move_promotion"@, r.move_promotion);
    lemma_lookup_appended(s14, "draw_offer_by"@, r.draw_offer_by);
    let s15 = s14 + maybe("draw_offer_by"@, r.draw_offer_by);
    lemma_lookup_appended(s15, "draw_offer_deadline"@, r.draw_offer_deadline);
    let s16 = s15 + maybe("draw_offer_deadline"@, r.draw_offer_deadline);
    assert(s16 =~= fields_of(r));
}

/// Reads the game that a hash holds.
pub fn game_from_fields(fields: &Vec<(String, String)>) -> (g: Option<Game>)
    ensures
        match g {
            Some(game) => record_of_fields(pair_texts(fields@)) matches Some(r) && game_of_record(r)
                == Some(game@),
            None => match record_of_fields(pair_texts(fields@)) {
                Some(r) => game_of_record(r) is None,
                None => true,
            },
        },
{
    match record_from_fields(fields) {
        Some(r) => decode_game(&r),
        None => None,
    }
}

/// Lists the fields of the hash that holds `game`.  Reading them gives the
/// game back.
pub fn game_fields(game: &Game) -> (fields: Vec<(String, String)>)
    ensures
        pair_texts(fields@) == fields_of(record_of(game@)),
        record_of_fields(pair_texts(fields@)) == Some(record_of(game@)),
        game_of_record(record_of(game@)) == Some(game@),
{
    proof {
        lemma_fields_round_trip(record_of(game@));
        lemma_record_round_trip(game@);
    }
    record_fields(&encode_game(game))
}

} // verus!
