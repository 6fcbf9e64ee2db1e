use chess_match::engine::{
    close_if_overdue, conclude, expire_draw_offer, finish_game, handle_accept_draw, handle_decline_draw, handle_move, handle_offer_draw,
    handle_send_reminder, handle_surrender, standing_offer, GameServer, StoreUpdate,
    DRAW_OFFER_SECONDS,
};
use chess_match::envelope::{parse_event, ProtocolEvent};
use chess_match::model::{
    DrawOffer, ErrorKind, EventStatus, FinishReason, Game, GameStatus, Move, PlayerColour,
};
use chess_match::notify::{relay_event, Notification, Signal};
use chess_match::session::new_game;

const OPENING: &str = "rnbqkbnr/pppppppp/8/8/8/8/PPPPPPPP/RNBQKBNR w KQkq - 0 1";
const AFTER_E4: &str = "rnbqkbnr/pppppppp/8/8/4P3/8/PPPP1PPP/RNBQKBNR b KQkq - 0 1";

fn mv(from: &str, to: &str, flags: &str) -> Move {
    Move {
        from: from.to_string(),
        to: to.to_string(),
        flags: flags.to_string(),
        captured: None,
        promotion: None,
    }
}

fn same_game(a: &Game, b: &Game) -> bool {
    let same_move = match (&a.previous_move, &b.previous_move) {
        (None, None) => true,
        (Some(x), Some(y)) => {
            x.from == y.from
                && x.to == y.to
                && x.flags == y.flags
                && x.captured == y.captured
                && x.promotion == y.promotion
        }
        _ => false,
    };
    a.game_id == b.game_id
        && a.player_white == b.player_white
        && a.player_black == b.player_black
        && a.game_created == b.game_created
        && a.game_initiated == b.game_initiated
        && a.last_moved == b.last_moved
        && a.board_state == b.board_state
        && a.status == b.status
        && a.draw_offer == b.draw_offer
        && same_move
}

#[test]
fn the_first_mover_plays_e2_e4() {
    let mut game = new_game(1, 10, 11, 1000);
    let r = handle_move(&mut game, 10, &mv("e2", "e4", "b"), 1005);
    assert_eq!(r, Ok(Notification { signal: Signal::MoveNew, actor: 10 }));
    assert_eq!(game.board_state, AFTER_E4);
    assert_eq!(game.last_moved, (10, 1005));
    let recorded = game.previous_move.clone().unwrap();
    assert_eq!(recorded.from, "e2");
    assert_eq!(recorded.to, "e4");
    assert_eq!(recorded.flags, "b");
    assert_eq!(recorded.captured, None);
    assert_eq!(recorded.promotion, None);
    assert_eq!(game.status, GameStatus::InProgress);
    assert_eq!(game.game_initiated, None);

    let notice = r.unwrap();
    let to_opponent = relay_event(&notice, &game, 11);
    assert_eq!(to_opponent.event, "game_move");
    assert_eq!(to_opponent.data.status, EventStatus::UpdateNewMove);
    assert_eq!(to_opponent.data.player, PlayerColour::Black);
    let carried = to_opponent.data.this_move.unwrap();
    assert_eq!(carried.from, "e2");
    assert_eq!(carried.to, "e4");
    assert_eq!(to_opponent.data.position, Some(AFTER_E4.to_string()));
    let to_mover = relay_event(&notice, &game, 10);
    assert_eq!(to_mover.data.status, EventStatus::EchoSuccess);
    assert_eq!(to_mover.data.player, PlayerColour::White);
}

#[test]
fn black_may_not_open() {
    let mut game = new_game(1, 10, 11, 1000);
    let before = game.clone();
    let r = handle_move(&mut game, 11, &mv("e7", "e5", "b"), 1005);
    assert_eq!(r, Err(ErrorKind::TurnError));
    assert!(same_game(&game, &before));
}

#[test]
fn a_move_out_of_turn_is_refused_and_changes_nothing() {
    let mut game = new_game(1, 10, 11, 1000);
    assert!(handle_move(&mut game, 10, &mv("e2", "e4", "b"), 1005).is_ok());
    let before = game.clone();
    let r = handle_move(&mut game, 10, &mv("d2", "d4", "b"), 1006);
    assert_eq!(r, Err(ErrorKind::TurnError));
    assert!(same_game(&game, &before));

    let server = GameServer::new(1, 10);
    let outcome = server.respond(&mut game, Ok(ProtocolEvent::Move(mv("d2", "d4", "b"))), 1007);
    assert_eq!(outcome.error, Some(ErrorKind::TurnError));
    assert_eq!(outcome.update, StoreUpdate::Nothing);
    assert_eq!(outcome.publish, None);
    let reply = outcome.reply.unwrap();
    assert_eq!(reply.event, "game_move");
    assert_eq!(reply.data.status, EventStatus::EchoFailure);
    assert_eq!(reply.data.player, PlayerColour::White);
    assert!(reply.data.this_move.is_none());
    assert!(same_game(&game, &before));
}

#[test]
fn the_players_take_turns() {
    let mut game = new_game(7, 3, 4, 50);
    let moves = [
        (3, mv("e2", "e4", "b")),
        (4, mv("e7", "e5", "b")),
        (3, mv("g1", "f3", "n")),
        (4, mv("b8", "c6", "n")),
        (3, mv("f1", "c4", "n")),
    ];
    let mut now = 100;
    for (player, m) in moves.iter() {
        let other = if *player == 3 { 4 } else { 3 };
        assert_eq!(game.last_moved.0, other);
        let before = game.clone();
        assert_eq!(handle_move(&mut game, other, m, now), Err(ErrorKind::TurnError));
        assert!(same_game(&game, &before));
        assert_eq!(
            handle_move(&mut game, *player, m, now),
            Ok(Notification { signal: Signal::MoveNew, actor: *player })
        );
        assert_eq!(game.last_moved, (*player, now));
        now += 10;
    }
    assert_eq!(
        game.board_state,
        "r1bqkbnr/pppp1ppp/2n5/4p3/2B1P3/5N2/PPPP1PPP/RNBQK2R b KQkq - 3 3"
    );
}

#[test]
fn an_illegal_move_is_refused_and_changes_nothing() {
    let mut game = new_game(1, 10, 11, 1000);
    let before = game.clone();
    assert_eq!(
        handle_move(&mut game, 10, &mv("e2", "e5", "n"), 1005),
        Err(ErrorKind::IllegalMoveError)
    );
    assert_eq!(
        handle_move(&mut game, 10, &mv("e2", "e4", "n"), 1005),
        Err(ErrorKind::IllegalMoveError)
    );
    assert_eq!(
        handle_move(&mut game, 10, &mv("e2", "q4", "b"), 1005),
        Err(ErrorKind::ProtocolError)
    );
    assert_eq!(
        handle_move(&mut game, 12, &mv("e2", "e4", "b"), 1005),
        Err(ErrorKind::ProtocolError)
    );
    assert!(same_game(&game, &before));
    game.board_state = "no position".to_string();
    assert_eq!(
        handle_move(&mut game, 10, &mv("e2", "e4", "b"), 1005),
        Err(ErrorKind::StoreError)
    );
    assert_eq!(game.board_state, "no position");
}

#[test]
fn a_capture_and_a_castle_are_played() {
    let mut game = new_game(1, 1, 2, 0);
    game.board_state = "r3k2r/pppq1ppp/2n5/3pp3/4P3/5N2/PPPP1PPP/RNBQK2R w KQkq - 0 6".to_string();
    let mut capture = mv("e4", "d5", "c");
    capture.captured = Some("p".to_string());
    assert!(handle_move(&mut game, 1, &capture, 1).is_ok());
    assert_eq!(
        game.board_state,
        "r3k2r/pppq1ppp/2n5/3Pp3/8/5N2/PPPP1PPP/RNBQK2R b KQkq - 0 6"
    );
    assert_eq!(game.previous_move.clone().unwrap().captured, Some("p".to_string()));
    assert!(handle_move(&mut game, 2, &mv("e8", "a8", "q"), 2).is_ok());
    assert_eq!(
        game.board_state,
        "2kr3r/pppq1ppp/2n5/3Pp3/8/5N2/PPPP1PPP/RNBQK2R w KQ - 1 7"
    );
    assert!(handle_move(&mut game, 1, &mv("e1", "h1", "k"), 3).is_ok());
    assert_eq!(
        game.board_state,
        "2kr3r/pppq1ppp/2n5/3Pp3/8/5N2/PPPP1PPP/RNBQ1RK1 b - - 2 7"
    );
}

#[test]
fn a_surrender_ends_the_game() {
    let mut game = new_game(1, 10, 11, 1000);
    let server = GameServer::new(1, 11);
    let outcome = server.respond(&mut game, Ok(ProtocolEvent::Surrender), 1010);
    assert_eq!(outcome.error, None);
    assert_eq!(outcome.update, StoreUpdate::CloseGame);
    assert_eq!(outcome.version, (11, 1000));
    assert_eq!(outcome.publish, Some(Notification { signal: Signal::Surrender, actor: 11 }));
    assert!(outcome.reply.is_none());
    assert_eq!(game.status, GameStatus::Finished(FinishReason::Surrender));
    assert_eq!(game.board_state, OPENING);

    let notice = outcome.publish.unwrap();
    let to_opponent = relay_event(&notice, &game, 10);
    assert_eq!(to_opponent.event, "game_surrender");
    assert_eq!(to_opponent.data.status, EventStatus::OpponentSurrender);
    assert_eq!(to_opponent.data.player, PlayerColour::White);
    let to_self = relay_event(&notice, &game, 11);
    assert_eq!(to_self.data.status, EventStatus::ConfirmSurrendered);
    assert_eq!(to_self.data.player, PlayerColour::Black);
}

#[test]
fn a_finished_game_takes_no_request() {
    let mut game = new_game(1, 10, 11, 1000);
    assert!(handle_surrender(&mut game, 10).is_ok());
    let before = game.clone();
    assert_eq!(handle_move(&mut game, 10, &mv("e2", "e4", "b"), 5), Err(ErrorKind::GameClosedError));
    assert_eq!(handle_move(&mut game, 11, &mv("e2", "e4", "b"), 5), Err(ErrorKind::GameClosedError));
    assert_eq!(handle_surrender(&mut game, 11), Err(ErrorKind::GameClosedError));
    assert_eq!(handle_offer_draw(&mut game, 10, 5), Err(ErrorKind::GameClosedError));
    assert_eq!(handle_accept_draw(&mut game, 10, 5), Err(ErrorKind::GameClosedError));
    assert_eq!(handle_decline_draw(&mut game, 10, 5), Err(ErrorKind::GameClosedError));
    assert_eq!(handle_send_reminder(&game, 10).err(), Some(ErrorKind::GameClosedError));
    assert!(same_game(&game, &before));
}

#[test]
fn a_stranger_is_refused() {
    let mut game = new_game(1, 10, 11, 1000);
    let before = game.clone();
    assert_eq!(handle_surrender(&mut game, 12), Err(ErrorKind::ProtocolError));
    assert_eq!(handle_offer_draw(&mut game, 12, 5), Err(ErrorKind::ProtocolError));
    assert_eq!(handle_send_reminder(&game, 12).err(), Some(ErrorKind::ProtocolError));
    assert!(same_game(&game, &before));
}

#[test]
fn a_draw_is_offered_and_accepted() {
    let mut game = new_game(1, 10, 11, 1000);
    assert_eq!(
        handle_offer_draw(&mut game, 10, 2000),
        Ok(Notification { signal: Signal::DrawOffered, actor: 10 })
    );
    assert_eq!(game.draw_offer, Some(DrawOffer { by: 10, deadline: 2000 + DRAW_OFFER_SECONDS }));
    assert_eq!(DRAW_OFFER_SECONDS, 60);
    assert_eq!(standing_offer(&game, 2060), game.draw_offer);
    assert_eq!(standing_offer(&game, 2061), None);
    // While the offer stands nobody offers again, and the offerer cannot answer it.
    assert_eq!(handle_offer_draw(&mut game, 11, 2010), Err(ErrorKind::ProtocolError));
    assert_eq!(handle_offer_draw(&mut game, 10, 2010), Err(ErrorKind::ProtocolError));
    assert_eq!(handle_accept_draw(&mut game, 10, 2010), Err(ErrorKind::ProtocolError));
    assert_eq!(handle_decline_draw(&mut game, 10, 2010), Err(ErrorKind::ProtocolError));
    assert_eq!(
        handle_accept_draw(&mut game, 11, 2060),
        Ok(Notification { signal: Signal::DrawAccepted, actor: 11 })
    );
    assert_eq!(game.status, GameStatus::Finished(FinishReason::Draw));
    assert_eq!(game.draw_offer, None);
}

#[test]
fn a_draw_is_declined_or_lapses() {
    let mut game = new_game(1, 10, 11, 1000);
    assert_eq!(handle_accept_draw(&mut game, 11, 5), Err(ErrorKind::ProtocolError));
    assert_eq!(handle_decline_draw(&mut game, 11, 5), Err(ErrorKind::ProtocolError));
    assert!(handle_offer_draw(&mut game, 11, 2000).is_ok());
    assert_eq!(
        handle_decline_draw(&mut game, 10, 2001),
        Ok(Notification { signal: Signal::DrawDeclined, actor: 10 })
    );
    assert_eq!(game.draw_offer, None);
    assert_eq!(game.status, GameStatus::InProgress);

    assert!(handle_offer_draw(&mut game, 11, 3000).is_ok());
    assert_eq!(handle_accept_draw(&mut game, 10, 3061), Err(ErrorKind::ProtocolError));
    assert_eq!(game.draw_offer, Some(DrawOffer { by: 11, deadline: 3060 }));
    assert!(!expire_draw_offer(&mut game, 3060));
    assert!(expire_draw_offer(&mut game, 3061));
    assert_eq!(game.draw_offer, None);
    assert!(!expire_draw_offer(&mut game, 3062));
    // A lapsed offer gives way to a new one.
    game.draw_offer = Some(DrawOffer { by: 11, deadline: 10 });
    assert!(handle_offer_draw(&mut game, 10, i64::MAX).is_ok());
    assert_eq!(game.draw_offer, Some(DrawOffer { by: 10, deadline: i64::MAX }));
}

#[test]
fn a_reminder_sends_the_state_and_changes_nothing() {
    let mut game = new_game(1, 10, 11, 1000);
    assert!(handle_move(&mut game, 10, &mv("e2", "e4", "b"), 1005).is_ok());
    let before = game.clone();
    let server = GameServer::new(1, 11);
    let outcome = server.respond(&mut game, Ok(ProtocolEvent::Reminder), 1010);
    assert_eq!(outcome.error, None);
    assert_eq!(outcome.update, StoreUpdate::Nothing);
    assert_eq!(outcome.publish, None);
    let reply = outcome.reply.unwrap();
    assert_eq!(reply.event, "game_reminder");
    assert_eq!(reply.data.status, EventStatus::Reminder);
    assert_eq!(reply.data.player, PlayerColour::Black);
    assert_eq!(reply.data.position, Some(AFTER_E4.to_string()));
    assert_eq!(reply.data.this_move.unwrap().to, "e4");
    assert!(same_game(&game, &before));
}

#[test]
fn the_engine_serves_each_request() {
    let mut game = new_game(1, 10, 11, 1000);
    let white = GameServer::new(1, 10);
    let black = GameServer::new(1, 11);
    let o = white.respond(&mut game, Ok(ProtocolEvent::Move(mv("e2", "e4", "b"))), 1001);
    assert_eq!(o.error, None);
    assert_eq!(o.update, StoreUpdate::SaveMove);
    assert_eq!(o.version, (11, 1000));
    assert_eq!(o.publish, Some(Notification { signal: Signal::MoveNew, actor: 10 }));
    assert!(o.reply.is_none());
    let o = black.respond(&mut game, Ok(ProtocolEvent::OfferDraw), 1002);
    assert_eq!(o.update, StoreUpdate::SaveDrawOffer);
    assert_eq!(o.version, (10, 1001));
    assert_eq!(o.publish, Some(Notification { signal: Signal::DrawOffered, actor: 11 }));
    let o = white.respond(&mut game, Ok(ProtocolEvent::DeclineDraw), 1003);
    assert_eq!(o.update, StoreUpdate::SaveDrawOffer);
    assert_eq!(o.publish, Some(Notification { signal: Signal::DrawDeclined, actor: 10 }));
    let o = white.respond(&mut game, Ok(ProtocolEvent::OfferDraw), 1004);
    assert_eq!(o.error, None);
    let o = black.respond(&mut game, Ok(ProtocolEvent::AcceptDraw), 1005);
    assert_eq!(o.update, StoreUpdate::CloseGame);
    assert_eq!(o.publish, Some(Notification { signal: Signal::DrawAccepted, actor: 11 }));
    assert_eq!(game.status, GameStatus::Finished(FinishReason::Draw));
}

#[test]
fn an_unreadable_request_is_answered_and_changes_nothing() {
    let mut game = new_game(1, 10, 11, 1000);
    let before = game.clone();
    let server = GameServer::new(1, 10);
    let o = server.respond(&mut game, Err(ErrorKind::ProtocolError), 1001);
    assert_eq!(o.error, Some(ErrorKind::ProtocolError));
    assert_eq!(o.update, StoreUpdate::Nothing);
    assert_eq!(o.publish, None);
    let reply = o.reply.unwrap();
    assert_eq!(reply.event, "protocol_error");
    assert_eq!(reply.data.status, EventStatus::EchoFailure);
    assert!(same_game(&game, &before));

    let other = GameServer::new(2, 10);
    let o = other.respond(&mut game, Ok(ProtocolEvent::Surrender), 1001);
    assert_eq!(o.error, Some(ErrorKind::StoreError));
    assert_eq!(o.reply.unwrap().event, "store_error");
    assert!(same_game(&game, &before));
}

#[test]
fn a_text_frame_is_read_and_served() {
    let mut game = new_game(1, 10, 11, 1000);
    let server = GameServer::new(1, 10);
    let frame = r#"{"event":"game_move","data":{"from":"e2","to":"e4","flag":"b"}}"#;
    let o = server.handle_received_message(&mut game, frame);
    assert_eq!(o.error, None);
    assert_eq!(o.update, StoreUpdate::SaveMove);
    assert_eq!(game.board_state, AFTER_E4);
    assert_eq!(game.last_moved.0, 10);
    assert!(game.last_moved.1 > 1_600_000_000);

    let before = game.clone();
    for bad in ["", "not json", "{}", r#"{"event":"game_dance","data":{}}"#, r#"{"event":7}"#] {
        let o = server.handle_received_message(&mut game, bad);
        assert_eq!(o.error, Some(ErrorKind::ProtocolError));
        assert_eq!(o.reply.unwrap().data.status, EventStatus::EchoFailure);
        assert!(same_game(&game, &before));
    }
    assert!(matches!(parse_event(frame), Ok(ProtocolEvent::Move(_))));

    let black = GameServer::new(1, 11);
    let o = black.handle_received_message(&mut game, r#"{"event":"game_surrender","data":{}}"#);
    assert_eq!(o.update, StoreUpdate::CloseGame);
    assert_eq!(game.status, GameStatus::Finished(FinishReason::Surrender));
}

#[test]
fn a_game_ends_once() {
    let mut game = new_game(1, 10, 11, 1000);
    game.draw_offer = Some(DrawOffer { by: 10, deadline: 5000 });
    assert_eq!(finish_game(&mut game, FinishReason::Checkmate), Ok(()));
    assert_eq!(game.status, GameStatus::Finished(FinishReason::Checkmate));
    assert_eq!(game.draw_offer, None);
    assert_eq!(finish_game(&mut game, FinishReason::Timeout), Err(ErrorKind::GameClosedError));
    assert_eq!(game.status, GameStatus::Finished(FinishReason::Checkmate));
    assert_eq!(handle_move(&mut game, 10, &mv("e2", "e4", "b"), 1001), Err(ErrorKind::GameClosedError));
}

#[test]
fn a_game_runs_out_of_time() {
    let mut game = new_game(1, 10, 11, 1000);
    assert!(!close_if_overdue(&mut game, 1000, 300));
    assert!(!close_if_overdue(&mut game, 1300, 300));
    assert_eq!(game.status, GameStatus::InProgress);
    assert!(close_if_overdue(&mut game, 1301, 300));
    assert_eq!(game.status, GameStatus::Finished(FinishReason::Timeout));
    assert!(!close_if_overdue(&mut game, 9999, 300));

    let mut early = new_game(2, 10, 11, i64::MIN);
    assert!(close_if_overdue(&mut early, i64::MAX, i64::MAX));
    let mut late = new_game(3, 10, 11, i64::MAX);
    assert!(!close_if_overdue(&mut late, i64::MIN, 0));
    assert!(!close_if_overdue(&mut late, i64::MIN, i64::MIN));
    assert!(close_if_overdue(&mut late, 0, i64::MIN));
}

#[test]
fn the_turn_passes_with_each_move() {
    let mut game = new_game(1, 10, 11, 1000);
    assert!(game.may_move(10));
    assert!(!game.may_move(11));
    assert!(!game.may_move(12));
    assert!(handle_move(&mut game, 10, &mv("e2", "e4", "b"), 1005).is_ok());
    assert!(!game.may_move(10));
    assert!(game.may_move(11));
    assert!(handle_surrender(&mut game, 11).is_ok());
    assert!(!game.may_move(10));
    assert!(!game.may_move(11));
    assert_eq!(game.opponent_of(10), 11);
    assert_eq!(game.opponent_of(11), 10);
    assert!(game.has_player(10) && game.has_player(11) && !game.has_player(12));
    assert!(game.is_finished());
}

#[test]
fn a_capture_in_passing_is_played() {
    let mut game = new_game(1, 1, 2, 0);
    game.board_state = "4k3/8/8/3Pp3/8/8/8/4K3 w - e6 0 1".to_string();
    let mut m = mv("d5", "e6", "e");
    m.captured = Some("p".to_string());
    assert!(handle_move(&mut game, 1, &m, 5).is_ok());
    assert_eq!(game.board_state, "4k3/8/4P3/8/8/8/8/4K3 b - - 0 1");

    let mut taken = new_game(1, 1, 2, 0);
    taken.board_state = "4k3/8/4n3/3Pp3/8/8/8/4K3 w - e6 0 1".to_string();
    assert_eq!(handle_move(&mut taken, 1, &m, 5), Err(ErrorKind::StoreError));
    assert_eq!(taken.board_state, "4k3/8/4n3/3Pp3/8/8/8/4K3 w - e6 0 1");
}

#[test]
fn a_position_beyond_the_move_limit_is_not_played() {
    let mut game = new_game(1, 1, 2, 0);
    let crowded = "kQQQQQQQ/Q6Q/Q6Q/Q6Q/Q6Q/Q6Q/Q6Q/QQQQQQQK w - - 0 1";
    game.board_state = crowded.to_string();
    assert_eq!(handle_move(&mut game, 1, &mv("b8", "b7", "n"), 5), Err(ErrorKind::StoreError));
    assert_eq!(game.board_state, crowded);
    // A move that would hand over a position beyond the limit is refused too.
    let mut game = new_game(1, 1, 2, 0);
    let before = "kqqqqqqq/q6q/q6q/8/8/8/4P3/4K3 w - - 0 1";
    game.board_state = before.to_string();
    assert_eq!(handle_move(&mut game, 1, &mv("e2", "e3", "n"), 5), Err(ErrorKind::StoreError));
    assert_eq!(game.board_state, before);
}

#[test]
fn what_follows_an_outcome_depends_on_the_store() {
    let mut game = new_game(1, 10, 11, 1000);
    let white = GameServer::new(1, 10);
    let black = GameServer::new(1, 11);

    let outcome = white.respond(&mut game, Ok(ProtocolEvent::Move(mv("e2", "e4", "b"))), 1001);
    let next = conclude(outcome, true, &game, 10);
    assert_eq!(next.publish, Some(Notification { signal: Signal::MoveNew, actor: 10 }));
    assert!(next.reply.is_none());
    assert!(!next.unregister);
    assert!(!next.fatal);

    // The store did not take the update: nothing is published, the request failed.
    let outcome = black.respond(&mut game, Ok(ProtocolEvent::OfferDraw), 1002);
    let next = conclude(outcome, false, &game, 11);
    assert_eq!(next.publish, None);
    let reply = next.reply.unwrap();
    assert_eq!(reply.event, "game_offer_draw");
    assert_eq!(reply.data.status, EventStatus::EchoFailure);
    assert_eq!(reply.data.player, PlayerColour::Black);
    assert!(!next.unregister);
    assert!(!next.fatal);

    let outcome = black.respond(&mut game, Ok(ProtocolEvent::Surrender), 1003);
    let stale = conclude(outcome, false, &game, 11);
    assert_eq!(stale.publish, None);
    assert_eq!(stale.reply.unwrap().event, "game_surrender");
    assert!(!stale.unregister);

    let mut game = new_game(1, 10, 11, 1000);
    let outcome = black.respond(&mut game, Ok(ProtocolEvent::Surrender), 1003);
    let next = conclude(outcome, true, &game, 11);
    assert_eq!(next.publish, Some(Notification { signal: Signal::Surrender, actor: 11 }));
    assert!(next.unregister);
    assert!(!next.fatal);

    // Where nothing was to be written, the answer of the store does not matter.
    let mut game = new_game(1, 10, 11, 1000);
    let outcome = white.respond(&mut game, Ok(ProtocolEvent::Reminder), 1004);
    let next = conclude(outcome, false, &game, 10);
    assert_eq!(next.reply.unwrap().event, "game_reminder");
    assert_eq!(next.publish, None);
    assert!(!next.unregister && !next.fatal);

    let other = GameServer::new(2, 10);
    let outcome = other.respond(&mut game, Ok(ProtocolEvent::Surrender), 1005);
    let next = conclude(outcome, true, &game, 10);
    assert!(next.fatal);
    assert_eq!(next.reply.unwrap().event, "store_error");
}
