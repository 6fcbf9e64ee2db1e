use chess_match::engine::StoreUpdate;
use chess_match::envelope::ProtocolEvent;
use chess_match::gateway::{
    gateway_step, message_receiver, rejection_message, FrameKind, GatewayAction, GatewayEvent,
    GatewayState, InboundAction, Rejection,
};
use chess_match::lobby::Lobby;
use chess_match::matchmaking::{
    check_admission, pair_players, pair_ready, read_players, select_pair, EnqueueError,
    MatchmakingEntry, MatchmakingQueue, Pairing, QueuedPlayer,
};
use chess_match::pace::{after_look, after_round, doubling, RoundOutcome};
use chess_match::model::{ErrorKind, FinishReason, GameStatus, Move, PlayerColour};
use chess_match::notify::initiated_event;
use chess_match::session::{create_game, initiate_game, new_game, ready_up, ReadinessRecord, Rendezvous};

const OPENING: &str = "rnbqkbnr/pppppppp/8/8/8/8/PPPPPPPP/RNBQKBNR w KQkq - 0 1";

#[test]
fn two_players_are_paired_and_meet() {
    let mut lobby = Lobby::new();
    assert_eq!(lobby.enqueue(10, 100), Ok(()));
    assert_eq!(lobby.pair_next(150), None);
    assert_eq!(lobby.enqueue(11, 101), Ok(()));
    assert_eq!(lobby.pair_next(150), Some(1));
    assert_eq!(lobby.pair_next(151), None);
    assert_eq!(lobby.game_count(), 1);
    assert!(lobby.waiting().is_empty());
    assert!(lobby.game(0).is_none());
    assert!(lobby.game(2).is_none());
    let game = lobby.game(1).unwrap();
    assert_eq!(game.game_id, 1);
    assert_eq!(game.player_white, 10);
    assert_eq!(game.player_black, 11);
    assert_eq!(game.game_created, 150);
    assert_eq!(game.game_initiated, None);
    assert_eq!(game.last_moved, (11, 150));
    assert_eq!(game.board_state, OPENING);
    assert!(game.previous_move.is_none());
    assert_eq!(game.status, GameStatus::InProgress);
    assert_eq!(lobby.game_of(10), Some(1));
    assert_eq!(lobby.game_of(11), Some(1));
    assert_eq!(lobby.game_of(12), None);

    let mut game = lobby.game(1).unwrap();
    let mut record = ReadinessRecord::new(1);
    assert_eq!(ready_up(&mut record, &mut game, 11, 200), Ok(Rendezvous::Waiting));
    assert_eq!(game.game_initiated, None);
    assert_eq!(ready_up(&mut record, &mut game, 11, 201), Ok(Rendezvous::Waiting));
    assert_eq!(ready_up(&mut record, &mut game, 10, 205), Ok(Rendezvous::Started));
    assert_eq!(game.game_initiated, Some(205));
    assert_eq!(ready_up(&mut record, &mut game, 11, 210), Ok(Rendezvous::AlreadyStarted));
    assert_eq!(ready_up(&mut record, &mut game, 10, 211), Ok(Rendezvous::AlreadyStarted));
    assert_eq!(game.game_initiated, Some(205));
    assert_eq!(initiated_event(&game, 10).data.player, PlayerColour::White);
    assert_eq!(initiated_event(&game, 11).data.player, PlayerColour::Black);
}

#[test]
fn nobody_waits_twice_or_while_playing() {
    let mut lobby = Lobby::new();
    assert_eq!(lobby.enqueue(1, 10), Ok(()));
    assert_eq!(lobby.enqueue(1, 11), Err(EnqueueError::AlreadyQueued));
    assert_eq!(lobby.waiting().len(), 1);
    assert_eq!(lobby.enqueue(2, 12), Ok(()));
    assert_eq!(lobby.pair_next(20), Some(1));
    assert_eq!(lobby.enqueue(1, 21), Err(EnqueueError::AlreadyInGame));
    assert_eq!(lobby.enqueue(2, 21), Err(EnqueueError::AlreadyInGame));
    assert!(lobby.waiting().is_empty());
    assert_eq!(lobby.enqueue(3, 22), Ok(()));
}

#[test]
fn the_longest_waiting_are_paired_first() {
    let mut lobby = Lobby::new();
    for (player, at) in [(5u32, 50i64), (6, 60), (7, 40), (8, 60), (9, 55)] {
        assert_eq!(lobby.enqueue(player, at), Ok(()));
    }
    let order: Vec<u32> = lobby.waiting().iter().map(|e| e.player_id).collect();
    assert_eq!(order, vec![7, 5, 9, 6, 8]);
    assert_eq!(lobby.pair_next(100), Some(1));
    assert_eq!(lobby.pair_next(101), Some(2));
    assert_eq!(lobby.pair_next(102), None);
    let first = lobby.game(1).unwrap();
    let second = lobby.game(2).unwrap();
    assert_eq!((first.player_white, first.player_black), (7, 5));
    assert_eq!((second.player_white, second.player_black), (9, 6));
    assert_eq!(second.game_id, 2);
    assert_eq!(lobby.waiting(), vec![MatchmakingEntry { player_id: 8, enqueued_at: 60 }]);
    assert!(lobby.cancel(8));
    assert!(!lobby.cancel(8));
    assert!(lobby.waiting().is_empty());
}

#[test]
fn a_surrender_frees_both_players() {
    let mut lobby = Lobby::new();
    assert_eq!(lobby.enqueue(10, 1), Ok(()));
    assert_eq!(lobby.enqueue(11, 2), Ok(()));
    assert_eq!(lobby.pair_next(3), Some(1));
    assert!(lobby.serve(2, 10, Ok(ProtocolEvent::Surrender), 4).is_none());
    assert!(lobby.serve(0, 10, Ok(ProtocolEvent::Surrender), 4).is_none());
    let outcome = lobby.serve(1, 10, Ok(ProtocolEvent::Surrender), 4).unwrap();
    assert_eq!(outcome.update, StoreUpdate::CloseGame);
    assert_eq!(lobby.game(1).unwrap().status, GameStatus::Finished(FinishReason::Surrender));
    assert_eq!(lobby.game_of(10), None);
    assert_eq!(lobby.game_of(11), None);
    assert_eq!(lobby.enqueue(10, 5), Ok(()));
    assert_eq!(lobby.enqueue(11, 6), Ok(()));
    assert_eq!(lobby.pair_next(7), Some(2));
    assert_eq!(lobby.game_of(10), Some(2));
    let again = lobby.serve(1, 11, Ok(ProtocolEvent::Surrender), 8).unwrap();
    assert_eq!(again.error, Some(ErrorKind::GameClosedError));
}

#[test]
fn the_lobby_serves_moves() {
    let mut lobby = Lobby::new();
    assert_eq!(lobby.enqueue(10, 1), Ok(()));
    assert_eq!(lobby.enqueue(11, 2), Ok(()));
    assert_eq!(lobby.pair_next(3), Some(1));
    let e4 = Move {
        from: "e2".to_string(),
        to: "e4".to_string(),
        flags: "b".to_string(),
        captured: None,
        promotion: None,
    };
    let refused = lobby.serve(1, 11, Ok(ProtocolEvent::Move(e4.clone())), 4).unwrap();
    assert_eq!(refused.error, Some(ErrorKind::TurnError));
    assert_eq!(lobby.game(1).unwrap().board_state, OPENING);
    let played = lobby.serve(1, 10, Ok(ProtocolEvent::Move(e4)), 5).unwrap();
    assert_eq!(played.error, None);
    assert_eq!(lobby.game(1).unwrap().last_moved, (10, 5));
    assert_ne!(lobby.game(1).unwrap().board_state, OPENING);
}

#[test]
fn the_queue_keeps_its_order() {
    let mut q = MatchmakingQueue::new();
    assert_eq!(q.len(), 0);
    assert_eq!(q.pop_pair(), None);
    assert_eq!(q.enqueue(1, 30, false), Ok(()));
    assert_eq!(q.pop_pair(), None);
    assert_eq!(q.len(), 1);
    assert_eq!(q.enqueue(2, 10, true), Err(EnqueueError::AlreadyInGame));
    assert_eq!(q.enqueue(1, 10, true), Err(EnqueueError::AlreadyQueued));
    assert_eq!(q.enqueue(2, 10, false), Ok(()));
    assert_eq!(q.enqueue(3, 30, false), Ok(()));
    assert_eq!(q.enqueue(4, 20, false), Ok(()));
    assert!(q.contains(3));
    assert!(!q.contains(5));
    assert!(q.cancel(4));
    assert!(!q.contains(4));
    assert_eq!(
        q.pop_pair(),
        Some((
            MatchmakingEntry { player_id: 2, enqueued_at: 10 },
            MatchmakingEntry { player_id: 1, enqueued_at: 30 }
        ))
    );
    assert_eq!(q.entries(), vec![MatchmakingEntry { player_id: 3, enqueued_at: 30 }]);
}

#[test]
fn decides_admission_and_pairing() {
    assert_eq!(check_admission(false, false), Ok(()));
    assert_eq!(check_admission(true, false), Err(EnqueueError::AlreadyQueued));
    assert_eq!(check_admission(false, true), Err(EnqueueError::AlreadyInGame));
    assert_eq!(check_admission(true, true), Err(EnqueueError::AlreadyQueued));
    assert!(!pair_ready(0));
    assert!(!pair_ready(1));
    assert!(pair_ready(2));
    assert!(pair_ready(3));
}

fn popped(v: &[(&str, i64)]) -> Vec<(String, i64)> {
    v.iter().map(|(member, score)| (member.to_string(), *score)).collect()
}

fn ids(players: &[QueuedPlayer]) -> Vec<u32> {
    players.iter().map(|p| p.player_id).collect()
}

fn pair_ids(p: &Pairing) -> Option<(u32, u32)> {
    p.pair.as_ref().map(|(a, b)| (a.player_id, b.player_id))
}

#[test]
fn invalid_members_of_the_queue_are_dropped() {
    let players =
        read_players(&popped(&[("10", 1), ("", 2), ("x", 3), ("11", 4), ("-3", 5), ("12", 6)]));
    assert_eq!(ids(&players), vec![10, 11, 12]);
    assert_eq!(players[1].member, "11");
    assert_eq!(players[1].score, 4);
    let p = select_pair(&popped(&[("10", 100), ("11", 101)]));
    assert_eq!(pair_ids(&p), Some((10, 11)));
    assert!(p.requeue.is_empty());
    let p = select_pair(&popped(&[("10", 100), ("", 101)]));
    assert_eq!(pair_ids(&p), None);
    assert_eq!(ids(&p.requeue), vec![10]);
    assert_eq!(p.requeue[0].score, 100);
    let p = select_pair(&popped(&[("", 1), ("abc", 2)]));
    assert_eq!(pair_ids(&p), None);
    assert!(p.requeue.is_empty());
    let p = select_pair(&popped(&[]));
    assert_eq!(pair_ids(&p), None);
    assert!(p.requeue.is_empty());
    let p = select_pair(&popped(&[("7", 1), ("x", 2), ("8", 3), ("9", 4)]));
    assert_eq!(pair_ids(&p), Some((7, 8)));
    assert_eq!(ids(&p.requeue), vec![9]);
    assert_eq!(p.requeue[0].score, 4);
    let p = pair_players(&read_players(&popped(&[("1", 1), ("2", 2), ("3", 3), ("4", 4)])));
    assert_eq!(pair_ids(&p), Some((1, 2)));
    assert_eq!(ids(&p.requeue), vec![3, 4]);
}

#[test]
fn a_player_goes_back_as_the_member_it_was() {
    let p = select_pair(&popped(&[("007", 1729519142), ("", 5)]));
    assert_eq!(pair_ids(&p), None);
    assert_eq!(p.requeue.len(), 1);
    assert_eq!(p.requeue[0].player_id, 7);
    assert_eq!(p.requeue[0].member, "007");
    assert_eq!(p.requeue[0].score, 1729519142);
    // Two members that name one player are no pair; one of them goes back.
    let p = select_pair(&popped(&[("7", 10), ("007", 20)]));
    assert_eq!(pair_ids(&p), None);
    assert_eq!(p.requeue.len(), 1);
    assert_eq!(p.requeue[0].member, "007");
    assert_eq!(p.requeue[0].score, 20);
    let p = select_pair(&popped(&[("08", 10), ("9", 20)]));
    let (white, black) = p.pair.unwrap();
    assert_eq!((white.player_id, white.member.as_str(), white.score), (8, "08", 10));
    assert_eq!((black.player_id, black.member.as_str(), black.score), (9, "9", 20));
}

#[test]
fn pairing_empties_a_queue_of_pairs() {
    let mut lobby = Lobby::new();
    for player in 1u32..=8 {
        assert_eq!(lobby.enqueue(player, 100 + i64::from(player)), Ok(()));
    }
    for round in 1u32..=4 {
        assert_eq!(lobby.pair_next(200), Some(round));
        let game = lobby.game(round).unwrap();
        assert_eq!((game.player_white, game.player_black), (2 * round - 1, 2 * round));
    }
    assert_eq!(lobby.game_count(), 4);
    assert!(lobby.waiting().is_empty());
    assert_eq!(lobby.pair_next(201), None);
}

#[test]
fn the_pairing_task_rests() {
    assert_eq!(after_round(0, RoundOutcome::Paired, 12345), (0, 0));
    assert_eq!(after_round(9, RoundOutcome::Paired, 0), (0, 0));
    assert_eq!(after_round(3, RoundOutcome::Idle, 0), (0, 200));
    assert_eq!(after_round(3, RoundOutcome::Idle, 1234), (0, 234));
    assert_eq!(after_round(0, RoundOutcome::Failed, 0), (1, 100));
    assert_eq!(after_round(1, RoundOutcome::Failed, 99), (2, 299));
    assert_eq!(after_round(2, RoundOutcome::Failed, 100), (3, 400));
    assert_eq!(after_round(5, RoundOutcome::Failed, 0), (6, 3200));
    assert_eq!(after_round(6, RoundOutcome::Failed, 0), (7, 6400));
    assert_eq!(after_round(7, RoundOutcome::Failed, u64::MAX), (8, 6415));
    assert_eq!(after_round(u32::MAX, RoundOutcome::Failed, 0), (u32::MAX, 6400));
    for k in 0u32..=6 {
        assert_eq!(doubling(k), 1u64 << k);
    }
    assert_eq!(doubling(7), 64);
    assert_eq!(doubling(u32::MAX), 64);
}

#[test]
fn a_waiting_connection_rests() {
    assert_eq!(after_look(0, 0), (1, 50));
    assert_eq!(after_look(1, 7), (2, 107));
    assert_eq!(after_look(4, 0), (5, 800));
    assert_eq!(after_look(5, 0), (6, 1600));
    assert_eq!(after_look(6, 250), (7, 1650));
    assert_eq!(after_look(u32::MAX, 99), (u32::MAX, 1699));
}

#[test]
fn a_new_game_lets_white_open() {
    let g = new_game(9, 21, 22, 777);
    assert_eq!(g.game_id, 9);
    assert_eq!(g.player_white, 21);
    assert_eq!(g.player_black, 22);
    assert_eq!(g.last_moved, (22, 777));
    assert_eq!(g.game_created, 777);
    assert_eq!(g.board_state, OPENING);
    assert!(g.is_well_formed());
    assert!(!new_game(9, 21, 21, 777).is_well_formed());
    let now = create_game(1, 2, 3);
    assert_eq!(now.last_moved.0, 3);
    assert_eq!(now.last_moved.1, now.game_created);
    assert!(now.game_created > 1_600_000_000);
    assert_eq!(now.board_state, OPENING);
}

#[test]
fn play_starts_once() {
    let mut g = new_game(1, 10, 11, 5);
    assert!(initiate_game(&mut g, 100));
    assert_eq!(g.game_initiated, Some(100));
    assert!(!initiate_game(&mut g, 200));
    assert_eq!(g.game_initiated, Some(100));

    let mut g = new_game(1, 10, 11, 5);
    let mut r = ReadinessRecord::new(1);
    assert_eq!(ready_up(&mut r, &mut g, 12, 9), Err(ErrorKind::ProtocolError));
    assert_eq!(r, ReadinessRecord::new(1));
    let mut other = ReadinessRecord::new(2);
    assert_eq!(ready_up(&mut other, &mut g, 10, 9), Err(ErrorKind::StoreError));
    assert_eq!(ready_up(&mut r, &mut g, 10, 10), Ok(Rendezvous::Waiting));
    assert!(r.white_ready && !r.black_ready && !r.is_complete());
    assert_eq!(ready_up(&mut r, &mut g, 11, 11), Ok(Rendezvous::Started));
    assert!(r.is_complete());
    assert_eq!(g.game_initiated, Some(11));
}

#[test]
fn a_connection_goes_through_its_states() {
    let (s, a) = gateway_step(GatewayState::AwaitingAuth, GatewayEvent::FirstFrame { has_token: true });
    assert_eq!((s, a), (GatewayState::AwaitingAuth, GatewayAction::CheckCredential));
    let (s, a) = gateway_step(s, GatewayEvent::CredentialChecked { valid: true });
    assert_eq!((s, a), (GatewayState::Authenticated, GatewayAction::ResolvePlayer));
    let (s, a) = gateway_step(s, GatewayEvent::PlayerResolved { user_id: Some(10) });
    assert_eq!(
        (s, a),
        (GatewayState::AwaitingGame { user_id: 10 }, GatewayAction::LookUpGame { user_id: 10 })
    );
    let (s, a) = gateway_step(s, GatewayEvent::GameLookedUp { game_id: Some(1) });
    assert_eq!(
        (s, a),
        (
            GatewayState::AwaitingReadiness { user_id: 10, game_id: 1 },
            GatewayAction::SignalReady { user_id: 10, game_id: 1 }
        )
    );
    let (s, a) = gateway_step(s, GatewayEvent::ReadinessSeen { complete: false });
    assert_eq!(
        (s, a),
        (
            GatewayState::AwaitingReadiness { user_id: 10, game_id: 1 },
            GatewayAction::AwaitOpponent { user_id: 10, game_id: 1 }
        )
    );
    let (s, a) = gateway_step(s, GatewayEvent::ReadinessSeen { complete: true });
    assert_eq!(
        (s, a),
        (
            GatewayState::Active { user_id: 10, game_id: 1 },
            GatewayAction::Activate { user_id: 10, game_id: 1 }
        )
    );
    let (s, a) = gateway_step(s, GatewayEvent::ReadinessSeen { complete: true });
    assert_eq!((s, a), (GatewayState::Active { user_id: 10, game_id: 1 }, GatewayAction::Ignore));
    assert_eq!(
        gateway_step(s, GatewayEvent::StoreFailed),
        (GatewayState::Closed, GatewayAction::Release)
    );
    let (s, a) = gateway_step(s, GatewayEvent::TransportClosed);
    assert_eq!((s, a), (GatewayState::Closed, GatewayAction::Leave { user_id: 10, game_id: 1 }));
    for e in [
        GatewayEvent::FirstFrame { has_token: true },
        GatewayEvent::CredentialChecked { valid: true },
        GatewayEvent::TransportClosed,
        GatewayEvent::StoreFailed,
    ] {
        assert_eq!(gateway_step(s, e), (GatewayState::Closed, GatewayAction::Ignore));
    }
}

#[test]
fn a_connection_is_turned_away() {
    let auth = GatewayAction::Reject { reason: Rejection::AuthenticationFailed };
    assert_eq!(
        gateway_step(GatewayState::AwaitingAuth, GatewayEvent::FirstFrame { has_token: false }),
        (GatewayState::Closed, auth)
    );
    assert_eq!(
        gateway_step(GatewayState::AwaitingAuth, GatewayEvent::CredentialChecked { valid: false }),
        (GatewayState::Closed, auth)
    );
    assert_eq!(
        gateway_step(GatewayState::Authenticated, GatewayEvent::PlayerResolved { user_id: None }),
        (GatewayState::Closed, auth)
    );
    assert_eq!(
        gateway_step(
            GatewayState::AwaitingGame { user_id: 3 },
            GatewayEvent::GameLookedUp { game_id: None }
        ),
        (GatewayState::Closed, GatewayAction::Reject { reason: Rejection::NoAssociatedGame })
    );
    assert_eq!(
        gateway_step(GatewayState::AwaitingGame { user_id: 3 }, GatewayEvent::StoreFailed),
        (GatewayState::Closed, GatewayAction::Release)
    );
    assert_eq!(
        gateway_step(
            GatewayState::AwaitingReadiness { user_id: 3, game_id: 2 },
            GatewayEvent::TransportClosed
        ),
        (GatewayState::Closed, GatewayAction::Release)
    );
    assert_eq!(
        gateway_step(
            GatewayState::AwaitingAuth,
            GatewayEvent::GameLookedUp { game_id: Some(1) }
        ),
        (GatewayState::AwaitingAuth, GatewayAction::Ignore)
    );
    assert_eq!(rejection_message(Rejection::AuthenticationFailed), "Authentication failed");
    assert_eq!(rejection_message(Rejection::NoAssociatedGame), "User has no associated game");
}

#[test]
fn frames_are_told_apart() {
    assert_eq!(message_receiver(FrameKind::Text, "0"), InboundAction::Pong);
    assert_eq!(message_receiver(FrameKind::Text, "00"), InboundAction::Serve);
    assert_eq!(message_receiver(FrameKind::Text, ""), InboundAction::Serve);
    assert_eq!(message_receiver(FrameKind::Text, "{}"), InboundAction::Serve);
    assert_eq!(message_receiver(FrameKind::Close, "0"), InboundAction::CloseAndStop);
    assert_eq!(message_receiver(FrameKind::Other, "0"), InboundAction::Skip);
    assert_eq!(message_receiver(FrameKind::Failed, ""), InboundAction::Stop);
}
