use chess_match::envelope::{
    event_from_parts, parse_event, read_parts, read_token, EnvelopeParts, ProtocolEvent,
};
use chess_match::model::{ErrorKind, EventStatus, Move, PlayerColour};
use chess_match::notify::{
    format_game_move, format_plain, format_surrender, initiated_event, parse_notification,
    relay_event, relay_update, status_for, Notification, Signal,
};
use chess_match::session::new_game;

fn notice(signal: Signal, actor: u32) -> Notification {
    Notification { signal, actor }
}

#[test]
fn writes_notices() {
    assert_eq!(notice(Signal::MoveNew, 42).encode(), "move:new:42");
    assert_eq!(notice(Signal::Surrender, 7).encode(), "player:surrender:7");
    assert_eq!(notice(Signal::DrawOffered, 0).encode(), "player:offer_draw:0");
    assert_eq!(notice(Signal::DrawAccepted, 4294967295).encode(), "player:accept_draw:4294967295");
    assert_eq!(notice(Signal::DrawDeclined, 10).encode(), "player:decline_draw:10");
    assert_eq!(notice(Signal::PeerDisconnected, 3).encode(), "player:disconnect:3");
}

#[test]
fn reads_notices() {
    assert_eq!(parse_notification("move:new:42"), Some(notice(Signal::MoveNew, 42)));
    assert_eq!(parse_notification("player:surrender:7"), Some(notice(Signal::Surrender, 7)));
    assert_eq!(parse_notification("player:offer_draw:1"), Some(notice(Signal::DrawOffered, 1)));
    assert_eq!(parse_notification("player:accept_draw:1"), Some(notice(Signal::DrawAccepted, 1)));
    assert_eq!(parse_notification("player:decline_draw:1"), Some(notice(Signal::DrawDeclined, 1)));
    assert_eq!(parse_notification("player:disconnect:9"), Some(notice(Signal::PeerDisconnected, 9)));
}

#[test]
fn skips_malformed_notices() {
    let bad = [
        "",
        "move",
        "move:new",
        "move:new:",
        "move:new:x",
        "move:new:-1",
        "move:new:4294967296",
        "move:new:1:2",
        "move:old:1",
        "move:surrender:1",
        "player:new:1",
        "Move:new:1",
        " move:new:1",
        "move new 1",
    ];
    for payload in bad {
        assert_eq!(parse_notification(payload), None, "{}", payload);
    }
}

#[test]
fn reading_undoes_writing_of_notices() {
    let signals = [
        Signal::MoveNew,
        Signal::Surrender,
        Signal::DrawOffered,
        Signal::DrawAccepted,
        Signal::DrawDeclined,
        Signal::PeerDisconnected,
    ];
    for signal in signals {
        for actor in [0u32, 1, 10, 11, 999, u32::MAX] {
            let n = notice(signal, actor);
            assert_eq!(parse_notification(&n.encode()), Some(n));
        }
    }
}

#[test]
fn a_notice_means_one_thing_to_the_actor_and_another_to_the_opponent() {
    assert_eq!(status_for(&notice(Signal::MoveNew, 1), 1), EventStatus::EchoSuccess);
    assert_eq!(status_for(&notice(Signal::MoveNew, 1), 2), EventStatus::UpdateNewMove);
    assert_eq!(status_for(&notice(Signal::Surrender, 1), 1), EventStatus::ConfirmSurrendered);
    assert_eq!(status_for(&notice(Signal::Surrender, 1), 2), EventStatus::OpponentSurrender);
    assert_eq!(status_for(&notice(Signal::DrawOffered, 1), 1), EventStatus::EchoSuccess);
    assert_eq!(status_for(&notice(Signal::DrawOffered, 1), 2), EventStatus::ClientMessage);
    assert_eq!(status_for(&notice(Signal::DrawAccepted, 1), 2), EventStatus::ClientMessage);
    assert_eq!(status_for(&notice(Signal::DrawDeclined, 1), 2), EventStatus::ClientMessage);
    assert_eq!(status_for(&notice(Signal::PeerDisconnected, 1), 2), EventStatus::ClientMessage);
}

#[test]
fn builds_the_events_for_clients() {
    let mut game = new_game(3, 10, 11, 5);
    game.previous_move = Some(Move {
        from: "e2".to_string(),
        to: "e4".to_string(),
        flags: "b".to_string(),
        captured: None,
        promotion: None,
    });
    let e = format_game_move(&game, 11, EventStatus::UpdateNewMove);
    assert_eq!(e.event, "game_move");
    assert_eq!(e.data.player, PlayerColour::Black);
    assert_eq!(e.data.status, EventStatus::UpdateNewMove);
    assert_eq!(e.data.this_move.unwrap().from, "e2");
    assert_eq!(e.data.position, Some(game.board_state.clone()));
    let e = format_surrender(10, &game, EventStatus::ConfirmSurrendered);
    assert_eq!(e.event, "game_surrender");
    assert_eq!(e.data.player, PlayerColour::White);
    assert!(e.data.this_move.is_none());
    assert!(e.data.position.is_none());
    let e = format_plain("game_offer_draw", 10, &game, EventStatus::ClientMessage);
    assert_eq!(e.event, "game_offer_draw");
    assert_eq!(e.data.status, EventStatus::ClientMessage);
    let e = relay_event(&notice(Signal::DrawAccepted, 10), &game, 11);
    assert_eq!(e.event, "game_accept_draw");
    assert_eq!(e.data.status, EventStatus::ClientMessage);
    let e = relay_event(&notice(Signal::DrawDeclined, 11), &game, 11);
    assert_eq!(e.event, "game_decline_draw");
    assert_eq!(e.data.status, EventStatus::EchoSuccess);
    let e = relay_event(&notice(Signal::PeerDisconnected, 10), &game, 11);
    assert_eq!(e.event, "peer_disconnected");
    assert_eq!(e.data.status, EventStatus::ClientMessage);
    assert_eq!(e.data.player, PlayerColour::Black);
    // A game without a move yet: the event carries none.
    let fresh = new_game(4, 1, 2, 5);
    assert!(format_game_move(&fresh, 1, EventStatus::EchoSuccess).data.this_move.is_none());
}

#[test]
fn forwards_what_the_channel_brings() {
    let game = new_game(3, 10, 11, 5);
    let e = relay_update("player:surrender:10", &game, 11).unwrap();
    assert_eq!(e.event, "game_surrender");
    assert_eq!(e.data.status, EventStatus::OpponentSurrender);
    let e = relay_update("move:new:11", &game, 11).unwrap();
    assert_eq!(e.data.status, EventStatus::EchoSuccess);
    assert!(relay_update("move:new", &game, 11).is_none());
    assert!(relay_update("garbage", &game, 11).is_none());
    assert!(relay_update("move:new:abc", &game, 11).is_none());
}

#[test]
fn each_client_is_told_its_colour() {
    let game = new_game(1, 10, 11, 5);
    let white = initiated_event(&game, 10);
    let black = initiated_event(&game, 11);
    assert_eq!(white.event, "game_initiated");
    assert_eq!(black.event, "game_initiated");
    assert_eq!(white.data.player, PlayerColour::White);
    assert_eq!(black.data.player, PlayerColour::Black);
    assert_ne!(white.data.player, black.data.player);
    assert_eq!(white.data.status, EventStatus::ClientMessage);
}

fn parts(event: Option<&str>, from: Option<&str>, to: Option<&str>, flag: Option<&str>) -> EnvelopeParts {
    EnvelopeParts {
        event: event.map(str::to_string),
        from: from.map(str::to_string),
        to: to.map(str::to_string),
        flag: flag.map(str::to_string),
        captured: None,
        promotion: None,
    }
}

#[test]
fn decides_the_request_of_an_envelope() {
    assert!(matches!(
        event_from_parts(&parts(Some("game_surrender"), None, None, None)),
        Ok(ProtocolEvent::Surrender)
    ));
    assert!(matches!(
        event_from_parts(&parts(Some("game_offer_draw"), None, None, None)),
        Ok(ProtocolEvent::OfferDraw)
    ));
    assert!(matches!(
        event_from_parts(&parts(Some("game_accept_draw"), None, None, None)),
        Ok(ProtocolEvent::AcceptDraw)
    ));
    assert!(matches!(
        event_from_parts(&parts(Some("game_decline_draw"), None, None, None)),
        Ok(ProtocolEvent::DeclineDraw)
    ));
    assert!(matches!(
        event_from_parts(&parts(Some("game_reminder"), None, None, None)),
        Ok(ProtocolEvent::Reminder)
    ));
    assert!(matches!(
        event_from_parts(&parts(Some("game_start"), None, None, None)),
        Err(ErrorKind::ProtocolError)
    ));
    assert!(matches!(
        event_from_parts(&parts(None, Some("e2"), Some("e4"), Some("b"))),
        Err(ErrorKind::ProtocolError)
    ));
    assert!(matches!(
        event_from_parts(&parts(Some("game_move"), Some("e2"), None, Some("b"))),
        Err(ErrorKind::ProtocolError)
    ));
    assert!(matches!(
        event_from_parts(&parts(Some("game_move"), Some("e2"), Some("e4"), None)),
        Err(ErrorKind::ProtocolError)
    ));
    let mut full = parts(Some("game_move"), Some("a7"), Some("b8"), Some("np"));
    full.captured = Some("n".to_string());
    full.promotion = Some("q".to_string());
    match event_from_parts(&full) {
        Ok(ProtocolEvent::Move(m)) => {
            assert_eq!(m.from, "a7");
            assert_eq!(m.to, "b8");
            assert_eq!(m.flags, "np");
            assert_eq!(m.captured, Some("n".to_string()));
            assert_eq!(m.promotion, Some("q".to_string()));
        }
        _ => panic!("a move was expected"),
    }
}

#[test]
fn reads_envelopes() {
    let text = r#"{"event":"game_move","data":{"from":"e2","to":"e4","flag":"b","captured":null,"promotion":"q"}}"#;
    let p = read_parts(text);
    assert_eq!(p.event, Some("game_move".to_string()));
    assert_eq!(p.from, Some("e2".to_string()));
    assert_eq!(p.to, Some("e4".to_string()));
    assert_eq!(p.flag, Some("b".to_string()));
    assert_eq!(p.captured, None);
    assert_eq!(p.promotion, Some("q".to_string()));
    match parse_event(text) {
        Ok(ProtocolEvent::Move(m)) => {
            assert_eq!(m.from, "e2");
            assert_eq!(m.promotion, Some("q".to_string()));
        }
        _ => panic!("a move was expected"),
    }
    assert!(matches!(
        parse_event(r#"{"event":"game_reminder","data":{}}"#),
        Ok(ProtocolEvent::Reminder)
    ));
    assert!(matches!(parse_event(r#"{"event":"game_reminder"}"#), Ok(ProtocolEvent::Reminder)));
    for bad in [
        "",
        "{",
        "[]",
        "0",
        r#"{"data":{}}"#,
        r#"{"event":null}"#,
        r#"{"event":"game_move","data":{"from":"e2","to":"e4"}}"#,
        r#"{"event":"game_move","data":{"from":12,"to":"e4","flag":"b"}}"#,
        r#"{"event":"GAME_MOVE","data":{"from":"e2","to":"e4","flag":"b"}}"#,
    ] {
        assert!(matches!(parse_event(bad), Err(ErrorKind::ProtocolError)), "{}", bad);
    }
}

#[test]
fn reads_the_credential_of_the_first_frame() {
    assert_eq!(read_token(r#"{"token":"abc.def.ghi"}"#), Some("abc.def.ghi".to_string()));
    assert_eq!(read_token(r#"{"token":""}"#), Some(String::new()));
    assert_eq!(read_token(r#"{"token":17}"#), None);
    assert_eq!(read_token(r#"{"Token":"abc"}"#), None);
    assert_eq!(read_token(r#"{}"#), None);
    assert_eq!(read_token("abc.def.ghi"), None);
    assert_eq!(read_token(""), None);
}
