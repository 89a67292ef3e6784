use ping::event::{Admission, Broadcast, Event, Timer};
use ping::handler::{PingHandler, CHECK_TIMEOUT_TOKEN, SEND_PING_TOKEN};
use ping::message::Message;
use ping::protocol::PingProtocol;
use ping::time::{Span, Timestamp};
use tentacle::secio::PeerId;

const SECOND: u128 = 1_000_000_000;

fn at(secs: u128) -> Timestamp {
    Timestamp { nanos: secs * SECOND }
}

/// A handler that pings every 15 seconds and lets a peer 20 seconds to answer.
fn handler() -> PingHandler {
    PingProtocol::new(1, Span { nanos: 15 * SECOND }, Span { nanos: 20 * SECOND }).service_handle()
}

fn sorted(mut sessions: Vec<usize>) -> Vec<usize> {
    sessions.sort();
    sessions
}

#[test]
fn the_protocol_keeps_its_settings() {
    let protocol = PingProtocol::new(7, Span { nanos: 3 }, Span { nanos: 4 });
    assert_eq!(protocol.id(), 7);
    assert_eq!(protocol.interval(), Span { nanos: 3 });
    assert_eq!(protocol.timeout(), Span { nanos: 4 });
    let handler = protocol.service_handle();
    assert_eq!(handler.proto_id(), 7);
    assert_eq!(handler.interval(), Span { nanos: 3 });
    assert_eq!(handler.timeout(), Span { nanos: 4 });
    assert!(handler.sessions().is_empty());
    assert_eq!(handler.pending_events(), 0);
}

#[test]
fn init_sets_the_two_timers() {
    let handler = PingHandler::new(1, Span { nanos: 15 }, Span { nanos: 20 });
    let (send, check) = handler.init();
    assert_eq!(send, Timer { interval: Span { nanos: 15 }, token: SEND_PING_TOKEN });
    assert_eq!(check, Timer { interval: Span { nanos: 20 }, token: CHECK_TIMEOUT_TOKEN });
    assert_eq!(SEND_PING_TOKEN, 0);
    assert_eq!(CHECK_TIMEOUT_TOKEN, 1);
}

#[test]
fn send_event_queues_in_order() {
    let a = PeerId::random();
    let b = PeerId::random();
    let mut handler = handler();
    handler.send_event(Event::Ping(a.clone()));
    handler.send_event(Event::Timeout(b.clone()));
    assert_eq!(handler.pending_events(), 2);
    assert_eq!(handler.take_events(), vec![Event::Ping(a), Event::Timeout(b)]);
    assert_eq!(handler.pending_events(), 0);
    assert!(handler.take_events().is_empty());
}

#[test]
fn a_session_with_an_identity_gets_an_idle_record() {
    let peer = PeerId::random();
    let mut handler = handler();
    assert_eq!(handler.connected_at(1, Some(peer.clone()), at(100)), Admission::Admitted);
    let status = handler.status_of(1).unwrap();
    assert!(!status.processing);
    assert_eq!(status.last_ping, at(100));
    assert_eq!(status.peer_id, peer);
    assert_eq!(handler.pending_events(), 0);
}

#[test]
fn a_session_without_an_identity_is_refused() {
    let mut handler = handler();
    assert_eq!(handler.connected_at(1, None, at(100)), Admission::Refused);
    assert!(handler.status_of(1).is_none());
    assert!(handler.sessions().is_empty());
    assert_eq!(handler.pending_events(), 0);
}

#[test]
fn a_session_without_an_identity_leaves_an_old_record_alone() {
    let peer = PeerId::random();
    let mut handler = handler();
    handler.connected_at(1, Some(peer.clone()), at(100));
    assert_eq!(handler.connected_at(1, None, at(200)), Admission::Refused);
    assert_eq!(handler.status_of(1).unwrap().last_ping, at(100));
    assert_eq!(handler.status_of(1).unwrap().peer_id, peer);
}

#[test]
fn a_second_connect_does_not_reset_the_session() {
    let peer = PeerId::random();
    let mut handler = handler();
    handler.connected_at(1, Some(peer.clone()), at(100));
    handler.send_pings_at(at(110));
    assert_eq!(
        handler.connected_at(1, Some(PeerId::random()), at(120)),
        Admission::Admitted
    );
    let status = handler.status_of(1).unwrap();
    assert!(status.processing);
    assert_eq!(status.last_ping, at(110));
    assert_eq!(status.peer_id, peer);
}

#[test]
fn disconnect_removes_the_record_without_an_event() {
    let mut handler = handler();
    handler.connected_at(1, Some(PeerId::random()), at(100));
    handler.connected_at(2, Some(PeerId::random()), at(100));
    handler.disconnected(1);
    assert!(handler.status_of(1).is_none());
    assert_eq!(handler.sessions(), vec![2]);
    assert_eq!(handler.pending_events(), 0);
    handler.disconnected(1);
    assert_eq!(handler.sessions(), vec![2]);
}

#[test]
fn a_message_on_an_unknown_session_is_dropped() {
    let mut handler = handler();
    handler.connected_at(1, Some(PeerId::random()), at(100));
    for message in [Message::Ping { nonce: 1 }, Message::Pong { nonce: 1 }, Message::Unknown] {
        assert_eq!(handler.received_at(2, &message.encode(), at(101)), None);
    }
    assert_eq!(handler.received_at(2, b"rubbish", at(101)), None);
    assert_eq!(handler.pending_events(), 0);
    assert_eq!(handler.sessions(), vec![1]);
}

#[test]
fn a_ping_is_echoed_as_a_pong() {
    let peer = PeerId::random();
    let mut handler = handler();
    handler.connected_at(1, Some(peer.clone()), at(100));
    let reply = handler.received_at(1, &Message::Ping { nonce: 0xabcd_ef01 }.encode(), at(101));
    assert_eq!(reply, Some(Message::Pong { nonce: 0xabcd_ef01 }.encode()));
    assert_eq!(Message::decode(&reply.unwrap()), Message::Pong { nonce: 0xabcd_ef01 });
    assert_eq!(handler.take_events(), vec![Event::Ping(peer)]);
    assert!(!handler.status_of(1).unwrap().processing);
    assert_eq!(handler.status_of(1).unwrap().last_ping, at(100));
}

#[test]
fn a_ping_is_echoed_while_a_pong_is_awaited() {
    let peer = PeerId::random();
    let mut handler = handler();
    handler.connected_at(1, Some(peer.clone()), at(100));
    handler.send_pings_at(at(110));
    let reply = handler.received_at(1, &Message::Ping { nonce: 5 }.encode(), at(111));
    assert_eq!(reply, Some(Message::Pong { nonce: 5 }.encode()));
    assert_eq!(handler.take_events(), vec![Event::Ping(peer)]);
    assert!(handler.status_of(1).unwrap().processing);
    assert_eq!(handler.status_of(1).unwrap().last_ping, at(110));
}

#[test]
fn unreadable_bytes_are_an_error_of_the_peer() {
    let peer = PeerId::random();
    let mut handler = handler();
    handler.connected_at(1, Some(peer.clone()), at(100));
    assert_eq!(handler.received_at(1, b"no flatbuffer at all", at(101)), None);
    assert_eq!(handler.received_at(1, &[], at(102)), None);
    assert_eq!(
        handler.take_events(),
        vec![Event::UnexpectedError(peer.clone()), Event::UnexpectedError(peer)]
    );
    assert!(!handler.status_of(1).unwrap().processing);
}

#[test]
fn handle_message_takes_a_decoded_message() {
    let peer = PeerId::random();
    let mut handler = handler();
    handler.connected_at(1, Some(peer.clone()), at(100));
    assert_eq!(handler.handle_message_at(1, Message::Unknown, at(101)), None);
    assert_eq!(
        handler.handle_message_at(1, Message::Ping { nonce: 3 }, at(101)),
        Some(Message::Pong { nonce: 3 }.encode())
    );
    assert_eq!(handler.handle_message_at(1, Message::Pong { nonce: 100 }, at(101)), None);
    assert_eq!(
        handler.take_events(),
        vec![
            Event::UnexpectedError(peer.clone()),
            Event::Ping(peer.clone()),
            Event::UnexpectedError(peer)
        ]
    );
}

#[test]
fn a_pong_in_time_is_reported_with_its_round_trip() {
    let peer = PeerId::random();
    let mut handler = handler();
    assert_eq!(handler.connected_at(1, Some(peer.clone()), at(100)), Admission::Admitted);
    assert!(!handler.status_of(1).unwrap().processing);

    let sent = Timestamp { nanos: 110 * SECOND + 250 };
    let round = handler.notify_at(SEND_PING_TOKEN, sent).unwrap();
    assert_eq!(round.sessions, vec![1]);
    assert_eq!(Message::decode(&round.data), Message::Ping { nonce: 110 });
    assert!(handler.status_of(1).unwrap().processing);
    assert_eq!(handler.status_of(1).unwrap().nonce(), 110);

    let answered = Timestamp { nanos: 112 * SECOND + 750 };
    let reply = handler.received_at(1, &Message::Pong { nonce: 110 }.encode(), answered);
    assert_eq!(reply, None);
    assert_eq!(handler.take_events(), vec![Event::Pong(peer, Span { nanos: 2 * SECOND + 500 })]);
    let status = handler.status_of(1).unwrap();
    assert!(!status.processing);
    assert_eq!(status.last_ping, sent);
}

#[test]
fn a_silent_peer_times_out_at_every_check() {
    let peer = PeerId::random();
    let mut handler = handler();
    handler.connected_at(1, Some(peer.clone()), at(100));
    handler.notify_at(SEND_PING_TOKEN, at(110));

    assert_eq!(handler.notify_at(CHECK_TIMEOUT_TOKEN, at(129)), None);
    assert_eq!(handler.pending_events(), 0);

    assert_eq!(handler.notify_at(CHECK_TIMEOUT_TOKEN, at(130)), None);
    assert_eq!(handler.take_events(), vec![Event::Timeout(peer.clone())]);
    assert!(handler.status_of(1).unwrap().processing);
    assert_eq!(handler.status_of(1).unwrap().last_ping, at(110));

    assert_eq!(handler.notify_at(CHECK_TIMEOUT_TOKEN, at(150)), None);
    assert_eq!(handler.take_events(), vec![Event::Timeout(peer.clone())]);
    assert!(handler.status_of(1).unwrap().processing);

    // A round of pings passes the session by, so it stays overdue.
    assert_eq!(handler.notify_at(SEND_PING_TOKEN, at(151)), None);
    assert_eq!(handler.status_of(1).unwrap().last_ping, at(110));
    assert_eq!(handler.check_timeouts_at(at(152)), vec![1]);
    assert_eq!(handler.take_events(), vec![Event::Timeout(peer.clone())]);

    // The late pong is still the answer to the ping under way.
    assert_eq!(handler.received_at(1, &Message::Pong { nonce: 110 }.encode(), at(153)), None);
    assert_eq!(handler.take_events(), vec![Event::Pong(peer, Span { nanos: 43 * SECOND })]);
    assert!(handler.check_timeouts_at(at(500)).is_empty());
    assert_eq!(handler.pending_events(), 0);
}

#[test]
fn a_pong_with_another_nonce_is_an_error() {
    let peer = PeerId::random();
    let mut handler = handler();
    handler.connected_at(1, Some(peer.clone()), at(100));
    handler.notify_at(SEND_PING_TOKEN, at(110));
    let expected = handler.status_of(1).unwrap().nonce();
    assert_eq!(expected, 110);

    let reply = handler.received_at(1, &Message::Pong { nonce: expected + 1 }.encode(), at(111));
    assert_eq!(reply, None);
    assert_eq!(handler.take_events(), vec![Event::UnexpectedError(peer)]);
    let status = handler.status_of(1).unwrap();
    assert!(status.processing);
    assert_eq!(status.last_ping, at(110));
    assert_eq!(status.nonce(), expected);
}

#[test]
fn a_pong_that_nobody_asked_for_is_an_error() {
    let peer = PeerId::random();
    let mut handler = handler();
    handler.connected_at(1, Some(peer.clone()), at(100));
    // The nonce is the one of the record, but no ping is under way.
    let reply = handler.received_at(1, &Message::Pong { nonce: 100 }.encode(), at(101));
    assert_eq!(reply, None);
    assert_eq!(handler.take_events(), vec![Event::UnexpectedError(peer)]);
    let status = handler.status_of(1).unwrap();
    assert!(!status.processing);
    assert_eq!(status.last_ping, at(100));
}

#[test]
fn a_second_pong_is_an_error() {
    let peer = PeerId::random();
    let mut handler = handler();
    handler.connected_at(1, Some(peer.clone()), at(100));
    handler.send_pings_at(at(110));
    handler.received_at(1, &Message::Pong { nonce: 110 }.encode(), at(111));
    handler.received_at(1, &Message::Pong { nonce: 110 }.encode(), at(112));
    assert_eq!(
        handler.take_events(),
        vec![Event::Pong(peer.clone(), Span { nanos: SECOND }), Event::UnexpectedError(peer)]
    );
}

#[test]
fn no_identity_means_disconnect_and_nothing_else() {
    let mut handler = handler();
    assert_eq!(handler.connected_at(5, None, at(100)), Admission::Refused);
    assert!(handler.status_of(5).is_none());
    assert_eq!(handler.pending_events(), 0);
    assert_eq!(handler.notify_at(SEND_PING_TOKEN, at(110)), None);
    assert_eq!(handler.notify_at(CHECK_TIMEOUT_TOKEN, at(200)), None);
    assert_eq!(handler.received_at(5, &Message::Ping { nonce: 1 }.encode(), at(201)), None);
    assert_eq!(handler.pending_events(), 0);
}

#[test]
fn a_round_of_pings_passes_by_a_session_that_waits() {
    let first = PeerId::random();
    let second = PeerId::random();
    let mut handler = handler();
    handler.connected_at(1, Some(first.clone()), at(100));
    assert_eq!(
        handler.send_pings_at(at(110)),
        Some(Broadcast { sessions: vec![1], data: Message::Ping { nonce: 110 }.encode() })
    );
    handler.connected_at(2, Some(second.clone()), at(120));

    let round = handler.notify_at(SEND_PING_TOKEN, at(125)).unwrap();
    assert_eq!(round.sessions, vec![2]);
    assert_eq!(round.data, Message::Ping { nonce: 125 }.encode());

    let one = handler.status_of(1).unwrap();
    assert!(one.processing);
    assert_eq!(one.last_ping, at(110));
    assert_eq!(one.peer_id, first);
    let two = handler.status_of(2).unwrap();
    assert!(two.processing);
    assert_eq!(two.last_ping, at(125));
    assert_eq!(two.peer_id, second);
    assert_eq!(handler.pending_events(), 0);
}

#[test]
fn a_round_of_pings_gives_every_idle_session_one_nonce() {
    let mut handler = handler();
    for session in 0..20 {
        handler.connected_at(session, Some(PeerId::random()), at(100 + session as u128));
    }
    let now = Timestamp { nanos: 200 * SECOND + 999_999_999 };
    let round = handler.send_pings_at(now).unwrap();
    assert_eq!(sorted(round.sessions.clone()), (0..20).collect::<Vec<usize>>());
    assert_eq!(Message::decode(&round.data), Message::Ping { nonce: 200 });
    for session in round.sessions {
        let status = handler.status_of(session).unwrap();
        assert!(status.processing);
        assert_eq!(status.last_ping, now);
        assert_eq!(status.nonce(), 200);
    }
}

#[test]
fn a_round_of_pings_without_idle_sessions_sends_nothing() {
    let mut handler = handler();
    assert_eq!(handler.send_pings_at(at(100)), None);
    handler.connected_at(1, Some(PeerId::random()), at(100));
    assert!(handler.send_pings_at(at(110)).is_some());
    assert_eq!(handler.send_pings_at(at(111)), None);
    assert_eq!(handler.status_of(1).unwrap().last_ping, at(110));
}

#[test]
fn only_overdue_sessions_time_out() {
    let idle = PeerId::random();
    let fresh = PeerId::random();
    let overdue = PeerId::random();
    let mut handler = handler();
    handler.connected_at(3, Some(overdue.clone()), at(100));
    handler.send_pings_at(at(100));
    handler.connected_at(2, Some(fresh.clone()), at(105));
    handler.send_pings_at(at(105));
    handler.connected_at(1, Some(idle.clone()), at(0));

    // Session 3 has waited 20 s, session 2 only 15 s, session 1 for nothing.
    assert_eq!(handler.check_timeouts_at(at(120)), vec![3]);
    assert_eq!(handler.take_events(), vec![Event::Timeout(overdue.clone())]);

    let late = handler.check_timeouts_at(at(125));
    assert_eq!(sorted(late.clone()), vec![2, 3]);
    let events = handler.take_events();
    assert_eq!(events.len(), 2);
    for (session, event) in late.iter().zip(events) {
        let peer = handler.status_of(*session).unwrap().peer_id.clone();
        assert_eq!(event, Event::Timeout(peer));
    }
    assert!(!handler.status_of(1).unwrap().processing);
}

#[test]
fn a_timeout_of_nothing_is_met_at_once() {
    let peer = PeerId::random();
    let mut handler = PingHandler::new(1, Span { nanos: 1 }, Span { nanos: 0 });
    handler.connected_at(1, Some(peer.clone()), at(100));
    assert!(handler.check_timeouts_at(at(100)).is_empty());
    handler.send_pings_at(at(100));
    assert_eq!(handler.check_timeouts_at(at(100)), vec![1]);
    // Even when the clock went backwards.
    assert_eq!(handler.check_timeouts_at(at(50)), vec![1]);
    assert_eq!(handler.take_events(), vec![Event::Timeout(peer.clone()), Event::Timeout(peer)]);
}

#[test]
fn a_clock_that_went_backwards_gives_no_round_trip() {
    let peer = PeerId::random();
    let mut handler = handler();
    handler.connected_at(1, Some(peer.clone()), at(100));
    handler.send_pings_at(at(110));
    handler.received_at(1, &Message::Pong { nonce: 110 }.encode(), at(90));
    assert_eq!(handler.take_events(), vec![Event::Pong(peer, Span { nanos: 0 })]);
}

#[test]
fn the_hooks_that_read_the_clock_do_the_same_work() {
    let peer = PeerId::random();
    let mut handler = PingHandler::new(1, Span { nanos: SECOND }, Span { nanos: 3_600 * SECOND });
    let before = Timestamp::now();
    assert_eq!(handler.connected(1, Some(peer.clone())), Admission::Admitted);
    assert_eq!(handler.connected(2, None), Admission::Refused);
    assert!(handler.status_of(1).unwrap().last_ping.nanos >= before.nanos);

    let round = handler.notify(SEND_PING_TOKEN).unwrap();
    assert_eq!(round.sessions, vec![1]);
    let nonce = handler.status_of(1).unwrap().nonce();
    assert_eq!(Message::decode(&round.data), Message::Ping { nonce });

    assert_eq!(handler.notify(CHECK_TIMEOUT_TOKEN), None);
    assert_eq!(handler.pending_events(), 0);

    assert_eq!(
        handler.received(1, &Message::Ping { nonce: 9 }.encode()),
        Some(Message::Pong { nonce: 9 }.encode())
    );
    assert_eq!(handler.received(1, &Message::Pong { nonce }.encode()), None);
    let events = handler.take_events();
    assert_eq!(events.len(), 2);
    assert_eq!(events[0], Event::Ping(peer.clone()));
    match &events[1] {
        Event::Pong(from, round_trip) => {
            assert_eq!(from, &peer);
            assert!(round_trip.nanos < 3_600 * SECOND);
        }
        other => panic!("no pong: {:?}", other),
    }
    assert!(!handler.status_of(1).unwrap().processing);
}
