//! What holds of the handler in every state.

use crate::event::{Broadcast, Event};
use crate::handler::HandlerView;
use crate::message::{decode_spec, law_decode_inverts_encode, Message};
use crate::registry::SessionId;
use crate::time::Timestamp;
use vstd::prelude::*;

verus! {

/// A session that opens without an identity leaves the state as it was: it
/// gets no record and no event is reported.
pub proof fn law_unidentified_session_gets_no_record(
    state: HandlerView,
    session: SessionId,
    now: Timestamp,
)
    ensures
        state.after_connect(session, None, now) == state,
{
}

/// A session that opens with an identity has a record afterwards. If it had
/// none, the record is idle and dated `now`; if it had one, nothing changes.
/// No other session is touched and no event is reported.
pub proof fn law_identified_session_is_recorded(
    state: HandlerView,
    session: SessionId,
    peer_id: tentacle::secio::PeerId,
    now: Timestamp,
)
    ensures
        ({
            let next = state.after_connect(session, Some(peer_id), now);
            &&& next.sessions.contains_key(session)
            &&& next.events == state.events
            &&& state.sessions.contains_key(session) ==> next == state
            &&& !state.sessions.contains_key(session) ==> {
                &&& next.is_idle(session)
                &&& next.sessions[session].last_ping == now
                &&& next.sessions[session].peer_id == peer_id
            }
            &&& forall|other: SessionId|
                other != session ==> next.sessions.contains_key(other)
                    == state.sessions.contains_key(other) && next.sessions[other]
                    == state.sessions[other]
        }),
{
}

/// After a session closed it has no record; the other sessions and the
/// events are as before.
pub proof fn law_closed_session_is_forgotten(state: HandlerView, session: SessionId)
    ensures
        ({
            let next = state.after_disconnect(session);
            &&& !next.sessions.contains_key(session)
            &&& next.events == state.events
            &&& forall|other: SessionId|
                other != session ==> next.sessions.contains_key(other)
                    == state.sessions.contains_key(other) && next.sessions[other]
                    == state.sessions[other]
        }),
{
}

/// A message on a session without a record changes nothing and has no reply.
pub proof fn law_unknown_session_is_ignored(
    state: HandlerView,
    session: SessionId,
    message: Message,
    now: Timestamp,
)
    requires
        !state.sessions.contains_key(session),
    ensures
        state.after_receive(session, message, now) == state,
        state.reply_to(session, message) is None,
{
}

/// A ping is answered with a pong of the same nonce and reported as a ping
/// of the peer, whatever the session's own state, which stays as it is.
pub proof fn law_ping_is_echoed(
    state: HandlerView,
    session: SessionId,
    nonce: u32,
    now: Timestamp,
)
    requires
        state.sessions.contains_key(session),
    ensures
        ({
            let next = state.after_receive(session, Message::Ping { nonce }, now);
            let reply = state.reply_to(session, Message::Ping { nonce });
            &&& next.sessions == state.sessions
            &&& next.events == state.events.push(Event::Ping(state.sessions[session].peer_id))
            &&& reply is Some
            &&& decode_spec(reply.unwrap()) == Message::Pong { nonce }
        }),
{
    law_decode_inverts_encode(Message::Pong { nonce });
}

/// A pong is taken as an answer if and only if the session waits for one and
/// the pong carries the nonce of the ping under way. A pong that is not taken
/// is reported as an error of the peer and leaves every record as it was. In
/// both cases exactly one event is reported and nothing is sent back.
pub proof fn law_pong_is_accepted_iff_expected(
    state: HandlerView,
    session: SessionId,
    nonce: u32,
    now: Timestamp,
)
    requires
        state.sessions.contains_key(session),
    ensures
        ({
            let next = state.after_receive(session, Message::Pong { nonce }, now);
            let status = state.sessions[session];
            let expected = status.processing && nonce == status.nonce_spec();
            &&& state.accepts_pong(session, nonce) == expected
            &&& next.events.len() == state.events.len() + 1
            &&& next.events.drop_last() == state.events
            &&& next.events.last() is Pong <==> expected
            &&& !expected ==> next.events.last() == Event::UnexpectedError(status.peer_id)
                && next.sessions == state.sessions
            &&& state.reply_to(session, Message::Pong { nonce }) is None
        }),
{
    let next = state.after_receive(session, Message::Pong { nonce }, now);
    assert(next.events.drop_last() =~= state.events);
}

/// After a pong was accepted the session is idle again, with the time of its
/// last ping unchanged, and the event carries the time from that ping to
/// `now`: their difference where the clock did not go backwards, nothing
/// where it did. No other session is touched.
pub proof fn law_accepted_pong_returns_to_idle(
    state: HandlerView,
    session: SessionId,
    nonce: u32,
    now: Timestamp,
)
    requires
        state.accepts_pong(session, nonce),
    ensures
        ({
            let next = state.after_receive(session, Message::Pong { nonce }, now);
            let status = state.sessions[session];
            let round_trip = now.span_since(status.last_ping);
            &&& next.is_idle(session)
            &&& next.sessions[session].last_ping == status.last_ping
            &&& next.sessions[session].peer_id == status.peer_id
            &&& next.events.last() == Event::Pong(status.peer_id, round_trip)
            &&& round_trip.nanos >= 0
            &&& now.nanos >= status.last_ping.nanos ==> round_trip.nanos == now.nanos
                - status.last_ping.nanos
            &&& now.nanos < status.last_ping.nanos ==> round_trip.nanos == 0
            &&& forall|other: SessionId|
                other != session ==> next.sessions.contains_key(other)
                    == state.sessions.contains_key(other) && next.sessions[other]
                    == state.sessions[other]
        }),
{
}

/// Bytes that are no ping and no pong are reported as an error of the peer
/// and change no record.
pub proof fn law_unreadable_message_is_an_error(
    state: HandlerView,
    session: SessionId,
    now: Timestamp,
)
    requires
        state.sessions.contains_key(session),
    ensures
        ({
            let next = state.after_receive(session, Message::Unknown, now);
            &&& next.sessions == state.sessions
            &&& next.events == state.events.push(
                Event::UnexpectedError(state.sessions[session].peer_id),
            )
            &&& state.reply_to(session, Message::Unknown) is None
        }),
{
}

/// No message, whatever it is, changes which sessions have a record, who
/// their peers are, or when their last ping went out.
pub proof fn law_receiving_keeps_ping_times(
    state: HandlerView,
    session: SessionId,
    message: Message,
    now: Timestamp,
)
    ensures
        ({
            let next = state.after_receive(session, message, now);
            &&& next.sessions.dom() == state.sessions.dom()
            &&& forall|s: SessionId| #[trigger]
                state.sessions.contains_key(s) ==> next.sessions[s].last_ping
                    == state.sessions[s].last_ping && next.sessions[s].peer_id
                    == state.sessions[s].peer_id
        }),
{
    let next = state.after_receive(session, message, now);
    assert(next.sessions.dom() =~= state.sessions.dom());
}

/// A round of pings challenges every idle session and no other. Each idle
/// session waits for a pong afterwards, with its last ping at `now`, and is
/// among the receivers; each session that was waiting keeps its record and
/// is not among them. The payload is one ping, and its nonce is the nonce
/// expected of every receiver. No event is reported.
pub proof fn law_ping_round_challenges_the_idle(
    state: HandlerView,
    next: HandlerView,
    round: Option<Broadcast>,
    now: Timestamp,
)
    requires
        state.ping_round(next, round, now),
    ensures
        next.sessions.dom() == state.sessions.dom(),
        next.events == state.events,
        forall|s: SessionId| #[trigger]
            state.is_idle(s) ==> next.is_awaiting_pong(s) && next.sessions[s].last_ping == now
                && next.sessions[s].peer_id == state.sessions[s].peer_id && round is Some
                && round.unwrap().sessions@.contains(s),
        forall|s: SessionId| #[trigger]
            state.is_awaiting_pong(s) ==> next.sessions[s] == state.sessions[s] && (round is Some
                ==> !round.unwrap().sessions@.contains(s)),
        round is Some ==> decode_spec(round.unwrap().data@) == (Message::Ping {
            nonce: now.low_seconds(),
        }),
        round is Some ==> forall|s: SessionId| #[trigger]
            round.unwrap().sessions@.contains(s) ==> next.sessions[s].nonce_spec()
                == now.low_seconds(),
        round is None <==> forall|s: SessionId| !#[trigger] state.is_idle(s),
{
    assert(next.sessions.dom() =~= state.sessions.dom());
    law_decode_inverts_encode(Message::Ping { nonce: now.low_seconds() });
    match round {
        Some(b) => {
            assert forall|s: SessionId| #[trigger] state.is_idle(s) implies b.sessions@.contains(
                s,
            ) by {
                assert(state.idle_sessions().contains(s));
                assert(b.sessions@.to_set().contains(s));
            }
            assert forall|s: SessionId| #[trigger]
                b.sessions@.contains(s) implies state.is_idle(s) by {
                assert(b.sessions@.to_set().contains(s));
                assert(state.idle_sessions().contains(s));
            }
            assert(state.is_idle(b.sessions@[0])) by {
                assert(b.sessions@.contains(b.sessions@[0]));
            }
        },
        None => {
            assert forall|s: SessionId| !#[trigger] state.is_idle(s) by {
                if state.is_idle(s) {
                    assert(state.idle_sessions().contains(s));
                }
            }
        },
    }
}

/// A look for timeouts reports a timeout for a session if and only if the
/// session waits for a pong and its last ping lies the timeout or more in
/// the past; none for an idle session. One event is reported per such
/// session, after the events that were there, and it names the session's
/// peer. No record changes.
pub proof fn law_timeout_iff_overdue(
    state: HandlerView,
    next: HandlerView,
    late: Seq<SessionId>,
    now: Timestamp,
)
    requires
        state.timeout_round(next, late, now),
    ensures
        next.sessions == state.sessions,
        next.events.len() == state.events.len() + late.len(),
        forall|i: int| 0 <= i < state.events.len() ==> #[trigger] next.events[i] == state.events[i],
        forall|i: int|
            0 <= i < late.len() ==> next.events[state.events.len() + i] == Event::Timeout(
                state.sessions[#[trigger] late[i]].peer_id,
            ),
        forall|s: SessionId| #[trigger]
            late.contains(s) <==> state.is_awaiting_pong(s) && now.span_since(
                state.sessions[s].last_ping,
            ).nanos >= state.timeout.nanos,
        forall|s: SessionId| #[trigger] state.is_idle(s) ==> !late.contains(s),
{
    assert forall|s: SessionId| #[trigger] late.contains(s) == state.timed_out(s, now) by {
        assert(late.to_set().contains(s) == late.contains(s));
        assert(state.timed_out_sessions(now).contains(s) == state.timed_out(s, now));
    }
}

/// A session that was found timed out is found again by the next look, as
/// long as it has not answered: the look itself changes nothing that the
/// next look goes by.
pub proof fn law_timeout_repeats(
    state: HandlerView,
    next: HandlerView,
    late: Seq<SessionId>,
    now: Timestamp,
    later: Timestamp,
)
    requires
        state.timeout_round(next, late, now),
        later.nanos >= now.nanos,
    ensures
        forall|s: SessionId| #[trigger] late.contains(s) ==> next.timed_out(s, later),
{
    assert forall|s: SessionId| #[trigger] late.contains(s) implies next.timed_out(s, later) by {
        assert(late.to_set().contains(s));
        assert(state.timed_out_sessions(now).contains(s));
    }
}

} // verus!
