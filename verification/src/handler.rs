//! The handler: what happens when a session opens or closes, when a message
//! arrives, and when one of the two timers fires.

use crate::event::{Admission, Broadcast, Event, Timer};
use crate::message::{decode_spec, encode_spec, Message};
use crate::registry::{PingStatus, SessionId, SessionRegistry};
use crate::time::{Span, Timestamp};
use tentacle::secio::PeerId;
use vstd::prelude::*;

verus! {

/// The number under which the service knows a protocol.
pub type ProtocolId = usize;

/// The token of the timer on which pings are sent.
pub const SEND_PING_TOKEN: u64 = 0;

/// The token of the timer on which unanswered pings are looked for.
pub const CHECK_TIMEOUT_TOKEN: u64 = 1;

/// The record of a session after a round of pings at `now`: a session that
/// was waiting for a pong is left alone, any other is waiting from `now` on.
pub open spec fn pinged(status: PingStatus, now: Timestamp) -> PingStatus {
    if status.processing {
        status
    } else {
        PingStatus { processing: true, last_ping: now, peer_id: status.peer_id }
    }
}

/// The state of a handler.
#[verifier::ext_equal]
pub struct HandlerView {
    pub proto_id: ProtocolId,
    /// The time between two rounds of pings.
    pub interval: Span,
    /// How long a peer may take to answer.
    pub timeout: Span,
    /// The record of each connected session.
    pub sessions: Map<SessionId, PingStatus>,
    /// The events reported and not yet taken, oldest first.
    pub events: Seq<Event>,
}

impl HandlerView {
    /// The state with one more event reported.
    pub open spec fn emit(self, event: Event) -> HandlerView {
        HandlerView { events: self.events.push(event), ..self }
    }

    /// The session has a record and no ping under way.
    pub open spec fn is_idle(self, session: SessionId) -> bool {
        self.sessions.contains_key(session) && !self.sessions[session].processing
    }

    /// The session has a record and a ping under way.
    pub open spec fn is_awaiting_pong(self, session: SessionId) -> bool {
        self.sessions.contains_key(session) && self.sessions[session].processing
    }

    pub open spec fn idle_sessions(self) -> Set<SessionId> {
        Set::new(|s: SessionId| self.is_idle(s))
    }

    /// The session waits for a pong and has done so for the timeout or longer.
    pub open spec fn timed_out(self, session: SessionId, now: Timestamp) -> bool {
        self.is_awaiting_pong(session) && now.span_since(self.sessions[session].last_ping).at_least(
            self.timeout,
        )
    }

    pub open spec fn timed_out_sessions(self, now: Timestamp) -> Set<SessionId> {
        Set::new(|s: SessionId| self.timed_out(s, now))
    }

    /// A pong with this nonce from this session answers the ping under way.
    pub open spec fn accepts_pong(self, session: SessionId, nonce: u32) -> bool {
        self.is_awaiting_pong(session) && nonce == self.sessions[session].nonce_spec()
    }

    /// The state after a session opened. Without an identity nothing is
    /// recorded; a session that has a record keeps it.
    pub open spec fn after_connect(
        self,
        session: SessionId,
        peer: Option<PeerId>,
        now: Timestamp,
    ) -> HandlerView {
        match peer {
            Some(peer_id) => if self.sessions.contains_key(session) {
                self
            } else {
                HandlerView {
                    sessions: self.sessions.insert(
                        session,
                        PingStatus { processing: false, last_ping: now, peer_id },
                    ),
                    ..self
                }
            },
            None => self,
        }
    }

    /// The state after a session closed.
    pub open spec fn after_disconnect(self, session: SessionId) -> HandlerView {
        HandlerView { sessions: self.sessions.remove(session), ..self }
    }

    /// The state after `message` arrived on `session` at `now`.
    pub open spec fn after_receive(
        self,
        session: SessionId,
        message: Message,
        now: Timestamp,
    ) -> HandlerView {
        if !self.sessions.contains_key(session) {
            self
        } else {
            let status = self.sessions[session];
            match message {
                Message::Ping { nonce } => self.emit(Event::Ping(status.peer_id)),
                Message::Pong { nonce } => if self.accepts_pong(session, nonce) {
                    HandlerView {
                        sessions: self.sessions.insert(
                            session,
                            PingStatus { processing: false, ..status },
                        ),
                        ..self
                    }.emit(Event::Pong(status.peer_id, now.span_since(status.last_ping)))
                } else {
                    self.emit(Event::UnexpectedError(status.peer_id))
                },
                Message::Unknown => self.emit(Event::UnexpectedError(status.peer_id)),
            }
        }
    }

    /// The bytes to send back on `session` after `message` arrived on it.
    pub open spec fn reply_to(self, session: SessionId, message: Message) -> Option<Seq<u8>> {
        match message {
            Message::Ping { nonce } => if self.sessions.contains_key(session) {
                Some(encode_spec(Message::Pong { nonce }))
            } else {
                None
            },
            _ => None,
        }
    }

    /// The state after a round of pings at `now`.
    pub open spec fn after_send_ping(self, now: Timestamp) -> HandlerView {
        HandlerView {
            sessions: Map::new(
                |s: SessionId| self.sessions.contains_key(s),
                |s: SessionId| pinged(self.sessions[s], now),
            ),
            ..self
        }
    }

    /// The timeout events for the sessions of `late`, in that order.
    pub open spec fn timeout_events(self, late: Seq<SessionId>) -> Seq<Event> {
        Seq::new(late.len(), |i: int| Event::Timeout(self.sessions[late[i]].peer_id))
    }

    /// `next` and `round` are what a round of pings at `now` leaves: every
    /// idle session is now waiting for a pong, and `round` is one ping for
    /// exactly those sessions, with the nonce of `now`, or nothing if there
    /// was none.
    pub open spec fn ping_round(
        self,
        next: HandlerView,
        round: Option<Broadcast>,
        now: Timestamp,
    ) -> bool {
        &&& next == self.after_send_ping(now)
        &&& match round {
            Some(b) => {
                &&& b.sessions@.len() > 0
                &&& b.sessions@.no_duplicates()
                &&& b.sessions@.to_set() == self.idle_sessions()
                &&& b.data@ == encode_spec(Message::Ping { nonce: now.low_seconds() })
            },
            None => self.idle_sessions() == Set::<SessionId>::empty(),
        }
    }

    /// `next` is what a look for timeouts at `now` leaves, with `late` the
    /// order in which the sessions were found: no record changes, and one
    /// timeout event is reported for each session that has timed out.
    pub open spec fn timeout_round(
        self,
        next: HandlerView,
        late: Seq<SessionId>,
        now: Timestamp,
    ) -> bool {
        &&& late.no_duplicates()
        &&& late.to_set() == self.timed_out_sessions(now)
        &&& next == HandlerView { events: self.events + self.timeout_events(late), ..self }
    }

    /// `next` and `round` are what the timer with `token` leaves when it
    /// fires at `now`.
    pub open spec fn notified(
        self,
        next: HandlerView,
        token: u64,
        round: Option<Broadcast>,
        now: Timestamp,
    ) -> bool {
        &&& token == SEND_PING_TOKEN ==> self.ping_round(next, round, now)
        &&& token == CHECK_TIMEOUT_TOKEN ==> round is None && exists|late: Seq<SessionId>| #[trigger]
            self.timeout_round(next, late, now)
    }
}

/// Keeps the records of the connected sessions and the events that wait to
/// be taken.
pub struct PingHandler {
    proto_id: ProtocolId,
    interval: Span,
    timeout: Span,
    connected_session_ids: SessionRegistry,
    events: Vec<Event>,
}

impl View for PingHandler {
    type V = HandlerView;

    closed spec fn view(&self) -> HandlerView {
        HandlerView {
            proto_id: self.proto_id,
            interval: self.interval,
            timeout: self.timeout,
            sessions: self.connected_session_ids@,
            events: self.events@,
        }
    }
}

impl PingHandler {
    /// A handler without sessions and without events.
    pub fn new(proto_id: ProtocolId, interval: Span, timeout: Span) -> (handler: PingHandler)
        ensures
            handler@ == (HandlerView {
                proto_id,
                interval,
                timeout,
                sessions: Map::empty(),
                events: Seq::empty(),
            }),
    {
        PingHandler {
            proto_id,
            interval,
            timeout,
            connected_session_ids: SessionRegistry::new(),
            events: Vec::new(),
        }
    }

    /// Reports an event: it joins the events that wait to be taken.
    pub fn send_event(&mut self, event: Event)
        ensures
            final(self)@ == old(self)@.emit(event),
    {
        self.events.push(event);
    }

    /// Hands out the events reported since the last call, oldest first.
    pub fn take_events(&mut self) -> (events: Vec<Event>)
        ensures
            events@ == old(self)@.events,
            final(self)@ == (HandlerView { events: Seq::empty(), ..old(self)@ }),
    {
        let mut events: Vec<Event> = Vec::new();
        std::mem::swap(&mut self.events, &mut events);
        events
    }

    /// The two timers that the service has to set when it starts.
    pub fn init(&self) -> (timers: (Timer, Timer))
        ensures
            timers.0 == (Timer { interval: self@.interval, token: SEND_PING_TOKEN }),
            timers.1 == (Timer { interval: self@.timeout, token: CHECK_TIMEOUT_TOKEN }),
    {
        (
            Timer { interval: self.interval, token: SEND_PING_TOKEN },
            Timer { interval: self.timeout, token: CHECK_TIMEOUT_TOKEN },
        )
    }

    /// A session opened at `now`; `peer` is who the service found at the
    /// other end, if it could tell.
    pub fn connected_at(
        &mut self,
        session: SessionId,
        peer: Option<PeerId>,
        now: Timestamp,
    ) -> (admission: Admission)
        ensures
            final(self)@ == old(self)@.after_connect(session, peer, now),
            peer is None ==> admission == Admission::Refused && final(self)@ == old(self)@,
            peer is Some ==> admission == Admission::Admitted,
    {
        match peer {
            Some(peer_id) => {
                self.connected_session_ids.insert_if_absent(session, peer_id, now);
                Admission::Admitted
            },
            None => Admission::Refused,
        }
    }

    /// A session opened; the time is read from the clock.
    pub fn connected(&mut self, session: SessionId, peer: Option<PeerId>) -> (admission: Admission)
        ensures
            exists|now: Timestamp|
                final(self)@ == #[trigger] old(self)@.after_connect(session, peer, now),
            peer is None ==> admission == Admission::Refused && final(self)@ == old(self)@,
            peer is Some ==> admission == Admission::Admitted,
    {
        let now = Timestamp::now();
        self.connected_at(session, peer, now)
    }

    /// A session closed.
    pub fn disconnected(&mut self, session: SessionId)
        ensures
            final(self)@ == old(self)@.after_disconnect(session),
    {
        self.connected_session_ids.remove(session);
    }

    /// `message` arrived on `session` at `now`. The result is what has to be
    /// sent back on the same session, if anything.
    pub fn handle_message_at(
        &mut self,
        session: SessionId,
        message: Message,
        now: Timestamp,
    ) -> (reply: Option<Vec<u8>>)
        ensures
            final(self)@ == old(self)@.after_receive(session, message, now),
            match reply {
                Some(bytes) => old(self)@.reply_to(session, message) == Some(bytes@),
                None => old(self)@.reply_to(session, message) is None,
            },
    {
        let (peer_id, processing, expected, last_ping) = match self.connected_session_ids.get(
            session,
        ) {
            None => {
                return None;
            },
            Some(status) => (
                status.peer_id.clone(),
                status.processing,
                status.nonce(),
                status.last_ping,
            ),
        };
        match message {
            Message::Ping { nonce } => {
                let reply = Message::Pong { nonce }.encode();
                self.send_event(Event::Ping(peer_id));
                Some(reply)
            },
            Message::Pong { nonce } => {
                if processing && nonce == expected {
                    let round_trip = now.since(&last_ping);
                    self.connected_session_ids.set(
                        session,
                        PingStatus { processing: false, last_ping, peer_id: peer_id.clone() },
                    );
                    self.send_event(Event::Pong(peer_id, round_trip));
                } else {
                    self.send_event(Event::UnexpectedError(peer_id));
                }
                None
            },
            Message::Unknown => {
                self.send_event(Event::UnexpectedError(peer_id));
                None
            },
        }
    }

    /// The bytes of one frame arrived on `session` at `now`.
    pub fn received_at(
        &mut self,
        session: SessionId,
        data: &[u8],
        now: Timestamp,
    ) -> (reply: Option<Vec<u8>>)
        ensures
            final(self)@ == old(self)@.after_receive(session, decode_spec(data@), now),
            match reply {
                Some(bytes) => old(self)@.reply_to(session, decode_spec(data@)) == Some(bytes@),
                None => old(self)@.reply_to(session, decode_spec(data@)) is None,
            },
    {
        let message = Message::decode(data);
        self.handle_message_at(session, message, now)
    }

    /// The bytes of one frame arrived on `session`; the time is read from
    /// the clock.
    pub fn received(&mut self, session: SessionId, data: &[u8]) -> (reply: Option<Vec<u8>>)
        ensures
            exists|now: Timestamp|
                final(self)@ == #[trigger] old(self)@.after_receive(
                    session,
                    decode_spec(data@),
                    now,
                ),
            match reply {
                Some(bytes) => old(self)@.reply_to(session, decode_spec(data@)) == Some(bytes@),
                None => old(self)@.reply_to(session, decode_spec(data@)) is None,
            },
    {
        let now = Timestamp::now();
        self.received_at(session, data, now)
    }
}

impl PingHandler {
    /// Starts a round of pings at `now`: every session without a ping under
    /// way gets one. The result is the one payload to send and the sessions
    /// to send it to, or nothing if every session is still waiting.
    pub fn send_pings_at(&mut self, now: Timestamp) -> (round: Option<Broadcast>)
        ensures
            old(self)@.ping_round(final(self)@, round, now),
    {
        let ghost pre = self@;
        let ids = self.connected_session_ids.sessions();
        let mut selected: Vec<SessionId> = Vec::new();
        let ghost mut found: Seq<int> = Seq::empty();
        let mut i: usize = 0;
        while i < ids.len()
            invariant
                i <= ids.len(),
                ids@.no_duplicates(),
                ids@.to_set() == pre.sessions.dom(),
                self@.proto_id == pre.proto_id,
                self@.interval == pre.interval,
                self@.timeout == pre.timeout,
                self@.events == pre.events,
                self@.sessions.dom() == pre.sessions.dom(),
                forall|k: int|
                    0 <= k < i ==> self@.sessions[#[trigger] ids[k]] == pinged(
                        pre.sessions[ids[k]],
                        now,
                    ),
                forall|k: int|
                    i <= k < ids.len() ==> self@.sessions[#[trigger] ids[k]]
                        == pre.sessions[ids[k]],
                found.len() == selected.len(),
                forall|j: int|
                    0 <= j < selected.len() ==> 0 <= #[trigger] found[j] < i && selected[j]
                        == ids[found[j]],
                forall|j: int| 0 <= j < selected.len() ==> pre.is_idle(#[trigger] selected[j]),
                forall|k: int|
                    0 <= k < i && pre.is_idle(#[trigger] ids[k]) ==> selected@.contains(ids[k]),
                selected@.no_duplicates(),
            decreases ids.len() - i,
        {
            let session = ids[i];
            assert(ids@.contains(session));
            assert(ids@.to_set().contains(session));
            assert(pre.sessions.contains_key(session));
            let idle = match self.connected_session_ids.get(session) {
                Some(status) => if status.processing {
                    None
                } else {
                    Some(status.peer_id.clone())
                },
                None => None,
            };
            if let Some(peer_id) = idle {
                self.connected_session_ids.set(
                    session,
                    PingStatus { processing: true, last_ping: now, peer_id },
                );
                let ghost before = selected@;
                selected.push(session);
                proof {
                    found = found.push(i as int);
                    assert forall|k: int|
                        0 <= k < i && pre.is_idle(#[trigger] ids[k]) implies selected@.contains(
                        ids[k],
                    ) by {
                        let j = choose|j: int| 0 <= j < before.len() && before[j] == ids[k];
                        assert(selected@[j] == ids[k]);
                    }
                    assert(selected@[selected.len() - 1] == ids[i as int]);
                    assert forall|a: int, b: int|
                        0 <= a < selected.len() && 0 <= b < selected.len() && a
                            != b implies selected@[a] != selected@[b] by {
                        if a < before.len() && b < before.len() {
                            assert(before[a] != before[b]);
                        } else {
                            assert(selected@[a] == ids[found[a]] && selected@[b] == ids[found[b]]);
                        }
                    }
                }
            }
            i += 1;
        }
        proof {
            assert forall|s: SessionId| pre.sessions.contains_key(s) implies self@.sessions[s]
                == pinged(pre.sessions[s], now) by {
                assert(ids@.to_set().contains(s));
                let k = choose|k: int| 0 <= k < ids.len() && ids[k] == s;
                assert(self@.sessions[ids[k]] == pinged(pre.sessions[ids[k]], now));
            }
            assert(self@.sessions =~= pre.after_send_ping(now).sessions);
            assert(self@ =~= pre.after_send_ping(now));
            assert forall|s: SessionId| pre.is_idle(s) implies selected@.contains(s) by {
                assert(ids@.to_set().contains(s));
                let k = choose|k: int| 0 <= k < ids.len() && ids[k] == s;
                assert(selected@.contains(ids[k]));
            }
            assert(selected@.to_set() =~= pre.idle_sessions());
        }
        if selected.len() == 0 {
            proof {
                assert(pre.idle_sessions() =~= Set::<SessionId>::empty());
            }
            None
        } else {
            let data = (Message::Ping { nonce: now.seconds_low_bits() }).encode();
            Some(Broadcast { sessions: selected, data })
        }
    }

    /// Looks at `now` for sessions whose ping has gone unanswered for the
    /// timeout or longer and reports a timeout for each. The records stay as
    /// they are, so a session that stays silent is reported again at the
    /// next look. The result names the sessions in the order of their events.
    pub fn check_timeouts_at(&mut self, now: Timestamp) -> (late: Vec<SessionId>)
        ensures
            old(self)@.timeout_round(final(self)@, late@, now),
    {
        let ghost pre = self@;
        let ids = self.connected_session_ids.sessions();
        let mut late: Vec<SessionId> = Vec::new();
        let ghost mut found: Seq<int> = Seq::empty();
        let mut i: usize = 0;
        while i < ids.len()
            invariant
                i <= ids.len(),
                ids@.no_duplicates(),
                ids@.to_set() == pre.sessions.dom(),
                self@.proto_id == pre.proto_id,
                self@.interval == pre.interval,
                self@.timeout == pre.timeout,
                self@.sessions == pre.sessions,
                self@.events == pre.events + pre.timeout_events(late@),
                found.len() == late.len(),
                forall|j: int|
                    0 <= j < late.len() ==> 0 <= #[trigger] found[j] < i && late[j]
                        == ids[found[j]],
                forall|j: int| 0 <= j < late.len() ==> pre.timed_out(#[trigger] late[j], now),
                forall|k: int|
                    0 <= k < i && pre.timed_out(#[trigger] ids[k], now) ==> late@.contains(
                        ids[k],
                    ),
                late@.no_duplicates(),
            decreases ids.len() - i,
        {
            let session = ids[i];
            assert(ids@.contains(session));
            assert(ids@.to_set().contains(session));
            assert(pre.sessions.contains_key(session));
            let overdue = match self.connected_session_ids.get(session) {
                Some(status) => if status.processing && status.elapsed_at(now).is_at_least(
                    &self.timeout,
                ) {
                    Some(status.peer_id.clone())
                } else {
                    None
                },
                None => None,
            };
            if let Some(peer_id) = overdue {
                let ghost before = late@;
                late.push(session);
                self.send_event(Event::Timeout(peer_id));
                proof {
                    found = found.push(i as int);
                    assert forall|k: int|
                        0 <= k < i && pre.timed_out(#[trigger] ids[k], now) implies late@.contains(
                        ids[k],
                    ) by {
                        let j = choose|j: int| 0 <= j < before.len() && before[j] == ids[k];
                        assert(late@[j] == ids[k]);
                    }
                    assert(late@[late.len() - 1] == ids[i as int]);
                    assert forall|a: int, b: int|
                        0 <= a < late.len() && 0 <= b < late.len() && a != b implies late@[a]
                        != late@[b] by {
                        if a < before.len() && b < before.len() {
                            assert(before[a] != before[b]);
                        } else {
                            assert(late@[a] == ids[found[a]] && late@[b] == ids[found[b]]);
                        }
                    }
                    assert(self@.events =~= pre.events + pre.timeout_events(late@));
                }
            }
            i += 1;
        }
        proof {
            assert forall|s: SessionId| pre.timed_out(s, now) implies late@.contains(s) by {
                assert(ids@.to_set().contains(s));
                let k = choose|k: int| 0 <= k < ids.len() && ids[k] == s;
                assert(late@.contains(ids[k]));
            }
            assert(late@.to_set() =~= pre.timed_out_sessions(now));
            assert(self@ =~= (HandlerView {
                events: pre.events + pre.timeout_events(late@),
                ..pre
            }));
        }
        late
    }

    /// The timer with `token` fired at `now`.
    pub fn notify_at(&mut self, token: u64, now: Timestamp) -> (round: Option<Broadcast>)
        requires
            token == SEND_PING_TOKEN || token == CHECK_TIMEOUT_TOKEN,
        ensures
            old(self)@.notified(final(self)@, token, round, now),
    {
        if token == SEND_PING_TOKEN {
            self.send_pings_at(now)
        } else {
            let late = self.check_timeouts_at(now);
            assert(old(self)@.timeout_round(self@, late@, now));
            None
        }
    }

    /// The timer with `token` fired; the time is read from the clock.
    pub fn notify(&mut self, token: u64) -> (round: Option<Broadcast>)
        requires
            token == SEND_PING_TOKEN || token == CHECK_TIMEOUT_TOKEN,
        ensures
            exists|now: Timestamp| #[trigger] old(self)@.notified(final(self)@, token, round, now),
    {
        let now = Timestamp::now();
        self.notify_at(token, now)
    }
}

impl PingHandler {
    /// The number under which the protocol is registered with the service.
    pub fn proto_id(&self) -> (id: ProtocolId)
        ensures
            id == self@.proto_id,
    {
        self.proto_id
    }

    /// The time between two rounds of pings.
    pub fn interval(&self) -> (interval: Span)
        ensures
            interval == self@.interval,
    {
        self.interval
    }

    /// How long a peer may take to answer.
    pub fn timeout(&self) -> (timeout: Span)
        ensures
            timeout == self@.timeout,
    {
        self.timeout
    }

    /// The record of a session, if it has one.
    pub fn status_of(&self, session: SessionId) -> (status: Option<&PingStatus>)
        ensures
            match status {
                Some(s) => self@.sessions.contains_key(session) && *s == self@.sessions[session],
                None => !self@.sessions.contains_key(session),
            },
    {
        self.connected_session_ids.get(session)
    }

    /// The sessions that have a record, each once, in no particular order.
    pub fn sessions(&self) -> (ids: Vec<SessionId>)
        ensures
            ids@.no_duplicates(),
            ids@.to_set() == self@.sessions.dom(),
    {
        self.connected_session_ids.sessions()
    }

    /// How many events wait to be taken.
    pub fn pending_events(&self) -> (n: usize)
        ensures
            n == self@.events.len(),
    {
        self.events.len()
    }
}

} // verus!
