//! The liveness records of the connected sessions, one per session.

use crate::time::{Span, Timestamp};
use fnv::FnvHashMap;
use tentacle::secio::PeerId;
use vstd::prelude::*;

verus! {

/// The number under which the service knows a session.
pub type SessionId = usize;

/// `tentacle::secio::PeerId`, the identity of a peer. It is carried along
/// and copied, never looked into.
#[verifier::external_type_specification]
#[verifier::external_body]
pub struct ExPeerId(tentacle::secio::PeerId);

/// `fnv::FnvHasher`, the hasher of the map that holds the records. Only
/// the map's type names it.
#[verifier::external_type_specification]
#[verifier::external_body]
pub struct ExFnvHasher(fnv::FnvHasher);

/// `std::hash::BuildHasherDefault`, which makes the map's hashers. Only the
/// map's type names it.
#[verifier::external_type_specification]
#[verifier::external_body]
#[verifier::reject_recursive_types(H)]
pub struct ExBuildHasherDefault<H>(std::hash::BuildHasherDefault<H>);

/// `PeerId::clone`, which `PeerId` derives: the copy is the same identity.
pub assume_specification[ <PeerId as Clone>::clone ](id: &PeerId) -> (copy: PeerId)
    ensures
        copy == *id,
;

/// What is known of one session.
#[derive(Clone, Debug)]
pub struct PingStatus {
    /// Whether a ping is under way that the peer has not answered yet.
    pub processing: bool,
    /// When the last ping went out; for a session that was never pinged,
    /// when it connected.
    pub last_ping: Timestamp,
    /// Who is at the other end.
    pub peer_id: PeerId,
}

impl PingStatus {
    /// The nonce that goes with the ping sent at `last_ping`.
    pub open spec fn nonce_spec(self) -> u32 {
        self.last_ping.low_seconds()
    }

    /// The nonce that the peer's pong must carry.
    pub fn nonce(&self) -> (n: u32)
        ensures
            n == self.nonce_spec(),
    {
        self.last_ping.seconds_low_bits()
    }

    /// The time between the last ping and `now`.
    pub fn elapsed_at(&self, now: Timestamp) -> (s: Span)
        ensures
            s == now.span_since(self.last_ping),
    {
        now.since(&self.last_ping)
    }

    /// The time between the last ping and a reading of the clock.
    pub fn elapsed(&self) -> (s: Span)
        ensures
            exists|now: Timestamp| s == #[trigger] now.span_since(self.last_ping),
    {
        let now = Timestamp::now();
        self.elapsed_at(now)
    }
}

/// The records of all connected sessions. No session has two records.
pub struct SessionRegistry {
    records: FnvHashMap<SessionId, PingStatus>,
}

impl View for SessionRegistry {
    type V = Map<SessionId, PingStatus>;

    closed spec fn view(&self) -> Map<SessionId, PingStatus> {
        self.records@
    }
}

impl SessionRegistry {
    pub fn new() -> (r: SessionRegistry)
        ensures
            r@ == Map::<SessionId, PingStatus>::empty(),
    {
        SessionRegistry { records: FnvHashMap::default() }
    }

    pub fn contains(&self, session: SessionId) -> (r: bool)
        ensures
            r == self@.contains_key(session),
    {
        records_contain(&self.records, session)
    }

    pub fn get(&self, session: SessionId) -> (r: Option<&PingStatus>)
        ensures
            match r {
                Some(status) => self@.contains_key(session) && *status == self@[session],
                None => !self@.contains_key(session),
            },
    {
        record_of(&self.records, session)
    }

    /// Puts `status` in the place of whatever record `session` had.
    pub fn set(&mut self, session: SessionId, status: PingStatus)
        ensures
            final(self)@ == old(self)@.insert(session, status),
    {
        put_record(&mut self.records, session, status)
    }

    /// Gives `session` a fresh record, unless it has one: a session that is
    /// registered twice keeps its state. The result says whether a record
    /// was made.
    pub fn insert_if_absent(&mut self, session: SessionId, peer_id: PeerId, now: Timestamp) -> (made:
        bool)
        ensures
            made == !old(self)@.contains_key(session),
            made ==> final(self)@ == old(self)@.insert(
                session,
                PingStatus { processing: false, last_ping: now, peer_id },
            ),
            !made ==> final(self)@ == old(self)@,
    {
        if self.contains(session) {
            false
        } else {
            self.set(session, PingStatus { processing: false, last_ping: now, peer_id });
            true
        }
    }

    pub fn remove(&mut self, session: SessionId)
        ensures
            final(self)@ == old(self)@.remove(session),
    {
        drop_record(&mut self.records, session)
    }

    /// The sessions that have a record, each once, in no particular order.
    pub fn sessions(&self) -> (ids: Vec<SessionId>)
        ensures
            ids@.no_duplicates(),
            ids@.to_set() == self@.dom(),
    {
        record_keys(&self.records)
    }
}

/// `HashMap::contains_key`: whether the map has an entry for the key.
#[verifier::external_body]
fn records_contain(map: &FnvHashMap<SessionId, PingStatus>, session: SessionId) -> (r: bool)
    ensures
        r == map@.contains_key(session),
{
    map.contains_key(&session)
}

/// `HashMap::get`: the value stored for the key, if there is one.
#[verifier::external_body]
fn record_of(map: &FnvHashMap<SessionId, PingStatus>, session: SessionId) -> (r: Option<
    &PingStatus,
>)
    ensures
        r.is_some() == map@.contains_key(session),
        r.is_some() ==> *r.unwrap() == map@[session],
{
    map.get(&session)
}

/// `HashMap::insert`: afterwards the key has the given value and every other
/// key what it had.
#[verifier::external_body]
fn put_record(map: &mut FnvHashMap<SessionId, PingStatus>, session: SessionId, status: PingStatus)
    ensures
        final(map)@ == old(map)@.insert(session, status),
{
    map.insert(session, status);
}

/// `HashMap::remove`: afterwards the key has no entry and every other key
/// what it had.
#[verifier::external_body]
fn drop_record(map: &mut FnvHashMap<SessionId, PingStatus>, session: SessionId)
    ensures
        final(map)@ == old(map)@.remove(session),
{
    map.remove(&session);
}

/// `HashMap::keys`: every key of the map once. The order is the map's own
/// and nothing is claimed of it.
#[verifier::external_body]
fn record_keys(map: &FnvHashMap<SessionId, PingStatus>) -> (keys: Vec<SessionId>)
    ensures
        keys@.no_duplicates(),
        keys@.to_set() == map@.dom(),
{
    map.keys().copied().collect()
}

} // verus!
