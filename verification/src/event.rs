//! What the handler reports and what it asks of the service.

use crate::registry::SessionId;
use crate::time::Span;
use tentacle::secio::PeerId;
use vstd::prelude::*;

verus! {

/// What the handler reports of a peer.
#[derive(Clone, Debug, PartialEq, Eq)]
pub enum Event {
    /// The peer sent a ping.
    Ping(PeerId),
    /// The peer answered a ping, this long after the ping went out.
    Pong(PeerId, Span),
    /// The peer has left a ping without an answer for too long.
    Timeout(PeerId),
    /// The peer sent what it should not have sent.
    UnexpectedError(PeerId),
}

/// Whether a new session may stay.
#[derive(Clone, Copy, Debug, PartialEq, Eq, Structural)]
pub enum Admission {
    /// The session stays open.
    Admitted,
    /// The peer could not be identified: the service has to close the session.
    Refused,
}

/// One payload for several sessions.
#[derive(Clone, Debug, PartialEq, Eq)]
pub struct Broadcast {
    /// The sessions to send to, each once.
    pub sessions: Vec<SessionId>,
    /// The bytes of one frame.
    pub data: Vec<u8>,
}

/// A notification that the service is to deliver again and again.
#[derive(Clone, Copy, Debug, PartialEq, Eq, Structural)]
pub struct Timer {
    /// The time between two deliveries.
    pub interval: Span,
    /// What the service hands to `notify` on each delivery.
    pub token: u64,
}

} // verus!
