//! The settings of the protocol, from which a handler is made.

use crate::handler::{HandlerView, PingHandler, ProtocolId};
use crate::time::Span;
use vstd::prelude::*;

verus! {

/// The settings of the ping protocol.
pub struct PingProtocol {
    id: ProtocolId,
    /// The time between two rounds of pings.
    interval: Span,
    /// How long a peer may take to answer before it counts as timed out.
    timeout: Span,
}

impl PingProtocol {
    pub closed spec fn spec_id(&self) -> ProtocolId {
        self.id
    }

    pub closed spec fn spec_interval(&self) -> Span {
        self.interval
    }

    pub closed spec fn spec_timeout(&self) -> Span {
        self.timeout
    }

    pub fn new(id: ProtocolId, interval: Span, timeout: Span) -> (protocol: PingProtocol)
        ensures
            protocol.spec_id() == id,
            protocol.spec_interval() == interval,
            protocol.spec_timeout() == timeout,
    {
        PingProtocol { id, interval, timeout }
    }

    /// The number under which the protocol is registered with the service.
    #[verifier::when_used_as_spec(spec_id)]
    pub fn id(&self) -> (id: ProtocolId)
        ensures
            id == self.spec_id(),
    {
        self.id
    }

    #[verifier::when_used_as_spec(spec_interval)]
    pub fn interval(&self) -> (interval: Span)
        ensures
            interval == self.spec_interval(),
    {
        self.interval
    }

    #[verifier::when_used_as_spec(spec_timeout)]
    pub fn timeout(&self) -> (timeout: Span)
        ensures
            timeout == self.spec_timeout(),
    {
        self.timeout
    }

    /// A handler with these settings, without sessions and without events.
    pub fn service_handle(&self) -> (handler: PingHandler)
        ensures
            handler@ == (HandlerView {
                proto_id: self.spec_id(),
                interval: self.spec_interval(),
                timeout: self.spec_timeout(),
                sessions: Map::empty(),
                events: Seq::empty(),
            }),
    {
        PingHandler::new(self.id, self.interval, self.timeout)
    }
}

} // verus!
