//! Liveness checking for the sessions of a peer-to-peer service.
//!
//! Every connected peer is challenged with a ping at a fixed interval and has
//! to answer with a pong that carries the same nonce. The handler keeps one
//! record per session, decides what is sent and which events are reported,
//! and leaves the sending itself to the service it runs in.

pub mod event;
pub mod handler;
pub mod laws;
pub mod message;
pub mod protocol;
pub mod registry;
pub mod time;
