//! A minimal in-process relay: a host creates a session and receives its
//! identifier, clients join a session by that identifier, and parameter
//! updates sent into a session are fanned out verbatim to its members.
//!
//! The crate holds the verified core of such a server: the connection
//! registry that assigns identifiers to transport connections, the session
//! registry that creates and looks up sessions, and the message router that
//! dispatches one inbound envelope and produces the outbound envelopes with
//! their target connections. Transport, framing and wire encoding stay
//! outside; the router speaks in plain envelope values.

pub mod assoc;
pub mod laws;
pub mod messages;
pub mod registry;
pub mod router;
pub mod sessions;
