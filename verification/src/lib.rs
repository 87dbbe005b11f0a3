//! Bridges two endpoints of a connection-oriented guest socket transport:
//! a pairing service resolves which peer an inbound connection must be
//! bridged to, and a forwarding engine relays bytes between the two
//! connected endpoints until one side closes or errors.
//!
//! The library holds the decision and relay logic; the surrounding binary
//! performs the socket operations and hands their outcomes in as plain
//! values.

pub mod config;
pub mod engine;
pub mod pairing;
pub mod relay;
