//! The decision logic of a small Raft-style replicated key/value cluster:
//! the operation log, the node and client state, and, for every message a
//! node or client can receive, the state change it makes and the messages
//! and timers it asks its runtime to send or arm.

pub mod log;
pub mod model;
pub mod effect;
pub mod election;
pub mod heartbeat;
mod random;
pub mod node;
pub mod ops;
pub mod bootstrap;
pub mod client;
pub mod laws;
pub mod behaviour;
