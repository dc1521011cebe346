//! Client side of the bridge protocol: wire messages, the transport session,
//! the heartbeat duties and the reconnect supervisor.

pub mod client;
pub mod clock;
pub mod config;
pub mod endpoint;
pub mod error;
pub mod json;
pub mod message;
pub mod reconnect;
pub mod session;
