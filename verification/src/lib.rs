//! A realtime connection hub: the wire envelope, the table of live
//! connections, the bounded login handshake, and the relay that fans an
//! inbound frame out to every connection.

pub mod auth;
pub mod envelope;
pub mod json;
pub mod outbound;
pub mod registry;
pub mod relay;
pub mod session;
pub mod token;
