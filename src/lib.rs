//! Client library for a snippet service: the session and login handshake,
//! and the pull-based streaming protocol that moves bytes over a channel topic.

pub mod client;
pub mod handshake;
pub mod listing;
pub mod streams;
pub mod wire;
