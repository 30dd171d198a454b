//! Ids of the packets that travel from client to server, by phase.

pub mod configuration;
pub mod handshake;
pub mod login;
pub mod play;
pub mod status;
