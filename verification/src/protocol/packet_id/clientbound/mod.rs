//! Ids of the packets that travel from server to client, by phase.

pub mod configuration;
pub mod login;
pub mod play;
pub mod status;
