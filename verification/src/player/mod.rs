//! Everything that belongs to one connected client.

pub mod context;
pub mod helper;
