//! The server side of a length-prefixed, phase-driven game protocol, without
//! sockets, threads or clocks.
//!
//! A connection runs through phases: handshake, then a status query or a
//! login, configuration, and play. Its session is a [`player::context::ClientContext`]:
//! bytes that arrive are handed in, taken apart into frames and packets and
//! shown to the registered hooks; packets to be sent are shown to the hooks,
//! framed and queued until they are taken out to be written. The step function
//! [`protocol::handler::handle_connection`] carries a session from handshake to
//! play, one packet at a time; in play,
//! [`play::action::handle_play_packet`] decides what each packet asks for and
//! who is to hear of it.
//!
//! - [`codec`], [`packet`], [`frame`]: the wire format, from single fields to
//!   whole frames, with and without compression.
//! - [`protocol`]: phases, stages and the packet id catalogue.
//! - [`event`], [`order`]: hooks and the order they run in.
//! - [`player`]: sessions and the operations that are legal in some phases only.
//! - [`context`]: settings, hooks and the directory of live sessions.
//! - [`play`], [`data`]: the packets of configuration and play and the values
//!   they carry.
//!
//! Every function states what it answers and what it changes; the statements
//! are proved, and nothing panics. What comes from other crates is named in
//! the few places where it is called: zlib in [`zlib`], stable sorting in
//! [`order`], the concurrent map in [`context`], name-based ids in [`play`].

pub mod buffer;
pub mod codec;
pub mod config;
pub mod context;
pub mod data;
pub mod error;
pub mod event;
pub mod frame;
pub mod order;
pub mod packet;
pub mod play;
pub mod player;
pub mod protocol;
pub mod zlib;
