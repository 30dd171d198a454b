//! Connection phases: which phase follows which, and which packet ids a
//! client may send in each.

use crate::error::ServerError;
use crate::protocol::packet_id::clientbound;
use crate::protocol::packet_id::serverbound;
use vstd::prelude::*;

pub mod handler;
pub mod packet_id;

verus! {

/// The stage of a connection's lifecycle. Every packet id is read relative to
/// the phase; the payload is never inspected to tell packets apart.
#[derive(Debug, Clone, Copy, PartialEq, Eq, Structural)]
pub enum ConnectionState {
    /// Nothing received yet; the one handshake packet is awaited.
    Handshake,
    /// A status query: request and ping, then the connection ends.
    Status,
    /// A player is logging in.
    Login,
    /// Client and server exchange settings, registries and features.
    Configuration,
    /// The session proper.
    Play,
}

impl ConnectionState {
    /// Whether a connection in phase `self` may move to `next`. Phases only
    /// move forward, but for the step from play back to configuration.
    pub open spec fn may_enter(self, next: ConnectionState) -> bool {
        match (self, next) {
            (ConnectionState::Handshake, ConnectionState::Status) => true,
            (ConnectionState::Handshake, ConnectionState::Login) => true,
            (ConnectionState::Login, ConnectionState::Configuration) => true,
            (ConnectionState::Configuration, ConnectionState::Play) => true,
            (ConnectionState::Play, ConnectionState::Configuration) => true,
            _ => false,
        }
    }

    /// Tells whether a connection in this phase may move to `next`.
    pub fn can_enter(self, next: ConnectionState) -> (allowed: bool)
        ensures
            allowed == self.may_enter(next),
    {
        match (self, next) {
            (ConnectionState::Handshake, ConnectionState::Status) => true,
            (ConnectionState::Handshake, ConnectionState::Login) => true,
            (ConnectionState::Login, ConnectionState::Configuration) => true,
            (ConnectionState::Configuration, ConnectionState::Play) => true,
            (ConnectionState::Play, ConnectionState::Configuration) => true,
            _ => false,
        }
    }

    /// The phase that a handshake asks for: 1 is a status query, 2 a login.
    pub open spec fn requested(next_state: i32) -> Result<ConnectionState, ServerError> {
        if next_state == 1 {
            Ok(ConnectionState::Status)
        } else if next_state == 2 {
            Ok(ConnectionState::Login)
        } else {
            Err(ServerError::UnexpectedState)
        }
    }

    /// The phase that follows a handshake with the given next-state field.
    pub fn after_handshake(next_state: i32) -> (r: Result<ConnectionState, ServerError>)
        ensures
            r == Self::requested(next_state),
    {
        if next_state == 1 {
            Ok(ConnectionState::Status)
        } else if next_state == 2 {
            Ok(ConnectionState::Login)
        } else {
            Err(ServerError::UnexpectedState)
        }
    }

    /// Whether a client may send a packet with this id in this phase.
    pub open spec fn accepts(self, id: u8) -> bool {
        match self {
            ConnectionState::Handshake => id <= serverbound::handshake::LAST,
            ConnectionState::Status => id <= serverbound::status::LAST,
            ConnectionState::Login => id <= serverbound::login::LAST,
            ConnectionState::Configuration => id <= serverbound::configuration::LAST,
            ConnectionState::Play => id <= serverbound::play::LAST,
        }
    }

    /// Whether the server may send a packet with this id in this phase.
    pub open spec fn sends(self, id: u8) -> bool {
        match self {
            ConnectionState::Handshake => false,
            ConnectionState::Status => id <= clientbound::status::LAST,
            ConnectionState::Login => id <= clientbound::login::LAST,
            ConnectionState::Configuration => id <= clientbound::configuration::LAST,
            ConnectionState::Play => id <= clientbound::play::LAST,
        }
    }

    /// Tells whether a client may send a packet with this id in this phase.
    pub fn is_serverbound(self, id: u8) -> (listed: bool)
        ensures
            listed == self.accepts(id),
    {
        match self {
            ConnectionState::Handshake => id <= serverbound::handshake::LAST,
            ConnectionState::Status => id <= serverbound::status::LAST,
            ConnectionState::Login => id <= serverbound::login::LAST,
            ConnectionState::Configuration => id <= serverbound::configuration::LAST,
            ConnectionState::Play => id <= serverbound::play::LAST,
        }
    }

    /// Tells whether the server may send a packet with this id in this phase.
    pub fn is_clientbound(self, id: u8) -> (listed: bool)
        ensures
            listed == self.sends(id),
    {
        match self {
            ConnectionState::Handshake => false,
            ConnectionState::Status => id <= clientbound::status::LAST,
            ConnectionState::Login => id <= clientbound::login::LAST,
            ConnectionState::Configuration => id <= clientbound::configuration::LAST,
            ConnectionState::Play => id <= clientbound::play::LAST,
        }
    }

    /// Holds an incoming packet id against the phase: an id that the phase
    /// does not list is refused as unexpected, with the id.
    pub fn check_inbound(self, id: u8) -> (r: Result<(), ServerError>)
        ensures
            r == if self.accepts(id) {
                Ok::<(), ServerError>(())
            } else {
                Err::<(), ServerError>(ServerError::UnexpectedPacket(id))
            },
    {
        if self.is_serverbound(id) {
            Ok(())
        } else {
            Err(ServerError::UnexpectedPacket(id))
        }
    }
}

/// Whether `id` is among `ids`.
pub open spec fn listed(ids: Seq<u8>, id: u8) -> bool {
    ids.contains(id)
}

/// Tells whether `id` is among `ids`.
pub fn is_listed(ids: &[u8], id: u8) -> (found: bool)
    ensures
        found == listed(ids@, id),
{
    let mut i: usize = 0;
    while i < ids.len()
        invariant
            i <= ids@.len(),
            forall|k: int| 0 <= k < i ==> ids@[k] != id,
        decreases ids@.len() - i,
    {
        if ids[i] == id {
            return true;
        }
        i = i + 1;
    }
    false
}

} // verus!
