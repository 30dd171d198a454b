//! Operations on a session that are only legal in certain phases.
//!
//! A helper is made for a session and remembers the phase that the session was
//! in at that moment; each operation is held against that phase and refused
//! with `UnexpectedState` outside the phases in which its packet is legal.
//! Where an operation asks the client a question, one function sends the
//! question and says which packet answers it, and a second reads the answer.

use crate::codec::string_bytes;
use crate::codec::varint_bytes;
use crate::error::ProtocolFault;
use crate::error::ServerError;
use crate::event::PacketHandler;
use crate::packet::Packet;
use crate::packet::PacketView;
use crate::player::context::answers;
use crate::player::context::ClientContext;
use crate::player::context::ClientView;
use crate::protocol::packet_id::clientbound;
use crate::protocol::packet_id::serverbound;
use crate::protocol::ConnectionState;
use vstd::prelude::*;

verus! {

/// Phase-gated operations for one session.
#[derive(Debug, Clone, Copy)]
pub struct ProtocolHelper {
    state: ConnectionState,
}

/// A text component as it travels: as a JSON document during login, as tagged
/// binary data afterwards.
#[derive(Debug, Clone, PartialEq, Eq)]
pub struct EncodedText {
    /// The component as a JSON document.
    pub json: String,
    /// The component as tagged binary data.
    pub nbt: Vec<u8>,
}

/// A packet with nothing in its body.
pub open spec fn bare(id: u8) -> PacketView {
    PacketView { id, bytes: Seq::empty(), cursor: 0 }
}

/// The packet that tells a client why it is disconnected, in the phases that
/// have such a packet.
pub open spec fn disconnect_packet(state: ConnectionState, json: Seq<char>, nbt: Seq<u8>) -> Option<
    PacketView,
> {
    match state {
        ConnectionState::Login => Some(
            PacketView { id: clientbound::login::DISCONNECT, bytes: string_bytes(json), cursor: 0 },
        ),
        ConnectionState::Configuration => Some(
            PacketView { id: clientbound::configuration::DISCONNECT, bytes: nbt, cursor: 0 },
        ),
        ConnectionState::Play => Some(
            PacketView { id: clientbound::play::DISCONNECT, bytes: nbt, cursor: 0 },
        ),
        _ => None,
    }
}

/// The packet that asks a client for a cookie.
pub open spec fn cookie_request(id: Seq<char>) -> PacketView {
    PacketView {
        id: clientbound::configuration::COOKIE_REQUEST,
        bytes: string_bytes(id),
        cursor: 0,
    }
}

/// The packet that asks a client's plugin a question during login.
pub open spec fn login_plugin_request(id: i32, channel: Seq<char>, data: Seq<u8>) -> PacketView {
    PacketView {
        id: clientbound::login::PLUGIN_REQUEST,
        bytes: varint_bytes(id) + string_bytes(channel) + data,
        cursor: 0,
    }
}

/// The id of the plugin message packet in the phases that have one.
pub open spec fn plugin_message_id(state: ConnectionState) -> Option<u8> {
    match state {
        ConnectionState::Configuration => Some(clientbound::configuration::PLUGIN_MESSAGE),
        ConnectionState::Play => Some(clientbound::play::PLUGIN_MESSAGE),
        _ => None,
    }
}

/// The ids of ping and pong in the phases that have them.
pub open spec fn ping_ids(state: ConnectionState) -> Option<(u8, u8)> {
    match state {
        ConnectionState::Play => Some((clientbound::play::PING, serverbound::play::PONG)),
        ConnectionState::Configuration => Some(
            (clientbound::configuration::PING, serverbound::configuration::PONG),
        ),
        _ => None,
    }
}

/// What a cookie response holds: the cookie's content, if the client has it.
pub open spec fn cookie_response_of(packet: PacketView) -> Result<Option<Seq<u8>>, ServerError> {
    match packet.take_string() {
        Err(error) => Err(error),
        Ok((_, second)) => match second.take_unsigned(1) {
            Err(error) => Err(error),
            Ok((present, third)) => if present != 1 {
                Ok(None)
            } else {
                match third.take_varint() {
                    Err(error) => Err(error),
                    Ok((len, fourth)) => if len < 0 {
                        Err(ServerError::Protocol(ProtocolFault::VarInt))
                    } else if fourth.cursor + len > fourth.bytes.len() {
                        Err(ServerError::UnexpectedEof)
                    } else {
                        Ok(Some(fourth.bytes.subrange(fourth.cursor, fourth.cursor + len)))
                    },
                }
            },
        },
    }
}

/// What a login plugin response holds: the id of the question, and the
/// answer if the client understood the question.
pub open spec fn login_plugin_response_of(packet: PacketView) -> Result<
    (i32, Option<Seq<u8>>),
    ServerError,
> {
    match packet.take_varint() {
        Err(error) => Err(error),
        Ok((id, second)) => match second.take_unsigned(1) {
            Err(error) => Err(error),
            Ok((understood, third)) => if understood == 1 {
                Ok((id, Some(third.unread())))
            } else {
                Ok((id, None))
            },
        },
    }
}

/// What an operation that sends one packet in some phases makes of a session.
pub open spec fn gated<H: PacketHandler>(
    packet: Option<PacketView>,
    handlers: Seq<H>,
    client: ClientView,
) -> (ClientView, Result<(), ServerError>) {
    match packet {
        Some(packet) => client.written(handlers, packet),
        None => (client, Err(ServerError::UnexpectedState)),
    }
}

impl ProtocolHelper {
    /// The phase that the helper holds its operations against.
    pub closed spec fn phase(&self) -> ConnectionState {
        self.state
    }

    /// A helper for a session in the phase that the session is in now.
    pub fn new(client: &ClientContext) -> (helper: ProtocolHelper)
        ensures
            helper.phase() == client@.state,
    {
        ProtocolHelper { state: client.state() }
    }

    /// Tells the phase that the helper holds its operations against.
    pub fn state(&self) -> (state: ConnectionState)
        ensures
            state == self.phase(),
    {
        self.state
    }

    /// Starts to leave configuration for play: sends the packet that ends
    /// configuration. The client answers with its acknowledgement, which
    /// `complete_leave_configuration` takes.
    pub fn leave_configuration<H: PacketHandler>(&self, handlers: &Vec<H>, client: &mut ClientContext) -> (r:
        Result<(), ServerError>)
        ensures
            final(client)@ == gated(
                if self.phase() == ConnectionState::Configuration {
                    Some(bare(clientbound::configuration::FINISH))
                } else {
                    None
                },
                handlers@,
                old(client)@,
            ).0,
            answers(
                r,
                gated(
                    if self.phase() == ConnectionState::Configuration {
                        Some(bare(clientbound::configuration::FINISH))
                    } else {
                        None
                    },
                    handlers@,
                    old(client)@,
                ).1,
            ),
    {
        match self.state {
            ConnectionState::Configuration => {
                let packet: Packet = Packet::empty(clientbound::configuration::FINISH);
                client.write_packet(handlers, &packet)
            },
            _ => Err(ServerError::UnexpectedState),
        }
    }

    /// Takes the client's acknowledgement that configuration is finished and
    /// enters play. Any other packet is unexpected.
    pub fn complete_leave_configuration<H: PacketHandler>(
        &self,
        handlers: &Vec<H>,
        client: &mut ClientContext,
        reply: &Packet,
    ) -> (r: Result<(), ServerError>)
        ensures
            self.phase() != ConnectionState::Configuration ==> r == Err::<(), ServerError>(
                ServerError::UnexpectedState,
            ) && final(client)@ == old(client)@,
            self.phase() == ConnectionState::Configuration && reply@.id
                != serverbound::configuration::ACKNOWLEDGE_FINISH ==> r == Err::<(), ServerError>(
                ServerError::UnexpectedPacket(reply@.id),
            ) && final(client)@ == old(client)@,
            self.phase() == ConnectionState::Configuration && reply@.id
                == serverbound::configuration::ACKNOWLEDGE_FINISH ==> final(client)@ == old(client)@.entered(handlers@, ConnectionState::Play).0 && answers(
                r,
                old(client)@.entered(handlers@, ConnectionState::Play).1,
            ),
    {
        match self.state {
            ConnectionState::Configuration => {
                if reply.id() != serverbound::configuration::ACKNOWLEDGE_FINISH {
                    return Err(ServerError::UnexpectedPacket(reply.id()));
                }
                client.set_state(handlers, ConnectionState::Play)
            },
            _ => Err(ServerError::UnexpectedState),
        }
    }

    /// Starts to leave play for configuration: sends the packet that asks for
    /// it. The client answers with its acknowledgement, which
    /// `complete_enter_configuration` takes.
    pub fn enter_configuration<H: PacketHandler>(&self, handlers: &Vec<H>, client: &mut ClientContext) -> (r:
        Result<(), ServerError>)
        ensures
            final(client)@ == gated(
                if self.phase() == ConnectionState::Play {
                    Some(bare(clientbound::play::START_CONFIGURATION))
                } else {
                    None
                },
                handlers@,
                old(client)@,
            ).0,
            answers(
                r,
                gated(
                    if self.phase() == ConnectionState::Play {
                        Some(bare(clientbound::play::START_CONFIGURATION))
                    } else {
                        None
                    },
                    handlers@,
                    old(client)@,
                ).1,
            ),
    {
        match self.state {
            ConnectionState::Play => {
                let packet: Packet = Packet::empty(clientbound::play::START_CONFIGURATION);
                client.write_packet(handlers, &packet)
            },
            _ => Err(ServerError::UnexpectedState),
        }
    }

    /// Takes the client's acknowledgement that it returns to configuration
    /// and enters configuration. Any other packet is unexpected.
    pub fn complete_enter_configuration<H: PacketHandler>(
        &self,
        handlers: &Vec<H>,
        client: &mut ClientContext,
        reply: &Packet,
    ) -> (r: Result<(), ServerError>)
        ensures
            self.phase() != ConnectionState::Play ==> r == Err::<(), ServerError>(
                ServerError::UnexpectedState,
            ) && final(client)@ == old(client)@,
            self.phase() == ConnectionState::Play && reply@.id
                != serverbound::play::ACKNOWLEDGE_CONFIGURATION ==> r == Err::<(), ServerError>(
                ServerError::UnexpectedPacket(reply@.id),
            ) && final(client)@ == old(client)@,
            self.phase() == ConnectionState::Play && reply@.id
                == serverbound::play::ACKNOWLEDGE_CONFIGURATION ==> final(client)@ == old(client)@.entered(handlers@, ConnectionState::Configuration).0 && answers(
                r,
                old(client)@.entered(handlers@, ConnectionState::Configuration).1,
            ),
    {
        match self.state {
            ConnectionState::Play => {
                if reply.id() != serverbound::play::ACKNOWLEDGE_CONFIGURATION {
                    return Err(ServerError::UnexpectedPacket(reply.id()));
                }
                client.set_state(handlers, ConnectionState::Configuration)
            },
            _ => Err(ServerError::UnexpectedState),
        }
    }

    /// Sends a ping and answers with the id of the pong that the client will
    /// send back; the time between the two is the caller's to measure.
    pub fn ping<H: PacketHandler>(&self, handlers: &Vec<H>, client: &mut ClientContext) -> (r: Result<
        u8,
        ServerError,
    >)
        ensures
            match ping_ids(self.phase()) {
                None => r == Err::<u8, ServerError>(ServerError::UnexpectedState) && final(client)@
                    == old(client)@,
                Some((ping, pong)) => final(client)@ == old(client)@.written(
                    handlers@,
                    bare(ping),
                ).0 && match old(client)@.written(handlers@, bare(ping)).1 {
                    Ok(_) => r == Ok::<u8, ServerError>(pong),
                    Err(error) => r == Err::<u8, ServerError>(error),
                },
            },
    {
        let (ping, pong): (u8, u8) = match self.state {
            ConnectionState::Play => (clientbound::play::PING, serverbound::play::PONG),
            ConnectionState::Configuration => (
                clientbound::configuration::PING,
                serverbound::configuration::PONG,
            ),
            _ => { return Err(ServerError::UnexpectedState); },
        };
        let packet: Packet = Packet::empty(ping);
        match client.write_packet(handlers, &packet) {
            Ok(_) => Ok(pong),
            Err(error) => Err(error),
        }
    }

    /// Tells the client why it is disconnected, in the form that the phase
    /// asks for. A phase without such a packet refuses the call and nothing
    /// is written. A reason too long for a packet is refused.
    pub fn disconnect<H: PacketHandler>(
        &self,
        handlers: &Vec<H>,
        client: &mut ClientContext,
        reason: &EncodedText,
    ) -> (r: Result<(), ServerError>)
        ensures
            match disconnect_packet(self.phase(), reason.json@, reason.nbt@) {
                None => r == Err::<(), ServerError>(ServerError::UnexpectedState) && final(client)@
                    == old(client)@,
                Some(packet) => if self.phase() == ConnectionState::Login
                    && vstd::utf8::encode_utf8(reason.json@).len() > i32::MAX {
                    r == Err::<(), ServerError>(ServerError::Protocol(ProtocolFault::VarInt))
                        && final(client)@ == old(client)@
                } else {
                    final(client)@ == old(client)@.written(handlers@, packet).0 && answers(
                        r,
                        old(client)@.written(handlers@, packet).1,
                    )
                },
            },
    {
        let packet: Packet = match self.state {
            ConnectionState::Login => {
                let mut packet: Packet = Packet::empty(clientbound::login::DISCONNECT);
                match packet.write_string(reason.json.as_str()) {
                    Ok(_) => {},
                    Err(error) => { return Err(error); },
                }
                assert(packet@.bytes =~= string_bytes(reason.json@));
                packet
            },
            ConnectionState::Configuration => Packet::from_bytes(
                clientbound::configuration::DISCONNECT,
                reason.nbt.as_slice(),
            ),
            ConnectionState::Play => Packet::from_bytes(
                clientbound::play::DISCONNECT,
                reason.nbt.as_slice(),
            ),
            _ => { return Err(ServerError::UnexpectedState); },
        };
        client.write_packet(handlers, &packet)
    }

    /// Asks the client for a cookie. The client answers with a cookie
    /// response, which `read_cookie_response` reads.
    pub fn request_cookie<H: PacketHandler>(
        &self,
        handlers: &Vec<H>,
        client: &mut ClientContext,
        id: &str,
    ) -> (r: Result<(), ServerError>)
        ensures
            self.phase() != ConnectionState::Configuration ==> r == Err::<(), ServerError>(
                ServerError::UnexpectedState,
            ) && final(client)@ == old(client)@,
            self.phase() == ConnectionState::Configuration && vstd::utf8::encode_utf8(id@).len()
                > i32::MAX ==> r == Err::<(), ServerError>(
                ServerError::Protocol(ProtocolFault::VarInt),
            ) && final(client)@ == old(client)@,
            self.phase() == ConnectionState::Configuration && vstd::utf8::encode_utf8(id@).len()
                <= i32::MAX ==> final(client)@ == old(client)@.written(
                handlers@,
                cookie_request(id@),
            ).0 && answers(r, old(client)@.written(handlers@, cookie_request(id@)).1),
    {
        match self.state {
            ConnectionState::Configuration => {
                let mut packet: Packet = Packet::empty(clientbound::configuration::COOKIE_REQUEST);
                match packet.write_string(id) {
                    Ok(_) => {},
                    Err(error) => { return Err(error); },
                }
                assert(packet@.bytes =~= string_bytes(id@));
                client.write_packet(handlers, &packet)
            },
            _ => Err(ServerError::UnexpectedState),
        }
    }

    /// Reads a cookie response: the cookie's content, if the client has it.
    pub fn read_cookie_response(&self, reply: Packet) -> (r: Result<Option<Vec<u8>>, ServerError>)
        ensures
            self.phase() != ConnectionState::Configuration ==> (r matches Err(e) && e
                == ServerError::UnexpectedState),
            self.phase() == ConnectionState::Configuration && reply@.id
                != serverbound::configuration::COOKIE_RESPONSE ==> (r matches Err(e) && e
                == ServerError::UnexpectedPacket(reply@.id)),
            self.phase() == ConnectionState::Configuration && reply@.id
                == serverbound::configuration::COOKIE_RESPONSE ==> match cookie_response_of(
                reply@,
            ) {
                Ok(Some(content)) => r matches Ok(Some(bytes)) && bytes@ == content,
                Ok(None) => r matches Ok(None),
                Err(error) => r matches Err(e) && e == error,
            },
    {
        match self.state {
            ConnectionState::Configuration => {},
            _ => { return Err(ServerError::UnexpectedState); },
        }
        if reply.id() != serverbound::configuration::COOKIE_RESPONSE {
            return Err(ServerError::UnexpectedPacket(reply.id()));
        }
        let mut packet: Packet = reply;
        match packet.read_string() {
            Ok(_) => {},
            Err(error) => { return Err(error); },
        }
        let present: bool = match packet.read_boolean() {
            Ok(present) => present,
            Err(error) => { return Err(error); },
        };
        if !present {
            return Ok(None);
        }
        let size: usize = match packet.read_usize_varint() {
            Ok(size) => size,
            Err(error) => { return Err(error); },
        };
        match packet.read_bytes(size) {
            Ok(bytes) => Ok(Some(bytes)),
            Err(error) => Err(error),
        }
    }

    /// Asks the client's plugin a question during login. The client answers
    /// with a plugin response, which `read_login_plugin_response` reads.
    pub fn send_login_plugin_request<H: PacketHandler>(
        &self,
        handlers: &Vec<H>,
        client: &mut ClientContext,
        id: i32,
        channel: &str,
        data: &[u8],
    ) -> (r: Result<(), ServerError>)
        ensures
            self.phase() != ConnectionState::Login ==> r == Err::<(), ServerError>(
                ServerError::UnexpectedState,
            ) && final(client)@ == old(client)@,
            self.phase() == ConnectionState::Login && vstd::utf8::encode_utf8(channel@).len()
                > i32::MAX ==> r == Err::<(), ServerError>(
                ServerError::Protocol(ProtocolFault::VarInt),
            ) && final(client)@ == old(client)@,
            self.phase() == ConnectionState::Login && vstd::utf8::encode_utf8(channel@).len()
                <= i32::MAX ==> final(client)@ == old(client)@.written(
                handlers@,
                login_plugin_request(id, channel@, data@),
            ).0 && answers(
                r,
                old(client)@.written(handlers@, login_plugin_request(id, channel@, data@)).1,
            ),
    {
        match self.state {
            ConnectionState::Login => {
                let mut packet: Packet = Packet::empty(clientbound::login::PLUGIN_REQUEST);
                packet.write_varint(id);
                match packet.write_string(channel) {
                    Ok(_) => {},
                    Err(error) => { return Err(error); },
                }
                packet.write_bytes(data);
                assert(packet@.bytes =~= varint_bytes(id) + string_bytes(channel@) + data@);
                client.write_packet(handlers, &packet)
            },
            _ => Err(ServerError::UnexpectedState),
        }
    }

    /// Reads a login plugin response: the id of the question, and the answer
    /// if the client understood the question.
    pub fn read_login_plugin_response(&self, reply: Packet) -> (r: Result<
        (i32, Option<Vec<u8>>),
        ServerError,
    >)
        ensures
            self.phase() != ConnectionState::Login ==> (r matches Err(e) && e
                == ServerError::UnexpectedState),
            self.phase() == ConnectionState::Login && reply@.id
                != serverbound::login::PLUGIN_RESPONSE ==> (r matches Err(e) && e
                == ServerError::UnexpectedPacket(reply@.id)),
            self.phase() == ConnectionState::Login && reply@.id
                == serverbound::login::PLUGIN_RESPONSE ==> match login_plugin_response_of(reply@) {
                Ok((id, Some(answer))) => r matches Ok((question, Some(bytes))) && question == id
                    && bytes@ == answer,
                Ok((id, None)) => r matches Ok((question, None)) && question == id,
                Err(error) => r matches Err(e) && e == error,
            },
    {
        match self.state {
            ConnectionState::Login => {},
            _ => { return Err(ServerError::UnexpectedState); },
        }
        if reply.id() != serverbound::login::PLUGIN_RESPONSE {
            return Err(ServerError::UnexpectedPacket(reply.id()));
        }
        let mut packet: Packet = reply;
        let id: i32 = match packet.read_varint() {
            Ok(id) => id,
            Err(error) => { return Err(error); },
        };
        let understood: bool = match packet.read_boolean() {
            Ok(understood) => understood,
            Err(error) => { return Err(error); },
        };
        if understood {
            Ok((id, Some(packet.read_remaining())))
        } else {
            Ok((id, None))
        }
    }

    /// Sends a plugin message on a channel.
    pub fn send_plugin_message<H: PacketHandler>(
        &self,
        handlers: &Vec<H>,
        client: &mut ClientContext,
        channel: &str,
        data: &[u8],
    ) -> (r: Result<(), ServerError>)
        ensures
            match plugin_message_id(self.phase()) {
                None => r == Err::<(), ServerError>(ServerError::UnexpectedState) && final(client)@
                    == old(client)@,
                Some(id) => if vstd::utf8::encode_utf8(channel@).len() > i32::MAX {
                    r == Err::<(), ServerError>(ServerError::Protocol(ProtocolFault::VarInt))
                        && final(client)@ == old(client)@
                } else {
                    final(client)@ == old(client)@.written(
                        handlers@,
                        PacketView { id, bytes: string_bytes(channel@) + data@, cursor: 0 },
                    ).0 && answers(
                        r,
                        old(client)@.written(
                            handlers@,
                            PacketView { id, bytes: string_bytes(channel@) + data@, cursor: 0 },
                        ).1,
                    )
                },
            },
    {
        let mut packet: Packet = match self.state {
            ConnectionState::Configuration => Packet::empty(
                clientbound::configuration::PLUGIN_MESSAGE,
            ),
            ConnectionState::Play => Packet::empty(clientbound::play::PLUGIN_MESSAGE),
            _ => { return Err(ServerError::UnexpectedState); },
        };
        match packet.write_string(channel) {
            Ok(_) => {},
            Err(error) => { return Err(error); },
        }
        packet.write_bytes(data);
        assert(packet@.bytes =~= string_bytes(channel@) + data@);
        client.write_packet(handlers, &packet)
    }
}

impl ClientContext {
    /// A helper for the phase-gated operations on this session.
    pub fn protocol_helper(&self) -> (helper: ProtocolHelper)
        ensures
            helper.phase() == self@.state,
    {
        ProtocolHelper::new(self)
    }
}

} // verus!
