//! The connection handler: what the server does with each packet from
//! handshake to play.
//!
//! The handler is a step function. It is given the session, the stage the
//! connection has reached and the packet that arrived, and answers with the
//! next stage; what it sends joins the session's write queue. Every stage
//! accepts the packets it waits for and nothing else: any other id is
//! unexpected, and like every failure it ends the connection.

use crate::codec::be_bytes;
use crate::codec::string_bytes;
use crate::codec::varint_bytes;
use crate::context::ServerContext;
use crate::error::ProtocolFault;
use crate::error::ServerError;
use crate::event;
use crate::event::packet_pipeline;
use crate::event::plugin_message_pipeline;
use crate::event::Direction;
use crate::event::status_pipeline;
use crate::event::Listener;
use crate::event::PacketHandler;
use crate::packet::Packet;
use crate::play::config;
use crate::play::config::configuration_closed;
use crate::play::config::configuration_opened;
use crate::play::config::ConfigurationData;
use crate::codec::utf8_lossy;
use crate::packet::PacketView;
use crate::player::context::answers;
use crate::player::context::ClientContext;
use crate::player::context::ClientInfo;
use crate::player::context::ClientInfoView;
use crate::player::context::ClientView;
use crate::player::context::Handshake;
use crate::player::context::HandshakeView;
use crate::player::context::PlayerInfo;
use crate::player::context::PlayerInfoView;
use crate::protocol::packet_id::clientbound;
use crate::protocol::packet_id::serverbound;
use crate::protocol::ConnectionState;
use vstd::prelude::*;

verus! {

/// What the handler waits for next.
#[derive(Debug, Clone, Copy, PartialEq, Eq, Structural)]
pub enum Stage {
    /// The handshake packet.
    Handshake,
    /// A status request or a ping.
    Status,
    /// The packet that starts a login.
    LoginStart,
    /// The client's acknowledgement of a successful login.
    LoginAcknowledged,
    /// Plugin messages, until one announces the client's brand.
    Brand,
    /// The client's settings.
    ClientInformation,
    /// The client's list of known packs.
    KnownPacks,
    /// The client's acknowledgement that configuration is finished.
    AcknowledgeFinish,
    /// Packets of the session proper.
    Play,
}

impl Stage {
    /// The phase that a connection at this stage is in.
    pub open spec fn phase(self) -> ConnectionState {
        match self {
            Stage::Handshake => ConnectionState::Handshake,
            Stage::Status => ConnectionState::Status,
            Stage::LoginStart => ConnectionState::Login,
            Stage::LoginAcknowledged => ConnectionState::Login,
            Stage::Brand => ConnectionState::Configuration,
            Stage::ClientInformation => ConnectionState::Configuration,
            Stage::KnownPacks => ConnectionState::Configuration,
            Stage::AcknowledgeFinish => ConnectionState::Configuration,
            Stage::Play => ConnectionState::Play,
        }
    }

    /// Whether a packet with this id is what this stage waits for.
    pub open spec fn awaits(self, id: u8) -> bool {
        match self {
            Stage::Handshake => id == serverbound::handshake::HANDSHAKE,
            Stage::Status => id == serverbound::status::REQUEST || id
                == serverbound::status::PING_REQUEST,
            Stage::LoginStart => id == serverbound::login::START,
            Stage::LoginAcknowledged => id == serverbound::login::ACKNOWLEDGED,
            Stage::Brand => id == serverbound::configuration::PLUGIN_MESSAGE,
            Stage::ClientInformation => id == serverbound::configuration::CLIENT_INFORMATION,
            Stage::KnownPacks => id == serverbound::configuration::KNOWN_PACKS,
            Stage::AcknowledgeFinish => id == serverbound::configuration::ACKNOWLEDGE_FINISH,
            Stage::Play => id <= serverbound::play::LAST,
        }
    }

    /// Tells the phase that a connection at this stage is in.
    pub fn state(self) -> (state: ConnectionState)
        ensures
            state == self.phase(),
    {
        match self {
            Stage::Handshake => ConnectionState::Handshake,
            Stage::Status => ConnectionState::Status,
            Stage::LoginStart => ConnectionState::Login,
            Stage::LoginAcknowledged => ConnectionState::Login,
            Stage::Brand => ConnectionState::Configuration,
            Stage::ClientInformation => ConnectionState::Configuration,
            Stage::KnownPacks => ConnectionState::Configuration,
            Stage::AcknowledgeFinish => ConnectionState::Configuration,
            Stage::Play => ConnectionState::Play,
        }
    }

    /// Tells whether a packet with this id is what this stage waits for.
    pub fn expects(self, id: u8) -> (expected: bool)
        ensures
            expected == self.awaits(id),
    {
        match self {
            Stage::Handshake => id == serverbound::handshake::HANDSHAKE,
            Stage::Status => id == serverbound::status::REQUEST || id
                == serverbound::status::PING_REQUEST,
            Stage::LoginStart => id == serverbound::login::START,
            Stage::LoginAcknowledged => id == serverbound::login::ACKNOWLEDGED,
            Stage::Brand => id == serverbound::configuration::PLUGIN_MESSAGE,
            Stage::ClientInformation => id == serverbound::configuration::CLIENT_INFORMATION,
            Stage::KnownPacks => id == serverbound::configuration::KNOWN_PACKS,
            Stage::AcknowledgeFinish => id == serverbound::configuration::ACKNOWLEDGE_FINISH,
            Stage::Play => id <= serverbound::play::LAST,
        }
    }
}

/// What a stage waits for, the phase of that stage lists.
pub proof fn lemma_awaited_is_listed(stage: Stage, id: u8)
    requires
        stage.awaits(id),
    ensures
        stage.phase().accepts(id),
{
}

/// What the handshake packet declares: the record, and the phase asked for.
pub open spec fn handshake_of(packet: PacketView) -> Result<(HandshakeView, i32), ServerError> {
    match packet.take_varint() {
        Err(error) => Err(error),
        Ok((protocol_version, second)) => match second.take_string() {
            Err(error) => Err(error),
            Ok((server_address, third)) => match third.take_unsigned(2) {
                Err(error) => Err(error),
                Ok((server_port, fourth)) => match fourth.take_varint() {
                    Err(error) => Err(error),
                    Ok((next_state, _)) => Ok(
                        (
                            HandshakeView {
                                protocol_version,
                                server_address,
                                server_port: server_port as u16,
                            },
                            next_state,
                        ),
                    ),
                },
            },
        },
    }
}

/// Reads the handshake packet.
pub fn read_handshake(packet: Packet) -> (r: Result<(Handshake, i32), ServerError>)
    ensures
        match handshake_of(packet@) {
            Ok((record, next_state)) => r matches Ok((handshake, next)) && handshake@ == record
                && next == next_state,
            Err(error) => r matches Err(e) && e == error,
        },
{
    let mut packet: Packet = packet;
    let protocol_version: i32 = match packet.read_varint() {
        Ok(value) => value,
        Err(error) => { return Err(error); },
    };
    let server_address: String = match packet.read_string() {
        Ok(value) => value,
        Err(error) => { return Err(error); },
    };
    let server_port: u16 = match packet.read_unsigned_short() {
        Ok(value) => value,
        Err(error) => { return Err(error); },
    };
    let next_state: i32 = match packet.read_varint() {
        Ok(value) => value,
        Err(error) => { return Err(error); },
    };
    Ok((Handshake { protocol_version, server_address, server_port }, next_state))
}

/// The identity that a login start packet declares.
pub open spec fn login_start_of(packet: PacketView) -> Result<PlayerInfoView, ServerError> {
    match packet.take_string() {
        Err(error) => Err(error),
        Ok((name, second)) => match second.take_unsigned(16) {
            Err(error) => Err(error),
            Ok((uuid, _)) => Ok(PlayerInfoView { name, uuid: uuid as u128 }),
        },
    }
}

/// Reads a login start packet.
pub fn read_login_start(packet: Packet) -> (r: Result<PlayerInfo, ServerError>)
    ensures
        match login_start_of(packet@) {
            Ok(identity) => r matches Ok(info) && info@ == identity && vstd::utf8::encode_utf8(
                identity.name,
            ).len() <= i32::MAX,
            Err(error) => r matches Err(e) && e == error,
        },
{
    let mut packet: Packet = packet;
    proof {
        if crate::codec::string_at(packet@.bytes, packet@.cursor) is Ok {
            crate::packet::lemma_read_text_fits(packet@.bytes, packet@.cursor);
        }
    }
    let name: String = match packet.read_string() {
        Ok(value) => value,
        Err(error) => { return Err(error); },
    };
    let uuid: u128 = match packet.read_uuid() {
        Ok(value) => value,
        Err(error) => { return Err(error); },
    };
    Ok(PlayerInfo { name, uuid })
}

/// The settings that a client information packet declares, for a client of
/// the given brand.
pub open spec fn client_information_of(packet: PacketView, brand: Seq<char>) -> Result<
    ClientInfoView,
    ServerError,
> {
    match packet.take_string() {
        Err(error) => Err(error),
        Ok((locale, second)) => match second.take_unsigned(1) {
            Err(error) => Err(error),
            Ok((view_distance, third)) => match third.take_varint() {
                Err(error) => Err(error),
                Ok((chat_mode, fourth)) => match fourth.take_unsigned(1) {
                    Err(error) => Err(error),
                    Ok((chat_colors, fifth)) => match fifth.take_unsigned(1) {
                        Err(error) => Err(error),
                        Ok((displayed_skin_parts, sixth)) => match sixth.take_varint() {
                            Err(error) => Err(error),
                            Ok((main_hand, seventh)) => match seventh.take_unsigned(1) {
                                Err(error) => Err(error),
                                Ok((enable_text_filtering, eighth)) => match eighth.take_unsigned(1) {
                                    Err(error) => Err(error),
                                    Ok((allow_server_listings, ninth)) => match ninth.take_varint() {
                                        Err(error) => Err(error),
                                        Ok((particle_status, _)) => Ok(
                                            ClientInfoView {
                                                brand,
                                                locale,
                                                view_distance: crate::codec::signed_value(
                                                    view_distance,
                                                    1,
                                                ) as i8,
                                                chat_mode,
                                                chat_colors: chat_colors == 1,
                                                displayed_skin_parts: displayed_skin_parts as u8,
                                                main_hand,
                                                enable_text_filtering: enable_text_filtering == 1,
                                                allow_server_listings: allow_server_listings == 1,
                                                particle_status,
                                            },
                                        ),
                                    },
                                },
                            },
                        },
                    },
                },
            },
        },
    }
}

/// Reads a client information packet.
pub fn read_client_information(packet: Packet, brand: String) -> (r: Result<
    ClientInfo,
    ServerError,
>)
    ensures
        match client_information_of(packet@, brand@) {
            Ok(settings) => r matches Ok(info) && info@ == settings,
            Err(error) => r matches Err(e) && e == error,
        },
{
    let mut packet: Packet = packet;
    let locale: String = match packet.read_string() {
        Ok(value) => value,
        Err(error) => { return Err(error); },
    };
    let view_distance: i8 = match packet.read_signed_byte() {
        Ok(value) => value,
        Err(error) => { return Err(error); },
    };
    let chat_mode: i32 = match packet.read_varint() {
        Ok(value) => value,
        Err(error) => { return Err(error); },
    };
    let chat_colors: bool = match packet.read_boolean() {
        Ok(value) => value,
        Err(error) => { return Err(error); },
    };
    let displayed_skin_parts: u8 = match packet.read_byte() {
        Ok(value) => value,
        Err(error) => { return Err(error); },
    };
    let main_hand: i32 = match packet.read_varint() {
        Ok(value) => value,
        Err(error) => { return Err(error); },
    };
    let enable_text_filtering: bool = match packet.read_boolean() {
        Ok(value) => value,
        Err(error) => { return Err(error); },
    };
    let allow_server_listings: bool = match packet.read_boolean() {
        Ok(value) => value,
        Err(error) => { return Err(error); },
    };
    let particle_status: i32 = match packet.read_varint() {
        Ok(value) => value,
        Err(error) => { return Err(error); },
    };
    Ok(
        ClientInfo {
            brand,
            locale,
            view_distance,
            chat_mode,
            chat_colors,
            displayed_skin_parts,
            main_hand,
            enable_text_filtering,
            allow_server_listings,
            particle_status,
        },
    )
}

/// The channel and the payload of a plugin message.
pub open spec fn plugin_message_of(packet: PacketView) -> Result<(Seq<char>, Seq<u8>), ServerError> {
    match packet.take_string() {
        Err(error) => Err(error),
        Ok((channel, rest)) => Ok((channel, rest.unread())),
    }
}

/// Reads a plugin message: its channel, and as payload all that follows.
pub fn read_plugin_message(packet: Packet) -> (r: Result<(String, Vec<u8>), ServerError>)
    ensures
        match plugin_message_of(packet@) {
            Ok((channel, payload)) => r matches Ok((name, data)) && name@ == channel && data@
                == payload,
            Err(error) => r matches Err(e) && e == error,
        },
{
    let mut packet: Packet = packet;
    let channel: String = match packet.read_string() {
        Ok(value) => value,
        Err(error) => { return Err(error); },
    };
    let data: Vec<u8> = packet.read_remaining();
    Ok((channel, data))
}


/// The document that answers a status query when no listener writes one.
pub const DEFAULT_STATUS: &'static str =
    "{\"version\": {\"name\": \"Error\", \"protocol\": 0}, \"description\": {\"text\": \"Internal server error\"}}";

/// The channel on which a client announces its brand.
pub const BRAND_CHANNEL: &'static str = "minecraft:brand";

/// The brand that the server announces.
pub const SERVER_BRAND: &'static str = "rust_minecraft_server";

/// The answer to a status request.
pub open spec fn status_response(document: Seq<char>) -> PacketView {
    PacketView { id: clientbound::status::RESPONSE, bytes: string_bytes(document), cursor: 0 }
}

/// The answer to a ping: the eight bytes of the ping.
pub open spec fn pong_response(payload: nat) -> PacketView {
    PacketView { id: clientbound::status::PONG_RESPONSE, bytes: be_bytes(payload, 8), cursor: 0 }
}

/// The announcement of the compression threshold.
pub open spec fn set_compression_packet(threshold: usize) -> PacketView {
    PacketView {
        id: clientbound::login::SET_COMPRESSION,
        bytes: varint_bytes(threshold as i32),
        cursor: 0,
    }
}

/// The confirmation of a login: unique id, name, and no properties.
pub open spec fn login_success(identity: PlayerInfoView) -> PacketView {
    PacketView {
        id: clientbound::login::SUCCESS,
        bytes: be_bytes(identity.uuid as nat, 16) + string_bytes(identity.name) + varint_bytes(0),
        cursor: 0,
    }
}

/// The plugin message that announces the server's brand.
pub open spec fn brand_packet() -> PacketView {
    PacketView {
        id: clientbound::configuration::PLUGIN_MESSAGE,
        bytes: string_bytes(BRAND_CHANNEL@) + string_bytes(SERVER_BRAND@),
        cursor: 0,
    }
}

/// Builds the answer to a status request. A document longer than a packet
/// can state is refused.
pub fn build_status_response(document: &str) -> (r: Result<Packet, ServerError>)
    ensures
        match r {
            Ok(packet) => vstd::utf8::encode_utf8(document@).len() <= i32::MAX && packet@
                == status_response(document@),
            Err(error) => vstd::utf8::encode_utf8(document@).len() > i32::MAX && error
                == ServerError::Protocol(ProtocolFault::VarInt),
        },
{
    let mut packet: Packet = Packet::empty(clientbound::status::RESPONSE);
    match packet.write_string(document) {
        Ok(_) => {
            assert(packet@.bytes =~= string_bytes(document@));
            Ok(packet)
        },
        Err(error) => Err(error),
    }
}

/// Builds the answer to a ping.
pub fn build_pong_response(payload: u64) -> (packet: Packet)
    ensures
        packet@ == pong_response(payload as nat),
{
    let mut packet: Packet = Packet::empty(clientbound::status::PONG_RESPONSE);
    packet.write_unsigned(payload as u128, 8);
    assert(packet@.bytes =~= be_bytes(payload as nat, 8));
    packet
}

/// Builds the announcement of the compression threshold. A threshold that
/// no variable-length integer holds is refused.
pub fn build_set_compression(threshold: usize) -> (r: Result<Packet, ServerError>)
    ensures
        match r {
            Ok(packet) => threshold <= i32::MAX && packet@ == set_compression_packet(threshold),
            Err(error) => threshold > i32::MAX && error == ServerError::Protocol(
                ProtocolFault::VarInt,
            ),
        },
{
    let mut packet: Packet = Packet::empty(clientbound::login::SET_COMPRESSION);
    match packet.write_usize_varint(threshold) {
        Ok(_) => {
            assert(packet@.bytes =~= varint_bytes(threshold as i32));
            Ok(packet)
        },
        Err(error) => Err(error),
    }
}

/// Builds the confirmation of a login. A name too long for a packet is
/// refused.
pub fn build_login_success(identity: &PlayerInfo) -> (r: Result<Packet, ServerError>)
    ensures
        match r {
            Ok(packet) => vstd::utf8::encode_utf8(identity@.name).len() <= i32::MAX && packet@
                == login_success(identity@),
            Err(error) => vstd::utf8::encode_utf8(identity@.name).len() > i32::MAX && error
                == ServerError::Protocol(ProtocolFault::VarInt),
        },
{
    let mut packet: Packet = Packet::empty(clientbound::login::SUCCESS);
    packet.write_uuid(identity.uuid);
    match packet.write_string(identity.name.as_str()) {
        Ok(_) => {},
        Err(error) => { return Err(error); },
    }
    packet.write_varint(0);
    assert(packet@.bytes =~= be_bytes(identity.uuid as nat, 16) + string_bytes(identity@.name)
        + varint_bytes(0));
    Ok(packet)
}

/// Builds the plugin message that announces the server's brand.
pub fn build_brand_packet() -> (packet: Packet)
    ensures
        packet@ == brand_packet(),
{
    let mut packet: Packet = Packet::empty(clientbound::configuration::PLUGIN_MESSAGE);
    proof {
        reveal_strlit("minecraft:brand");
        reveal_strlit("rust_minecraft_server");
        crate::packet::lemma_utf8_len_bound(BRAND_CHANNEL@);
        crate::packet::lemma_utf8_len_bound(SERVER_BRAND@);
    }
    packet.write_text(BRAND_CHANNEL);
    packet.write_text(SERVER_BRAND);
    assert(packet@.bytes =~= string_bytes(BRAND_CHANNEL@) + string_bytes(SERVER_BRAND@));
    packet
}

/// Turns the outcome of a step's last action into the outcome of the step.
pub open spec fn staged(outcome: (ClientView, Result<(), ServerError>), stage: Stage) -> (
    ClientView,
    Result<Stage, ServerError>,
) {
    match outcome.1 {
        Ok(_) => (outcome.0, Ok(stage)),
        Err(error) => (outcome.0, Err(error)),
    }
}

/// What the handshake packet makes of a session: the record is kept, and the
/// connection enters the phase that the handshake asks for.
pub open spec fn after_handshake<H: PacketHandler>(
    handlers: Seq<H>,
    client: ClientView,
    packet: PacketView,
) -> (ClientView, Result<Stage, ServerError>) {
    match handshake_of(packet) {
        Err(error) => (client, Err(error)),
        Ok((record, next_state)) => {
            let recorded = ClientView { handshake: Some(record), ..client };
            match ConnectionState::requested(next_state) {
                Err(error) => (recorded, Err(error)),
                Ok(state) => staged(
                    recorded.entered(handlers, state),
                    if state == ConnectionState::Status {
                        Stage::Status
                    } else {
                        Stage::LoginStart
                    },
                ),
            }
        },
    }
}

fn on_handshake<H: PacketHandler>(handlers: &Vec<H>, client: &mut ClientContext, packet: Packet) -> (r:
    Result<Stage, ServerError>)
    ensures
        final(client)@ == after_handshake(handlers@, old(client)@, packet@).0,
        r == after_handshake(handlers@, old(client)@, packet@).1,
{
    let (handshake, next_state): (Handshake, i32) = match read_handshake(packet) {
        Ok(pair) => pair,
        Err(error) => { return Err(error); },
    };
    client.set_handshake(handshake);
    let state: ConnectionState = match ConnectionState::after_handshake(next_state) {
        Ok(state) => state,
        Err(error) => { return Err(error); },
    };
    match client.set_state(handlers, state) {
        Err(error) => Err(error),
        Ok(_) => match state {
            ConnectionState::Status => Ok(Stage::Status),
            _ => Ok(Stage::LoginStart),
        },
    }
}

/// What a packet of a status query makes of a session. A request is answered
/// with the status document, which every listener may rewrite in turn; a ping
/// is answered with its own payload.
pub open spec fn after_status<L: Listener, H: PacketHandler>(
    listeners: Seq<L>,
    handlers: Seq<H>,
    client: ClientView,
    packet: PacketView,
) -> (ClientView, Result<Stage, ServerError>) {
    if packet.id == serverbound::status::REQUEST {
        let outcome = status_pipeline(listeners, client, DEFAULT_STATUS@);
        match outcome.result {
            Err(error) => (client, Err(error)),
            Ok(_) => if vstd::utf8::encode_utf8(outcome.response).len() > i32::MAX {
                (client, Err(ServerError::Protocol(ProtocolFault::VarInt)))
            } else {
                staged(client.written(handlers, status_response(outcome.response)), Stage::Status)
            },
        }
    } else {
        match packet.take_unsigned(8) {
            Err(error) => (client, Err(error)),
            Ok((payload, _)) => staged(
                client.written(handlers, pong_response(payload)),
                Stage::Status,
            ),
        }
    }
}

fn on_status<L: Listener, H: PacketHandler>(
    listeners: &Vec<L>,
    handlers: &Vec<H>,
    client: &mut ClientContext,
    packet: Packet,
) -> (r: Result<Stage, ServerError>)
    ensures
        final(client)@ == after_status(listeners@, handlers@, old(client)@, packet@).0,
        r == after_status(listeners@, handlers@, old(client)@, packet@).1,
{
    let mut packet: Packet = packet;
    if packet.id() == serverbound::status::REQUEST {
        let mut document: String = DEFAULT_STATUS.to_owned();
        match event::trigger_status(listeners, &*client, &mut document) {
            Err(error) => { return Err(error); },
            Ok(_) => {},
        }
        let response: Packet = match build_status_response(document.as_str()) {
            Ok(response) => response,
            Err(error) => { return Err(error); },
        };
        match client.write_packet(handlers, &response) {
            Err(error) => Err(error),
            Ok(_) => Ok(Stage::Status),
        }
    } else {
        proof {
            crate::codec::lemma_pow256_values();
        }
        let payload: u128 = match packet.read_unsigned(8) {
            Ok(payload) => payload,
            Err(error) => { return Err(error); },
        };
        let response: Packet = build_pong_response(payload as u64);
        match client.write_packet(handlers, &response) {
            Err(error) => Err(error),
            Ok(_) => Ok(Stage::Status),
        }
    }
}

/// What the announcement of compression makes of a session: with a
/// threshold configured, it is announced, in a frame still uncompressed, and
/// from then on in force.
pub open spec fn compression_announced<H: PacketHandler>(
    handlers: Seq<H>,
    client: ClientView,
    threshold: Option<usize>,
) -> (ClientView, Result<(), ServerError>) {
    match threshold {
        None => (client, Ok(())),
        Some(threshold) => if threshold > i32::MAX {
            (client, Err(ServerError::Protocol(ProtocolFault::VarInt)))
        } else {
            let (sent, r) = client.written(handlers, set_compression_packet(threshold));
            match r {
                Err(error) => (sent, Err(error)),
                Ok(_) => (ClientView { compression: Some(threshold), ..sent }, Ok(())),
            }
        },
    }
}

/// What a login start packet makes of a session: the identity is kept,
/// compression is announced if configured, and the login is confirmed.
pub open spec fn after_login_start<H: PacketHandler>(
    handlers: Seq<H>,
    threshold: Option<usize>,
    client: ClientView,
    packet: PacketView,
) -> (ClientView, Result<Stage, ServerError>) {
    match login_start_of(packet) {
        Err(error) => (client, Err(error)),
        Ok(identity) => {
            let known = ClientView { player_info: Some(identity), ..client };
            let (announced, r) = compression_announced(handlers, known, threshold);
            match r {
                Err(error) => (announced, Err(error)),
                Ok(_) => staged(
                    announced.written(handlers, login_success(identity)),
                    Stage::LoginAcknowledged,
                ),
            }
        },
    }
}

fn announce_compression<H: PacketHandler>(
    handlers: &Vec<H>,
    client: &mut ClientContext,
    threshold: Option<usize>,
) -> (r: Result<(), ServerError>)
    ensures
        final(client)@ == compression_announced(handlers@, old(client)@, threshold).0,
        answers(r, compression_announced(handlers@, old(client)@, threshold).1),
{
    match threshold {
        None => Ok(()),
        Some(threshold) => {
            let packet: Packet = match build_set_compression(threshold) {
                Ok(packet) => packet,
                Err(error) => { return Err(error); },
            };
            match client.write_packet(handlers, &packet) {
                Err(error) => Err(error),
                Ok(_) => {
                    client.set_compression(Some(threshold));
                    Ok(())
                },
            }
        },
    }
}

fn on_login_start<L: Listener, H: PacketHandler>(
    server: &mut ServerContext<L, H>,
    client: &mut ClientContext,
    packet: Packet,
) -> (r: Result<Stage, ServerError>)
    ensures
        final(client)@ == after_login_start(
            old(server).handler_seq(),
            old(server).settings().server.compression_threshold,
            old(client)@,
            packet@,
        ).0,
        r == after_login_start(
            old(server).handler_seq(),
            old(server).settings().server.compression_threshold,
            old(client)@,
            packet@,
        ).1,
        final(server).same_setup(old(server)),
        final(server).identities() == match login_start_of(packet@) {
            Ok(identity) => old(server).identities().insert(old(client)@.addr, Some(identity)),
            Err(_) => old(server).identities(),
        },
{
    let identity: PlayerInfo = match read_login_start(packet) {
        Ok(identity) => identity,
        Err(error) => { return Err(error); },
    };
    let confirmation: Packet = match build_login_success(&identity) {
        Ok(packet) => packet,
        Err(error) => { return Err(error); },
    };
    client.set_player_info(identity);
    server.update(&*client);
    let threshold: Option<usize> = server.config().server.compression_threshold;
    match announce_compression(server.handlers(), client, threshold) {
        Err(error) => { return Err(error); },
        Ok(_) => {},
    }
    match client.write_packet(server.handlers(), &confirmation) {
        Err(error) => Err(error),
        Ok(_) => Ok(Stage::LoginAcknowledged),
    }
}


/// What a plugin message during configuration makes of a session: on the
/// brand channel it announces the client's brand, which is kept; on any other
/// channel every listener hears of it, and the brand is still awaited.
pub open spec fn after_brand<L: Listener>(
    listeners: Seq<L>,
    client: ClientView,
    packet: PacketView,
) -> (ClientView, Result<Stage, ServerError>) {
    match plugin_message_of(packet) {
        Err(error) => (client, Err(error)),
        Ok((channel, data)) => if channel == BRAND_CHANNEL@ {
            (ClientView { brand: Some(utf8_lossy(data)), ..client }, Ok(Stage::ClientInformation))
        } else {
            staged((client, plugin_message_pipeline(listeners, client, channel, data)), Stage::Brand)
        },
    }
}

fn on_brand<L: Listener>(listeners: &Vec<L>, client: &mut ClientContext, packet: Packet) -> (r: Result<
    Stage,
    ServerError,
>)
    ensures
        final(client)@ == after_brand(listeners@, old(client)@, packet@).0,
        r == after_brand(listeners@, old(client)@, packet@).1,
{
    let (channel, data): (String, Vec<u8>) = match read_plugin_message(packet) {
        Ok(pair) => pair,
        Err(error) => { return Err(error); },
    };
    let brand_channel: String = BRAND_CHANNEL.to_owned();
    if channel == brand_channel {
        let brand: String = crate::codec::read_lossy(data.as_slice());
        client.set_brand(brand);
        Ok(Stage::ClientInformation)
    } else {
        match event::trigger_plugin_message(
            listeners,
            &*client,
            channel.as_str(),
            data.as_slice(),
        ) {
            Err(error) => Err(error),
            Ok(_) => Ok(Stage::Brand),
        }
    }
}

/// The brand that a session holds, empty if it holds none.
pub open spec fn brand_of(client: ClientView) -> Seq<char> {
    match client.brand {
        Some(brand) => brand,
        None => Seq::empty(),
    }
}

/// What the client's settings make of a session: they are kept, with the
/// brand announced before; the server announces its own brand, the feature
/// flags and the packs it knows.
pub open spec fn after_client_information<H: PacketHandler>(
    handlers: Seq<H>,
    client: ClientView,
    packet: PacketView,
) -> (ClientView, Result<Stage, ServerError>) {
    match client_information_of(packet, brand_of(client)) {
        Err(error) => (client, Err(error)),
        Ok(settings) => {
            let known = ClientView { client_info: Some(settings), ..client };
            let (sent, r) = known.written(handlers, brand_packet());
            match r {
                Err(error) => (sent, Err(error)),
                Ok(_) => staged(configuration_opened(handlers, sent), Stage::KnownPacks),
            }
        },
    }
}

fn on_client_information<H: PacketHandler>(
    handlers: &Vec<H>,
    client: &mut ClientContext,
    packet: Packet,
) -> (r: Result<Stage, ServerError>)
    ensures
        final(client)@ == after_client_information(handlers@, old(client)@, packet@).0,
        r == after_client_information(handlers@, old(client)@, packet@).1,
{
    let brand: String = match client.brand() {
        Some(brand) => brand,
        None => String::new(),
    };
    let settings: ClientInfo = match read_client_information(packet, brand) {
        Ok(settings) => settings,
        Err(error) => { return Err(error); },
    };
    client.set_client_info(settings);
    let announcement: Packet = build_brand_packet();
    match client.write_packet(handlers, &announcement) {
        Err(error) => { return Err(error); },
        Ok(_) => {},
    }
    match config::handle_configuration_state(handlers, client) {
        Err(error) => Err(error),
        Ok(_) => Ok(Stage::KnownPacks),
    }
}

/// What one packet makes of a session at a stage, before failures are made
/// fatal. A packet that the stage does not wait for is unexpected.
pub open spec fn stepped<L: Listener, H: PacketHandler>(
    listeners: Seq<L>,
    handlers: Seq<H>,
    threshold: Option<usize>,
    data: ConfigurationData,
    client: ClientView,
    stage: Stage,
    packet: PacketView,
) -> (ClientView, Result<Stage, ServerError>) {
    if !stage.awaits(packet.id) {
        (client, Err(ServerError::UnexpectedPacket(packet.id)))
    } else {
        match stage {
            Stage::Handshake => after_handshake(handlers, client, packet),
            Stage::Status => after_status(listeners, handlers, client, packet),
            Stage::LoginStart => after_login_start(handlers, threshold, client, packet),
            Stage::LoginAcknowledged => staged(
                client.entered(handlers, ConnectionState::Configuration),
                Stage::Brand,
            ),
            Stage::Brand => after_brand(listeners, client, packet),
            Stage::ClientInformation => after_client_information(handlers, client, packet),
            Stage::KnownPacks => staged(
                configuration_closed(handlers, client, data.registry@, data.tags@),
                Stage::AcknowledgeFinish,
            ),
            Stage::AcknowledgeFinish => staged(
                client.entered(handlers, ConnectionState::Play),
                Stage::Play,
            ),
            Stage::Play => (
                ClientView { buffer: client.buffer.push(packet.rewound()), ..client },
                Ok(Stage::Play),
            ),
        }
    }
}

/// What one packet makes of a session at a stage: the step, and after any
/// failure a dead connection.
pub open spec fn handled<L: Listener, H: PacketHandler>(
    listeners: Seq<L>,
    handlers: Seq<H>,
    threshold: Option<usize>,
    data: ConfigurationData,
    client: ClientView,
    stage: Stage,
    packet: PacketView,
) -> (ClientView, Result<Stage, ServerError>) {
    let (after, r) = stepped(listeners, handlers, threshold, data, client, stage, packet);
    match r {
        Ok(next) => (after, Ok(next)),
        Err(error) => (after.dead(), Err(error)),
    }
}

/// A packet that a stage does not wait for ends the connection, whatever its
/// id means in another phase: the session is as it was, but dead, and the
/// error names the id.
pub proof fn lemma_unexpected_packet_is_fatal<L: Listener, H: PacketHandler>(
    listeners: Seq<L>,
    handlers: Seq<H>,
    threshold: Option<usize>,
    data: ConfigurationData,
    client: ClientView,
    stage: Stage,
    packet: PacketView,
)
    requires
        !stage.awaits(packet.id),
    ensures
        handled(listeners, handlers, threshold, data, client, stage, packet) == (
            client.dead(),
            Err::<Stage, ServerError>(ServerError::UnexpectedPacket(packet.id)),
        ),
{
}

/// During a status query, only request and ping are awaited: every other id
/// that play lists is unexpected there.
pub proof fn lemma_status_refuses_play_ids(id: u8)
    requires
        ConnectionState::Play.accepts(id),
        !ConnectionState::Status.accepts(id),
    ensures
        !Stage::Status.awaits(id),
{
}

/// The handler keeps stage and phase in step: a session that is in the phase
/// of its stage before a packet is, after the packet was handled without
/// failure, in the phase of the stage that the handler answers.
pub proof fn lemma_stage_tracks_phase<L: Listener, H: PacketHandler>(
    listeners: Seq<L>,
    handlers: Seq<H>,
    threshold: Option<usize>,
    data: ConfigurationData,
    client: ClientView,
    stage: Stage,
    packet: PacketView,
)
    requires
        client.state == stage.phase(),
        handled(listeners, handlers, threshold, data, client, stage, packet).1 is Ok,
    ensures
        handled(listeners, handlers, threshold, data, client, stage, packet).0.state == handled(
            listeners,
            handlers,
            threshold,
            data,
            client,
            stage,
            packet,
        ).1->Ok_0.phase(),
        handled(listeners, handlers, threshold, data, client, stage, packet).0.alive
            == client.alive,
{
    if stage == Stage::KnownPacks {
        config::lemma_registry_sent_keeps_session(handlers, client, data.registry@);
    }
}

/// A login with a compression threshold switches the framing between its two
/// packets: the announcement of the threshold, unless a hook vetoes it, is
/// queued to travel as the session did before, the confirmation with the
/// threshold, which is in force from then on.
pub proof fn lemma_login_switches_compression<H: PacketHandler>(
    handlers: Seq<H>,
    threshold: usize,
    client: ClientView,
    packet: PacketView,
)
    requires
        after_login_start(handlers, Some(threshold), client, packet).1 is Ok,
    ensures
        ({
            let identity = login_start_of(packet)->Ok_0;
            let known = ClientView { player_info: Some(identity), ..client };
            let announcement = packet_pipeline(
                handlers,
                Direction::Outcoming,
                known,
                known.state,
                set_compression_packet(threshold),
            );
            let announced = compression_announced(handlers, known, Some(threshold)).0;
            let confirmation = packet_pipeline(
                handlers,
                Direction::Outcoming,
                announced,
                announced.state,
                login_success(identity),
            );
            let after = after_login_start(handlers, Some(threshold), client, packet).0;
            &&& after.compression == Some(threshold)
            &&& after.outbound == client.outbound + (if announcement.cancel {
                Seq::<(PacketView, Option<usize>)>::empty()
            } else {
                seq![(announcement.packet, client.compression)]
            }) + (if confirmation.cancel {
                Seq::<(PacketView, Option<usize>)>::empty()
            } else {
                seq![(confirmation.packet, Some(threshold))]
            })
        }),
{
    let identity = login_start_of(packet)->Ok_0;
    let known = ClientView { player_info: Some(identity), ..client };
    let announced = compression_announced(handlers, known, Some(threshold)).0;
    let after = after_login_start(handlers, Some(threshold), client, packet).0;
    let announcement = packet_pipeline(
        handlers,
        Direction::Outcoming,
        known,
        known.state,
        set_compression_packet(threshold),
    );
    let confirmation = packet_pipeline(
        handlers,
        Direction::Outcoming,
        announced,
        announced.state,
        login_success(identity),
    );
    assert(after.outbound =~= client.outbound + (if announcement.cancel {
        Seq::<(PacketView, Option<usize>)>::empty()
    } else {
        seq![(announcement.packet, client.compression)]
    }) + (if confirmation.cancel {
        Seq::<(PacketView, Option<usize>)>::empty()
    } else {
        seq![(confirmation.packet, Some(threshold))]
    }));
}

/// Handles one packet of a connection that has reached `stage`, and answers
/// with the stage that the connection is at afterwards.
///
/// From handshake to play: the handshake is recorded and the phase it asks
/// for entered; a status query is answered; a login is confirmed, after the
/// compression threshold was announced and put in force, and the player's
/// identity enters the directory; the client's brand and settings are kept
/// and the configuration data sent; play is entered. In play every packet is
/// handed on to the buffer that the readers of play take from.
///
/// Any failure is fatal: the error comes back and the connection is dead.
pub fn handle_connection<L: Listener, H: PacketHandler>(
    server: &mut ServerContext<L, H>,
    client: &mut ClientContext,
    stage: Stage,
    packet: Packet,
    data: &ConfigurationData,
) -> (r: Result<Stage, ServerError>)
    ensures
        final(client)@ == handled(
            old(server).listener_seq(),
            old(server).handler_seq(),
            old(server).settings().server.compression_threshold,
            *data,
            old(client)@,
            stage,
            packet@,
        ).0,
        r == handled(
            old(server).listener_seq(),
            old(server).handler_seq(),
            old(server).settings().server.compression_threshold,
            *data,
            old(client)@,
            stage,
            packet@,
        ).1,
        final(server).same_setup(old(server)),
        final(server).identities() == if stage == Stage::LoginStart && stage.awaits(packet@.id)
            && login_start_of(packet@) is Ok {
            old(server).identities().insert(
                old(client)@.addr,
                Some(login_start_of(packet@)->Ok_0),
            )
        } else {
            old(server).identities()
        },
{
    let id: u8 = packet.id();
    let step: Result<Stage, ServerError> = if !stage.expects(id) {
        Err(ServerError::UnexpectedPacket(id))
    } else {
        match stage {
            Stage::Handshake => on_handshake(server.handlers(), client, packet),
            Stage::Status => on_status(
                server.registered_listeners(),
                server.handlers(),
                client,
                packet,
            ),
            Stage::LoginStart => on_login_start(server, client, packet),
            Stage::LoginAcknowledged => match client.set_state(
                server.handlers(),
                ConnectionState::Configuration,
            ) {
                Err(error) => Err(error),
                Ok(_) => Ok(Stage::Brand),
            },
            Stage::Brand => on_brand(server.registered_listeners(), client, packet),
            Stage::ClientInformation => on_client_information(server.handlers(), client, packet),
            Stage::KnownPacks => match config::finish_configuration(
                server.handlers(),
                client,
                data,
            ) {
                Err(error) => Err(error),
                Ok(_) => Ok(Stage::AcknowledgeFinish),
            },
            Stage::AcknowledgeFinish => match client.set_state(
                server.handlers(),
                ConnectionState::Play,
            ) {
                Err(error) => Err(error),
                Ok(_) => Ok(Stage::Play),
            },
            Stage::Play => {
                let mut packet: Packet = packet;
                packet.rewind();
                client.deliver(packet);
                Ok(Stage::Play)
            },
        }
    };
    match step {
        Ok(next) => Ok(next),
        Err(error) => {
            client.close();
            Err(error)
        },
    }
}

/// What the end of a session makes of the directory and what the listeners
/// answer: every listener hears of the end, and the session's entry leaves
/// the directory whatever they answer.
pub fn handle_disconnect<L: Listener, H: PacketHandler>(
    server: &mut ServerContext<L, H>,
    client: &mut ClientContext,
) -> (r: Result<(), ServerError>)
    ensures
        final(client)@ == old(client)@.dead(),
        answers(r, event::disconnect_pipeline(old(server).listener_seq(), old(client)@.dead())),
        final(server).same_setup(old(server)),
        final(server).identities() == old(server).identities().remove(old(client)@.addr),
{
    client.close();
    let r: Result<(), ServerError> = event::trigger_disconnect(
        server.registered_listeners(),
        &*client,
    );
    let _ = server.remove(client.addr());
    r
}

} // verus!
