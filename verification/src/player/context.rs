//! The session of one connection: its negotiated phase, what the client told
//! about itself, and the queues between the socket and the protocol logic.
//!
//! A session never touches a socket. Bytes that arrive are handed in with
//! `receive`; packets to be sent wait in the write queue until `take_outbound`
//! takes them out as frames.

use crate::codec;
use crate::error::ProtocolFault;
use crate::error::ServerError;
use crate::event;
use crate::event::packet_pipeline;
use crate::event::state_pipeline;
use crate::event::Direction;
use crate::event::PacketHandler;
use crate::frame;
use crate::frame::frame_at;
use crate::frame::frame_bytes;
use crate::packet::Packet;
use crate::packet::PacketView;
use crate::protocol;
use crate::protocol::listed;
use crate::protocol::ConnectionState;
use std::collections::VecDeque;
use std::hash::Hash;
use std::hash::Hasher;
use vstd::prelude::*;
use vstd::std_specs::cmp::PartialEqSpecImpl;

verus! {

/// The address of a peer, which identifies its connection: the IP address as
/// a 128-bit number (IPv4 mapped into IPv6) and the port.
pub type PeerAddr = (u128, u16);

/// What the handshake packet declared.
#[derive(Debug, PartialEq, Eq)]
pub struct Handshake {
    pub protocol_version: i32,
    pub server_address: String,
    pub server_port: u16,
}

/// A handshake record as mathematical values.
pub struct HandshakeView {
    pub protocol_version: i32,
    pub server_address: Seq<char>,
    pub server_port: u16,
}

impl View for Handshake {
    type V = HandshakeView;

    open spec fn view(&self) -> HandshakeView {
        HandshakeView {
            protocol_version: self.protocol_version,
            server_address: self.server_address@,
            server_port: self.server_port,
        }
    }
}

impl Clone for Handshake {
    fn clone(&self) -> (copy: Handshake)
        ensures
            copy == *self,
    {
        Handshake {
            protocol_version: self.protocol_version,
            server_address: self.server_address.clone(),
            server_port: self.server_port,
        }
    }
}

/// The settings that a client announced during configuration.
#[derive(Debug, PartialEq, Eq)]
pub struct ClientInfo {
    pub brand: String,
    pub locale: String,
    pub view_distance: i8,
    pub chat_mode: i32,
    pub chat_colors: bool,
    pub displayed_skin_parts: u8,
    pub main_hand: i32,
    pub enable_text_filtering: bool,
    pub allow_server_listings: bool,
    pub particle_status: i32,
}

/// A client's settings as mathematical values.
pub struct ClientInfoView {
    pub brand: Seq<char>,
    pub locale: Seq<char>,
    pub view_distance: i8,
    pub chat_mode: i32,
    pub chat_colors: bool,
    pub displayed_skin_parts: u8,
    pub main_hand: i32,
    pub enable_text_filtering: bool,
    pub allow_server_listings: bool,
    pub particle_status: i32,
}

impl View for ClientInfo {
    type V = ClientInfoView;

    open spec fn view(&self) -> ClientInfoView {
        ClientInfoView {
            brand: self.brand@,
            locale: self.locale@,
            view_distance: self.view_distance,
            chat_mode: self.chat_mode,
            chat_colors: self.chat_colors,
            displayed_skin_parts: self.displayed_skin_parts,
            main_hand: self.main_hand,
            enable_text_filtering: self.enable_text_filtering,
            allow_server_listings: self.allow_server_listings,
            particle_status: self.particle_status,
        }
    }
}

impl Clone for ClientInfo {
    fn clone(&self) -> (copy: ClientInfo)
        ensures
            copy == *self,
    {
        ClientInfo {
            brand: self.brand.clone(),
            locale: self.locale.clone(),
            view_distance: self.view_distance,
            chat_mode: self.chat_mode,
            chat_colors: self.chat_colors,
            displayed_skin_parts: self.displayed_skin_parts,
            main_hand: self.main_hand,
            enable_text_filtering: self.enable_text_filtering,
            allow_server_listings: self.allow_server_listings,
            particle_status: self.particle_status,
        }
    }
}

/// The identity of a player: name and 128-bit unique id.
#[derive(Debug, PartialEq, Eq)]
pub struct PlayerInfo {
    pub name: String,
    pub uuid: u128,
}

/// A player's identity as mathematical values.
pub struct PlayerInfoView {
    pub name: Seq<char>,
    pub uuid: u128,
}

impl View for PlayerInfo {
    type V = PlayerInfoView;

    open spec fn view(&self) -> PlayerInfoView {
        PlayerInfoView { name: self.name@, uuid: self.uuid }
    }
}

impl Clone for PlayerInfo {
    fn clone(&self) -> (copy: PlayerInfo)
        ensures
            copy == *self,
    {
        PlayerInfo { name: self.name.clone(), uuid: self.uuid }
    }
}

/// A packet in the write queue.
#[derive(Debug, Clone, PartialEq, Eq)]
pub struct Outbound {
    /// The packet as the outgoing hooks left it.
    pub packet: Packet,
    /// The compression threshold to frame it with.
    pub compression: Option<usize>,
}

/// The session of one accepted connection.
pub struct ClientContext {
    addr: PeerAddr,
    handshake: Option<Handshake>,
    client_info: Option<ClientInfo>,
    player_info: Option<PlayerInfo>,
    brand: Option<String>,
    state: ConnectionState,
    compression: Option<usize>,
    inbound: Vec<u8>,
    packet_buffer: VecDeque<Packet>,
    outbound: VecDeque<Outbound>,
    read_loop: bool,
    is_alive: bool,
}

/// Two sessions are the same where their connections are: sessions are told
/// apart by the peer's address and by nothing else.
impl PartialEq for ClientContext {
    fn eq(&self, other: &ClientContext) -> (same: bool) {
        self.addr.0 == other.addr.0 && self.addr.1 == other.addr.1
    }
}

impl Eq for ClientContext {

}

impl PartialEqSpecImpl for ClientContext {
    open spec fn obeys_eq_spec() -> bool {
        true
    }

    open spec fn eq_spec(&self, other: &ClientContext) -> bool {
        self@.addr == other@.addr
    }
}

/// `Hash::hash` of a pair, which feeds both parts to the hasher. Nothing is
/// claimed of what the hasher then holds.
pub assume_specification<Left: std::hash::Hash, Right: std::hash::Hash, Sink: std::hash::Hasher>[ <(
    Left,
    Right,
) as std::hash::Hash>::hash ](pair: &(Left, Right), state: &mut Sink);

/// A session hashes as its address does, in keeping with its equality.
impl Hash for ClientContext {
    fn hash<S: Hasher>(&self, state: &mut S) {
        self.addr.hash(state);
    }
}

/// What a session holds, as mathematical values.
pub struct ClientView {
    /// The peer's address, the identity of the connection.
    pub addr: PeerAddr,
    /// The handshake record, once the handshake packet was read.
    pub handshake: Option<HandshakeView>,
    /// The client's settings, once announced.
    pub client_info: Option<ClientInfoView>,
    /// The player's identity, once known.
    pub player_info: Option<PlayerInfoView>,
    /// The brand that the client announced, until its settings arrive.
    pub brand: Option<Seq<char>>,
    /// The current phase.
    pub state: ConnectionState,
    /// The compression threshold; absent while frames travel uncompressed.
    pub compression: Option<usize>,
    /// Bytes that arrived and are not yet taken apart into frames.
    pub inbound: Seq<u8>,
    /// Packets that the read loop accepted, oldest first.
    pub buffer: Seq<PacketView>,
    /// Packets that wait to be written to the socket, oldest first, each with
    /// the compression threshold that was in force when it was sent.
    pub outbound: Seq<(PacketView, Option<usize>)>,
    /// Whether the read loop owns the read side.
    pub read_loop: bool,
    /// Whether the connection is still alive.
    pub alive: bool,
}

impl View for ClientContext {
    type V = ClientView;

    closed spec fn view(&self) -> ClientView {
        ClientView {
            addr: self.addr,
            handshake: match self.handshake {
                Some(handshake) => Some(handshake@),
                None => None,
            },
            client_info: match self.client_info {
                Some(client_info) => Some(client_info@),
                None => None,
            },
            player_info: match self.player_info {
                Some(player_info) => Some(player_info@),
                None => None,
            },
            brand: match self.brand {
                Some(brand) => Some(brand@),
                None => None,
            },
            state: self.state,
            compression: self.compression,
            inbound: self.inbound@,
            buffer: Seq::new(self.packet_buffer@.len(), |i: int| self.packet_buffer@[i]@),
            outbound: Seq::new(
                self.outbound@.len(),
                |i: int| (self.outbound@[i].packet@, self.outbound@[i].compression),
            ),
            read_loop: self.read_loop,
            alive: self.is_alive,
        }
    }
}

impl ClientContext {
    /// The session of a freshly accepted connection: handshake phase, nothing
    /// known about the client, no compression, empty queues, alive.
    pub fn new(addr: PeerAddr) -> (client: ClientContext)
        ensures
            client@ == (ClientView {
                addr,
                handshake: None,
                client_info: None,
                player_info: None,
                brand: None,
                state: ConnectionState::Handshake,
                compression: None,
                inbound: Seq::empty(),
                buffer: Seq::empty(),
                outbound: Seq::empty(),
                read_loop: false,
                alive: true,
            }),
    {
        let client = ClientContext {
            addr,
            handshake: None,
            client_info: None,
            player_info: None,
            brand: None,
            state: ConnectionState::Handshake,
            compression: None,
            inbound: Vec::new(),
            packet_buffer: VecDeque::new(),
            outbound: VecDeque::new(),
            read_loop: false,
            is_alive: true,
        };
        assert(client@.buffer =~= Seq::empty());
        assert(client@.outbound =~= Seq::empty());
        client
    }

    /// The peer's address.
    pub fn addr(&self) -> (addr: PeerAddr)
        ensures
            addr == self@.addr,
    {
        self.addr
    }

    /// Records what the handshake declared.
    pub fn set_handshake(&mut self, handshake: Handshake)
        ensures
            final(self)@ == (ClientView { handshake: Some(handshake@), ..old(self)@ }),
    {
        self.handshake = Some(handshake);
    }

    /// Records the client's settings.
    pub fn set_client_info(&mut self, client_info: ClientInfo)
        ensures
            final(self)@ == (ClientView { client_info: Some(client_info@), ..old(self)@ }),
    {
        self.client_info = Some(client_info);
    }

    /// Records the player's identity.
    pub fn set_player_info(&mut self, player_info: PlayerInfo)
        ensures
            final(self)@ == (ClientView { player_info: Some(player_info@), ..old(self)@ }),
    {
        self.player_info = Some(player_info);
    }

    /// Records the brand that the client announced.
    pub fn set_brand(&mut self, brand: String)
        ensures
            final(self)@ == (ClientView { brand: Some(brand@), ..old(self)@ }),
    {
        self.brand = Some(brand);
    }

    /// The brand that the client announced, if it did.
    pub fn brand(&self) -> (brand: Option<String>)
        ensures
            match brand {
                Some(text) => self@.brand == Some(text@),
                None => self@.brand is None,
            },
    {
        match &self.brand {
            Some(brand) => Some(brand.clone()),
            None => None,
        }
    }

    /// The handshake record, if the handshake packet was read.
    pub fn handshake(&self) -> (handshake: Option<Handshake>)
        ensures
            match handshake {
                Some(record) => self@.handshake == Some(record@),
                None => self@.handshake is None,
            },
    {
        match &self.handshake {
            Some(handshake) => Some(handshake.clone()),
            None => None,
        }
    }

    /// The client's settings, if announced.
    pub fn client_info(&self) -> (client_info: Option<ClientInfo>)
        ensures
            match client_info {
                Some(record) => self@.client_info == Some(record@),
                None => self@.client_info is None,
            },
    {
        match &self.client_info {
            Some(client_info) => Some(client_info.clone()),
            None => None,
        }
    }

    /// The player's identity, if known.
    pub fn player_info(&self) -> (player_info: Option<PlayerInfo>)
        ensures
            match player_info {
                Some(record) => self@.player_info == Some(record@),
                None => self@.player_info is None,
            },
    {
        match &self.player_info {
            Some(player_info) => Some(player_info.clone()),
            None => None,
        }
    }

    /// The current phase.
    pub fn state(&self) -> (state: ConnectionState)
        ensures
            state == self@.state,
    {
        self.state
    }

    /// The compression threshold, if compression is on.
    pub fn compression(&self) -> (compression: Option<usize>)
        ensures
            compression == self@.compression,
    {
        self.compression
    }

    /// Switches the framing of every later frame, read or written: with a
    /// threshold, frames use the compressed layout, and packets shorter than
    /// the threshold travel in it as they are.
    pub fn set_compression(&mut self, threshold: Option<usize>)
        ensures
            final(self)@ == (ClientView { compression: threshold, ..old(self)@ }),
    {
        self.compression = threshold;
    }

    /// Whether the connection is still alive.
    pub fn is_alive(&self) -> (alive: bool)
        ensures
            alive == self@.alive,
    {
        self.is_alive
    }

    /// Ends the connection. Closing a closed connection changes nothing.
    pub fn close(&mut self)
        ensures
            final(self)@ == (ClientView { alive: false, ..old(self)@ }),
    {
        self.is_alive = false;
    }
}


/// What a read hands over.
#[derive(Debug, Clone, PartialEq, Eq)]
pub enum Delivery {
    /// Nothing to hand over yet: more bytes, or the read loop, must come first.
    Pending,
    /// A packet arrived and a hook vetoed it; the next read may follow at once.
    Cancelled,
    /// A packet, cursor at the start of its body.
    Packet(Packet),
}

/// What a read hands over, as mathematical values.
pub enum DeliveryView {
    /// Nothing to hand over yet.
    Pending,
    /// A packet arrived and a hook vetoed it.
    Cancelled,
    /// A packet.
    Packet(PacketView),
}

impl View for Delivery {
    type V = DeliveryView;

    open spec fn view(&self) -> DeliveryView {
        match self {
            Delivery::Pending => DeliveryView::Pending,
            Delivery::Cancelled => DeliveryView::Cancelled,
            Delivery::Packet(packet) => DeliveryView::Packet(packet@),
        }
    }
}

/// Whether an answer without a value is the expected one.
pub open spec fn answers(r: Result<(), ServerError>, expected: Result<(), ServerError>) -> bool {
    match expected {
        Ok(_) => r is Ok,
        Err(error) => r == Err::<(), ServerError>(error),
    }
}

/// Whether a read handed over what was expected.
pub open spec fn delivers(
    r: Result<Delivery, ServerError>,
    expected: Result<DeliveryView, ServerError>,
) -> bool {
    match expected {
        Ok(delivery) => r matches Ok(d) && d@ == delivery,
        Err(error) => r matches Err(e) && e == error,
    }
}

/// Whether `index` is the place of the oldest buffered packet whose id is
/// among `ids`.
pub open spec fn is_first_listed(buffer: Seq<PacketView>, ids: Seq<u8>, index: int) -> bool {
    &&& 0 <= index < buffer.len()
    &&& listed(ids, buffer[index].id)
    &&& forall|j: int| 0 <= j < index ==> !listed(ids, (#[trigger] buffer[j]).id)
}

impl ClientView {
    /// The session with a packet added to the end of the write queue.
    pub open spec fn queued(self, packet: PacketView) -> ClientView {
        ClientView { outbound: self.outbound.push((packet, self.compression)), ..self }
    }

    /// The session without the first `used` bytes that arrived.
    pub open spec fn consumed(self, used: int) -> ClientView {
        ClientView { inbound: self.inbound.subrange(used, self.inbound.len() as int), ..self }
    }

    /// The session with its connection marked dead.
    pub open spec fn dead(self) -> ClientView {
        ClientView { alive: false, ..self }
    }

    /// What sending a packet makes of the session: every outgoing hook sees
    /// the packet, and unless one of them fails or vetoes it, the packet joins
    /// the write queue as the hooks left it.
    pub open spec fn written<H: PacketHandler>(self, handlers: Seq<H>, packet: PacketView) -> (
        ClientView,
        Result<(), ServerError>,
    ) {
        let outcome = packet_pipeline(handlers, Direction::Outcoming, self, self.state, packet);
        match outcome.result {
            Err(error) => (self, Err(error)),
            Ok(_) => if outcome.cancel {
                (self, Ok(()))
            } else {
                (self.queued(outcome.packet), Ok(()))
            },
        }
    }

    /// What entering a phase makes of the session.
    pub open spec fn entered<H: PacketHandler>(self, handlers: Seq<H>, state: ConnectionState) -> (
        ClientView,
        Result<(), ServerError>,
    ) {
        if self.state.may_enter(state) {
            let moved = ClientView { state, ..self };
            (moved, state_pipeline(handlers, moved, state))
        } else {
            (self, Err(ServerError::UnexpectedState))
        }
    }

    /// What taking the first frame of the arrived bytes apart makes of the
    /// session, and what it hands over: a frame that cannot be decoded kills
    /// the connection; a complete frame is used up. A packet whose id the
    /// phase does not list is unexpected: no hook sees it and the connection
    /// is dead. Any other packet is shown to the incoming hooks.
    pub open spec fn accepted<H: PacketHandler>(self, handlers: Seq<H>) -> (
        ClientView,
        Result<DeliveryView, ServerError>,
    ) {
        match frame_at(self.inbound, self.compression) {
            Err(error) => (self.dead(), Err(error)),
            Ok(None) => (self, Ok(DeliveryView::Pending)),
            Ok(Some((arrived, used))) => if !self.state.accepts(arrived.id) {
                (self.consumed(used as int).dead(), Err(ServerError::UnexpectedPacket(arrived.id)))
            } else {
                let outcome = packet_pipeline(
                    handlers,
                    Direction::Incoming,
                    self,
                    self.state,
                    arrived,
                );
                (
                    self.consumed(used as int),
                    match outcome.result {
                        Err(error) => Err(error),
                        Ok(_) => if outcome.cancel {
                            Ok(DeliveryView::Cancelled)
                        } else {
                            Ok(DeliveryView::Packet(outcome.packet))
                        },
                    },
                )
            },
        }
    }

    /// What one turn of the read loop makes of the session, and whether a
    /// frame was there.
    pub open spec fn looped<H: PacketHandler>(self, handlers: Seq<H>) -> (
        ClientView,
        Result<bool, ServerError>,
    ) {
        if !self.read_loop {
            (self, Err(ServerError::UnexpectedState))
        } else {
            let (after, delivery) = self.accepted(handlers);
            match delivery {
                Err(error) => (after, Err(error)),
                Ok(DeliveryView::Pending) => (after, Ok(false)),
                Ok(DeliveryView::Cancelled) => (after, Ok(true)),
                Ok(DeliveryView::Packet(packet)) => (
                    ClientView { buffer: after.buffer.push(packet), ..after },
                    Ok(true),
                ),
            }
        }
    }

    /// What a read of any packet makes of the session, and what it hands over.
    pub open spec fn read_any<H: PacketHandler>(self, handlers: Seq<H>) -> (
        ClientView,
        Result<DeliveryView, ServerError>,
    ) {
        if self.read_loop {
            if self.buffer.len() == 0 {
                (self, Ok(DeliveryView::Pending))
            } else {
                (
                    ClientView {
                        buffer: self.buffer.subrange(1, self.buffer.len() as int),
                        ..self
                    },
                    Ok(DeliveryView::Packet(self.buffer[0])),
                )
            }
        } else {
            self.accepted(handlers)
        }
    }

    /// What a read that declares the ids it accepts makes of a session whose
    /// read side no read loop owns: a packet with another id is refused as
    /// unexpected, and any failure leaves the connection dead.
    pub open spec fn read_expected<H: PacketHandler>(self, handlers: Seq<H>, ids: Seq<u8>) -> (
        ClientView,
        Result<DeliveryView, ServerError>,
    ) {
        let (after, delivery) = self.accepted(handlers);
        match delivery {
            Err(error) => (after.dead(), Err(error)),
            Ok(DeliveryView::Packet(packet)) => if listed(ids, packet.id) {
                (after, Ok(DeliveryView::Packet(packet)))
            } else {
                (after.dead(), Err(ServerError::UnexpectedPacket(packet.id)))
            },
            Ok(other) => (after, Ok(other)),
        }
    }
}

/// A packet that any outgoing hook vetoed is not sent: the write queue, like
/// the rest of the session, is as it was, and that is no error.
pub proof fn lemma_vetoed_packet_is_not_sent<H: PacketHandler>(
    handlers: Seq<H>,
    client: ClientView,
    packet: PacketView,
    raised: nat,
)
    requires
        raised <= handlers.len(),
        event::packet_chain(
            handlers,
            crate::order::priority_order(event::packet_priorities(handlers, Direction::Outcoming)),
            Direction::Outcoming,
            client,
            client.state,
            packet,
            raised,
        ).cancel,
        packet_pipeline(handlers, Direction::Outcoming, client, client.state, packet).result is Ok,
    ensures
        client.written(handlers, packet).0 == client,
        client.written(handlers, packet).1 is Ok,
{
    event::lemma_cancel_is_kept(
        handlers,
        crate::order::priority_order(event::packet_priorities(handlers, Direction::Outcoming)),
        Direction::Outcoming,
        client,
        client.state,
        packet,
        raised,
        handlers.len(),
    );
}

/// A packet whose id the phase does not list ends the session, in whichever
/// way it is read: the read fails with the id, the connection is dead, and
/// the read loop buffers nothing.
pub proof fn lemma_unlisted_id_is_fatal<H: PacketHandler>(
    handlers: Seq<H>,
    client: ClientView,
    arrived: PacketView,
    used: usize,
)
    requires
        frame_at(client.inbound, client.compression) == Ok::<
            Option<(PacketView, usize)>,
            ServerError,
        >(Some((arrived, used))),
        !client.state.accepts(arrived.id),
    ensures
        client.accepted(handlers).1 == Err::<DeliveryView, ServerError>(
            ServerError::UnexpectedPacket(arrived.id),
        ),
        !client.accepted(handlers).0.alive,
        client.read_loop ==> client.looped(handlers).1 == Err::<bool, ServerError>(
            ServerError::UnexpectedPacket(arrived.id),
        ) && !client.looped(handlers).0.alive && client.looped(handlers).0.buffer == client.buffer,
        !client.read_loop ==> client.read_any(handlers).1 == Err::<DeliveryView, ServerError>(
            ServerError::UnexpectedPacket(arrived.id),
        ) && !client.read_any(handlers).0.alive,
{
}

impl ClientContext {
    /// Moves the connection to `state` and tells every phase hook, in
    /// priority order, before any packet of the new phase is read. A phase
    /// that may not follow the current one is refused and nothing changes; a
    /// hook that fails gives its error, the connection being in the new phase.
    pub fn set_state<H: PacketHandler>(&mut self, handlers: &Vec<H>, state: ConnectionState) -> (r:
        Result<(), ServerError>)
        ensures
            final(self)@ == old(self)@.entered(handlers@, state).0,
            answers(r, old(self)@.entered(handlers@, state).1),
    {
        if !self.state.can_enter(state) {
            return Err(ServerError::UnexpectedState);
        }
        self.state = state;
        event::run_state_hooks(handlers, &*self, state)
    }

    /// Hands in bytes that arrived on the socket.
    pub fn receive(&mut self, bytes: &[u8])
        ensures
            final(self)@ == (ClientView { inbound: old(self)@.inbound + bytes@, ..old(self)@ }),
    {
        codec::write_bytes(&mut self.inbound, bytes);
    }

    /// Takes the oldest packet out of the write queue and encodes its frame,
    /// to be written to the socket. Answers nothing when the queue is empty.
    ///
    /// A packet that has no frame is dropped and the connection is dead.
    pub fn take_outbound(&mut self) -> (r: Result<Option<Vec<u8>>, ServerError>)
        ensures
            old(self)@.outbound.len() == 0 ==> (r matches Ok(None)) && final(self)@ == old(self)@,
            old(self)@.outbound.len() > 0 ==> ({
                let (packet, compression) = old(self)@.outbound[0];
                let rest = ClientView {
                    outbound: old(self)@.outbound.subrange(1, old(self)@.outbound.len() as int),
                    ..old(self)@
                };
                match frame_bytes(packet.id, packet.bytes, compression) {
                    Ok(bytes) => (r matches Ok(Some(frame)) && frame@ == bytes && frame_at(
                        frame@,
                        compression,
                    ) == Ok::<Option<(PacketView, usize)>, ServerError>(
                        Some((packet.rewound(), frame@.len() as usize)),
                    )) && final(self)@ == rest,
                    Err(error) => r == Err::<Option<Vec<u8>>, ServerError>(error) && final(self)@
                        == rest.dead(),
                }
            }),
    {
        let entry: Option<Outbound> = self.outbound.pop_front();
        match entry {
            None => {
                assert(self@.outbound =~= old(self)@.outbound);
                Ok(None)
            },
            Some(outbound) => {
                assert(self@.outbound =~= old(self)@.outbound.subrange(
                    1,
                    old(self)@.outbound.len() as int,
                ));
                match frame::encode_frame(&outbound.packet, outbound.compression) {
                    Ok(frame) => Ok(Some(frame)),
                    Err(error) => {
                        self.is_alive = false;
                        Err(error)
                    },
                }
            },
        }
    }

    /// Records that the transport failed: the connection is dead, and the
    /// fault comes back as the error to end the session with.
    pub fn transport_failed(&mut self, fault: ProtocolFault) -> (error: ServerError)
        ensures
            final(self)@ == old(self)@.dead(),
            error == ServerError::of_fault(fault),
    {
        self.is_alive = false;
        ServerError::from_fault(fault)
    }

    /// Sends a packet: every outgoing hook sees a copy of it, in priority
    /// order, and unless one of them vetoes it, it joins the write queue with
    /// the compression in force.
    ///
    /// A hook that fails gives its error and nothing is queued. A vetoed
    /// packet is not queued either, and that is no error.
    pub fn write_packet<H: PacketHandler>(&mut self, handlers: &Vec<H>, packet: &Packet) -> (r:
        Result<(), ServerError>)
        ensures
            final(self)@ == old(self)@.written(handlers@, packet@).0,
            answers(r, old(self)@.written(handlers@, packet@).1),
    {
        let state: ConnectionState = self.state;
        let mut packet: Packet = packet.clone();
        let cancelled: bool = match event::run_packet_hooks(
            handlers,
            Direction::Outcoming,
            &*self,
            &mut packet,
            state,
        ) {
            Ok(cancelled) => cancelled,
            Err(error) => { return Err(error); },
        };
        if cancelled {
            return Ok(());
        }
        let ghost sent = packet@;
        self.outbound.push_back(Outbound { packet, compression: self.compression });
        assert(self@.outbound =~= old(self)@.outbound.push((sent, old(self)@.compression)));
        Ok(())
    }

    /// Drops the first `used` bytes that arrived.
    fn consume(&mut self, used: usize)
        requires
            used <= old(self)@.inbound.len(),
        ensures
            final(self)@ == old(self)@.consumed(used as int),
    {
        let rest: Vec<u8> = self.inbound.split_off(used);
        self.inbound = rest;
    }

    /// Takes the first frame of the bytes that arrived apart and lets every
    /// incoming hook see its packet.
    fn accept_frame<H: PacketHandler>(&mut self, handlers: &Vec<H>) -> (r: Result<
        Delivery,
        ServerError,
    >)
        ensures
            final(self)@ == old(self)@.accepted(handlers@).0,
            delivers(r, old(self)@.accepted(handlers@).1),
    {
        let decoded: Result<Option<(Packet, usize)>, ServerError> = frame::decode_frame(
            self.inbound.as_slice(),
            self.compression,
        );
        match decoded {
            Err(error) => {
                self.is_alive = false;
                Err(error)
            },
            Ok(None) => Ok(Delivery::Pending),
            Ok(Some((arrived, used))) => {
                let mut packet: Packet = arrived;
                let state: ConnectionState = self.state;
                match state.check_inbound(packet.id()) {
                    Ok(_) => {},
                    Err(error) => {
                        self.consume(used);
                        self.is_alive = false;
                        return Err(error);
                    },
                }
                let hooks: Result<bool, ServerError> = event::run_packet_hooks(
                    handlers,
                    Direction::Incoming,
                    &*self,
                    &mut packet,
                    state,
                );
                self.consume(used);
                match hooks {
                    Err(error) => Err(error),
                    Ok(cancelled) => if cancelled {
                        Ok(Delivery::Cancelled)
                    } else {
                        Ok(Delivery::Packet(packet))
                    },
                }
            },
        }
    }

    /// Hands the read side to the read loop, once: from now on
    /// `run_read_loop` takes the frames apart, and the reads take packets
    /// from its buffer. A second hand-over is refused and changes nothing.
    pub fn start_read_loop(&mut self) -> (r: Result<(), ServerError>)
        ensures
            old(self)@.read_loop ==> r == Err::<(), ServerError>(ServerError::UnexpectedState)
                && final(self)@ == old(self)@,
            !old(self)@.read_loop ==> r is Ok && final(self)@ == (ClientView {
                read_loop: true,
                ..old(self)@
            }),
    {
        if self.read_loop {
            return Err(ServerError::UnexpectedState);
        }
        self.read_loop = true;
        Ok(())
    }

    /// Whether the read loop owns the read side.
    pub fn in_read_loop(&self) -> (read_loop: bool)
        ensures
            read_loop == self@.read_loop,
    {
        self.read_loop
    }

    /// One turn of the read loop: takes the first complete frame of the bytes
    /// that arrived apart, lets every incoming hook see its packet, and puts
    /// the packet at the end of the buffer unless a hook vetoed it. Answers
    /// whether a frame was there; without one, more bytes must arrive first.
    ///
    /// Refused, with nothing changed, unless the read loop owns the read side.
    /// A frame that cannot be decoded marks the connection dead.
    pub fn run_read_loop<H: PacketHandler>(&mut self, handlers: &Vec<H>) -> (r: Result<
        bool,
        ServerError,
    >)
        ensures
            final(self)@ == old(self)@.looped(handlers@).0,
            r == old(self)@.looped(handlers@).1,
    {
        if !self.read_loop {
            return Err(ServerError::UnexpectedState);
        }
        match self.accept_frame(handlers) {
            Err(error) => Err(error),
            Ok(Delivery::Pending) => Ok(false),
            Ok(Delivery::Cancelled) => Ok(true),
            Ok(Delivery::Packet(packet)) => {
                let ghost before = self@;
                self.packet_buffer.push_back(packet);
                assert(self@.buffer =~= before.buffer.push(packet@));
                Ok(true)
            },
        }
    }

    /// Reads the next packet, whatever its id.
    ///
    /// While the read loop owns the read side, this takes the oldest packet
    /// out of its buffer. Else it takes the first frame of the bytes that
    /// arrived apart and lets every incoming hook see its packet.
    pub fn read_any_packet<H: PacketHandler>(&mut self, handlers: &Vec<H>) -> (r: Result<
        Delivery,
        ServerError,
    >)
        ensures
            final(self)@ == old(self)@.read_any(handlers@).0,
            delivers(r, old(self)@.read_any(handlers@).1),
    {
        if self.read_loop {
            match self.packet_buffer.pop_front() {
                Some(packet) => {
                    assert(self@.buffer =~= old(self)@.buffer.subrange(
                        1,
                        old(self)@.buffer.len() as int,
                    ));
                    Ok(Delivery::Packet(packet))
                },
                None => {
                    assert(self@.buffer =~= old(self)@.buffer);
                    Ok(Delivery::Pending)
                },
            }
        } else {
            self.accept_frame(handlers)
        }
    }

    /// Puts a packet at the end of the buffer, behind all that wait there.
    pub fn deliver(&mut self, packet: Packet)
        ensures
            final(self)@ == (ClientView { buffer: old(self)@.buffer.push(packet@), ..old(self)@ }),
    {
        self.packet_buffer.push_back(packet);
        assert(self@.buffer =~= old(self)@.buffer.push(packet@));
    }

    /// Puts a packet that its reader did not want back at the front of the
    /// buffer, where the next read finds it first; the packets behind it keep
    /// their order.
    pub fn push_packet_back(&mut self, packet: Packet)
        ensures
            final(self)@ == (ClientView {
                buffer: seq![packet@] + old(self)@.buffer,
                ..old(self)@
            }),
    {
        self.packet_buffer.push_front(packet);
        assert(self@.buffer =~= seq![packet@] + old(self)@.buffer);
    }

    /// Takes the oldest buffered packet whose id is among `ids` out of the
    /// buffer.
    fn take_listed(&mut self, ids: &[u8]) -> (r: Option<Packet>)
        ensures
            match r {
                Some(packet) => exists|index: int|
                    #[trigger] is_first_listed(old(self)@.buffer, ids@, index) && packet@ == old(self)@.buffer[index] && final(self)@ == (ClientView {
                        buffer: old(self)@.buffer.remove(index),
                        ..old(self)@
                    }),
                None => final(self)@ == old(self)@ && forall|j: int|
                    0 <= j < old(self)@.buffer.len() ==> !listed(
                        ids@,
                        (#[trigger] old(self)@.buffer[j]).id,
                    ),
            },
    {
        let mut index: usize = 0;
        while index < self.packet_buffer.len()
            invariant
                *self == *old(self),
                index <= self.packet_buffer@.len(),
                forall|j: int| 0 <= j < index ==> !listed(ids@, (#[trigger] self@.buffer[j]).id),
            decreases self.packet_buffer@.len() - index,
        {
            let id: u8 = self.packet_buffer[index].id();
            if protocol::is_listed(ids, id) {
                let ghost before = self@;
                let taken: Option<Packet> = self.packet_buffer.remove(index);
                proof {
                    assert(is_first_listed(before.buffer, ids@, index as int));
                    assert(self@.buffer =~= before.buffer.remove(index as int));
                }
                return taken;
            }
            index = index + 1;
        }
        None
    }

    /// Reads the next packet, which must carry one of `ids`.
    ///
    /// While the read loop owns the read side, this takes the oldest buffered
    /// packet with such an id and leaves the others where they are. Else it
    /// reads the next packet as `read_any_packet` does: a packet with another
    /// id is refused as unexpected, and so is every other failure fatal: the
    /// connection is dead afterwards.
    pub fn read_packet<H: PacketHandler>(&mut self, handlers: &Vec<H>, ids: &[u8]) -> (r: Result<
        Delivery,
        ServerError,
    >)
        ensures
            old(self)@.read_loop ==> match r {
                Ok(Delivery::Packet(packet)) => exists|index: int|
                    #[trigger] is_first_listed(old(self)@.buffer, ids@, index) && packet@ == old(self)@.buffer[index] && final(self)@ == (ClientView {
                        buffer: old(self)@.buffer.remove(index),
                        ..old(self)@
                    }),
                Ok(Delivery::Pending) => final(self)@ == old(self)@ && forall|j: int|
                    0 <= j < old(self)@.buffer.len() ==> !listed(
                        ids@,
                        (#[trigger] old(self)@.buffer[j]).id,
                    ),
                _ => false,
            },
            !old(self)@.read_loop ==> final(self)@ == old(self)@.read_expected(handlers@, ids@).0
                && delivers(r, old(self)@.read_expected(handlers@, ids@).1),
    {
        if self.read_loop {
            match self.take_listed(ids) {
                Some(packet) => Ok(Delivery::Packet(packet)),
                None => Ok(Delivery::Pending),
            }
        } else {
            match self.accept_frame(handlers) {
                Err(error) => {
                    self.is_alive = false;
                    Err(error)
                },
                Ok(Delivery::Packet(packet)) => {
                    let id: u8 = packet.id();
                    if protocol::is_listed(ids, id) {
                        Ok(Delivery::Packet(packet))
                    } else {
                        self.is_alive = false;
                        Err(ServerError::UnexpectedPacket(id))
                    }
                },
                Ok(other) => Ok(other),
            }
        }
    }
}

} // verus!
