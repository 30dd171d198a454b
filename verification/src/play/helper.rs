//! Single packets of play, and what sending each makes of a session.
//!
//! Floating-point fields travel as their bit patterns; the numbers themselves
//! are the caller's business.

use crate::error::ServerError;
use crate::event::PacketHandler;
use crate::packet::Packet;
use crate::packet::PacketView;
use crate::player::context::answers;
use crate::player::context::ClientContext;
use crate::player::helper::bare;
use crate::protocol::packet_id::clientbound;
use crate::protocol::packet_id::serverbound;
use vstd::prelude::*;

verus! {

/// The game event that makes a client wait for the chunks of its level.
pub const EVENT_WAIT_FOR_CHUNKS: u8 = 13;

/// The game event that changes a client's game mode.
pub const EVENT_CHANGE_GAME_MODE: u8 = 3;

/// Where a player stands and moves and looks, each number as its bit pattern.
#[derive(Debug, Clone, Copy)]
pub struct Placement {
    pub x: u64,
    pub y: u64,
    pub z: u64,
    pub velocity_x: u64,
    pub velocity_y: u64,
    pub velocity_z: u64,
    pub yaw: u32,
    pub pitch: u32,
}

/// The packet that reports a game event.
pub open spec fn game_event(event: u8, value: u32) -> PacketView {
    bare(clientbound::play::GAME_EVENT).with_byte(event).with_unsigned(value as nat, 4)
}

/// The packet that puts a player where the server has it.
pub open spec fn player_position(teleport: i32, placement: Placement, flags: i32) -> PacketView {
    bare(clientbound::play::SYNCHRONIZE_PLAYER_POSITION).with_varint(teleport).with_unsigned(
        placement.x as nat,
        8,
    ).with_unsigned(placement.y as nat, 8).with_unsigned(placement.z as nat, 8).with_unsigned(
        placement.velocity_x as nat,
        8,
    ).with_unsigned(placement.velocity_y as nat, 8).with_unsigned(
        placement.velocity_z as nat,
        8,
    ).with_unsigned(placement.yaw as nat, 4).with_unsigned(placement.pitch as nat, 4).with_signed(
        flags as int,
        4,
    )
}

/// The packet that names the chunk around which a client loads chunks.
pub open spec fn center_chunk(x: i32, z: i32) -> PacketView {
    bare(clientbound::play::SET_CENTER_CHUNK).with_varint(x).with_varint(z)
}

/// The packet that asks a client whether it is still there.
pub open spec fn keep_alive(timestamp: i64) -> PacketView {
    bare(clientbound::play::KEEP_ALIVE).with_signed(timestamp as int, 8)
}

/// The packet that shows a message: the message as tagged binary data, and
/// whether it goes above the hotbar instead of into the chat.
pub open spec fn system_message(message: Seq<u8>, is_action_bar: bool) -> PacketView {
    bare(clientbound::play::SYSTEM_CHAT_MESSAGE).appended(message).with_boolean(is_action_bar)
}

/// The packet that makes a client forget a chunk; z travels before x.
pub open spec fn chunk_unloaded(x: i32, z: i32) -> PacketView {
    bare(clientbound::play::UNLOAD_CHUNK).with_signed(z as int, 4).with_signed(x as int, 4)
}

/// Builds the packet that reports a game event.
pub fn build_game_event(event: u8, value: u32) -> (packet: Packet)
    ensures
        packet@ == game_event(event, value),
{
    let mut packet: Packet = Packet::empty(clientbound::play::GAME_EVENT);
    packet.write_byte(event);
    packet.write_float_bits(value);
    packet
}

/// Builds the packet that puts a player where the server has it.
pub fn build_player_position(teleport: i32, placement: &Placement, flags: i32) -> (packet: Packet)
    ensures
        packet@ == player_position(teleport, *placement, flags),
{
    let mut packet: Packet = Packet::empty(clientbound::play::SYNCHRONIZE_PLAYER_POSITION);
    packet.write_varint(teleport);
    packet.write_double_bits(placement.x);
    packet.write_double_bits(placement.y);
    packet.write_double_bits(placement.z);
    packet.write_double_bits(placement.velocity_x);
    packet.write_double_bits(placement.velocity_y);
    packet.write_double_bits(placement.velocity_z);
    packet.write_float_bits(placement.yaw);
    packet.write_float_bits(placement.pitch);
    packet.write_int(flags);
    packet
}

/// Builds the packet that names the chunk around which a client loads chunks.
pub fn build_center_chunk(x: i32, z: i32) -> (packet: Packet)
    ensures
        packet@ == center_chunk(x, z),
{
    let mut packet: Packet = Packet::empty(clientbound::play::SET_CENTER_CHUNK);
    packet.write_varint(x);
    packet.write_varint(z);
    packet
}

/// Builds the packet that asks a client whether it is still there.
pub fn build_keep_alive(timestamp: i64) -> (packet: Packet)
    ensures
        packet@ == keep_alive(timestamp),
{
    let mut packet: Packet = Packet::empty(clientbound::play::KEEP_ALIVE);
    packet.write_long(timestamp);
    packet
}

/// Builds the packet that shows a message.
pub fn build_system_message(message: &[u8], is_action_bar: bool) -> (packet: Packet)
    ensures
        packet@ == system_message(message@, is_action_bar),
{
    let mut packet: Packet = Packet::empty(clientbound::play::SYSTEM_CHAT_MESSAGE);
    packet.write_bytes(message);
    packet.write_boolean(is_action_bar);
    packet
}

/// Builds the packet that makes a client forget a chunk.
pub fn build_unload_chunk(x: i32, z: i32) -> (packet: Packet)
    ensures
        packet@ == chunk_unloaded(x, z),
{
    let mut packet: Packet = Packet::empty(clientbound::play::UNLOAD_CHUNK);
    packet.write_int(z);
    packet.write_int(x);
    packet
}

/// Reports a game event to a client.
pub fn send_game_event<H: PacketHandler>(
    handlers: &Vec<H>,
    client: &mut ClientContext,
    event: u8,
    value: u32,
) -> (r: Result<(), ServerError>)
    ensures
        final(client)@ == old(client)@.written(handlers@, game_event(event, value)).0,
        answers(r, old(client)@.written(handlers@, game_event(event, value)).1),
{
    let packet: Packet = build_game_event(event, value);
    client.write_packet(handlers, &packet)
}

/// Puts a player where the server has it.
pub fn sync_player_pos<H: PacketHandler>(
    handlers: &Vec<H>,
    client: &mut ClientContext,
    teleport: i32,
    placement: &Placement,
    flags: i32,
) -> (r: Result<(), ServerError>)
    ensures
        final(client)@ == old(client)@.written(
            handlers@,
            player_position(teleport, *placement, flags),
        ).0,
        answers(
            r,
            old(client)@.written(handlers@, player_position(teleport, *placement, flags)).1,
        ),
{
    let packet: Packet = build_player_position(teleport, placement, flags);
    client.write_packet(handlers, &packet)
}

/// Names the chunk around which a client loads chunks.
pub fn set_center_chunk<H: PacketHandler>(
    handlers: &Vec<H>,
    client: &mut ClientContext,
    x: i32,
    z: i32,
) -> (r: Result<(), ServerError>)
    ensures
        final(client)@ == old(client)@.written(handlers@, center_chunk(x, z)).0,
        answers(r, old(client)@.written(handlers@, center_chunk(x, z)).1),
{
    let packet: Packet = build_center_chunk(x, z);
    client.write_packet(handlers, &packet)
}

/// Asks a client whether it is still there. The client answers with the same
/// timestamp, which `check_keep_alive` holds against the one sent.
pub fn send_keep_alive<H: PacketHandler>(
    handlers: &Vec<H>,
    client: &mut ClientContext,
    timestamp: i64,
) -> (r: Result<(), ServerError>)
    ensures
        final(client)@ == old(client)@.written(handlers@, keep_alive(timestamp)).0,
        answers(r, old(client)@.written(handlers@, keep_alive(timestamp)).1),
{
    let packet: Packet = build_keep_alive(timestamp);
    client.write_packet(handlers, &packet)
}

/// What a client's answer to a keep alive is worth: it must be the keep
/// alive packet of play and carry the timestamp that was sent.
pub open spec fn keep_alive_checked(reply: PacketView, timestamp: i64) -> Result<(), ServerError> {
    if reply.id != serverbound::play::KEEP_ALIVE {
        Err(ServerError::UnexpectedPacket(reply.id))
    } else {
        match reply.take_unsigned(8) {
            Err(error) => Err(error),
            Ok((bits, _)) => if crate::codec::signed_value(bits, 8) == timestamp {
                Ok(())
            } else {
                Err(ServerError::WrongPacket)
            },
        }
    }
}

/// Holds a client's answer to a keep alive against the timestamp sent.
pub fn check_keep_alive(reply: Packet, timestamp: i64) -> (r: Result<(), ServerError>)
    ensures
        answers(r, keep_alive_checked(reply@, timestamp)),
{
    if reply.id() != serverbound::play::KEEP_ALIVE {
        return Err(ServerError::UnexpectedPacket(reply.id()));
    }
    let mut packet: Packet = reply;
    proof {
        crate::codec::lemma_pow256_values();
        crate::codec::lemma_be_value_bound(packet@.bytes, packet@.cursor, 8);
    }
    match packet.read_long() {
        Err(error) => Err(error),
        Ok(echoed) => if echoed == timestamp {
            Ok(())
        } else {
            Err(ServerError::WrongPacket)
        },
    }
}

/// Shows a message to a client.
pub fn send_system_message<H: PacketHandler>(
    handlers: &Vec<H>,
    client: &mut ClientContext,
    message: &[u8],
    is_action_bar: bool,
) -> (r: Result<(), ServerError>)
    ensures
        final(client)@ == old(client)@.written(
            handlers@,
            system_message(message@, is_action_bar),
        ).0,
        answers(r, old(client)@.written(handlers@, system_message(message@, is_action_bar)).1),
{
    let packet: Packet = build_system_message(message, is_action_bar);
    client.write_packet(handlers, &packet)
}

/// Makes a client forget a chunk.
pub fn unload_chunk<H: PacketHandler>(handlers: &Vec<H>, client: &mut ClientContext, x: i32, z: i32) -> (r:
    Result<(), ServerError>)
    ensures
        final(client)@ == old(client)@.written(handlers@, chunk_unloaded(x, z)).0,
        answers(r, old(client)@.written(handlers@, chunk_unloaded(x, z)).1),
{
    let packet: Packet = build_unload_chunk(x, z);
    client.write_packet(handlers, &packet)
}

} // verus!
