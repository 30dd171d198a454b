//! What the server does with each packet that a player sends during play.
//!
//! A packet is taken apart into the action it asks for. For what goes out to
//! the other players the action names its recipients: every session with an
//! identity but the sender's own, told apart by address. Sending is the
//! caller's business, and so are the numbers behind the bit patterns.

use crate::codec::signed_value;
use crate::context::ServerContext;
use crate::data::component::TextComponent;
use crate::error::ServerError;
use crate::event::Listener;
use crate::event::PacketHandler;
use crate::packet::Packet;
use crate::packet::PacketView;
use crate::play::commanded_game_mode;
use crate::play::game_mode_command;
use crate::player::context::PeerAddr;
use crate::player::context::PlayerInfo;
use crate::player::helper::bare;
use crate::protocol::packet_id::clientbound;
use crate::protocol::packet_id::serverbound;
use vstd::prelude::*;

verus! {

/// What the server does in answer to a packet of play.
#[derive(Debug, Clone, PartialEq, Eq)]
pub enum PlayAction {
    /// The player clicked a slot of a container: the sender is told which.
    Clicked { slot: i16 },
    /// The player asked for a game mode: the sender gets the game event that
    /// changes it, with this value.
    GameMode { mode: u32 },
    /// The player said something: the message goes to `to`.
    Chat { text: String, to: Vec<PeerAddr> },
    /// The player moved or turned: `to` are shown the movement, and the head
    /// rotation when the player turned. Coordinates and angles are bit
    /// patterns of floating-point numbers.
    Moved {
        position: Option<(u64, u64, u64)>,
        rotation: Option<(u32, u32)>,
        flags: u8,
        to: Vec<PeerAddr>,
    },
    /// Nothing is done.
    Nothing,
}

/// What a packet of play asks for, as mathematical values.
pub enum PlayRequest {
    /// A click on a slot of a container.
    Clicked { slot: i16 },
    /// A change of game mode.
    GameMode { mode: u32 },
    /// A chat message.
    Chat { text: Seq<char> },
    /// A movement, a turn, or both.
    Moved { position: Option<(u64, u64, u64)>, rotation: Option<(u32, u32)>, flags: u8 },
    /// Nothing.
    Nothing,
}

impl PlayAction {
    /// What the action answers.
    pub open spec fn request(self) -> PlayRequest {
        match self {
            PlayAction::Clicked { slot } => PlayRequest::Clicked { slot },
            PlayAction::GameMode { mode } => PlayRequest::GameMode { mode },
            PlayAction::Chat { text, to } => PlayRequest::Chat { text: text@ },
            PlayAction::Moved { position, rotation, flags, to } => PlayRequest::Moved {
                position,
                rotation,
                flags,
            },
            PlayAction::Nothing => PlayRequest::Nothing,
        }
    }

    /// The recipients of what the action sends to other players, where it
    /// sends anything to them.
    pub open spec fn recipients(self) -> Option<Seq<PeerAddr>> {
        match self {
            PlayAction::Chat { text, to } => Some(to@),
            PlayAction::Moved { position, rotation, flags, to } => Some(to@),
            _ => None,
        }
    }
}

/// Whether `to` holds the audience of `sender`: the address of every session
/// that has an identity, but the sender's own, each once and no other.
pub open spec fn is_audience(
    to: Seq<PeerAddr>,
    clients: Map<PeerAddr, Option<PlayerInfo>>,
    sender: PeerAddr,
) -> bool {
    &&& forall|i: int, j: int| 0 <= i < j < to.len() ==> to[i] != to[j]
    &&& forall|i: int|
        0 <= i < to.len() ==> (#[trigger] to[i]) != sender && clients.contains_key(to[i])
            && clients[to[i]] is Some
    &&& forall|addr: PeerAddr| #[trigger]
        clients.contains_key(addr) && clients[addr] is Some && addr != sender ==> to.contains(addr)
}

/// Nothing that a player sends out comes back to that player: the sender is
/// not in its own audience.
pub proof fn lemma_sender_is_left_out(
    to: Seq<PeerAddr>,
    clients: Map<PeerAddr, Option<PlayerInfo>>,
    sender: PeerAddr,
)
    requires
        is_audience(to, clients, sender),
    ensures
        !to.contains(sender),
{
    if to.contains(sender) {
        let i = choose|i: int| 0 <= i < to.len() && to[i] == sender;
        assert(to[i] != sender);
    }
}

/// The slot of a click on a container: the window, the state, the slot, the
/// button and the mode are read, and all must be there.
pub open spec fn clicked_slot(packet: PacketView) -> Result<i16, ServerError> {
    match packet.take_varint() {
        Err(error) => Err(error),
        Ok((_, after_window)) => match after_window.take_varint() {
            Err(error) => Err(error),
            Ok((_, after_state)) => match after_state.take_unsigned(2) {
                Err(error) => Err(error),
                Ok((slot, after_slot)) => match after_slot.take_unsigned(1) {
                    Err(error) => Err(error),
                    Ok((_, after_button)) => match after_button.take_varint() {
                        Err(error) => Err(error),
                        Ok(_) => Ok(signed_value(slot, 2) as i16),
                    },
                },
            },
        },
    }
}

/// The three coordinates at the cursor, and the packet behind them.
pub open spec fn moved_position(packet: PacketView) -> Result<
    ((u64, u64, u64), PacketView),
    ServerError,
> {
    match packet.take_unsigned(8) {
        Err(error) => Err(error),
        Ok((x, after_x)) => match after_x.take_unsigned(8) {
            Err(error) => Err(error),
            Ok((y, after_y)) => match after_y.take_unsigned(8) {
                Err(error) => Err(error),
                Ok((z, after_z)) => Ok(((x as u64, y as u64, z as u64), after_z)),
            },
        },
    }
}

/// Yaw and pitch at the cursor, and the packet behind them.
pub open spec fn moved_rotation(packet: PacketView) -> Result<
    ((u32, u32), PacketView),
    ServerError,
> {
    match packet.take_unsigned(4) {
        Err(error) => Err(error),
        Ok((yaw, after_yaw)) => match after_yaw.take_unsigned(4) {
            Err(error) => Err(error),
            Ok((pitch, after_pitch)) => Ok(((yaw as u32, pitch as u32), after_pitch)),
        },
    }
}

/// The movement that a packet reports: the coordinates where it has them,
/// then the angles where it has them, then the flags.
pub open spec fn moved(packet: PacketView, has_position: bool, has_rotation: bool) -> Result<
    PlayRequest,
    ServerError,
> {
    let position = if has_position {
        match moved_position(packet) {
            Err(error) => Err(error),
            Ok((position, rest)) => Ok((Some(position), rest)),
        }
    } else {
        Ok((None, packet))
    };
    match position {
        Err(error) => Err(error),
        Ok((position, after_position)) => {
            let rotation = if has_rotation {
                match moved_rotation(after_position) {
                    Err(error) => Err(error),
                    Ok((rotation, rest)) => Ok((Some(rotation), rest)),
                }
            } else {
                Ok((None, after_position))
            };
            match rotation {
                Err(error) => Err(error),
                Ok((rotation, after_rotation)) => match after_rotation.take_unsigned(1) {
                    Err(error) => Err(error),
                    Ok((flags, _)) => Ok(
                        PlayRequest::Moved { position, rotation, flags: flags as u8 },
                    ),
                },
            }
        },
    }
}

/// What a packet of play asks for, by its id and the fields behind its
/// cursor. A packet that ends before its fields, or whose fields are
/// malformed, is a fault. A chat command that names no game mode, and a
/// packet with any other id, ask for nothing.
pub open spec fn play_request(packet: PacketView) -> Result<PlayRequest, ServerError> {
    if packet.id == serverbound::play::CLICK_CONTAINER {
        match clicked_slot(packet) {
            Err(error) => Err(error),
            Ok(slot) => Ok(PlayRequest::Clicked { slot }),
        }
    } else if packet.id == serverbound::play::CHAT_COMMAND || packet.id
        == serverbound::play::SIGNED_CHAT_COMMAND {
        match packet.take_string() {
            Err(error) => Err(error),
            Ok((command, _)) => match commanded_game_mode(command) {
                Some(mode) => Ok(PlayRequest::GameMode { mode }),
                None => Ok(PlayRequest::Nothing),
            },
        }
    } else if packet.id == serverbound::play::CHAT_MESSAGE {
        match packet.take_string() {
            Err(error) => Err(error),
            Ok((text, _)) => Ok(PlayRequest::Chat { text }),
        }
    } else if packet.id == serverbound::play::SET_PLAYER_POSITION {
        moved(packet, true, false)
    } else if packet.id == serverbound::play::SET_PLAYER_POSITION_AND_ROTATION {
        moved(packet, true, true)
    } else if packet.id == serverbound::play::SET_PLAYER_ROTATION {
        moved(packet, false, true)
    } else {
        Ok(PlayRequest::Nothing)
    }
}

/// Reads the fields of a click on a container.
fn take_click(packet: &mut Packet) -> (r: Result<i16, ServerError>)
    ensures
        r == clicked_slot(old(packet)@),
{
    match packet.read_varint() {
        Ok(_) => {},
        Err(error) => { return Err(error); },
    }
    match packet.read_varint() {
        Ok(_) => {},
        Err(error) => { return Err(error); },
    }
    let slot: i16 = match packet.read_short() {
        Ok(slot) => slot,
        Err(error) => { return Err(error); },
    };
    match packet.read_byte() {
        Ok(_) => {},
        Err(error) => { return Err(error); },
    }
    match packet.read_varint() {
        Ok(_) => Ok(slot),
        Err(error) => Err(error),
    }
}

/// Reads three coordinates.
fn take_position(packet: &mut Packet) -> (r: Result<(u64, u64, u64), ServerError>)
    ensures
        match moved_position(old(packet)@) {
            Ok((position, rest)) => r == Ok::<(u64, u64, u64), ServerError>(position)
                && final(packet)@ == rest,
            Err(error) => r == Err::<(u64, u64, u64), ServerError>(error),
        },
{
    let x: u64 = match packet.read_double_bits() {
        Ok(bits) => bits,
        Err(error) => { return Err(error); },
    };
    let y: u64 = match packet.read_double_bits() {
        Ok(bits) => bits,
        Err(error) => { return Err(error); },
    };
    match packet.read_double_bits() {
        Ok(z) => Ok((x, y, z)),
        Err(error) => Err(error),
    }
}

/// Reads yaw and pitch.
fn take_rotation(packet: &mut Packet) -> (r: Result<(u32, u32), ServerError>)
    ensures
        match moved_rotation(old(packet)@) {
            Ok((rotation, rest)) => r == Ok::<(u32, u32), ServerError>(rotation) && final(packet)@
                == rest,
            Err(error) => r == Err::<(u32, u32), ServerError>(error),
        },
{
    let yaw: u32 = match packet.read_float_bits() {
        Ok(bits) => bits,
        Err(error) => { return Err(error); },
    };
    match packet.read_float_bits() {
        Ok(pitch) => Ok((yaw, pitch)),
        Err(error) => Err(error),
    }
}

/// The recipients of what `sender` broadcasts.
fn audience<L: Listener, H: PacketHandler>(server: &ServerContext<L, H>, sender: PeerAddr) -> (to:
    Vec<PeerAddr>)
    ensures
        is_audience(to@, server.clients(), sender),
{
    let others: Vec<(PeerAddr, PlayerInfo)> = server.players_except(sender);
    let mut to: Vec<PeerAddr> = Vec::new();
    let mut k: usize = 0;
    while k < others.len()
        invariant
            k <= others@.len(),
            to@.len() == k,
            forall|i: int| 0 <= i < k ==> to@[i] == (#[trigger] others@[i]).0,
        decreases others@.len() - k,
    {
        to.push(others[k].0);
        k = k + 1;
    }
    proof {
        let clients = server.clients();
        assert forall|i: int, j: int| 0 <= i < j < to@.len() implies to@[i] != to@[j] by {
            assert(others@[i].0 != others@[j].0);
        }
        assert forall|i: int| 0 <= i < to@.len() implies (#[trigger] to@[i]) != sender
            && clients.contains_key(to@[i]) && clients[to@[i]] is Some by {
            assert(others@[i].0 == to@[i]);
        }
        assert forall|addr: PeerAddr| #[trigger]
            clients.contains_key(addr) && clients[addr] is Some && addr
                != sender implies to@.contains(addr) by {
            let i = choose|i: int| 0 <= i < others@.len() && (#[trigger] others@[i]).0 == addr;
            assert(to@[i] == addr);
        }
    }
    to
}

/// Reads a movement and names who is shown it.
fn take_movement<L: Listener, H: PacketHandler>(
    server: &ServerContext<L, H>,
    sender: PeerAddr,
    packet: &mut Packet,
    has_position: bool,
    has_rotation: bool,
) -> (r: Result<PlayAction, ServerError>)
    ensures
        match moved(old(packet)@, has_position, has_rotation) {
            Err(error) => r == Err::<PlayAction, ServerError>(error),
            Ok(request) => r matches Ok(action) && action.request() == request && (
            action.recipients() matches Some(to) && is_audience(to, server.clients(), sender)),
        },
{
    let position: Option<(u64, u64, u64)> = if has_position {
        match take_position(packet) {
            Ok(position) => Some(position),
            Err(error) => { return Err(error); },
        }
    } else {
        None
    };
    let rotation: Option<(u32, u32)> = if has_rotation {
        match take_rotation(packet) {
            Ok(rotation) => Some(rotation),
            Err(error) => { return Err(error); },
        }
    } else {
        None
    };
    let flags: u8 = match packet.read_byte() {
        Ok(flags) => flags,
        Err(error) => { return Err(error); },
    };
    Ok(PlayAction::Moved { position, rotation, flags, to: audience(server, sender) })
}

/// Decides what the server does with a packet that `sender` sent during
/// play.
///
/// The action and its fields follow from the packet's id and from the fields
/// behind its cursor; a packet that lacks a field is refused with the fault
/// of the read that failed. A chat message and a movement go to every session
/// of the directory that has an identity, but never to the sender.
pub fn handle_play_packet<L: Listener, H: PacketHandler>(
    server: &ServerContext<L, H>,
    sender: PeerAddr,
    packet: Packet,
) -> (r: Result<PlayAction, ServerError>)
    ensures
        match play_request(packet@) {
            Err(error) => r == Err::<PlayAction, ServerError>(error),
            Ok(request) => r matches Ok(action) && action.request() == request && (
            action.recipients() matches Some(to) ==> is_audience(to, server.clients(), sender)),
        },
{
    let mut packet: Packet = packet;
    let id: u8 = packet.id();
    if id == serverbound::play::CLICK_CONTAINER {
        match take_click(&mut packet) {
            Ok(slot) => Ok(PlayAction::Clicked { slot }),
            Err(error) => Err(error),
        }
    } else if id == serverbound::play::CHAT_COMMAND || id
        == serverbound::play::SIGNED_CHAT_COMMAND {
        match packet.read_string() {
            Ok(command) => match game_mode_command(command.as_str()) {
                Some(mode) => Ok(PlayAction::GameMode { mode }),
                None => Ok(PlayAction::Nothing),
            },
            Err(error) => Err(error),
        }
    } else if id == serverbound::play::CHAT_MESSAGE {
        match packet.read_string() {
            Ok(text) => Ok(PlayAction::Chat { text, to: audience(server, sender) }),
            Err(error) => Err(error),
        }
    } else if id == serverbound::play::SET_PLAYER_POSITION {
        take_movement(server, sender, &mut packet, true, false)
    } else if id == serverbound::play::SET_PLAYER_POSITION_AND_ROTATION {
        take_movement(server, sender, &mut packet, true, true)
    } else if id == serverbound::play::SET_PLAYER_ROTATION {
        take_movement(server, sender, &mut packet, false, true)
    } else {
        Ok(PlayAction::Nothing)
    }
}

/// Whether `words` is what a player said, as it stands in a chat line:
/// upright and white, with nothing behind it.
pub open spec fn is_said(words: TextComponent, said: Seq<char>) -> bool {
    &&& words.text@ == said
    &&& words.color matches Some(color) && color@ == "white"@
    &&& words.italic == Some(false)
    &&& words.bold is None
    &&& words.underlined is None
    &&& words.strikethrough is None
    &&& words.obfuscated is None
    &&& words.extra is None
}

/// Whether `line` is the chat line for `said` under `heading`: the heading
/// in italics, otherwise as it was, and the words behind what the heading
/// has behind it. A heading with nothing behind it takes no words.
pub open spec fn is_chat_line(line: TextComponent, heading: TextComponent, said: Seq<char>) -> bool {
    &&& line.text == heading.text
    &&& line.color == heading.color
    &&& line.bold == heading.bold
    &&& line.italic == Some(true)
    &&& line.underlined == heading.underlined
    &&& line.strikethrough == heading.strikethrough
    &&& line.obfuscated == heading.obfuscated
    &&& match heading.extra {
        None => line.extra is None,
        Some(parts) => line.extra matches Some(all) && all@.len() == parts@.len() + 1
            && all@.subrange(0, parts@.len() as int) == parts@ && is_said(all@.last(), said),
    }
}

/// Builds the line that tells the others what a player said, under a heading
/// that names the player.
pub fn chat_line(heading: TextComponent, said: &str) -> (line: TextComponent)
    ensures
        is_chat_line(line, heading, said@),
{
    let mut line: TextComponent = heading;
    line.italic = Some(true);
    match line.extra {
        None => {
            line.extra = None;
        },
        Some(parts) => {
            let mut all: Vec<TextComponent> = parts;
            let words: TextComponent = TextComponent::builder().color("white").text(said).italic(
                false,
            ).build();
            all.push(words);
            assert(all@.subrange(0, parts@.len() as int) =~= parts@);
            line.extra = Some(all);
        },
    }
    line
}

/// Whether the flags of a movement say that the player stands on the ground.
pub open spec fn grounded(flags: u8) -> bool {
    flags % 2 == 1
}

/// Tells whether the flags of a movement say that the player stands on the
/// ground: that is their lowest bit.
pub fn on_ground(flags: u8) -> (standing: bool)
    ensures
        standing == grounded(flags),
{
    flags % 2 == 1
}

/// The packet that shows the others how an entity moved: its id, the offsets
/// along the three axes where it changed place, yaw and pitch where it
/// turned, and whether it stands on the ground. Which packet it is depends on
/// what it carries.
pub open spec fn entity_moved(
    entity_id: i32,
    offsets: Option<(i16, i16, i16)>,
    angles: Option<(i8, i8)>,
    standing: bool,
) -> PacketView {
    let id = match (offsets, angles) {
        (Some(_), Some(_)) => clientbound::play::UPDATE_ENTITY_POSITION_AND_ROTATION,
        (Some(_), None) => clientbound::play::UPDATE_ENTITY_POSITION,
        _ => clientbound::play::UPDATE_ENTITY_ROTATION,
    };
    let named = bare(id).with_varint(entity_id);
    let placed = match offsets {
        Some((x, y, z)) => named.with_signed(x as int, 2).with_signed(y as int, 2).with_signed(
            z as int,
            2,
        ),
        None => named,
    };
    let turned = match angles {
        Some((yaw, pitch)) => placed.with_signed(yaw as int, 1).with_signed(pitch as int, 1),
        None => placed,
    };
    turned.with_boolean(standing)
}

/// The packet that shows the others where an entity's head points.
pub open spec fn head_turned(entity_id: i32, yaw: i8) -> PacketView {
    bare(clientbound::play::SET_HEAD_ROTATION).with_varint(entity_id).with_signed(yaw as int, 1)
}

/// Builds the packet that shows the others how an entity moved.
pub fn build_entity_moved(
    entity_id: i32,
    offsets: Option<(i16, i16, i16)>,
    angles: Option<(i8, i8)>,
    standing: bool,
) -> (packet: Packet)
    ensures
        packet@ == entity_moved(entity_id, offsets, angles, standing),
{
    let id: u8 = match (offsets, angles) {
        (Some(_), Some(_)) => clientbound::play::UPDATE_ENTITY_POSITION_AND_ROTATION,
        (Some(_), None) => clientbound::play::UPDATE_ENTITY_POSITION,
        _ => clientbound::play::UPDATE_ENTITY_ROTATION,
    };
    let mut packet: Packet = Packet::empty(id);
    packet.write_varint(entity_id);
    match offsets {
        Some((x, y, z)) => {
            packet.write_short(x);
            packet.write_short(y);
            packet.write_short(z);
        },
        None => {},
    }
    match angles {
        Some((yaw, pitch)) => {
            packet.write_signed_byte(yaw);
            packet.write_signed_byte(pitch);
        },
        None => {},
    }
    packet.write_boolean(standing);
    packet
}

/// Builds the packet that shows the others where an entity's head points.
pub fn build_head_turned(entity_id: i32, yaw: i8) -> (packet: Packet)
    ensures
        packet@ == head_turned(entity_id, yaw),
{
    let mut packet: Packet = Packet::empty(clientbound::play::SET_HEAD_ROTATION);
    packet.write_varint(entity_id);
    packet.write_signed_byte(yaw);
    packet
}

} // verus!
