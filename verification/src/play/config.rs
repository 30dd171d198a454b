//! The packets that configure a client before it enters play.
//!
//! Registry and tag data come from outside as encoded bytes and are passed on
//! as they are: the registry data as a run of uncompressed frames, whose
//! packets are sent one by one, the tag data as the body of one packet.

use crate::codec::string_bytes;
use crate::codec::varint_bytes;
use crate::error::ServerError;
use crate::event::PacketHandler;
use crate::frame;
use crate::frame::frame_at;
use crate::packet::Packet;
use crate::packet::PacketView;
use crate::player::context::answers;
use crate::player::context::ClientContext;
use crate::player::context::ClientView;
use crate::protocol::packet_id::clientbound;
use vstd::prelude::*;

verus! {

/// The feature flag that the server enables.
pub const FEATURE_FLAG: &'static str = "minecraft:vanilla";

/// Namespace, id and version of the one data pack that the server knows.
pub const PACK_NAMESPACE: &'static str = "minecraft";

pub const PACK_ID: &'static str = "core";

pub const PACK_VERSION: &'static str = "1.21.5";

/// Encoded registry and tag data, as handed in from outside.
#[derive(Debug, Clone, PartialEq, Eq)]
pub struct ConfigurationData {
    /// Registry data: uncompressed frames, one behind the other.
    pub registry: Vec<u8>,
    /// Tag data: the body of the update tags packet.
    pub tags: Vec<u8>,
}

/// The packet that lists the enabled feature flags.
pub open spec fn feature_flags() -> PacketView {
    PacketView {
        id: clientbound::configuration::FEATURE_FLAGS,
        bytes: varint_bytes(1) + string_bytes(FEATURE_FLAG@),
        cursor: 0,
    }
}

/// The packet that lists the data packs that the server knows.
pub open spec fn known_packs() -> PacketView {
    PacketView {
        id: clientbound::configuration::KNOWN_PACKS,
        bytes: varint_bytes(1) + string_bytes(PACK_NAMESPACE@) + string_bytes(PACK_ID@)
            + string_bytes(PACK_VERSION@),
        cursor: 0,
    }
}

/// The packet that carries tag data.
pub open spec fn update_tags(tags: Seq<u8>) -> PacketView {
    PacketView { id: clientbound::configuration::UPDATE_TAGS, bytes: tags, cursor: 0 }
}

/// The packet that carries one stretch of registry data.
pub open spec fn registry_data(body: Seq<u8>) -> PacketView {
    PacketView { id: clientbound::configuration::REGISTRY_DATA, bytes: body, cursor: 0 }
}

/// The packet that ends configuration.
pub open spec fn finish() -> PacketView {
    PacketView { id: clientbound::configuration::FINISH, bytes: Seq::empty(), cursor: 0 }
}

/// Sending a packet after what went before, unless that failed.
pub open spec fn then_written<H: PacketHandler>(
    before: (ClientView, Result<(), ServerError>),
    handlers: Seq<H>,
    packet: PacketView,
) -> (ClientView, Result<(), ServerError>) {
    match before.1 {
        Err(error) => before,
        Ok(_) => before.0.written(handlers, packet),
    }
}

/// Builds the packet that lists the enabled feature flags.
pub fn build_feature_flags() -> (packet: Packet)
    ensures
        packet@ == feature_flags(),
{
    let mut packet: Packet = Packet::empty(clientbound::configuration::FEATURE_FLAGS);
    proof {
        reveal_strlit("minecraft:vanilla");
        crate::packet::lemma_utf8_len_bound(FEATURE_FLAG@);
    }
    packet.write_varint(1);
    packet.write_text(FEATURE_FLAG);
    assert(packet@.bytes =~= varint_bytes(1) + string_bytes(FEATURE_FLAG@));
    packet
}

/// Builds the packet that lists the data packs that the server knows.
pub fn build_known_packs() -> (packet: Packet)
    ensures
        packet@ == known_packs(),
{
    let mut packet: Packet = Packet::empty(clientbound::configuration::KNOWN_PACKS);
    proof {
        reveal_strlit("minecraft");
        reveal_strlit("core");
        reveal_strlit("1.21.5");
        crate::packet::lemma_utf8_len_bound(PACK_NAMESPACE@);
        crate::packet::lemma_utf8_len_bound(PACK_ID@);
        crate::packet::lemma_utf8_len_bound(PACK_VERSION@);
    }
    packet.write_varint(1);
    packet.write_text(PACK_NAMESPACE);
    packet.write_text(PACK_ID);
    packet.write_text(PACK_VERSION);
    assert(packet@.bytes =~= varint_bytes(1) + string_bytes(PACK_NAMESPACE@) + string_bytes(
        PACK_ID@,
    ) + string_bytes(PACK_VERSION@));
    packet
}

/// What sending the tag data makes of a session.
pub open spec fn tags_sent<H: PacketHandler>(handlers: Seq<H>, client: ClientView, tags: Seq<u8>) -> (
    ClientView,
    Result<(), ServerError>,
) {
    client.written(handlers, update_tags(tags))
}

/// Sends the tag data, as it is, in one packet.
pub fn send_update_tags<H: PacketHandler>(
    handlers: &Vec<H>,
    client: &mut ClientContext,
    tags: &[u8],
) -> (r: Result<(), ServerError>)
    ensures
        final(client)@ == tags_sent(handlers@, old(client)@, tags@).0,
        answers(r, tags_sent(handlers@, old(client)@, tags@).1),
{
    let packet: Packet = Packet::from_bytes(clientbound::configuration::UPDATE_TAGS, tags);
    client.write_packet(handlers, &packet)
}

/// What sending the registry data makes of a session: frame by frame, the
/// packet of each frame is sent under the id of registry data, until the
/// bytes hold no further complete frame or a packet cannot be sent.
pub open spec fn registry_sent<H: PacketHandler>(
    handlers: Seq<H>,
    client: ClientView,
    registry: Seq<u8>,
) -> (ClientView, Result<(), ServerError>)
    decreases registry.len(),
{
    match frame_at(registry, None) {
        Ok(Some((packet, used))) => if 0 < used <= registry.len() {
            let (sent, r) = client.written(handlers, registry_data(packet.bytes));
            match r {
                Err(error) => (sent, Err(error)),
                Ok(_) => registry_sent(
                    handlers,
                    sent,
                    registry.subrange(used as int, registry.len() as int),
                ),
            }
        } else {
            (client, Ok(()))
        },
        _ => (client, Ok(())),
    }
}

/// Sending registry data changes nothing about a session but its write
/// queue.
pub proof fn lemma_registry_sent_keeps_session<H: PacketHandler>(
    handlers: Seq<H>,
    client: ClientView,
    registry: Seq<u8>,
)
    ensures
        registry_sent(handlers, client, registry).0 == (ClientView {
            outbound: registry_sent(handlers, client, registry).0.outbound,
            ..client
        }),
    decreases registry.len(),
{
    match frame_at(registry, None) {
        Ok(Some((packet, used))) => {
            if 0 < used <= registry.len() {
                let (sent, r) = client.written(handlers, registry_data(packet.bytes));
                if r is Ok {
                    lemma_registry_sent_keeps_session(
                        handlers,
                        sent,
                        registry.subrange(used as int, registry.len() as int),
                    );
                }
            }
        },
        _ => {},
    }
}

/// Sends the registry data, frame by frame.
pub fn send_registry_data<H: PacketHandler>(
    handlers: &Vec<H>,
    client: &mut ClientContext,
    registry: &[u8],
) -> (r: Result<(), ServerError>)
    ensures
        final(client)@ == registry_sent(handlers@, old(client)@, registry@).0,
        answers(r, registry_sent(handlers@, old(client)@, registry@).1),
{
    let total: usize = registry.len();
    let mut at: usize = 0;
    assert(registry@.subrange(0, total as int) =~= registry@);
    loop
        invariant
            at <= total,
            total == registry@.len(),
            registry_sent(handlers@, old(client)@, registry@) == registry_sent(
                handlers@,
                client@,
                registry@.subrange(at as int, total as int),
            ),
        decreases total - at,
    {
        let rest: &[u8] = vstd::slice::slice_subrange(registry, at, total);
        match frame::decode_frame(rest, None) {
            Ok(Some((packet, used))) => {
                let mut packet: Packet = packet;
                packet.set_id(clientbound::configuration::REGISTRY_DATA);
                proof {
                    assert(rest@.subrange(used as int, rest@.len() as int) =~= registry@.subrange(
                        at + used,
                        total as int,
                    ));
                }
                match client.write_packet(handlers, &packet) {
                    Err(error) => { return Err(error); },
                    Ok(_) => {},
                }
                at = at + used;
            },
            _ => { return Ok(()); },
        }
    }
}

/// What the packets that open configuration make of a session: the feature
/// flags and the known packs are announced.
pub open spec fn configuration_opened<H: PacketHandler>(handlers: Seq<H>, client: ClientView) -> (
    ClientView,
    Result<(), ServerError>,
) {
    then_written(client.written(handlers, feature_flags()), handlers, known_packs())
}

/// Announces the feature flags and the known packs.
pub fn handle_configuration_state<H: PacketHandler>(handlers: &Vec<H>, client: &mut ClientContext) -> (r:
    Result<(), ServerError>)
    ensures
        final(client)@ == configuration_opened(handlers@, old(client)@).0,
        answers(r, configuration_opened(handlers@, old(client)@).1),
{
    let flags: Packet = build_feature_flags();
    match client.write_packet(handlers, &flags) {
        Err(error) => { return Err(error); },
        Ok(_) => {},
    }
    let packs: Packet = build_known_packs();
    client.write_packet(handlers, &packs)
}

/// What the packets that close configuration make of a session: registry
/// data, tag data, and the packet that ends configuration.
pub open spec fn configuration_closed<H: PacketHandler>(
    handlers: Seq<H>,
    client: ClientView,
    registry: Seq<u8>,
    tags: Seq<u8>,
) -> (ClientView, Result<(), ServerError>) {
    let sent = registry_sent(handlers, client, registry);
    then_written(then_written(sent, handlers, update_tags(tags)), handlers, finish())
}

/// Sends registry data, tag data, and the packet that ends configuration.
pub fn finish_configuration<H: PacketHandler>(
    handlers: &Vec<H>,
    client: &mut ClientContext,
    data: &ConfigurationData,
) -> (r: Result<(), ServerError>)
    ensures
        final(client)@ == configuration_closed(
            handlers@,
            old(client)@,
            data.registry@,
            data.tags@,
        ).0,
        answers(
            r,
            configuration_closed(handlers@, old(client)@, data.registry@, data.tags@).1,
        ),
{
    match send_registry_data(handlers, client, data.registry.as_slice()) {
        Err(error) => { return Err(error); },
        Ok(_) => {},
    }
    match send_update_tags(handlers, client, data.tags.as_slice()) {
        Err(error) => { return Err(error); },
        Ok(_) => {},
    }
    let end: Packet = Packet::empty(clientbound::configuration::FINISH);
    client.write_packet(handlers, &end)
}

} // verus!
