//! What the server sends on its own account: the packets of configuration
//! and of play, and the decisions of play that need no clock and no socket.

use crate::codec;
use crate::codec::be_bytes;
use crate::codec::unsigned_value;
use crate::codec::varint_bytes;
use crate::error::ServerError;
use crate::event::PacketHandler;
use crate::packet::Packet;
use crate::packet::PacketView;
use crate::play::config::then_written;
use crate::play::helper::center_chunk;
use crate::play::helper::chunk_unloaded;
use crate::play::helper::game_event;
use crate::play::helper::player_position;
use crate::play::helper::Placement;
use crate::player::context::answers;
use crate::player::context::ClientContext;
use crate::player::context::ClientView;
use crate::player::helper::bare;
use crate::error::ProtocolFault;
use crate::play::helper::EVENT_WAIT_FOR_CHUNKS;
use uuid::Uuid;
use crate::protocol::packet_id::clientbound;
use vstd::prelude::*;

pub mod action;
pub mod config;
pub mod helper;

verus! {

/// The dimensions that the server announces.
pub const OVERWORLD: &'static str = "minecraft:overworld";

pub const NETHER: &'static str = "minecraft:nether";

pub const THE_END: &'static str = "minecraft:the_end";

pub const OVERWORLD_CAVES: &'static str = "minecraft:overworld_caves";

/// The hashed seed that the server announces.
pub const HASHED_SEED: i64 = 0x0f38f26ad09c3e20;

/// The entity type of a player.
pub const PLAYER_ENTITY_TYPE: i32 = 148;

/// The bit pattern of the number 8 as a 64-bit floating-point number: the
/// coordinate at which players enter the world.
pub const SPAWN_COORDINATE: u64 = 0x4020_0000_0000_0000;

/// The packet that lets a player into the world.
pub open spec fn login_packet(entity_id: i32) -> PacketView {
    bare(clientbound::play::LOGIN).with_signed(entity_id as int, 4).with_boolean(false).with_varint(
        4,
    ).with_string(OVERWORLD@).with_string(NETHER@).with_string(THE_END@).with_string(
        OVERWORLD_CAVES@,
    ).with_varint(0).with_varint(8).with_varint(5).with_boolean(false).with_boolean(
        true,
    ).with_boolean(false).with_varint(0).with_string(OVERWORLD@).with_signed(
        HASHED_SEED as int,
        8,
    ).with_byte(0).with_signed(-1, 1).with_boolean(false).with_boolean(true).with_boolean(
        false,
    ).with_varint(20).with_varint(60).with_boolean(false)
}

/// Builds the packet that lets a player into the world: the entity id, four
/// dimensions, view distance 8, simulation distance 5, a flat overworld in
/// survival mode with the respawn screen enabled.
pub fn build_login(entity_id: i32) -> (packet: Packet)
    ensures
        packet@ == login_packet(entity_id),
{
    let mut packet: Packet = Packet::empty(clientbound::play::LOGIN);
    proof {
        reveal_strlit("minecraft:overworld");
        reveal_strlit("minecraft:nether");
        reveal_strlit("minecraft:the_end");
        reveal_strlit("minecraft:overworld_caves");
        crate::packet::lemma_utf8_len_bound(OVERWORLD@);
        crate::packet::lemma_utf8_len_bound(NETHER@);
        crate::packet::lemma_utf8_len_bound(THE_END@);
        crate::packet::lemma_utf8_len_bound(OVERWORLD_CAVES@);
    }
    packet.write_int(entity_id);
    packet.write_boolean(false);
    packet.write_varint(4);
    packet.write_text(OVERWORLD);
    packet.write_text(NETHER);
    packet.write_text(THE_END);
    packet.write_text(OVERWORLD_CAVES);
    packet.write_varint(0);
    packet.write_varint(8);
    packet.write_varint(5);
    packet.write_boolean(false);
    packet.write_boolean(true);
    packet.write_boolean(false);
    packet.write_varint(0);
    packet.write_text(OVERWORLD);
    packet.write_long(HASHED_SEED);
    packet.write_byte(0);
    packet.write_signed_byte(-1);
    packet.write_boolean(false);
    packet.write_boolean(true);
    packet.write_boolean(false);
    packet.write_varint(20);
    packet.write_varint(60);
    packet.write_boolean(false);
    packet
}

/// Lets a player into the world.
pub fn send_login<H: PacketHandler>(handlers: &Vec<H>, client: &mut ClientContext, entity_id: i32) -> (r:
    Result<(), ServerError>)
    ensures
        final(client)@ == old(client)@.written(handlers@, login_packet(entity_id)).0,
        answers(r, old(client)@.written(handlers@, login_packet(entity_id)).1),
{
    let packet: Packet = build_login(entity_id);
    client.write_packet(handlers, &packet)
}

/// `unit`, `count` times over.
pub open spec fn repeated(unit: Seq<u8>, count: nat) -> Seq<u8>
    decreases count,
{
    if count == 0 {
        Seq::empty()
    } else {
        repeated(unit, (count - 1) as nat) + unit
    }
}

/// One section of a chunk, every block the same and every biome the same:
/// the number of blocks that are not air, then the one block state and the
/// one biome, each as a palette of a single value.
pub open spec fn section(solid_blocks: i16, block_state: i32, biome: i32) -> Seq<u8> {
    be_bytes(unsigned_value(solid_blocks as int, 2), 2) + seq![0u8] + varint_bytes(block_state)
        + seq![0u8] + varint_bytes(biome)
}

/// The sections of the example chunk: four of stone, twenty of air.
pub open spec fn example_sections() -> Seq<u8> {
    repeated(section(4096, 1, 1), 4) + repeated(section(0, 0, 27), 20)
}

/// The packet that carries the example chunk: one height map of 37 longs,
/// all zero; the sections; no block entities; no light.
pub open spec fn example_chunk(x: i32, z: i32) -> PacketView {
    bare(clientbound::play::CHUNK_DATA_AND_UPDATE_LIGHT).with_signed(x as int, 4).with_signed(
        z as int,
        4,
    ).with_varint(1).with_varint(0).with_varint(37).appended(
        repeated(be_bytes(0, 8), 37),
    ).with_varint(example_sections().len() as i32).appended(example_sections()).appended(
        repeated(seq![0u8], 7),
    )
}

/// A repetition is as long as its units together.
pub proof fn lemma_repeated_len(unit: Seq<u8>, count: nat)
    ensures
        repeated(unit, count).len() as int == (count as int) * (unit.len() as int),
    decreases count,
{
    let n = unit.len() as int;
    let c = count as int;
    if count > 0 {
        lemma_repeated_len(unit, (count - 1) as nat);
        assert(c * n == (c - 1) * n + n) by (nonlinear_arith);
    } else {
        assert(c * n == 0) by (nonlinear_arith)
            requires
                c == 0,
        ;
    }
}

fn write_sections(data: &mut Vec<u8>, count: usize, solid_blocks: i16, block_state: i32, biome: i32)
    requires
        solid_blocks >= 0,
    ensures
        final(data)@ == old(data)@ + repeated(
            section(solid_blocks, block_state, biome),
            count as nat,
        ),
{
    let ghost start = data@;
    let ghost unit = section(solid_blocks, block_state, biome);
    let mut done: usize = 0;
    assert(data@ =~= start + repeated(unit, 0));
    while done < count
        invariant
            done <= count,
            solid_blocks >= 0,
            unit == section(solid_blocks, block_state, biome),
            data@ == start + repeated(unit, done as nat),
        decreases count - done,
    {
        let ghost before = data@;
        codec::write_unsigned(data, solid_blocks as u128, 2);
        data.push(0u8);
        codec::write_varint(data, block_state);
        data.push(0u8);
        codec::write_varint(data, biome);
        assert(data@ =~= before + unit);
        done = done + 1;
        assert(data@ =~= start + repeated(unit, done as nat));
    }
}

/// Builds the packet that carries the example chunk.
pub fn build_example_chunk(x: i32, z: i32) -> (packet: Packet)
    ensures
        packet@ == example_chunk(x, z),
{
    let mut packet: Packet = Packet::empty(clientbound::play::CHUNK_DATA_AND_UPDATE_LIGHT);
    packet.write_int(x);
    packet.write_int(z);
    packet.write_varint(1);
    packet.write_varint(0);
    packet.write_varint(37);
    let ghost head = packet@;
    let mut longs: usize = 0;
    assert(packet@.bytes =~= head.bytes + repeated(be_bytes(0, 8), 0));
    while longs < 37
        invariant
            longs <= 37,
            packet@ == head.appended(repeated(be_bytes(0, 8), longs as nat)),
        decreases 37 - longs,
    {
        let ghost before = packet@;
        packet.write_unsigned(0, 8);
        longs = longs + 1;
        assert(packet@.bytes =~= head.bytes + repeated(be_bytes(0, 8), longs as nat));
    }
    let mut data: Vec<u8> = Vec::new();
    write_sections(&mut data, 4, 4096, 1, 1);
    write_sections(&mut data, 20, 0, 0, 27);
    proof {
        assert(data@ =~= example_sections());
        lemma_repeated_len(section(4096, 1, 1), 4);
        lemma_repeated_len(section(0, 0, 27), 20);
        codec::lemma_varint_round_trip(1);
        codec::lemma_varint_round_trip(0);
        codec::lemma_varint_round_trip(27);
        codec::lemma_be_bytes_len(unsigned_value(4096, 2), 2);
        codec::lemma_be_bytes_len(unsigned_value(0, 2), 2);
    }
    let written: Result<(), ServerError> = packet.write_usize_varint(data.len());
    packet.write_bytes(data.as_slice());
    let ghost body = packet@;
    let mut zeros: usize = 0;
    assert(packet@.bytes =~= body.bytes + repeated(seq![0u8], 0));
    while zeros < 7
        invariant
            zeros <= 7,
            packet@ == body.appended(repeated(seq![0u8], zeros as nat)),
        decreases 7 - zeros,
    {
        packet.write_byte(0);
        zeros = zeros + 1;
        assert(packet@.bytes =~= body.bytes + repeated(seq![0u8], zeros as nat));
    }
    packet
}

/// Sends the example chunk at the given chunk coordinates.
pub fn send_example_chunk<H: PacketHandler>(
    handlers: &Vec<H>,
    client: &mut ClientContext,
    x: i32,
    z: i32,
) -> (r: Result<(), ServerError>)
    ensures
        final(client)@ == old(client)@.written(handlers@, example_chunk(x, z)).0,
        answers(r, old(client)@.written(handlers@, example_chunk(x, z)).1),
{
    let packet: Packet = build_example_chunk(x, z);
    client.write_packet(handlers, &packet)
}

/// The items of `items` that are not among `excluded`, in their order.
pub open spec fn kept(items: Seq<(i32, i32)>, excluded: Seq<(i32, i32)>) -> Seq<(i32, i32)>
    decreases items.len(),
{
    if items.len() == 0 {
        Seq::empty()
    } else {
        let before = kept(items.drop_last(), excluded);
        if excluded.contains(items.last()) {
            before
        } else {
            before.push(items.last())
        }
    }
}

/// The chunks `(x, from)`, `(x, from + 1)`, ... up to `count` of them.
pub open spec fn chunk_row(x: int, from: int, count: nat) -> Seq<(i32, i32)>
    decreases count,
{
    if count == 0 {
        Seq::empty()
    } else {
        chunk_row(x, from, (count - 1) as nat).push((x as i32, (from + count - 1) as i32))
    }
}

/// The rows `x_from`, `x_from + 1`, ... up to `rows` of them, each of
/// `width` chunks from `z_from` on, one row behind the other.
pub open spec fn chunk_square(x_from: int, rows: nat, z_from: int, width: nat) -> Seq<(i32, i32)>
    decreases rows,
{
    if rows == 0 {
        Seq::empty()
    } else {
        chunk_square(x_from, (rows - 1) as nat, z_from, width) + chunk_row(
            x_from + rows - 1,
            z_from,
            width,
        )
    }
}

/// The number of chunks along one side of the square around a player.
pub open spec fn side(distance: i32) -> nat {
    if distance < 0 {
        0
    } else {
        (2 * distance + 1) as nat
    }
}

/// The chunks within `distance` of `center`, row by row.
pub open spec fn chunks_around(distance: i32, center: (i32, i32)) -> Seq<(i32, i32)> {
    chunk_square(center.0 - distance, side(distance), center.1 - distance, side(distance))
}

/// Whether the square around `center` stays within the coordinates that
/// there are.
pub open spec fn within_world(distance: i32, center: (i32, i32)) -> bool {
    distance >= 0 ==> i32::MIN <= center.0 - distance && center.0 + distance <= i32::MAX
        && i32::MIN <= center.1 - distance && center.1 + distance <= i32::MAX
}

/// A row holds `count` chunks, the `k`-th of them `k` steps along z.
pub proof fn lemma_chunk_row(x: int, from: int, count: nat)
    ensures
        chunk_row(x, from, count).len() == count,
        forall|k: int|
            0 <= k < count ==> #[trigger] chunk_row(x, from, count)[k] == (
                x as i32,
                (from + k) as i32,
            ),
    decreases count,
{
    if count > 0 {
        lemma_chunk_row(x, from, (count - 1) as nat);
    }
}

/// The place, in rows of `width` chunks one behind the other, of the chunk
/// `j` steps along row `i`.
pub open spec fn square_index(i: int, width: nat, j: int) -> int {
    i * width + j
}

/// Rows one behind the other hold `rows * width` chunks; the chunk `j` steps
/// along row `i` is `i` steps along x and `j` steps along z.
pub proof fn lemma_chunk_square(x_from: int, rows: nat, z_from: int, width: nat)
    ensures
        chunk_square(x_from, rows, z_from, width).len() == rows * width,
        forall|i: int, j: int|
            0 <= i < rows && 0 <= j < width ==> 0 <= #[trigger] square_index(i, width, j)
                < rows * width && chunk_square(x_from, rows, z_from, width)[square_index(
                i,
                width,
                j,
            )] == ((x_from + i) as i32, (z_from + j) as i32),
    decreases rows,
{
    if rows > 0 {
        let above = (rows - 1) as nat;
        lemma_chunk_square(x_from, above, z_from, width);
        lemma_chunk_row(x_from + rows - 1, z_from, width);
        let before = chunk_square(x_from, above, z_from, width);
        let row = chunk_row(x_from + rows - 1, z_from, width);
        assert(above * width + width == rows * width) by (nonlinear_arith)
            requires
                above + 1 == rows,
        ;
        assert forall|i: int, j: int| 0 <= i < rows && 0 <= j < width implies 0
            <= #[trigger] square_index(i, width, j) < rows * width && chunk_square(
            x_from,
            rows,
            z_from,
            width,
        )[square_index(i, width, j)] == ((x_from + i) as i32, (z_from + j) as i32) by {
            assert(0 <= i * width) by (nonlinear_arith)
                requires
                    0 <= i,
            ;
            if i < above {
                assert(i * width + width <= above * width) by (nonlinear_arith)
                    requires
                        0 <= i < above,
                ;
                assert(0 <= square_index(i, width, j) < above * width);
                assert(before[square_index(i, width, j)] == (
                    (x_from + i) as i32,
                    (z_from + j) as i32,
                ));
            } else {
                assert(square_index(i, width, j) == before.len() + j);
                assert(row[j] == ((x_from + i) as i32, (z_from + j) as i32));
            }
        }
    } else {
        assert(rows * width == 0) by (nonlinear_arith)
            requires
                rows == 0,
        ;
    }
}

/// The chunks around a player are a square with the player's chunk in the
/// middle, `2 * distance + 1` chunks along each side, listed row by row: x
/// ascending, and within a row z ascending.
pub proof fn lemma_chunks_around(distance: i32, center: (i32, i32))
    requires
        distance >= 0,
        within_world(distance, center),
    ensures
        chunks_around(distance, center).len() == (2 * distance + 1) * (2 * distance + 1),
        forall|i: int, j: int|
            0 <= i <= 2 * distance && 0 <= j <= 2 * distance ==> chunks_around(
                distance,
                center,
            )[#[trigger] square_index(i, side(distance), j)] == (
                (center.0 - distance + i) as i32,
                (center.1 - distance + j) as i32,
            ),
        chunks_around(distance, center)[square_index(
            distance as int,
            side(distance),
            distance as int,
        )] == center,
{
    lemma_chunk_square(
        center.0 - distance,
        side(distance),
        center.1 - distance,
        side(distance),
    );
    assert(0 <= square_index(distance as int, side(distance), distance as int));
}

/// What a move changes about the chunks that a client holds.
#[derive(Debug, Clone, PartialEq, Eq)]
pub struct ChunkPlan {
    /// The chunks that the client holds afterwards.
    pub visible: Vec<(i32, i32)>,
    /// The chunks to send, in order.
    pub load: Vec<(i32, i32)>,
    /// The chunks to make the client forget, in order.
    pub unload: Vec<(i32, i32)>,
}

fn contains_chunk(chunks: &Vec<(i32, i32)>, chunk: (i32, i32)) -> (found: bool)
    ensures
        found == chunks@.contains(chunk),
{
    let mut i: usize = 0;
    while i < chunks.len()
        invariant
            i <= chunks@.len(),
            forall|k: int| 0 <= k < i ==> chunks@[k] != chunk,
        decreases chunks@.len() - i,
    {
        if chunks[i].0 == chunk.0 && chunks[i].1 == chunk.1 {
            return true;
        }
        i = i + 1;
    }
    false
}

fn keep_chunks(items: &Vec<(i32, i32)>, excluded: &Vec<(i32, i32)>) -> (out: Vec<(i32, i32)>)
    ensures
        out@ == kept(items@, excluded@),
{
    let mut out: Vec<(i32, i32)> = Vec::new();
    let mut i: usize = 0;
    assert(items@.take(0) =~= Seq::empty());
    while i < items.len()
        invariant
            i <= items@.len(),
            out@ == kept(items@.take(i as int), excluded@),
        decreases items@.len() - i,
    {
        let item: (i32, i32) = items[i];
        assert(items@.take(i as int + 1).drop_last() =~= items@.take(i as int));
        if !contains_chunk(excluded, item) {
            out.push(item);
        }
        i = i + 1;
    }
    assert(items@.take(i as int) =~= items@);
    out
}

fn chunks_in_square(distance: i32, center: (i32, i32)) -> (out: Vec<(i32, i32)>)
    requires
        within_world(distance, center),
    ensures
        out@ == chunks_around(distance, center),
{
    let mut out: Vec<(i32, i32)> = Vec::new();
    if distance < 0 {
        return out;
    }
    let x_from: i64 = center.0 as i64 - distance as i64;
    let z_from: i64 = center.1 as i64 - distance as i64;
    let x_last: i64 = center.0 as i64 + distance as i64;
    let z_last: i64 = center.1 as i64 + distance as i64;
    let ghost width = side(distance);
    let mut x: i64 = x_from;
    while x <= x_last
        invariant
            distance >= 0,
            width == side(distance),
            x_from == center.0 - distance,
            z_from == center.1 - distance,
            x_last == center.0 + distance,
            z_last == center.1 + distance,
            i32::MIN <= x_from,
            i32::MIN <= z_from,
            x_last <= i32::MAX,
            z_last <= i32::MAX,
            x_from <= x <= x_last + 1,
            out@ == chunk_square(x_from as int, (x - x_from) as nat, z_from as int, width),
        decreases x_last + 1 - x,
    {
        let ghost rows = out@;
        let mut z: i64 = z_from;
        assert(out@ =~= rows + chunk_row(x as int, z_from as int, 0));
        while z <= z_last
            invariant
                i32::MIN <= x <= i32::MAX,
                i32::MIN <= z_from,
                z_from <= z <= z_last + 1,
                z_last <= i32::MAX,
                out@ == rows + chunk_row(x as int, z_from as int, (z - z_from) as nat),
            decreases z_last + 1 - z,
        {
            out.push((x as i32, z as i32));
            z = z + 1;
            assert(out@ =~= rows + chunk_row(x as int, z_from as int, (z - z_from) as nat));
        }
        x = x + 1;
    }
    out
}

/// Decides what a move changes about the chunks that a client holds: the
/// client is to hold the chunks within `distance` of `center`; of these,
/// those it does not hold are to be sent, and of those it holds, those out of
/// reach are to be forgotten.
pub fn plan_chunks(chunks: &Vec<(i32, i32)>, distance: i32, center: (i32, i32)) -> (plan: ChunkPlan)
    requires
        within_world(distance, center),
    ensures
        plan.visible@ == chunks_around(distance, center),
        plan.load@ == kept(chunks_around(distance, center), chunks@),
        plan.unload@ == kept(chunks@, chunks_around(distance, center)),
{
    let visible: Vec<(i32, i32)> = chunks_in_square(distance, center);
    let load: Vec<(i32, i32)> = keep_chunks(&visible, chunks);
    let unload: Vec<(i32, i32)> = keep_chunks(chunks, &visible);
    ChunkPlan { visible, load, unload }
}

/// What sending example chunks makes of a session, chunk by chunk, until one
/// cannot be sent.
pub open spec fn chunks_loaded<H: PacketHandler>(
    handlers: Seq<H>,
    client: ClientView,
    chunks: Seq<(i32, i32)>,
) -> (ClientView, Result<(), ServerError>)
    decreases chunks.len(),
{
    if chunks.len() == 0 {
        (client, Ok(()))
    } else {
        then_written(
            chunks_loaded(handlers, client, chunks.drop_last()),
            handlers,
            example_chunk(chunks.last().0, chunks.last().1),
        )
    }
}

/// What unloading chunks makes of a session, chunk by chunk, after what went
/// before, until one cannot be sent.
pub open spec fn chunks_unloaded<H: PacketHandler>(
    before: (ClientView, Result<(), ServerError>),
    handlers: Seq<H>,
    chunks: Seq<(i32, i32)>,
) -> (ClientView, Result<(), ServerError>)
    decreases chunks.len(),
{
    if chunks.len() == 0 {
        before
    } else {
        then_written(
            chunks_unloaded(before, handlers, chunks.drop_last()),
            handlers,
            chunk_unloaded(chunks.last().0, chunks.last().1),
        )
    }
}

/// What a move makes of a session: the chunks that came into reach are sent,
/// then the chunks that went out of reach are unloaded.
pub open spec fn chunks_refreshed<H: PacketHandler>(
    handlers: Seq<H>,
    client: ClientView,
    chunks: Seq<(i32, i32)>,
    distance: i32,
    center: (i32, i32),
) -> (ClientView, Result<(), ServerError>) {
    chunks_unloaded(
        chunks_loaded(handlers, client, kept(chunks_around(distance, center), chunks)),
        handlers,
        kept(chunks, chunks_around(distance, center)),
    )
}

/// Brings the chunks that a client holds up to date with where its player
/// is: sends the example chunk for every chunk within `distance` of `center`
/// that the client does not hold, and unloads every chunk it holds that is
/// out of reach. When all went well, `chunks` lists what the client holds
/// now; when a packet could not be sent, `chunks` is as it was.
#[verifier::loop_isolation(false)]
pub fn send_example_chunks_in_distance<H: PacketHandler>(
    handlers: &Vec<H>,
    client: &mut ClientContext,
    chunks: &mut Vec<(i32, i32)>,
    distance: i32,
    center: (i32, i32),
) -> (r: Result<(), ServerError>)
    requires
        within_world(distance, center),
    ensures
        final(client)@ == chunks_refreshed(
            handlers@,
            old(client)@,
            old(chunks)@,
            distance,
            center,
        ).0,
        answers(
            r,
            chunks_refreshed(handlers@, old(client)@, old(chunks)@, distance, center).1,
        ),
        final(chunks)@ == if r is Ok {
            chunks_around(distance, center)
        } else {
            old(chunks)@
        },
{
    let plan: ChunkPlan = plan_chunks(chunks, distance, center);
    let ghost start = client@;
    let mut i: usize = 0;
    assert(plan.load@.take(0) =~= Seq::empty());
    while i < plan.load.len()
        invariant
            i <= plan.load@.len(),
            chunks_loaded(handlers@, start, plan.load@.take(i as int)) == (client@, Ok::<
                (),
                ServerError,
            >(())),
        decreases plan.load@.len() - i,
    {
        let chunk: (i32, i32) = plan.load[i];
        assert(plan.load@.take(i as int + 1).drop_last() =~= plan.load@.take(i as int));
        let ghost upto = plan.load@.take(i as int + 1);
        match send_example_chunk(handlers, client, chunk.0, chunk.1) {
            Err(error) => {
                proof {
                    lemma_load_stays_failed(
                        handlers@,
                        start,
                        plan.load@,
                        i as int + 1,
                        plan.load@.len() as int,
                    );
                    assert(plan.load@.take(plan.load@.len() as int) =~= plan.load@);
                    lemma_unload_stays_failed(
                        chunks_loaded(handlers@, start, plan.load@),
                        handlers@,
                        plan.unload@,
                    );
                }
                return Err(error);
            },
            Ok(_) => {},
        }
        i = i + 1;
    }
    assert(plan.load@.take(i as int) =~= plan.load@);
    let ghost loaded = (client@, Ok::<(), ServerError>(()));
    let mut k: usize = 0;
    assert(plan.unload@.take(0) =~= Seq::empty());
    while k < plan.unload.len()
        invariant
            k <= plan.unload@.len(),
            chunks_unloaded(loaded, handlers@, plan.unload@.take(k as int)) == (client@, Ok::<
                (),
                ServerError,
            >(())),
        decreases plan.unload@.len() - k,
    {
        let chunk: (i32, i32) = plan.unload[k];
        assert(plan.unload@.take(k as int + 1).drop_last() =~= plan.unload@.take(k as int));
        match helper::unload_chunk(handlers, client, chunk.0, chunk.1) {
            Err(error) => {
                proof {
                    lemma_unload_prefix_failed(
                        loaded,
                        handlers@,
                        plan.unload@,
                        k as int + 1,
                        plan.unload@.len() as int,
                    );
                    assert(plan.unload@.take(plan.unload@.len() as int) =~= plan.unload@);
                }
                return Err(error);
            },
            Ok(_) => {},
        }
        k = k + 1;
    }
    assert(plan.unload@.take(k as int) =~= plan.unload@);
    *chunks = plan.visible;
    Ok(())
}

/// Once a chunk could not be sent, no further chunk is.
proof fn lemma_load_stays_failed<H: PacketHandler>(
    handlers: Seq<H>,
    client: ClientView,
    chunks: Seq<(i32, i32)>,
    failed: int,
    upto: int,
)
    requires
        0 <= failed <= upto <= chunks.len(),
        chunks_loaded(handlers, client, chunks.take(failed)).1 is Err,
    ensures
        chunks_loaded(handlers, client, chunks.take(upto)) == chunks_loaded(
            handlers,
            client,
            chunks.take(failed),
        ),
    decreases upto - failed,
{
    if failed < upto {
        lemma_load_stays_failed(handlers, client, chunks, failed, upto - 1);
        assert(chunks.take(upto).drop_last() =~= chunks.take(upto - 1));
    }
}

/// After a failure nothing is unloaded.
proof fn lemma_unload_stays_failed<H: PacketHandler>(
    before: (ClientView, Result<(), ServerError>),
    handlers: Seq<H>,
    chunks: Seq<(i32, i32)>,
)
    requires
        before.1 is Err,
    ensures
        chunks_unloaded(before, handlers, chunks) == before,
    decreases chunks.len(),
{
    if chunks.len() > 0 {
        lemma_unload_stays_failed(before, handlers, chunks.drop_last());
    }
}

/// Once a chunk could not be unloaded, no further chunk is.
proof fn lemma_unload_prefix_failed<H: PacketHandler>(
    before: (ClientView, Result<(), ServerError>),
    handlers: Seq<H>,
    chunks: Seq<(i32, i32)>,
    failed: int,
    upto: int,
)
    requires
        0 <= failed <= upto <= chunks.len(),
        chunks_unloaded(before, handlers, chunks.take(failed)).1 is Err,
    ensures
        chunks_unloaded(before, handlers, chunks.take(upto)) == chunks_unloaded(
            before,
            handlers,
            chunks.take(failed),
        ),
    decreases upto - failed,
{
    if failed < upto {
        lemma_unload_prefix_failed(before, handlers, chunks, failed, upto - 1);
        assert(chunks.take(upto).drop_last() =~= chunks.take(upto - 1));
    }
}


/// The packets that take a player away from another player's view: out of the
/// player list, and out of the world.
pub open spec fn player_removed(uuid: u128, entity_id: i32) -> (PacketView, PacketView) {
    (
        bare(clientbound::play::PLAYER_INFO_REMOVE).with_varint(1).with_unsigned(uuid as nat, 16),
        bare(clientbound::play::REMOVE_ENTITIES).with_varint(1).with_varint(entity_id),
    )
}

/// Takes a player away from the view of the player whose session `receiver`
/// is.
pub fn remove_player<H: PacketHandler>(
    handlers: &Vec<H>,
    receiver: &mut ClientContext,
    uuid: u128,
    entity_id: i32,
) -> (r: Result<(), ServerError>)
    ensures
        final(receiver)@ == then_written(
            old(receiver)@.written(handlers@, player_removed(uuid, entity_id).0),
            handlers@,
            player_removed(uuid, entity_id).1,
        ).0,
        answers(
            r,
            then_written(
                old(receiver)@.written(handlers@, player_removed(uuid, entity_id).0),
                handlers@,
                player_removed(uuid, entity_id).1,
            ).1,
        ),
{
    let mut listed: Packet = Packet::empty(clientbound::play::PLAYER_INFO_REMOVE);
    listed.write_varint(1);
    listed.write_uuid(uuid);
    match receiver.write_packet(handlers, &listed) {
        Err(error) => { return Err(error); },
        Ok(_) => {},
    }
    let mut entity: Packet = Packet::empty(clientbound::play::REMOVE_ENTITIES);
    entity.write_varint(1);
    entity.write_varint(entity_id);
    receiver.write_packet(handlers, &entity)
}

/// A player as other players see it. Angles are in steps of 1/256 of a full
/// turn; the placement holds bit patterns.
#[derive(Debug, Clone, Copy)]
pub struct Appearance {
    pub entity_id: i32,
    pub uuid: u128,
    pub x: u64,
    pub y: u64,
    pub z: u64,
    pub pitch: i8,
    pub yaw: i8,
    pub velocity_x: i16,
    pub velocity_y: i16,
    pub velocity_z: i16,
}

/// The packets that bring a player into another player's view: into the
/// player list, under its name and without properties, and into the world.
pub open spec fn player_shown(name: Seq<char>, player: Appearance) -> (PacketView, PacketView) {
    (
        bare(clientbound::play::PLAYER_INFO_UPDATE).with_byte(1).with_varint(1).with_unsigned(
            player.uuid as nat,
            16,
        ).with_string(name).with_varint(0),
        bare(clientbound::play::SPAWN_ENTITY).with_varint(player.entity_id).with_unsigned(
            player.uuid as nat,
            16,
        ).with_varint(PLAYER_ENTITY_TYPE).with_unsigned(player.x as nat, 8).with_unsigned(
            player.y as nat,
            8,
        ).with_unsigned(player.z as nat, 8).with_signed(player.pitch as int, 1).with_signed(
            player.yaw as int,
            1,
        ).with_signed(player.yaw as int, 1).with_varint(0).with_signed(
            player.velocity_x as int,
            2,
        ).with_signed(player.velocity_y as int, 2).with_signed(player.velocity_z as int, 2),
    )
}

/// Brings a player into the view of the player whose session `receiver` is.
/// A name too long for a packet is refused before anything is sent.
pub fn send_player<H: PacketHandler>(
    handlers: &Vec<H>,
    receiver: &mut ClientContext,
    name: &str,
    player: &Appearance,
) -> (r: Result<(), ServerError>)
    ensures
        vstd::utf8::encode_utf8(name@).len() > i32::MAX ==> r == Err::<(), ServerError>(
            ServerError::Protocol(ProtocolFault::VarInt),
        ) && final(receiver)@ == old(receiver)@,
        vstd::utf8::encode_utf8(name@).len() <= i32::MAX ==> final(receiver)@ == then_written(
            old(receiver)@.written(handlers@, player_shown(name@, *player).0),
            handlers@,
            player_shown(name@, *player).1,
        ).0 && answers(
            r,
            then_written(
                old(receiver)@.written(handlers@, player_shown(name@, *player).0),
                handlers@,
                player_shown(name@, *player).1,
            ).1,
        ),
{
    let mut listed: Packet = Packet::empty(clientbound::play::PLAYER_INFO_UPDATE);
    listed.write_byte(1);
    listed.write_varint(1);
    listed.write_uuid(player.uuid);
    match listed.write_string(name) {
        Err(error) => { return Err(error); },
        Ok(_) => {},
    }
    listed.write_varint(0);
    match receiver.write_packet(handlers, &listed) {
        Err(error) => { return Err(error); },
        Ok(_) => {},
    }
    let mut entity: Packet = Packet::empty(clientbound::play::SPAWN_ENTITY);
    entity.write_varint(player.entity_id);
    entity.write_uuid(player.uuid);
    entity.write_varint(PLAYER_ENTITY_TYPE);
    entity.write_double_bits(player.x);
    entity.write_double_bits(player.y);
    entity.write_double_bits(player.z);
    entity.write_signed_byte(player.pitch);
    entity.write_signed_byte(player.yaw);
    entity.write_signed_byte(player.yaw);
    entity.write_varint(0);
    entity.write_short(player.velocity_x);
    entity.write_short(player.velocity_y);
    entity.write_short(player.velocity_z);
    receiver.write_packet(handlers, &entity)
}

/// The unique id that names give under a namespace: the MD5 based id of
/// RFC 9562.
pub uninterp spec fn uuid_v3_of(namespace: u128, name: Seq<u8>) -> u128;

/// `uuid::Uuid::new_v3` on the namespace `Uuid::from_u128(namespace)`, read
/// back with `as_u128`: the id named by `uuid_v3_of`.
#[verifier::external_body]
fn uuid_v3(namespace: u128, name: &[u8]) -> (uuid: u128)
    ensures
        uuid == uuid_v3_of(namespace, name@),
{
    Uuid::new_v3(&Uuid::from_u128(namespace), name).as_u128()
}

/// The bytes of `OfflinePlayer:` as the upper fourteen bytes of a namespace.
pub const OFFLINE_NAMESPACE: u128 = 0x4f66_666c_696e_6550_6c61_7965_723a_0000;

/// The namespace of a player who is not authenticated: `OfflinePlayer:` and
/// the first two bytes of the name.
pub open spec fn offline_namespace(name: Seq<u8>) -> u128 {
    (OFFLINE_NAMESPACE + name[0] * 256 + name[1]) as u128
}

/// The unique id of a player who is not authenticated: the id that the name
/// behind its first two bytes gives under the namespace that those two bytes
/// select.
pub fn get_offline_uuid(name: &str) -> (uuid: u128)
    requires
        vstd::utf8::is_char_boundary(vstd::utf8::encode_utf8(name@), 2),
        vstd::utf8::encode_utf8(name@).len() >= 2,
    ensures
        uuid == uuid_v3_of(
            offline_namespace(vstd::utf8::encode_utf8(name@)),
            vstd::utf8::encode_utf8(name@).subrange(
                2,
                vstd::utf8::encode_utf8(name@).len() as int,
            ),
        ),
{
    let bytes: &[u8] = name.as_bytes();
    let namespace: u128 = OFFLINE_NAMESPACE + bytes[0] as u128 * 256 + bytes[1] as u128;
    let rest: &[u8] = vstd::slice::slice_subrange(bytes, 2, bytes.len());
    uuid_v3(namespace, rest)
}

/// Half of a view distance, rounded towards zero.
pub open spec fn half(value: i8) -> i32 {
    if value >= 0 {
        (value / 2) as i32
    } else {
        (-((-value) / 2)) as i32
    }
}

/// Where a player stands when it enters the world: at 8, 0, 8, at rest,
/// looking along the z axis.
pub open spec fn spawn_placement() -> Placement {
    Placement {
        x: SPAWN_COORDINATE,
        y: 0,
        z: SPAWN_COORDINATE,
        velocity_x: 0,
        velocity_y: 0,
        velocity_z: 0,
        yaw: 0,
        pitch: 0,
    }
}

/// What entering play makes of a session: the read loop owns the read side
/// from now on, which it must not have owned before; the player is let into
/// the world and put at its place, told to wait for chunks around the chunk
/// at the origin, and sent the chunks within half its view distance.
pub open spec fn play_entered<H: PacketHandler>(
    handlers: Seq<H>,
    client: ClientView,
    entity_id: i32,
    teleport: i32,
    view_distance: i8,
) -> (ClientView, Result<(), ServerError>) {
    if client.read_loop {
        (client, Err(ServerError::UnexpectedState))
    } else {
        let looping = ClientView { read_loop: true, ..client };
        play_greeted(handlers, looping, entity_id, teleport, view_distance)
    }
}

/// What greeting a player makes of a session whose read side the read loop
/// owns.
pub open spec fn play_greeted<H: PacketHandler>(
    handlers: Seq<H>,
    looping: ClientView,
    entity_id: i32,
    teleport: i32,
    view_distance: i8,
) -> (ClientView, Result<(), ServerError>) {
    let greeted = then_written(
        then_written(
            then_written(
                looping.written(handlers, login_packet(entity_id)),
                handlers,
                player_position(teleport, spawn_placement(), 0),
            ),
            handlers,
            game_event(EVENT_WAIT_FOR_CHUNKS, 0),
        ),
        handlers,
        center_chunk(0, 0),
    );
    match greeted.1 {
        Err(error) => greeted,
        Ok(_) => chunks_refreshed(handlers, greeted.0, Seq::empty(), half(view_distance), (0, 0)),
    }
}

/// Lets a player whose settings are known into the world. Answers the chunks
/// that the client holds afterwards.
pub fn handle_play_state<H: PacketHandler>(
    handlers: &Vec<H>,
    client: &mut ClientContext,
    entity_id: i32,
    teleport: i32,
) -> (r: Result<Vec<(i32, i32)>, ServerError>)
    requires
        old(client)@.client_info is Some,
    ensures
        final(client)@ == play_entered(
            handlers@,
            old(client)@,
            entity_id,
            teleport,
            old(client)@.client_info->0.view_distance,
        ).0,
        match play_entered(
            handlers@,
            old(client)@,
            entity_id,
            teleport,
            old(client)@.client_info->0.view_distance,
        ).1 {
            Ok(_) => r matches Ok(chunks) && chunks@ == chunks_around(
                half(old(client)@.client_info->0.view_distance),
                (0, 0),
            ),
            Err(error) => r matches Err(e) && e == error,
        },
{
    let view_distance: i8 = match client.client_info() {
        Some(settings) => settings.view_distance,
        None => 0,
    };
    let distance: i32 = if view_distance >= 0 {
        (view_distance / 2) as i32
    } else {
        -(((-(view_distance as i32)) / 2) as i32)
    };
    match client.start_read_loop() {
        Err(error) => { return Err(error); },
        Ok(_) => {},
    }
    match send_login(handlers, client, entity_id) {
        Err(error) => { return Err(error); },
        Ok(_) => {},
    }
    let placement: Placement = Placement {
        x: SPAWN_COORDINATE,
        y: 0,
        z: SPAWN_COORDINATE,
        velocity_x: 0,
        velocity_y: 0,
        velocity_z: 0,
        yaw: 0,
        pitch: 0,
    };
    match helper::sync_player_pos(handlers, client, teleport, &placement, 0) {
        Err(error) => { return Err(error); },
        Ok(_) => {},
    }
    match helper::send_game_event(handlers, client, EVENT_WAIT_FOR_CHUNKS, 0) {
        Err(error) => { return Err(error); },
        Ok(_) => {},
    }
    match helper::set_center_chunk(handlers, client, 0, 0) {
        Err(error) => { return Err(error); },
        Ok(_) => {},
    }
    let mut chunks: Vec<(i32, i32)> = Vec::new();
    match send_example_chunks_in_distance(handlers, client, &mut chunks, distance, (0, 0)) {
        Err(error) => Err(error),
        Ok(_) => Ok(chunks),
    }
}

/// What is due at a tick of play.
#[derive(Debug, Clone, Copy, PartialEq, Eq, Structural)]
pub struct TickPlan {
    /// Whether the client is to be asked if it is still there: every 200
    /// ticks, ten seconds.
    pub keep_alive: bool,
    /// Whether the chunks around the player are to be brought up to date:
    /// every 20 ticks, one second.
    pub refresh_chunks: bool,
    /// Where in its cycle of 300 ticks the text animation stands.
    pub animation_index: usize,
}

/// Decides what is due at a tick of play.
pub fn plan_tick(ticks_alive: u64) -> (plan: TickPlan)
    requires
        ticks_alive <= u64::MAX - 40,
    ensures
        plan.keep_alive == (ticks_alive % 200 == 0),
        plan.refresh_chunks == (ticks_alive % 20 == 0),
        plan.animation_index == (ticks_alive + 40) % 300,
{
    TickPlan {
        keep_alive: ticks_alive % 200 == 0,
        refresh_chunks: ticks_alive % 20 == 0,
        animation_index: ((ticks_alive + 40) % 300) as usize,
    }
}

/// How many characters of the animated text show at a point of its cycle:
/// one more with each tick until the text is whole, which then stays for
/// twenty ticks beyond its length in bytes, and nothing for the rest of the
/// cycle.
pub fn animation_length(index: usize, text_bytes: usize, text_chars: usize) -> (shown: Option<usize>)
    requires
        index < usize::MAX,
        text_bytes <= usize::MAX - 20,
    ensures
        shown == if index < text_bytes + 20 {
            Some(
                if index + 1 <= text_chars {
                    (index + 1) as usize
                } else {
                    text_chars
                },
            )
        } else {
            None
        },
{
    if index < text_bytes + 20 {
        if index + 1 <= text_chars {
            Some(index + 1)
        } else {
            Some(text_chars)
        }
    } else {
        None
    }
}

/// The bit pattern of the number 1 as a 32-bit floating-point number.
pub const ONE: u32 = 0x3f80_0000;

/// The game mode that a chat command asks for, as the value of the game
/// event that changes the game mode: creative is 1, survival is 0.
pub open spec fn commanded_game_mode(command: Seq<char>) -> Option<u32> {
    if command == "gamemode creative"@ {
        Some(ONE)
    } else if command == "gamemode survival"@ {
        Some(0u32)
    } else {
        None
    }
}

/// Tells the game mode that a chat command asks for, if it asks for one.
pub fn game_mode_command(command: &str) -> (mode: Option<u32>)
    ensures
        mode == commanded_game_mode(command@),
{
    let given: String = command.to_owned();
    let creative: String = "gamemode creative".to_owned();
    let survival: String = "gamemode survival".to_owned();
    if given == creative {
        Some(ONE)
    } else if given == survival {
        Some(0)
    } else {
        None
    }
}

} // verus!
