//! Frames: one length-prefixed unit of wire data for one packet.
//!
//! Without compression a frame is the length of its payload as a
//! variable-length integer, then the payload: the packet id and body. With
//! compression the payload starts with a second variable-length integer: zero
//! when the id and body follow as they are, else their length before
//! compression, followed by their zlib stream. Id and body are compressed
//! exactly when together they are at least as long as the threshold.

use crate::codec;
use crate::codec::varint_at;
use crate::codec::varint_bytes;
use crate::error::ProtocolFault;
use crate::error::ServerError;
use crate::packet::data_of_packet;
use crate::packet::packet_of_data;
use crate::packet::Packet;
use crate::packet::PacketView;
use crate::zlib;
use crate::zlib::zlib_deflated;
use crate::zlib::zlib_inflated;
use vstd::prelude::*;

verus! {

/// The zlib level that outgoing frames are compressed with.
pub const COMPRESSION_LEVEL: u32 = 1;

/// The largest length that a frame's length prefix can state.
pub const MAX_FRAME_LEN: usize = 0x7fff_ffff;

/// A frame without compression: length, then id and body.
pub open spec fn plain_frame(data: Seq<u8>) -> Seq<u8> {
    varint_bytes(data.len() as i32) + data
}

/// A frame in the compressed layout whose id and body are stored as they are,
/// behind a zero.
pub open spec fn stored_frame(data: Seq<u8>) -> Seq<u8> {
    varint_bytes((data.len() + 1) as i32) + seq![0u8] + data
}

/// A frame in the compressed layout that carries the zlib stream `deflated`
/// of id and body, which were `data_len` bytes long.
pub open spec fn deflated_frame(data_len: nat, deflated: Seq<u8>) -> Seq<u8> {
    varint_bytes((varint_bytes(data_len as i32).len() + deflated.len()) as i32) + varint_bytes(
        data_len as i32,
    ) + deflated
}

/// Whether a packet of this id and body fits a frame at all: its id and body
/// together, and the zero of the stored layout, must fit the length prefix.
pub open spec fn fits_frame(id: u8, body: Seq<u8>) -> bool {
    data_of_packet(id, body).len() < MAX_FRAME_LEN
}

/// The frame that carries a packet under the given compression threshold, or
/// why there is none: the packet does not fit a frame, the compressor gave no
/// stream, or its stream is too long for the length prefix.
pub open spec fn frame_bytes(id: u8, body: Seq<u8>, compression: Option<usize>) -> Result<
    Seq<u8>,
    ServerError,
> {
    let data = data_of_packet(id, body);
    if !fits_frame(id, body) {
        Err(ServerError::Protocol(ProtocolFault::VarInt))
    } else {
        match compression {
            None => Ok(plain_frame(data)),
            Some(threshold) => if data.len() < threshold {
                Ok(stored_frame(data))
            } else {
                match zlib_deflated(data, COMPRESSION_LEVEL) {
                    None => Err(ServerError::Protocol(ProtocolFault::Zlib)),
                    Some(stream) => if stream.len() + 5 <= MAX_FRAME_LEN {
                        Ok(deflated_frame(data.len(), stream))
                    } else {
                        Err(ServerError::Protocol(ProtocolFault::VarInt))
                    },
                }
            },
        }
    }
}

/// The id and body inside a frame's payload.
pub open spec fn payload_data(payload: Seq<u8>, compression: Option<usize>) -> Result<
    Seq<u8>,
    ServerError,
> {
    match compression {
        None => Ok(payload),
        Some(_) => match varint_at(payload, 0) {
            Err(error) => Err(error),
            Ok((data_len, count)) => {
                let rest = payload.subrange(count as int, payload.len() as int);
                if data_len < 0 {
                    Err(ServerError::Protocol(ProtocolFault::VarInt))
                } else if data_len == 0 {
                    Ok(rest)
                } else {
                    match zlib_inflated(rest) {
                        Some(data) => Ok(data),
                        None => Err(ServerError::Protocol(ProtocolFault::Zlib)),
                    }
                }
            },
        },
    }
}

/// What stands at the start of `bytes`, a stretch of the incoming stream:
/// nothing yet when the first frame is not complete, else the packet of the
/// first frame and the number of bytes that the frame takes.
pub open spec fn frame_at(bytes: Seq<u8>, compression: Option<usize>) -> Result<
    Option<(PacketView, usize)>,
    ServerError,
> {
    match varint_at(bytes, 0) {
        Err(ServerError::UnexpectedEof) => Ok(None),
        Err(error) => Err(error),
        Ok((len, prefix)) => {
            if len < 0 {
                Err(ServerError::Protocol(ProtocolFault::VarInt))
            } else if bytes.len() < prefix + len {
                Ok(None)
            } else {
                match payload_data(bytes.subrange(prefix as int, prefix + len), compression) {
                    Err(error) => Err(error),
                    Ok(data) => match packet_of_data(data) {
                        Err(error) => Err(error),
                        Ok(packet) => Ok(Some((packet, (prefix + len) as usize))),
                    },
                }
            }
        },
    }
}

/// A frame without compression decodes to the packet it was made from, and
/// takes up exactly its own length of the stream.
pub proof fn lemma_plain_round_trip(id: u8, body: Seq<u8>, tail: Seq<u8>)
    requires
        data_of_packet(id, body).len() <= i32::MAX,
    ensures
        frame_at(plain_frame(data_of_packet(id, body)) + tail, None) == Ok::<
            Option<(PacketView, usize)>,
            ServerError,
        >(
            Some(
                (
                    PacketView { id, bytes: body, cursor: 0 },
                    plain_frame(data_of_packet(id, body)).len() as usize,
                ),
            ),
        ),
{
    let data = data_of_packet(id, body);
    let frame = plain_frame(data);
    let bytes = frame + tail;
    let prefix = varint_bytes(data.len() as i32);
    assert(bytes.subrange(0, prefix.len() as int) =~= prefix);
    codec::lemma_varint_round_trip_within(bytes, 0, data.len() as i32);
    assert(bytes.subrange(prefix.len() as int, (prefix.len() + data.len()) as int) =~= data);
    crate::packet::lemma_data_round_trip(id, body);
}

/// A packet shorter than the threshold travels as it is: the frame states a
/// length before compression of zero, and decodes to the packet it was made
/// from.
pub proof fn lemma_stored_round_trip(id: u8, body: Seq<u8>, threshold: usize, tail: Seq<u8>)
    requires
        data_of_packet(id, body).len() < threshold,
        data_of_packet(id, body).len() < i32::MAX,
    ensures
        frame_bytes(id, body, Some(threshold)) == Ok::<Seq<u8>, ServerError>(
            stored_frame(data_of_packet(id, body)),
        ),
        varint_at(
            stored_frame(data_of_packet(id, body)),
            varint_bytes((data_of_packet(id, body).len() + 1) as i32).len() as int,
        ) == Ok::<(i32, usize), ServerError>((0i32, 1usize)),
        frame_at(stored_frame(data_of_packet(id, body)) + tail, Some(threshold)) == Ok::<
            Option<(PacketView, usize)>,
            ServerError,
        >(
            Some(
                (
                    PacketView { id, bytes: body, cursor: 0 },
                    stored_frame(data_of_packet(id, body)).len() as usize,
                ),
            ),
        ),
{
    let data = data_of_packet(id, body);
    let frame = stored_frame(data);
    let bytes = frame + tail;
    let len = (data.len() + 1) as i32;
    let prefix = varint_bytes(len);
    assert(bytes.subrange(0, prefix.len() as int) =~= prefix);
    codec::lemma_varint_round_trip_within(bytes, 0, len);
    let payload = bytes.subrange(prefix.len() as int, prefix.len() + len);
    assert(payload =~= seq![0u8] + data);
    assert(varint_bytes(0) =~= seq![0u8]);
    assert(payload.subrange(0, 1) =~= varint_bytes(0));
    codec::lemma_varint_round_trip_within(payload, 0, 0);
    assert(payload.subrange(1, payload.len() as int) =~= data);
    crate::packet::lemma_data_round_trip(id, body);
    assert(frame.subrange(prefix.len() as int, prefix.len() as int + 1) =~= varint_bytes(0));
    codec::lemma_varint_round_trip_within(frame, prefix.len() as int, 0);
}

/// A packet at or above the threshold travels compressed: for every zlib
/// stream that inflates to its id and body, such as the one the compressor
/// gives, the frame around that stream decodes to the packet.
pub proof fn lemma_deflated_round_trip(
    id: u8,
    body: Seq<u8>,
    threshold: usize,
    deflated: Seq<u8>,
    tail: Seq<u8>,
)
    requires
        data_of_packet(id, body).len() >= threshold,
        data_of_packet(id, body).len() <= i32::MAX,
        deflated.len() + 5 <= i32::MAX,
        zlib_inflated(deflated) == Some(data_of_packet(id, body)),
    ensures
        frame_at(
            deflated_frame(data_of_packet(id, body).len(), deflated) + tail,
            Some(threshold),
        ) == Ok::<Option<(PacketView, usize)>, ServerError>(
            Some(
                (
                    PacketView { id, bytes: body, cursor: 0 },
                    deflated_frame(data_of_packet(id, body).len(), deflated).len() as usize,
                ),
            ),
        ),
{
    let data = data_of_packet(id, body);
    let frame = deflated_frame(data.len(), deflated);
    let bytes = frame + tail;
    let inner = varint_bytes(data.len() as i32);
    codec::lemma_varint_round_trip(data.len() as i32);
    codec::lemma_varint_round_trip(id as i32);
    let len = (inner.len() + deflated.len()) as i32;
    let prefix = varint_bytes(len);
    assert(bytes.subrange(0, prefix.len() as int) =~= prefix);
    codec::lemma_varint_round_trip_within(bytes, 0, len);
    let payload = bytes.subrange(prefix.len() as int, prefix.len() + len);
    assert(payload =~= inner + deflated);
    assert(payload.subrange(0, inner.len() as int) =~= inner);
    codec::lemma_varint_round_trip_within(payload, 0, data.len() as i32);
    assert(payload.subrange(inner.len() as int, payload.len() as int) =~= deflated);
    crate::packet::lemma_data_round_trip(id, body);
}

/// Puts the frame of the compressed layout around what the compressor gave
/// for `data_len` bytes of id and body. A compressor that failed gives a zlib
/// fault; a length that the length prefixes cannot state is refused.
pub fn finish_deflated_frame(data_len: usize, deflated: Option<Vec<u8>>) -> (r: Result<
    Vec<u8>,
    ServerError,
>)
    ensures
        match deflated {
            None => r == Err::<Vec<u8>, ServerError>(ServerError::Protocol(ProtocolFault::Zlib)),
            Some(stream) => if data_len <= MAX_FRAME_LEN && stream@.len() + 5 <= MAX_FRAME_LEN {
                r matches Ok(frame) && frame@ == deflated_frame(data_len as nat, stream@)
            } else {
                r == Err::<Vec<u8>, ServerError>(ServerError::Protocol(ProtocolFault::VarInt))
            },
        },
{
    match deflated {
        None => Err(ServerError::Protocol(ProtocolFault::Zlib)),
        Some(stream) => {
            if data_len > MAX_FRAME_LEN || stream.len() > MAX_FRAME_LEN - 5 {
                return Err(ServerError::Protocol(ProtocolFault::VarInt));
            }
            let inner_len: usize = codec::varint_len(data_len as i32);
            let mut frame: Vec<u8> = Vec::new();
            codec::write_varint(&mut frame, (inner_len + stream.len()) as i32);
            codec::write_varint(&mut frame, data_len as i32);
            codec::write_bytes(&mut frame, stream.as_slice());
            assert(frame@ =~= deflated_frame(data_len as nat, stream@));
            Ok(frame)
        },
    }
}

/// Encodes the frame that carries `packet`, whole body, wherever its cursor
/// stands.
///
/// A packet that does not fit a frame is refused. A packet below the
/// threshold, or any packet without compression, always encodes. At or above
/// the threshold the frame holds the compressor's stream; where the
/// compressor gives none that is a zlib fault, and a stream too long for the
/// length prefix is refused. Every frame that comes back decodes to the
/// packet again.
pub fn encode_frame(packet: &Packet, compression: Option<usize>) -> (r: Result<
    Vec<u8>,
    ServerError,
>)
    ensures
        match frame_bytes(packet@.id, packet@.bytes, compression) {
            Ok(bytes) => r matches Ok(frame) && frame@ == bytes && frame@.len() <= MAX_FRAME_LEN
                + 5 && frame_at(frame@, compression) == Ok::<
                Option<(PacketView, usize)>,
                ServerError,
            >(Some((packet@.rewound(), frame@.len() as usize))),
            Err(error) => r == Err::<Vec<u8>, ServerError>(error),
        },
{
    let data: Vec<u8> = packet.to_data();
    if data.len() >= MAX_FRAME_LEN {
        return Err(ServerError::Protocol(ProtocolFault::VarInt));
    }
    let ghost id = packet@.id;
    let ghost body = packet@.bytes;
    let ghost tail = Seq::<u8>::empty();
    match compression {
        None => {
            let mut frame: Vec<u8> = Vec::new();
            codec::write_varint(&mut frame, data.len() as i32);
            codec::write_bytes(&mut frame, data.as_slice());
            proof {
                assert(frame@ =~= plain_frame(data@));
                lemma_plain_round_trip(id, body, tail);
                assert(frame@ + tail =~= frame@);
                codec::lemma_varint_round_trip(data.len() as i32);
            }
            Ok(frame)
        },
        Some(threshold) => {
            if data.len() < threshold {
                let mut frame: Vec<u8> = Vec::new();
                codec::write_varint(&mut frame, (data.len() + 1) as i32);
                frame.push(0u8);
                codec::write_bytes(&mut frame, data.as_slice());
                proof {
                    assert(frame@ =~= stored_frame(data@));
                    lemma_stored_round_trip(id, body, threshold, tail);
                    assert(frame@ + tail =~= frame@);
                    codec::lemma_varint_round_trip((data.len() + 1) as i32);
                }
                Ok(frame)
            } else {
                let deflated: Option<Vec<u8>> = zlib::deflate(data.as_slice(), COMPRESSION_LEVEL);
                let r = finish_deflated_frame(data.len(), deflated);
                proof {
                    if r is Ok {
                        let frame = r->Ok_0;
                        let stream = deflated->0@;
                        lemma_deflated_round_trip(id, body, threshold, stream, tail);
                        assert(frame@ + tail =~= frame@);
                        codec::lemma_varint_round_trip(data.len() as i32);
                        codec::lemma_varint_round_trip(
                            (varint_bytes(data.len() as i32).len() + stream.len()) as i32,
                        );
                    }
                }
                r
            }
        },
    }
}

/// Decodes the first frame of `bytes`, a stretch of the incoming stream.
///
/// Answers nothing when the first frame is not complete yet, so that more
/// bytes can be awaited; else the packet, cursor at the start, and the number
/// of bytes that the frame took. A length prefix past five bytes, a negative
/// length, a payload that does not inflate and an id outside `0..=255` are
/// faults.
pub fn decode_frame(bytes: &[u8], compression: Option<usize>) -> (r: Result<
    Option<(Packet, usize)>,
    ServerError,
>)
    ensures
        match frame_at(bytes@, compression) {
            Ok(Some((view, consumed))) => r matches Ok(Some((packet, used))) && packet@ == view
                && used == consumed && 0 < used <= bytes@.len(),
            Ok(None) => r matches Ok(None),
            Err(error) => r matches Err(e) && e == error,
        },
{
    let (len, prefix): (i32, usize) = match codec::read_varint(bytes, 0) {
        Ok(pair) => pair,
        Err(ServerError::UnexpectedEof) => { return Ok(None); },
        Err(error) => { return Err(error); },
    };
    if len < 0 {
        return Err(ServerError::Protocol(ProtocolFault::VarInt));
    }
    let total: usize = bytes.len();
    let size: usize = len as usize;
    if total - prefix < size {
        return Ok(None);
    }
    let payload: &[u8] = vstd::slice::slice_subrange(bytes, prefix, prefix + size);
    let packet: Packet = match compression {
        None => match Packet::from_data(payload) {
            Ok(packet) => packet,
            Err(error) => { return Err(error); },
        },
        Some(_) => {
            let (data_len, count): (i32, usize) = match codec::read_varint(payload, 0) {
                Ok(pair) => pair,
                Err(error) => { return Err(error); },
            };
            if data_len < 0 {
                return Err(ServerError::Protocol(ProtocolFault::VarInt));
            }
            let rest: &[u8] = vstd::slice::slice_subrange(payload, count, size);
            if data_len == 0 {
                match Packet::from_data(rest) {
                    Ok(packet) => packet,
                    Err(error) => { return Err(error); },
                }
            } else {
                let data: Vec<u8> = match zlib::inflate(rest) {
                    Some(data) => data,
                    None => { return Err(ServerError::Protocol(ProtocolFault::Zlib)); },
                };
                match Packet::from_data(data.as_slice()) {
                    Ok(packet) => packet,
                    Err(error) => { return Err(error); },
                }
            }
        },
    };
    Ok(Some((packet, prefix + size)))
}

} // verus!
