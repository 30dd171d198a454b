//! A packet: a numeric id, an opaque body and a cursor for reading the body
//! field by field.
//!
//! Reads take bytes at the cursor and move it forward; a read that fails
//! leaves the packet as it was. Writes append to the body and leave the cursor
//! alone. The cursor may be set anywhere: past the end of the body every read
//! finds no bytes.

use crate::codec;
use crate::codec::be_bytes;
use crate::codec::be_value;
use crate::codec::pow256;
use crate::codec::signed_value;
use crate::codec::string_at;
use crate::codec::string_bytes;
use crate::codec::unsigned_value;
use crate::codec::varint_at;
use crate::codec::varint_bytes;
use crate::error::ProtocolFault;
use crate::error::ServerError;
use vstd::prelude::*;

verus! {

/// One packet of the protocol.
#[derive(Debug, PartialEq, Eq)]
pub struct Packet {
    id: u8,
    bytes: Vec<u8>,
    cursor: usize,
}

/// What a packet holds, as mathematical values.
pub struct PacketView {
    /// The packet id; its meaning depends on the connection's phase.
    pub id: u8,
    /// The whole body, read or not.
    pub bytes: Seq<u8>,
    /// The offset in the body at which the next read starts.
    pub cursor: int,
}

impl PacketView {
    /// The same packet with the cursor `count` bytes further.
    pub open spec fn advanced(self, count: int) -> PacketView {
        PacketView { id: self.id, bytes: self.bytes, cursor: self.cursor + count }
    }

    /// The same packet with `more` appended to its body.
    pub open spec fn appended(self, more: Seq<u8>) -> PacketView {
        PacketView { id: self.id, bytes: self.bytes + more, cursor: self.cursor }
    }

    /// The same packet with a variable-length integer appended.
    pub open spec fn with_varint(self, value: i32) -> PacketView {
        self.appended(varint_bytes(value))
    }

    /// The same packet with length-prefixed text appended.
    pub open spec fn with_string(self, text: Seq<char>) -> PacketView {
        self.appended(string_bytes(text))
    }

    /// The same packet with one byte appended.
    pub open spec fn with_byte(self, byte: u8) -> PacketView {
        self.appended(seq![byte])
    }

    /// The same packet with a boolean appended.
    pub open spec fn with_boolean(self, value: bool) -> PacketView {
        self.appended(
            seq![if value {
                1u8
            } else {
                0u8
            }],
        )
    }

    /// The same packet with the low `width` bytes of a number appended, most
    /// significant first.
    pub open spec fn with_unsigned(self, value: nat, width: nat) -> PacketView {
        self.appended(be_bytes(value, width))
    }

    /// The same packet with a signed number of `width` bytes appended.
    pub open spec fn with_signed(self, value: int, width: nat) -> PacketView {
        self.appended(be_bytes(unsigned_value(value, width), width))
    }

    /// The same packet with the cursor at the start of the body.
    pub open spec fn rewound(self) -> PacketView {
        PacketView { id: self.id, bytes: self.bytes, cursor: 0 }
    }

    /// The bytes from the cursor to the end of the body.
    pub open spec fn unread(self) -> Seq<u8> {
        if 0 <= self.cursor <= self.bytes.len() {
            self.bytes.subrange(self.cursor, self.bytes.len() as int)
        } else {
            Seq::empty()
        }
    }

    /// The variable-length integer at the cursor, and the packet behind it.
    pub open spec fn take_varint(self) -> Result<(i32, PacketView), ServerError> {
        match varint_at(self.bytes, self.cursor) {
            Ok((value, count)) => Ok((value, self.advanced(count as int))),
            Err(error) => Err(error),
        }
    }

    /// The length-prefixed text at the cursor, and the packet behind it.
    pub open spec fn take_string(self) -> Result<(Seq<char>, PacketView), ServerError> {
        match string_at(self.bytes, self.cursor) {
            Ok((text, count)) => Ok((text, self.advanced(count as int))),
            Err(error) => Err(error),
        }
    }

    /// The number that the next `width` bytes spell, and the packet behind
    /// them.
    pub open spec fn take_unsigned(self, width: nat) -> Result<(nat, PacketView), ServerError> {
        match self.unsigned_at(width) {
            Ok(bits) => Ok((bits, self.advanced(width as int))),
            Err(error) => Err(error),
        }
    }

    /// The number that the next `width` bytes spell, most significant first.
    pub open spec fn unsigned_at(self, width: nat) -> Result<nat, ServerError> {
        if 0 <= self.cursor && self.cursor + width <= self.bytes.len() {
            Ok(be_value(self.bytes, self.cursor, width))
        } else {
            Err(ServerError::UnexpectedEof)
        }
    }
}

/// No character takes more than four bytes of UTF-8.
pub proof fn lemma_utf8_len_bound(chars: Seq<char>)
    ensures
        vstd::utf8::encode_utf8(chars).len() <= 4 * chars.len(),
    decreases chars.len(),
{
    if chars.len() > 0 {
        lemma_utf8_len_bound(chars.drop_first());
    }
}

/// Text that was read from a packet can be written to one.
pub proof fn lemma_read_text_fits(bytes: Seq<u8>, at: int)
    requires
        string_at(bytes, at) is Ok,
    ensures
        vstd::utf8::encode_utf8(string_at(bytes, at)->Ok_0.0).len() <= i32::MAX,
{
    let (len, prefix) = varint_at(bytes, at)->Ok_0;
    let raw = bytes.subrange(at + prefix, at + prefix + len);
    vstd::utf8::decode_utf8_encode_utf8(raw);
}

/// The id and body that `data`, the inside of a frame, holds: the id as a
/// variable-length integer within `0..=255`, then the body.
pub open spec fn packet_of_data(data: Seq<u8>) -> Result<PacketView, ServerError> {
    match varint_at(data, 0) {
        Err(error) => Err(error),
        Ok((id, count)) => {
            if 0 <= id <= 255 {
                Ok(PacketView { id: id as u8, bytes: data.subrange(count as int, data.len() as int), cursor: 0 })
            } else {
                Err(ServerError::Protocol(ProtocolFault::VarInt))
            }
        },
    }
}

/// The inside of a frame for a packet: the id as a variable-length integer,
/// then the body.
pub open spec fn data_of_packet(id: u8, body: Seq<u8>) -> Seq<u8> {
    varint_bytes(id as i32) + body
}

/// Taking the inside of a frame apart gives the packet it was made from.
pub proof fn lemma_data_round_trip(id: u8, body: Seq<u8>)
    ensures
        packet_of_data(data_of_packet(id, body)) == Ok::<PacketView, ServerError>(
            PacketView { id, bytes: body, cursor: 0 },
        ),
{
    let data = data_of_packet(id, body);
    let prefix = varint_bytes(id as i32);
    assert(data.subrange(0, prefix.len() as int) =~= prefix);
    codec::lemma_varint_round_trip_within(data, 0, id as i32);
    assert(data.subrange(prefix.len() as int, data.len() as int) =~= body);
}

impl View for Packet {
    type V = PacketView;

    closed spec fn view(&self) -> PacketView {
        PacketView { id: self.id, bytes: self.bytes@, cursor: self.cursor as int }
    }
}

impl Clone for Packet {
    fn clone(&self) -> (copy: Packet)
        ensures
            copy@ == self@,
    {
        let mut bytes: Vec<u8> = Vec::new();
        codec::write_bytes(&mut bytes, self.bytes.as_slice());
        assert(bytes@ =~= self.bytes@);
        Packet { id: self.id, bytes, cursor: self.cursor }
    }
}

impl Packet {
    /// A packet with the given id and body, the cursor at the start.
    pub fn new(id: u8, bytes: Vec<u8>) -> (packet: Packet)
        ensures
            packet@ == (PacketView { id, bytes: bytes@, cursor: 0 }),
    {
        Packet { id, bytes, cursor: 0 }
    }

    /// A packet with the given id and a copy of `data` as its body.
    pub fn from_bytes(id: u8, data: &[u8]) -> (packet: Packet)
        ensures
            packet@ == (PacketView { id, bytes: data@, cursor: 0 }),
    {
        let mut bytes: Vec<u8> = Vec::new();
        codec::write_bytes(&mut bytes, data);
        assert(bytes@ =~= data@);
        Packet { id, bytes, cursor: 0 }
    }

    /// Takes the inside of a frame apart into id and body.
    pub fn from_data(data: &[u8]) -> (r: Result<Packet, ServerError>)
        ensures
            match packet_of_data(data@) {
                Ok(view) => r matches Ok(packet) && packet@ == view,
                Err(error) => r matches Err(e) && e == error,
            },
    {
        match codec::read_varint(data, 0) {
            Err(error) => Err(error),
            Ok((id, count)) => {
                if id < 0 || id > 255 {
                    return Err(ServerError::Protocol(ProtocolFault::VarInt));
                }
                let total: usize = data.len();
                let body: Vec<u8> = vstd::slice::slice_to_vec(
                    vstd::slice::slice_subrange(data, count, total),
                );
                Ok(Packet { id: id as u8, bytes: body, cursor: 0 })
            },
        }
    }

    /// The inside of a frame for this packet: id, then the whole body.
    pub fn to_data(&self) -> (data: Vec<u8>)
        ensures
            data@ == data_of_packet(self@.id, self@.bytes),
    {
        let mut data: Vec<u8> = Vec::new();
        codec::write_varint(&mut data, self.id as i32);
        codec::write_bytes(&mut data, self.bytes.as_slice());
        assert(data@ =~= data_of_packet(self@.id, self@.bytes));
        data
    }

    /// A packet with the given id and an empty body.
    pub fn empty(id: u8) -> (packet: Packet)
        ensures
            packet@ == (PacketView { id, bytes: Seq::empty(), cursor: 0 }),
    {
        Packet { id, bytes: Vec::new(), cursor: 0 }
    }

    /// The packet id.
    pub fn id(&self) -> (id: u8)
        ensures
            id == self@.id,
    {
        self.id
    }

    /// Replaces the packet id.
    pub fn set_id(&mut self, id: u8)
        ensures
            final(self)@ == (PacketView { id, bytes: old(self)@.bytes, cursor: old(self)@.cursor }),
    {
        self.id = id;
    }

    /// The number of bytes not yet read.
    pub fn len(&self) -> (len: usize)
        ensures
            len == self@.unread().len(),
    {
        if self.cursor <= self.bytes.len() {
            self.bytes.len() - self.cursor
        } else {
            0
        }
    }

    /// Whether every byte has been read.
    pub fn is_empty(&self) -> (empty: bool)
        ensures
            empty == (self@.unread().len() == 0),
    {
        self.len() == 0
    }

    /// The whole body, wherever the cursor stands.
    pub fn get_bytes(&self) -> (bytes: &[u8])
        ensures
            bytes@ == self@.bytes,
    {
        self.bytes.as_slice()
    }

    /// The offset at which the next read starts.
    pub fn position(&self) -> (position: usize)
        ensures
            position == self@.cursor,
    {
        self.cursor
    }

    /// Moves the cursor to `position`.
    pub fn set_position(&mut self, position: usize)
        ensures
            final(self)@ == (PacketView {
                id: old(self)@.id,
                bytes: old(self)@.bytes,
                cursor: position as int,
            }),
    {
        self.cursor = position;
    }

    /// Moves the cursor back to the start of the body.
    pub fn rewind(&mut self)
        ensures
            final(self)@ == old(self)@.rewound(),
    {
        self.cursor = 0;
    }

    /// Reads the number that the next `width` bytes spell, most significant
    /// byte first.
    pub fn read_unsigned(&mut self, width: usize) -> (r: Result<u128, ServerError>)
        requires
            width <= 16,
        ensures
            match old(self)@.unsigned_at(width as nat) {
                Ok(bits) => r == Ok::<u128, ServerError>(bits as u128) && bits < pow256(width as nat)
                    && final(self)@ == old(self)@.advanced(width as int),
                Err(error) => r == Err::<u128, ServerError>(error) && final(self)@ == old(self)@,
            },
    {
        proof {
            codec::lemma_be_value_bound(self.bytes@, self.cursor as int, width as nat);
            codec::lemma_pow256_monotonic(width as nat, 16);
            codec::lemma_pow256_values();
        }
        let total: usize = self.bytes.len();
        match codec::read_unsigned(self.bytes.as_slice(), self.cursor, width) {
            Ok(bits) => {
                self.cursor = self.cursor + width;
                Ok(bits)
            },
            Err(error) => Err(error),
        }
    }

    /// Reads `size` bytes.
    pub fn read_bytes(&mut self, size: usize) -> (r: Result<Vec<u8>, ServerError>)
        ensures
            match r {
                Ok(bytes) => old(self)@.cursor + size <= old(self)@.bytes.len() && bytes@ == old(self)@.bytes.subrange(old(self)@.cursor, old(self)@.cursor + size) && final(self)@
                    == old(self)@.advanced(size as int),
                Err(error) => old(self)@.cursor + size > old(self)@.bytes.len() && error
                    == ServerError::UnexpectedEof && final(self)@ == old(self)@,
            },
    {
        let total: usize = self.bytes.len();
        if self.cursor > total || total - self.cursor < size {
            return Err(ServerError::UnexpectedEof);
        }
        let start: usize = self.cursor;
        let bytes: Vec<u8> = vstd::slice::slice_to_vec(
            vstd::slice::slice_subrange(self.bytes.as_slice(), start, start + size),
        );
        self.cursor = start + size;
        Ok(bytes)
    }

    /// Reads every byte that is left.
    pub fn read_remaining(&mut self) -> (bytes: Vec<u8>)
        ensures
            bytes@ == old(self)@.unread(),
            final(self)@ == old(self)@.advanced(old(self)@.unread().len() as int),
    {
        let size: usize = self.len();
        match self.read_bytes(size) {
            Ok(bytes) => bytes,
            Err(_) => Vec::new(),
        }
    }

    /// Reads one byte.
    pub fn read_byte(&mut self) -> (r: Result<u8, ServerError>)
        ensures
            match old(self)@.unsigned_at(1) {
                Ok(bits) => r == Ok::<u8, ServerError>(bits as u8) && bits == old(self)@.bytes[old(self)@.cursor] && final(self)@ == old(self)@.advanced(1),
                Err(error) => r == Err::<u8, ServerError>(error) && final(self)@ == old(self)@,
            },
    {
        proof {
            codec::lemma_pow256_values();
            reveal_with_fuel(be_value, 2);
        }
        match self.read_unsigned(1) {
            Ok(bits) => Ok(bits as u8),
            Err(error) => Err(error),
        }
    }

    /// Reads one byte as a signed number.
    pub fn read_signed_byte(&mut self) -> (r: Result<i8, ServerError>)
        ensures
            match old(self)@.unsigned_at(1) {
                Ok(bits) => r == Ok::<i8, ServerError>(signed_value(bits, 1) as i8) && final(self)@
                    == old(self)@.advanced(1),
                Err(error) => r == Err::<i8, ServerError>(error) && final(self)@ == old(self)@,
            },
    {
        proof {
            codec::lemma_pow256_values();
        }
        match self.read_unsigned(1) {
            Ok(bits) => {
                let value: i8 = if bits < 0x80 {
                    bits as i8
                } else {
                    (bits as i16 - 0x100) as i8
                };
                Ok(value)
            },
            Err(error) => Err(error),
        }
    }

    /// Reads a boolean: the byte `0x01` is true, any other byte is false.
    pub fn read_boolean(&mut self) -> (r: Result<bool, ServerError>)
        ensures
            match old(self)@.unsigned_at(1) {
                Ok(bits) => r == Ok::<bool, ServerError>(bits == 1) && final(self)@ == old(self)@.advanced(1),
                Err(error) => r == Err::<bool, ServerError>(error) && final(self)@ == old(self)@,
            },
    {
        proof {
            codec::lemma_pow256_values();
        }
        match self.read_unsigned(1) {
            Ok(bits) => Ok(bits == 1),
            Err(error) => Err(error),
        }
    }

    /// Reads an unsigned 16-bit number.
    pub fn read_unsigned_short(&mut self) -> (r: Result<u16, ServerError>)
        ensures
            match old(self)@.unsigned_at(2) {
                Ok(bits) => r == Ok::<u16, ServerError>(bits as u16) && bits < 0x1_0000 && final(self)@ == old(self)@.advanced(2),
                Err(error) => r == Err::<u16, ServerError>(error) && final(self)@ == old(self)@,
            },
    {
        proof {
            codec::lemma_pow256_values();
        }
        match self.read_unsigned(2) {
            Ok(bits) => Ok(bits as u16),
            Err(error) => Err(error),
        }
    }

    /// Reads a signed 16-bit number.
    pub fn read_short(&mut self) -> (r: Result<i16, ServerError>)
        ensures
            match old(self)@.unsigned_at(2) {
                Ok(bits) => r == Ok::<i16, ServerError>(signed_value(bits, 2) as i16) && final(self)@ == old(self)@.advanced(2),
                Err(error) => r == Err::<i16, ServerError>(error) && final(self)@ == old(self)@,
            },
    {
        proof {
            codec::lemma_pow256_values();
        }
        match self.read_unsigned(2) {
            Ok(bits) => {
                let value: i16 = if bits < 0x8000 {
                    bits as i16
                } else {
                    (bits as i32 - 0x1_0000) as i16
                };
                Ok(value)
            },
            Err(error) => Err(error),
        }
    }

    /// Reads a signed 32-bit number.
    pub fn read_int(&mut self) -> (r: Result<i32, ServerError>)
        ensures
            match old(self)@.unsigned_at(4) {
                Ok(bits) => r == Ok::<i32, ServerError>(signed_value(bits, 4) as i32) && final(self)@ == old(self)@.advanced(4),
                Err(error) => r == Err::<i32, ServerError>(error) && final(self)@ == old(self)@,
            },
    {
        proof {
            codec::lemma_pow256_values();
        }
        match self.read_unsigned(4) {
            Ok(bits) => {
                let value: i32 = if bits < 0x8000_0000 {
                    bits as i32
                } else {
                    (bits as i64 - 0x1_0000_0000) as i32
                };
                Ok(value)
            },
            Err(error) => Err(error),
        }
    }

    /// Reads a signed 64-bit number.
    pub fn read_long(&mut self) -> (r: Result<i64, ServerError>)
        ensures
            match old(self)@.unsigned_at(8) {
                Ok(bits) => r == Ok::<i64, ServerError>(signed_value(bits, 8) as i64) && final(self)@ == old(self)@.advanced(8),
                Err(error) => r == Err::<i64, ServerError>(error) && final(self)@ == old(self)@,
            },
    {
        proof {
            codec::lemma_pow256_values();
        }
        match self.read_unsigned(8) {
            Ok(bits) => {
                let value: i64 = if bits < 0x8000_0000_0000_0000 {
                    bits as i64
                } else {
                    (bits as i128 - 0x1_0000_0000_0000_0000) as i64
                };
                Ok(value)
            },
            Err(error) => Err(error),
        }
    }

    /// Reads the bit pattern of a 32-bit floating-point number.
    pub fn read_float_bits(&mut self) -> (r: Result<u32, ServerError>)
        ensures
            match old(self)@.unsigned_at(4) {
                Ok(bits) => r == Ok::<u32, ServerError>(bits as u32) && bits < 0x1_0000_0000
                    && final(self)@ == old(self)@.advanced(4),
                Err(error) => r == Err::<u32, ServerError>(error) && final(self)@ == old(self)@,
            },
    {
        proof {
            codec::lemma_pow256_values();
        }
        match self.read_unsigned(4) {
            Ok(bits) => Ok(bits as u32),
            Err(error) => Err(error),
        }
    }

    /// Reads the bit pattern of a 64-bit floating-point number.
    pub fn read_double_bits(&mut self) -> (r: Result<u64, ServerError>)
        ensures
            match old(self)@.unsigned_at(8) {
                Ok(bits) => r == Ok::<u64, ServerError>(bits as u64) && bits
                    < 0x1_0000_0000_0000_0000 && final(self)@ == old(self)@.advanced(8),
                Err(error) => r == Err::<u64, ServerError>(error) && final(self)@ == old(self)@,
            },
    {
        proof {
            codec::lemma_pow256_values();
        }
        match self.read_unsigned(8) {
            Ok(bits) => Ok(bits as u64),
            Err(error) => Err(error),
        }
    }

    /// Reads a 128-bit identifier: sixteen raw bytes, most significant first.
    pub fn read_uuid(&mut self) -> (r: Result<u128, ServerError>)
        ensures
            match old(self)@.unsigned_at(16) {
                Ok(bits) => r == Ok::<u128, ServerError>(bits as u128) && bits < pow256(16)
                    && final(self)@ == old(self)@.advanced(16),
                Err(error) => r == Err::<u128, ServerError>(error) && final(self)@ == old(self)@,
            },
    {
        self.read_unsigned(16)
    }

    /// Reads a variable-length integer.
    pub fn read_varint(&mut self) -> (r: Result<i32, ServerError>)
        ensures
            match varint_at(old(self)@.bytes, old(self)@.cursor) {
                Ok((value, count)) => r == Ok::<i32, ServerError>(value) && final(self)@ == old(self)@.advanced(count as int),
                Err(error) => r == Err::<i32, ServerError>(error) && final(self)@ == old(self)@,
            },
    {
        match codec::read_varint(self.bytes.as_slice(), self.cursor) {
            Ok((value, count)) => {
                let total: usize = self.bytes.len();
                self.cursor = self.cursor + count;
                Ok(value)
            },
            Err(error) => Err(error),
        }
    }

    /// Reads a variable-length integer that must not be negative. A negative
    /// value is refused and the packet left as it was.
    pub fn read_usize_varint(&mut self) -> (r: Result<usize, ServerError>)
        ensures
            match varint_at(old(self)@.bytes, old(self)@.cursor) {
                Ok((value, count)) => if value >= 0 {
                    r == Ok::<usize, ServerError>(value as usize) && final(self)@ == old(self)@.advanced(count as int)
                } else {
                    r == Err::<usize, ServerError>(ServerError::Protocol(ProtocolFault::VarInt))
                        && final(self)@ == old(self)@
                },
                Err(error) => r == Err::<usize, ServerError>(error) && final(self)@ == old(self)@,
            },
    {
        match codec::read_varint(self.bytes.as_slice(), self.cursor) {
            Ok((value, count)) => {
                if value < 0 {
                    return Err(ServerError::Protocol(ProtocolFault::VarInt));
                }
                let total: usize = self.bytes.len();
                self.cursor = self.cursor + count;
                Ok(value as usize)
            },
            Err(error) => Err(error),
        }
    }

    /// Reads a variable-length integer that must fit sixteen unsigned bits. A
    /// value outside `0..=65535` is refused and the packet left as it was.
    pub fn read_u16_varint(&mut self) -> (r: Result<u16, ServerError>)
        ensures
            match varint_at(old(self)@.bytes, old(self)@.cursor) {
                Ok((value, count)) => if 0 <= value <= 0xffff {
                    r == Ok::<u16, ServerError>(value as u16) && final(self)@ == old(self)@.advanced(count as int)
                } else {
                    r == Err::<u16, ServerError>(ServerError::Protocol(ProtocolFault::VarInt))
                        && final(self)@ == old(self)@
                },
                Err(error) => r == Err::<u16, ServerError>(error) && final(self)@ == old(self)@,
            },
    {
        match codec::read_varint(self.bytes.as_slice(), self.cursor) {
            Ok((value, count)) => {
                if value < 0 || value > 0xffff {
                    return Err(ServerError::Protocol(ProtocolFault::VarInt));
                }
                let total: usize = self.bytes.len();
                self.cursor = self.cursor + count;
                Ok(value as u16)
            },
            Err(error) => Err(error),
        }
    }

    /// Reads length-prefixed text.
    pub fn read_string(&mut self) -> (r: Result<String, ServerError>)
        ensures
            match string_at(old(self)@.bytes, old(self)@.cursor) {
                Ok((chars, count)) => (r matches Ok(text) && text@ == chars) && final(self)@
                    == old(self)@.advanced(count as int),
                Err(error) => r == Err::<String, ServerError>(error) && final(self)@ == old(self)@,
            },
    {
        match codec::read_string(self.bytes.as_slice(), self.cursor) {
            Ok((text, count)) => {
                let total: usize = self.bytes.len();
                self.cursor = self.cursor + count;
                Ok(text)
            },
            Err(error) => Err(error),
        }
    }

    /// Appends raw bytes.
    pub fn write_bytes(&mut self, bytes: &[u8])
        ensures
            final(self)@ == old(self)@.appended(bytes@),
    {
        codec::write_bytes(&mut self.bytes, bytes);
    }

    /// Appends one byte.
    pub fn write_byte(&mut self, byte: u8)
        ensures
            final(self)@ == old(self)@.appended(seq![byte]),
    {
        self.bytes.push(byte);
        assert(self.bytes@ =~= old(self).bytes@ + seq![byte]);
    }

    /// Appends the low `width` bytes of `value`, most significant byte first.
    pub fn write_unsigned(&mut self, value: u128, width: usize)
        requires
            width <= 16,
        ensures
            final(self)@ == old(self)@.appended(be_bytes(value as nat, width as nat)),
    {
        codec::write_unsigned(&mut self.bytes, value, width);
    }

    /// Appends one signed byte.
    pub fn write_signed_byte(&mut self, value: i8)
        ensures
            final(self)@ == old(self)@.appended(be_bytes(unsigned_value(value as int, 1), 1)),
    {
        proof {
            codec::lemma_pow256_values();
        }
        let bits: u8 = if value >= 0 {
            value as u8
        } else {
            (value as i16 + 0x100) as u8
        };
        codec::write_unsigned(&mut self.bytes, bits as u128, 1);
    }

    /// Appends a boolean: `0x01` for true, `0x00` for false.
    pub fn write_boolean(&mut self, value: bool)
        ensures
            final(self)@ == old(self)@.appended(
                seq![if value {
                    1u8
                } else {
                    0u8
                }],
            ),
    {
        self.write_byte(if value { 1 } else { 0 });
    }

    /// Appends an unsigned 16-bit number.
    pub fn write_unsigned_short(&mut self, value: u16)
        ensures
            final(self)@ == old(self)@.appended(be_bytes(value as nat, 2)),
    {
        codec::write_unsigned(&mut self.bytes, value as u128, 2);
    }

    /// Appends a signed 16-bit number.
    pub fn write_short(&mut self, value: i16)
        ensures
            final(self)@ == old(self)@.appended(be_bytes(unsigned_value(value as int, 2), 2)),
    {
        proof {
            codec::lemma_pow256_values();
        }
        let bits: u16 = if value >= 0 {
            value as u16
        } else {
            (value as i32 + 0x1_0000) as u16
        };
        codec::write_unsigned(&mut self.bytes, bits as u128, 2);
    }

    /// Appends a signed 32-bit number.
    pub fn write_int(&mut self, value: i32)
        ensures
            final(self)@ == old(self)@.appended(be_bytes(unsigned_value(value as int, 4), 4)),
    {
        proof {
            codec::lemma_pow256_values();
        }
        let bits: u32 = if value >= 0 {
            value as u32
        } else {
            (value as i64 + 0x1_0000_0000) as u32
        };
        codec::write_unsigned(&mut self.bytes, bits as u128, 4);
    }

    /// Appends a signed 64-bit number.
    pub fn write_long(&mut self, value: i64)
        ensures
            final(self)@ == old(self)@.appended(be_bytes(unsigned_value(value as int, 8), 8)),
    {
        proof {
            codec::lemma_pow256_values();
        }
        let bits: u64 = if value >= 0 {
            value as u64
        } else {
            (value as i128 + 0x1_0000_0000_0000_0000) as u64
        };
        codec::write_unsigned(&mut self.bytes, bits as u128, 8);
    }

    /// Appends the bit pattern of a 32-bit floating-point number.
    pub fn write_float_bits(&mut self, bits: u32)
        ensures
            final(self)@ == old(self)@.appended(be_bytes(bits as nat, 4)),
    {
        codec::write_unsigned(&mut self.bytes, bits as u128, 4);
    }

    /// Appends the bit pattern of a 64-bit floating-point number.
    pub fn write_double_bits(&mut self, bits: u64)
        ensures
            final(self)@ == old(self)@.appended(be_bytes(bits as nat, 8)),
    {
        codec::write_unsigned(&mut self.bytes, bits as u128, 8);
    }

    /// Appends a 128-bit identifier as sixteen raw bytes.
    pub fn write_uuid(&mut self, value: u128)
        ensures
            final(self)@ == old(self)@.appended(be_bytes(value as nat, 16)),
    {
        codec::write_unsigned(&mut self.bytes, value, 16);
    }

    /// Appends a variable-length integer.
    pub fn write_varint(&mut self, value: i32)
        ensures
            final(self)@ == old(self)@.appended(varint_bytes(value)),
    {
        codec::write_varint(&mut self.bytes, value);
    }

    /// Appends a count as a variable-length integer. A count above `i32::MAX`
    /// has no such form and is refused; the packet is then left as it was.
    pub fn write_usize_varint(&mut self, value: usize) -> (r: Result<(), ServerError>)
        ensures
            value <= i32::MAX ==> r is Ok && final(self)@ == old(self)@.appended(
                varint_bytes(value as i32),
            ),
            value > i32::MAX ==> r == Err::<(), ServerError>(
                ServerError::Protocol(ProtocolFault::VarInt),
            ) && final(self)@ == old(self)@,
    {
        if value > 0x7fff_ffff {
            return Err(ServerError::Protocol(ProtocolFault::VarInt));
        }
        codec::write_varint(&mut self.bytes, value as i32);
        Ok(())
    }

    /// Appends a 16-bit count as a variable-length integer.
    pub fn write_u16_varint(&mut self, value: u16)
        ensures
            final(self)@ == old(self)@.appended(varint_bytes(value as i32)),
    {
        codec::write_varint(&mut self.bytes, value as i32);
    }

    /// Appends length-prefixed text that is known to fit its length prefix.
    pub(crate) fn write_text(&mut self, text: &str)
        requires
            vstd::utf8::encode_utf8(text@).len() <= i32::MAX,
        ensures
            final(self)@ == old(self)@.appended(string_bytes(text@)),
    {
        let written: Result<(), ServerError> = codec::write_string(&mut self.bytes, text);
    }

    /// Appends length-prefixed text. Text longer than `i32::MAX` bytes is
    /// refused; the packet is then left as it was.
    pub fn write_string(&mut self, text: &str) -> (r: Result<(), ServerError>)
        ensures
            vstd::utf8::encode_utf8(text@).len() <= i32::MAX ==> r is Ok && final(self)@ == old(self)@.appended(string_bytes(text@)),
            vstd::utf8::encode_utf8(text@).len() > i32::MAX ==> r == Err::<(), ServerError>(
                ServerError::Protocol(ProtocolFault::VarInt),
            ) && final(self)@ == old(self)@,
    {
        codec::write_string(&mut self.bytes, text)
    }
}

} // verus!
