//! Values that packets carry beyond plain numbers and text.

use crate::codec;
use crate::codec::be_bytes;
use crate::error::ServerError;
use crate::packet::Packet;
use vstd::prelude::*;

pub mod component;
pub mod slot;

verus! {

/// A value given either by its id in a registry or in full.
#[derive(Debug, Clone, PartialEq, Eq)]
pub enum IdOr<T> {
    Id(i32),
    Or(T),
}

/// A set of registry entries: a tag that names them, or their ids.
#[derive(Debug, Clone, PartialEq, Eq)]
pub enum IdSet {
    Tag(String),
    Ids(Vec<u32>),
}

/// A named value of a player profile, with the signature that vouches for it.
#[derive(Debug, Clone, PartialEq, Eq)]
pub struct Property {
    pub name: String,
    pub value: String,
    pub signature: Option<String>,
}

/// One more than the largest value of a horizontal coordinate's 26 bits.
pub const HORIZONTAL_SPAN: u64 = 0x400_0000;

/// One more than the largest value of the height's 12 bits.
pub const HEIGHT_SPAN: u64 = 0x1000;

/// The signed number that the low `span` values of a field stand for.
pub open spec fn field_value(bits: int, span: int) -> int {
    if 2 * bits < span {
        bits
    } else {
        bits - span
    }
}

/// The bits of a field that hold `value`: the value modulo the span.
pub open spec fn field_bits(value: int, span: int) -> int {
    value % span
}

/// The block position that 64 bits hold: 26 bits of x, 26 bits of z and 12
/// bits of y, from the most significant bit down, each a signed number.
pub open spec fn position_of(bits: nat) -> (i64, i64, i64) {
    (
        field_value(bits as int / 0x40_0000_0000, HORIZONTAL_SPAN as int) as i64,
        field_value(bits as int % 0x1000, HEIGHT_SPAN as int) as i64,
        field_value((bits as int / 0x1000) % 0x400_0000, HORIZONTAL_SPAN as int) as i64,
    )
}

/// The 64 bits that hold a block position; each coordinate keeps the low bits
/// that its field has room for.
pub open spec fn position_bits(x: i64, y: i64, z: i64) -> nat {
    (field_bits(x as int, HORIZONTAL_SPAN as int) * 0x40_0000_0000 + field_bits(
        z as int,
        HORIZONTAL_SPAN as int,
    ) * 0x1000 + field_bits(y as int, HEIGHT_SPAN as int)) as nat
}

/// A position whose coordinates fit their fields is read back as written.
pub proof fn lemma_position_round_trip(x: i64, y: i64, z: i64)
    requires
        -0x200_0000 <= x < 0x200_0000,
        -0x200_0000 <= z < 0x200_0000,
        -0x800 <= y < 0x800,
    ensures
        position_bits(x, y, z) < 0x1_0000_0000_0000_0000,
        position_of(position_bits(x, y, z)) == (x, y, z),
{
}

fn field_of(bits: u64, span: u64) -> (value: i64)
    requires
        bits < span <= HORIZONTAL_SPAN,
    ensures
        value == field_value(bits as int, span as int),
{
    if 2 * bits < span {
        bits as i64
    } else {
        bits as i64 - span as i64
    }
}

fn bits_of(value: i64, span: u64) -> (bits: u64)
    requires
        span == HORIZONTAL_SPAN || span == HEIGHT_SPAN,
    ensures
        bits == field_bits(value as int, span as int),
        bits < span,
{
    let pattern: u64 = if value >= 0 {
        value as u64
    } else {
        (value as i128 + 0x1_0000_0000_0000_0000) as u64
    };
    proof {
        if span == HORIZONTAL_SPAN {
            assert(pattern as int % 0x400_0000 == value as int % 0x400_0000);
        } else {
            assert(pattern as int % 0x1000 == value as int % 0x1000);
        }
    }
    pattern % span
}

impl Packet {
    /// Reads a block position.
    pub fn read_position(&mut self) -> (r: Result<(i64, i64, i64), ServerError>)
        ensures
            match old(self)@.unsigned_at(8) {
                Ok(bits) => r == Ok::<(i64, i64, i64), ServerError>(position_of(bits)) && final(self)@ == old(self)@.advanced(8),
                Err(error) => r == Err::<(i64, i64, i64), ServerError>(error) && final(self)@
                    == old(self)@,
            },
    {
        proof {
            codec::lemma_pow256_values();
        }
        match self.read_unsigned(8) {
            Err(error) => Err(error),
            Ok(bits) => {
                let bits: u64 = bits as u64;
                let x: i64 = field_of(bits / 0x40_0000_0000, HORIZONTAL_SPAN);
                let y: i64 = field_of(bits % 0x1000, HEIGHT_SPAN);
                let z: i64 = field_of((bits / 0x1000) % 0x400_0000, HORIZONTAL_SPAN);
                Ok((x, y, z))
            },
        }
    }

    /// Appends a block position.
    pub fn write_position(&mut self, x: i64, y: i64, z: i64)
        ensures
            final(self)@ == old(self)@.appended(be_bytes(position_bits(x, y, z), 8)),
    {
        let x_bits: u64 = bits_of(x, HORIZONTAL_SPAN);
        let y_bits: u64 = bits_of(y, HEIGHT_SPAN);
        let z_bits: u64 = bits_of(z, HORIZONTAL_SPAN);
        let bits: u64 = x_bits * 0x40_0000_0000 + z_bits * 0x1000 + y_bits;
        self.write_unsigned(bits as u128, 8);
    }
}

} // verus!
