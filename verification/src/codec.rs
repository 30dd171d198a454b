//! Wire encoding of single field values: variable-length integers, big-endian
//! fixed-width integers, booleans, identifiers and length-prefixed text.
//!
//! Every decoder takes the bytes and the position to read at, and answers with
//! the value and the number of bytes it stands on; nothing here panics on any
//! input.

use crate::error::ProtocolFault;
use crate::error::ServerError;
use vstd::prelude::*;

verus! {

/// The most bytes a variable-length 32-bit integer may occupy.
pub const VARINT_MAX_BYTES: usize = 5;

/// The 32-bit pattern of `value` read as an unsigned number (two's complement).
pub open spec fn unsigned32(value: i32) -> nat {
    if value >= 0 {
        value as nat
    } else {
        (value + 0x1_0000_0000) as nat
    }
}

/// The signed number whose 32-bit pattern is the low 32 bits of `bits`.
pub open spec fn signed32(bits: nat) -> i32 {
    let low = bits % 0x1_0000_0000;
    if low < 0x8000_0000 {
        low as i32
    } else {
        (low - 0x1_0000_0000) as i32
    }
}

/// The groups of seven bits of `bits`, least significant first, every byte but
/// the last carrying the continuation bit `0x80`.
pub open spec fn varint_groups(bits: nat) -> Seq<u8>
    decreases bits,
{
    if bits < 128 {
        seq![bits as u8]
    } else {
        seq![(bits % 128 + 128) as u8] + varint_groups(bits / 128)
    }
}

/// The wire form of a variable-length integer: minimal length, one to five bytes.
pub open spec fn varint_bytes(value: i32) -> Seq<u8> {
    varint_groups(unsigned32(value))
}

/// Reads groups of seven bits from `bytes[at..]`, at most `limit` of them.
/// Answers the number they spell and how many bytes were read; fails with
/// `VarIntTooBig` when `limit` bytes all carry the continuation bit, and with
/// `UnexpectedEof` when the bytes end first.
pub open spec fn groups_value(bytes: Seq<u8>, at: int, limit: nat) -> Result<(nat, nat), ServerError>
    decreases limit,
{
    if limit == 0 {
        Err(ServerError::VarIntTooBig)
    } else if at < 0 || at >= bytes.len() {
        Err(ServerError::UnexpectedEof)
    } else if bytes[at] < 128 {
        Ok((bytes[at] as nat, 1nat))
    } else {
        match groups_value(bytes, at + 1, (limit - 1) as nat) {
            Ok((rest, count)) => Ok(((bytes[at] - 128) as nat + 128 * rest, count + 1)),
            Err(error) => Err(error),
        }
    }
}

/// The variable-length integer that stands at `bytes[at..]`, with its length.
pub open spec fn varint_at(bytes: Seq<u8>, at: int) -> Result<(i32, usize), ServerError> {
    match groups_value(bytes, at, VARINT_MAX_BYTES as nat) {
        Ok((bits, count)) => Ok((signed32(bits), count as usize)),
        Err(error) => Err(error),
    }
}

/// One more than the largest number that `limit` groups can spell.
pub open spec fn groups_bound(limit: nat) -> nat {
    if limit == 0 {
        1
    } else if limit == 1 {
        128
    } else if limit == 2 {
        16384
    } else if limit == 3 {
        2097152
    } else if limit == 4 {
        268435456
    } else {
        34359738368
    }
}

/// Groups are never empty and never longer than the number needs.
pub proof fn lemma_groups_len(bits: nat, limit: nat)
    requires
        1 <= limit <= 5,
        bits < groups_bound(limit),
    ensures
        1 <= varint_groups(bits).len() <= limit,
    decreases bits,
{
    if bits >= 128 {
        lemma_groups_len(bits / 128, (limit - 1) as nat);
    }
}

/// Reading back the groups of a number gives the number, wherever in a buffer
/// the groups stand and whatever follows them.
pub proof fn lemma_groups_round_trip(bytes: Seq<u8>, at: int, bits: nat, limit: nat)
    requires
        1 <= limit <= 5,
        bits < groups_bound(limit),
        0 <= at,
        at + varint_groups(bits).len() <= bytes.len(),
        bytes.subrange(at, at + varint_groups(bits).len()) == varint_groups(bits),
    ensures
        groups_value(bytes, at, limit) == Ok::<(nat, nat), ServerError>(
            (bits, varint_groups(bits).len()),
        ),
    decreases bits,
{
    let groups = varint_groups(bits);
    let part = bytes.subrange(at, at + groups.len());
    assert(bytes[at] == part[0]);
    if bits >= 128 {
        let rest = varint_groups(bits / 128);
        assert(groups == seq![(bits % 128 + 128) as u8] + rest);
        assert(groups.len() == 1 + rest.len());
        assert(bytes.subrange(at + 1, at + 1 + rest.len()) =~= rest) by {
            assert forall|i: int| 0 <= i < rest.len() implies bytes[at + 1 + i] == rest[i] by {
                assert(part[i + 1] == groups[i + 1]);
            }
        }
        lemma_groups_round_trip(bytes, at + 1, bits / 128, (limit - 1) as nat);
    }
}

/// Decoding an encoded integer gives it back, and the encoding takes between
/// one and five bytes.
pub proof fn lemma_varint_round_trip(value: i32)
    ensures
        1 <= varint_bytes(value).len() <= 5,
        varint_at(varint_bytes(value), 0) == Ok::<(i32, usize), ServerError>(
            (value, varint_bytes(value).len() as usize),
        ),
{
    let bytes = varint_bytes(value);
    assert(bytes.subrange(0, bytes.len() as int) =~= bytes);
    lemma_varint_round_trip_within(bytes, 0, value);
}

/// The same, for an encoded integer that stands inside a longer buffer.
pub proof fn lemma_varint_round_trip_within(bytes: Seq<u8>, at: int, value: i32)
    requires
        0 <= at,
        at + varint_bytes(value).len() <= bytes.len(),
        bytes.subrange(at, at + varint_bytes(value).len()) == varint_bytes(value),
    ensures
        1 <= varint_bytes(value).len() <= 5,
        varint_at(bytes, at) == Ok::<(i32, usize), ServerError>(
            (value, varint_bytes(value).len() as usize),
        ),
{
    let bits = unsigned32(value);
    lemma_groups_len(bits, 5);
    lemma_groups_round_trip(bytes, at, bits, 5);
    assert(signed32(bits) == value);
}

/// Five bytes that all carry the continuation bit are refused, whatever their
/// low bits hold and whatever follows them.
pub proof fn lemma_varint_too_big(bytes: Seq<u8>, at: int)
    requires
        0 <= at,
        at + 5 <= bytes.len(),
        forall|i: int| at <= i < at + 5 ==> bytes[i] >= 128,
    ensures
        varint_at(bytes, at) == Err::<(i32, usize), ServerError>(ServerError::VarIntTooBig),
{
    reveal_with_fuel(groups_value, 6);
}

/// What `groups_value` answers when it succeeds is within reach of the limit.
pub proof fn lemma_groups_value_bounds(bytes: Seq<u8>, at: int, limit: nat)
    requires
        limit <= 5,
    ensures
        match groups_value(bytes, at, limit) {
            Ok((bits, count)) => 1 <= count <= limit && bits < groups_bound(limit) && 0 <= at
                && at + count <= bytes.len(),
            Err(error) => error == ServerError::VarIntTooBig || error
                == ServerError::UnexpectedEof,
        },
    decreases limit,
{
    if limit > 0 && 0 <= at < bytes.len() && bytes[at] >= 128 {
        lemma_groups_value_bounds(bytes, at + 1, (limit - 1) as nat);
    }
}

/// Appends the wire form of `value`.
pub fn write_varint(buf: &mut Vec<u8>, value: i32)
    ensures
        final(buf)@ == old(buf)@ + varint_bytes(value),
{
    let ghost start = buf@;
    let mut bits: u32 = if value >= 0 {
        value as u32
    } else {
        (value as i64 + 0x1_0000_0000) as u32
    };
    while bits >= 128
        invariant
            buf@ + varint_groups(bits as nat) == start + varint_bytes(value),
        decreases bits,
    {
        let ghost before = buf@;
        let group: u8 = (bits % 128 + 128) as u8;
        buf.push(group);
        assert(buf@ + varint_groups((bits / 128) as nat) =~= before + varint_groups(bits as nat));
        bits = bits / 128;
    }
    let ghost before = buf@;
    buf.push(bits as u8);
    assert(buf@ =~= before + varint_groups(bits as nat));
}

/// The wire form of `value` as a fresh buffer.
pub fn encode_varint(value: i32) -> (bytes: Vec<u8>)
    ensures
        bytes@ == varint_bytes(value),
        1 <= bytes@.len() <= 5,
{
    let mut bytes: Vec<u8> = Vec::new();
    write_varint(&mut bytes, value);
    proof {
        lemma_varint_round_trip(value);
        assert(bytes@ =~= varint_bytes(value));
    }
    bytes
}

/// The number of bytes that the wire form of `value` takes.
pub fn varint_len(value: i32) -> (len: usize)
    ensures
        len == varint_bytes(value).len(),
        1 <= len <= 5,
{
    let bits: u32 = if value >= 0 {
        value as u32
    } else {
        (value as i64 + 0x1_0000_0000) as u32
    };
    proof {
        lemma_groups_len(bits as nat, 5);
        reveal_with_fuel(varint_groups, 6);
    }
    if bits < 128 {
        1
    } else if bits < 16384 {
        2
    } else if bits < 2097152 {
        3
    } else if bits < 268435456 {
        4
    } else {
        5
    }
}

fn read_groups(bytes: &[u8], at: usize, limit: usize) -> (r: Result<(u64, usize), ServerError>)
    requires
        limit <= 5,
    ensures
        match r {
            Ok((bits, count)) => groups_value(bytes@, at as int, limit as nat) == Ok::<
                (nat, nat),
                ServerError,
            >((bits as nat, count as nat)),
            Err(error) => groups_value(bytes@, at as int, limit as nat) == Err::<
                (nat, nat),
                ServerError,
            >(error),
        },
    decreases limit,
{
    proof {
        lemma_groups_value_bounds(bytes@, at as int, limit as nat);
    }
    if limit == 0 {
        Err(ServerError::VarIntTooBig)
    } else if at >= bytes.len() {
        Err(ServerError::UnexpectedEof)
    } else {
        let byte: u8 = bytes[at];
        if byte < 128 {
            Ok((byte as u64, 1))
        } else {
            proof {
                lemma_groups_value_bounds(bytes@, at as int + 1, (limit - 1) as nat);
            }
            match read_groups(bytes, at + 1, limit - 1) {
                Ok((rest, count)) => Ok(((byte - 128) as u64 + 128 * rest, count + 1)),
                Err(error) => Err(error),
            }
        }
    }
}

/// Reads the variable-length integer at `bytes[at..]`. Answers the value and
/// the number of bytes it took.
pub fn read_varint(bytes: &[u8], at: usize) -> (r: Result<(i32, usize), ServerError>)
    ensures
        r == varint_at(bytes@, at as int),
        r matches Ok((_, count)) ==> 1 <= count <= 5 && at + count <= bytes@.len(),
{
    proof {
        lemma_groups_value_bounds(bytes@, at as int, 5);
    }
    match read_groups(bytes, at, VARINT_MAX_BYTES) {
        Ok((bits, count)) => {
            let low: u64 = bits % 0x1_0000_0000;
            let value: i32 = if low < 0x8000_0000 {
                low as i32
            } else {
                (low as i64 - 0x1_0000_0000) as i32
            };
            Ok((value, count))
        },
        Err(error) => Err(error),
    }
}


/// 256 raised to `count`: one more than the largest number `count` bytes hold.
pub open spec fn pow256(count: nat) -> nat
    decreases count,
{
    if count == 0 {
        1
    } else {
        256 * pow256((count - 1) as nat)
    }
}

/// The number that the `count` bytes at `bytes[at..]` spell, most significant
/// byte first.
pub open spec fn be_value(bytes: Seq<u8>, at: int, count: nat) -> nat
    decreases count,
{
    if count == 0 {
        0
    } else {
        be_value(bytes, at, (count - 1) as nat) * 256 + bytes[at + count - 1] as nat
    }
}

/// The `count` bytes that spell the low `8 * count` bits of `value`, most
/// significant byte first.
pub open spec fn be_bytes(value: nat, count: nat) -> Seq<u8>
    decreases count,
{
    if count == 0 {
        Seq::empty()
    } else {
        be_bytes(value / 256, (count - 1) as nat).push((value % 256) as u8)
    }
}

/// The signed number whose two's complement pattern in `width` bytes is `bits`.
pub open spec fn signed_value(bits: nat, width: nat) -> int {
    if 2 * bits < pow256(width) {
        bits as int
    } else {
        bits - pow256(width)
    }
}

/// The two's complement pattern of `value` in `width` bytes.
pub open spec fn unsigned_value(value: int, width: nat) -> nat {
    if value >= 0 {
        value as nat
    } else {
        (value + pow256(width)) as nat
    }
}

/// A signed number that fits `width` bytes is read back from its pattern.
pub proof fn lemma_signed_round_trip(value: int, width: nat)
    requires
        -pow256(width) <= 2 * value < pow256(width),
    ensures
        unsigned_value(value, width) < pow256(width),
        signed_value(unsigned_value(value, width), width) == value,
{
}

/// A number that fits `width` bytes, written and read at that width, is
/// what it was.
pub proof fn lemma_fixed_round_trip(value: nat, width: nat)
    requires
        value < pow256(width),
    ensures
        be_bytes(value, width).len() == width,
        be_value(be_bytes(value, width), 0, width) == value,
{
    lemma_be_bytes_len(value, width);
    let bytes = be_bytes(value, width);
    assert(bytes.subrange(0, width as int) =~= bytes);
    lemma_be_round_trip(bytes, 0, value, width);
}

/// The powers of 256 that the fixed widths of the wire format use.
pub proof fn lemma_pow256_values()
    ensures
        pow256(0) == 1,
        pow256(1) == 0x100,
        pow256(2) == 0x1_0000,
        pow256(4) == 0x1_0000_0000,
        pow256(8) == 0x1_0000_0000_0000_0000,
        pow256(15) == 0x1_0000_0000_0000_0000_0000_0000_0000_00,
        pow256(16) == 0x1_0000_0000_0000_0000_0000_0000_0000_0000,
{
    reveal_with_fuel(pow256, 17);
}

/// A power of 256 grows with its exponent.
pub proof fn lemma_pow256_monotonic(small: nat, large: nat)
    requires
        small <= large,
    ensures
        1 <= pow256(small) <= pow256(large),
    decreases large,
{
    if large > 0 {
        if small < large {
            lemma_pow256_monotonic(small, (large - 1) as nat);
        } else {
            lemma_pow256_monotonic((small - 1) as nat, (large - 1) as nat);
        }
    }
}

/// `count` bytes spell a number below `256^count`.
pub proof fn lemma_be_value_bound(bytes: Seq<u8>, at: int, count: nat)
    ensures
        be_value(bytes, at, count) < pow256(count),
    decreases count,
{
    if count > 0 {
        lemma_be_value_bound(bytes, at, (count - 1) as nat);
    }
}

/// `be_bytes` gives exactly `count` bytes.
pub proof fn lemma_be_bytes_len(value: nat, count: nat)
    ensures
        be_bytes(value, count).len() == count,
    decreases count,
{
    if count > 0 {
        lemma_be_bytes_len(value / 256, (count - 1) as nat);
    }
}

/// The bytes of a number spell that number again, wherever they stand.
pub proof fn lemma_be_round_trip(bytes: Seq<u8>, at: int, value: nat, count: nat)
    requires
        value < pow256(count),
        0 <= at,
        at + count <= bytes.len(),
        bytes.subrange(at, at + count) == be_bytes(value, count),
    ensures
        be_value(bytes, at, count) == value,
    decreases count,
{
    if count > 0 {
        let shorter = (count - 1) as nat;
        lemma_be_bytes_len(value / 256, shorter);
        let part = bytes.subrange(at, at + count);
        assert(part[count - 1] == (value % 256) as u8);
        assert(bytes[at + count - 1] == part[count - 1]);
        let high = be_bytes(value / 256, shorter);
        assert(bytes.subrange(at, at + shorter) =~= high) by {
            assert forall|i: int| 0 <= i < shorter implies bytes[at + i] == #[trigger] high[i] by {
                assert(part[i] == be_bytes(value, count)[i]);
            }
        }
        lemma_be_round_trip(bytes, at, value / 256, shorter);
    }
}

/// Appends every byte of `source`.
pub fn write_bytes(buf: &mut Vec<u8>, source: &[u8])
    ensures
        final(buf)@ == old(buf)@ + source@,
{
    let ghost start = buf@;
    let mut i: usize = 0;
    while i < source.len()
        invariant
            i <= source@.len(),
            buf@ == start + source@.subrange(0, i as int),
        decreases source@.len() - i,
    {
        buf.push(source[i]);
        assert(buf@ =~= start + source@.subrange(0, i as int + 1));
        i = i + 1;
    }
    assert(source@.subrange(0, i as int) =~= source@);
}

/// Appends the low `count` bytes of `value`, most significant first.
pub fn write_unsigned(buf: &mut Vec<u8>, value: u128, count: usize)
    requires
        count <= 16,
    ensures
        final(buf)@ == old(buf)@ + be_bytes(value as nat, count as nat),
    decreases count,
{
    let ghost start = buf@;
    if count > 0 {
        write_unsigned(buf, value / 256, count - 1);
        buf.push((value % 256) as u8);
        assert(buf@ =~= start + be_bytes(value as nat, count as nat));
    } else {
        assert(buf@ =~= start + be_bytes(value as nat, count as nat));
    }
}

fn unsigned_at(bytes: &[u8], at: usize, count: usize) -> (value: u128)
    requires
        count <= 16,
        at + count <= bytes@.len(),
    ensures
        value == be_value(bytes@, at as int, count as nat),
    decreases count,
{
    if count == 0 {
        0
    } else {
        let total: usize = bytes.len();
        let high: u128 = unsigned_at(bytes, at, count - 1);
        proof {
            lemma_be_value_bound(bytes@, at as int, (count - 1) as nat);
            lemma_pow256_monotonic((count - 1) as nat, 15);
            lemma_pow256_values();
        }
        assert(at + count <= total);
        high * 256 + bytes[at + count - 1] as u128
    }
}

/// Reads the number that `count` bytes at `bytes[at..]` spell, most significant
/// first. Fails with `UnexpectedEof` exactly when fewer than `count` bytes
/// remain.
pub fn read_unsigned(bytes: &[u8], at: usize, count: usize) -> (r: Result<u128, ServerError>)
    requires
        count <= 16,
    ensures
        r == if at + count <= bytes@.len() {
            Ok::<u128, ServerError>(be_value(bytes@, at as int, count as nat) as u128)
        } else {
            Err::<u128, ServerError>(ServerError::UnexpectedEof)
        },
{
    if at > bytes.len() || bytes.len() - at < count {
        Err(ServerError::UnexpectedEof)
    } else {
        Ok(unsigned_at(bytes, at, count))
    }
}

/// The UTF-8 bytes of `text` behind their count as a variable-length integer.
pub open spec fn string_bytes(text: Seq<char>) -> Seq<u8> {
    varint_bytes(vstd::utf8::encode_utf8(text).len() as i32) + vstd::utf8::encode_utf8(text)
}

/// The length-prefixed text that stands at `bytes[at..]`, with the number of
/// bytes it takes, prefix included.
pub open spec fn string_at(bytes: Seq<u8>, at: int) -> Result<(Seq<char>, usize), ServerError> {
    match varint_at(bytes, at) {
        Err(error) => Err(error),
        Ok((len, prefix)) => {
            if len < 0 {
                Err(ServerError::Protocol(ProtocolFault::VarInt))
            } else if at + prefix + len > bytes.len() {
                Err(ServerError::UnexpectedEof)
            } else {
                let raw = bytes.subrange(at + prefix, at + prefix + len);
                if vstd::utf8::valid_utf8(raw) {
                    Ok((vstd::utf8::decode_utf8(raw), (prefix + len) as usize))
                } else {
                    Err(ServerError::MalformedString)
                }
            }
        },
    }
}

/// Decoding encoded text gives it back, the empty text included.
pub proof fn lemma_string_round_trip(text: Seq<char>)
    requires
        vstd::utf8::encode_utf8(text).len() <= i32::MAX,
    ensures
        string_at(string_bytes(text), 0) == Ok::<(Seq<char>, usize), ServerError>(
            (text, string_bytes(text).len() as usize),
        ),
{
    let raw = vstd::utf8::encode_utf8(text);
    let len = raw.len() as i32;
    let bytes = string_bytes(text);
    let prefix = varint_bytes(len);
    assert(bytes.subrange(0, prefix.len() as int) =~= prefix);
    lemma_varint_round_trip_within(bytes, 0, len);
    assert(bytes.subrange(prefix.len() as int, prefix.len() + len) =~= raw);
    vstd::utf8::encode_utf8_valid_utf8(text);
    vstd::utf8::encode_utf8_decode_utf8(text);
}

/// A length prefix followed by bytes that are not UTF-8 is refused.
pub proof fn lemma_string_malformed(bytes: Seq<u8>, at: int)
    requires
        varint_at(bytes, at) matches Ok((len, prefix)) && len >= 0 && at + prefix + len
            <= bytes.len() && !vstd::utf8::valid_utf8(
            bytes.subrange(at + prefix, at + prefix + len),
        ),
    ensures
        string_at(bytes, at) == Err::<(Seq<char>, usize), ServerError>(
            ServerError::MalformedString,
        ),
{
}

/// `String::from_utf8`, which answers with the text exactly when the bytes are
/// valid UTF-8; the text then reads as those bytes decoded.
#[verifier::external_body]
fn text_of(bytes: Vec<u8>) -> (text: Option<String>)
    ensures
        text is Some <==> vstd::utf8::valid_utf8(bytes@),
        text matches Some(s) ==> s@ == vstd::utf8::decode_utf8(bytes@),
{
    String::from_utf8(bytes).ok()
}

/// Appends `text` behind its byte count. Text longer than `i32::MAX` bytes has
/// no length prefix and is refused; the buffer is then left as it was.
pub fn write_string(buf: &mut Vec<u8>, text: &str) -> (r: Result<(), ServerError>)
    ensures
        vstd::utf8::encode_utf8(text@).len() <= i32::MAX ==> r is Ok && final(buf)@ == old(buf)@
            + string_bytes(text@),
        vstd::utf8::encode_utf8(text@).len() > i32::MAX ==> r == Err::<(), ServerError>(
            ServerError::Protocol(ProtocolFault::VarInt),
        ) && final(buf)@ == old(buf)@,
{
    let ghost start = buf@;
    let raw: &[u8] = text.as_bytes();
    if raw.len() > 0x7fff_ffff {
        return Err(ServerError::Protocol(ProtocolFault::VarInt));
    }
    write_varint(buf, raw.len() as i32);
    write_bytes(buf, raw);
    assert(buf@ =~= start + string_bytes(text@));
    Ok(())
}

/// Reads length-prefixed text at `bytes[at..]`. Answers the text and the
/// number of bytes it took, prefix included.
pub fn read_string(bytes: &[u8], at: usize) -> (r: Result<(String, usize), ServerError>)
    ensures
        match r {
            Ok((text, count)) => string_at(bytes@, at as int) == Ok::<
                (Seq<char>, usize),
                ServerError,
            >((text@, count)) && at + count <= bytes@.len(),
            Err(error) => string_at(bytes@, at as int) == Err::<(Seq<char>, usize), ServerError>(
                error,
            ),
        },
{
    let (len, prefix): (i32, usize) = match read_varint(bytes, at) {
        Ok(pair) => pair,
        Err(error) => { return Err(error); },
    };
    if len < 0 {
        return Err(ServerError::Protocol(ProtocolFault::VarInt));
    }
    let total: usize = bytes.len();
    let start: usize = at + prefix;
    let count: usize = len as usize;
    if total - start < count {
        return Err(ServerError::UnexpectedEof);
    }
    let raw: Vec<u8> = vstd::slice::slice_to_vec(
        vstd::slice::slice_subrange(bytes, start, start + count),
    );
    match text_of(raw) {
        Some(text) => Ok((text, prefix + count)),
        None => Err(ServerError::MalformedString),
    }
}


/// The text that bytes read as when every stretch that is not UTF-8 is
/// replaced by the replacement character.
pub uninterp spec fn utf8_lossy(bytes: Seq<u8>) -> Seq<char>;

/// `String::from_utf8_lossy`, made an owned string: the text named by
/// `utf8_lossy`, which for valid UTF-8 is the text that the bytes encode.
#[verifier::external_body]
fn lossy_text(bytes: &[u8]) -> (text: String)
    ensures
        text@ == utf8_lossy(bytes@),
        vstd::utf8::valid_utf8(bytes@) ==> text@ == vstd::utf8::decode_utf8(bytes@),
{
    String::from_utf8_lossy(bytes).into_owned()
}

/// Reads bytes as text, replacing what is not UTF-8.
pub fn read_lossy(bytes: &[u8]) -> (text: String)
    ensures
        text@ == utf8_lossy(bytes@),
        vstd::utf8::valid_utf8(bytes@) ==> text@ == vstd::utf8::decode_utf8(bytes@),
{
    lossy_text(bytes)
}

} // verus!
