use rust_mc_proto::DataReader;
use rust_mc_proto::DataWriter;
use rust_mc_serv::codec::encode_varint;
use rust_mc_serv::codec::read_lossy;
use rust_mc_serv::codec::read_string;
use rust_mc_serv::codec::read_unsigned;
use rust_mc_serv::codec::read_varint;
use rust_mc_serv::codec::varint_len;
use rust_mc_serv::codec::write_bytes;
use rust_mc_serv::codec::write_string;
use rust_mc_serv::codec::write_unsigned;
use rust_mc_serv::codec::write_varint;
use rust_mc_serv::error::ProtocolFault;
use rust_mc_serv::error::ServerError;

fn sample_values() -> Vec<i32> {
    let mut values = vec![
        0,
        1,
        2,
        63,
        64,
        127,
        128,
        129,
        255,
        256,
        16383,
        16384,
        25565,
        2097151,
        2097152,
        268435455,
        268435456,
        i32::MAX - 1,
        i32::MAX,
        -1,
        -2,
        -128,
        -129,
        -25565,
        i32::MIN + 1,
        i32::MIN,
    ];
    let mut seed: u32 = 0x2545_f491;
    for _ in 0..2000 {
        seed ^= seed << 13;
        seed ^= seed >> 17;
        seed ^= seed << 5;
        values.push(seed as i32);
    }
    values
}

#[test]
fn varint_encodes_known_values() {
    assert_eq!(encode_varint(0), vec![0x00]);
    assert_eq!(encode_varint(1), vec![0x01]);
    assert_eq!(encode_varint(2), vec![0x02]);
    assert_eq!(encode_varint(127), vec![0x7f]);
    assert_eq!(encode_varint(128), vec![0x80, 0x01]);
    assert_eq!(encode_varint(255), vec![0xff, 0x01]);
    assert_eq!(encode_varint(25565), vec![0xdd, 0xc7, 0x01]);
    assert_eq!(encode_varint(2097151), vec![0xff, 0xff, 0x7f]);
    assert_eq!(encode_varint(2147483647), vec![0xff, 0xff, 0xff, 0xff, 0x07]);
    assert_eq!(encode_varint(-1), vec![0xff, 0xff, 0xff, 0xff, 0x0f]);
    assert_eq!(encode_varint(-2147483648), vec![0x80, 0x80, 0x80, 0x80, 0x08]);
}

#[test]
fn varint_decodes_known_values() {
    assert_eq!(read_varint(&[0x00], 0), Ok((0, 1)));
    assert_eq!(read_varint(&[0x7f], 0), Ok((127, 1)));
    assert_eq!(read_varint(&[0x80, 0x01], 0), Ok((128, 2)));
    assert_eq!(read_varint(&[0xdd, 0xc7, 0x01], 0), Ok((25565, 3)));
    assert_eq!(read_varint(&[0xff, 0xff, 0xff, 0xff, 0x07], 0), Ok((i32::MAX, 5)));
    assert_eq!(read_varint(&[0xff, 0xff, 0xff, 0xff, 0x0f], 0), Ok((-1, 5)));
    assert_eq!(read_varint(&[0x80, 0x80, 0x80, 0x80, 0x08], 0), Ok((i32::MIN, 5)));
}

#[test]
fn varint_round_trips() {
    for value in sample_values() {
        let bytes = encode_varint(value);
        assert!(bytes.len() >= 1 && bytes.len() <= 5, "length of {}", value);
        assert_eq!(bytes.len(), varint_len(value));
        assert_eq!(read_varint(&bytes, 0), Ok((value, bytes.len())));
    }
}

#[test]
fn varint_round_trips_inside_a_buffer() {
    for value in sample_values() {
        let mut buffer = vec![0xaa, 0xbb];
        write_varint(&mut buffer, value);
        let end = buffer.len();
        buffer.extend_from_slice(&[0x80, 0x80, 0x80]);
        assert_eq!(read_varint(&buffer, 2), Ok((value, end - 2)));
    }
}

#[test]
fn varint_is_minimal() {
    for value in sample_values() {
        let bytes = encode_varint(value);
        let last = bytes[bytes.len() - 1];
        assert_eq!(last & 0x80, 0);
        if bytes.len() > 1 {
            assert_ne!(last, 0, "a trailing zero group in {}", value);
        }
        for byte in &bytes[..bytes.len() - 1] {
            assert_eq!(byte & 0x80, 0x80);
        }
    }
}

#[test]
fn varint_of_six_bytes_is_too_big() {
    for payload in [0x00u8, 0x01, 0x7f, 0x80, 0xff] {
        let bytes = [0x80, 0x80, 0x80, 0x80, 0x80, payload];
        assert_eq!(read_varint(&bytes, 0), Err(ServerError::VarIntTooBig));
        let bytes = [0xff, 0xff, 0xff, 0xff, 0xff, payload];
        assert_eq!(read_varint(&bytes, 0), Err(ServerError::VarIntTooBig));
        let bytes = [0x81, 0x92, 0xa3, 0xb4, 0xc5, payload];
        assert_eq!(read_varint(&bytes, 0), Err(ServerError::VarIntTooBig));
    }
}

#[test]
fn varint_of_five_continuations_needs_no_sixth_byte() {
    assert_eq!(read_varint(&[0x80, 0x80, 0x80, 0x80, 0x80], 0), Err(ServerError::VarIntTooBig));
}

#[test]
fn varint_that_ends_early_is_eof() {
    assert_eq!(read_varint(&[], 0), Err(ServerError::UnexpectedEof));
    assert_eq!(read_varint(&[0x80], 0), Err(ServerError::UnexpectedEof));
    assert_eq!(read_varint(&[0xff, 0xff, 0xff, 0xff], 0), Err(ServerError::UnexpectedEof));
    assert_eq!(read_varint(&[0x01], 1), Err(ServerError::UnexpectedEof));
    assert_eq!(read_varint(&[0x01], 7), Err(ServerError::UnexpectedEof));
    assert_eq!(read_varint(&[0x01], usize::MAX), Err(ServerError::UnexpectedEof));
}

#[test]
fn varint_fifth_byte_keeps_its_low_four_bits() {
    assert_eq!(read_varint(&[0x80, 0x80, 0x80, 0x80, 0x7f], 0), Ok((-268435456, 5)));
    assert_eq!(read_varint(&[0x80, 0x80, 0x80, 0x80, 0x10], 0), Ok((0, 5)));
}

#[test]
fn varint_agrees_with_the_transport_crate() {
    for value in sample_values() {
        let mut theirs: Vec<u8> = Vec::new();
        theirs.write_varint(value).unwrap();
        assert_eq!(encode_varint(value), theirs);
        let mut cursor = std::io::Cursor::new(encode_varint(value));
        assert_eq!(cursor.read_varint().unwrap(), value);
    }
}

#[test]
fn unsigned_numbers_are_big_endian() {
    let mut buffer = Vec::new();
    write_unsigned(&mut buffer, 0x1234, 2);
    assert_eq!(buffer, vec![0x12, 0x34]);
    let mut buffer = Vec::new();
    write_unsigned(&mut buffer, 0x0102_0304_0506_0708, 8);
    assert_eq!(buffer, vec![1, 2, 3, 4, 5, 6, 7, 8]);
    let mut buffer = Vec::new();
    write_unsigned(&mut buffer, 0x1_0203, 2);
    assert_eq!(buffer, vec![0x02, 0x03]);
    let mut buffer = vec![9];
    write_unsigned(&mut buffer, 7, 0);
    assert_eq!(buffer, vec![9]);
    assert_eq!(read_unsigned(&[0x12, 0x34], 0, 2), Ok(0x1234));
    assert_eq!(read_unsigned(&[0xff, 0x12, 0x34], 1, 2), Ok(0x1234));
    assert_eq!(read_unsigned(&[1, 2, 3, 4, 5, 6, 7, 8], 0, 8), Ok(0x0102_0304_0506_0708));
    assert_eq!(read_unsigned(&[0x12], 0, 0), Ok(0));
    assert_eq!(read_unsigned(&[0x12], 1, 0), Ok(0));
}

#[test]
fn unsigned_numbers_round_trip_at_every_width() {
    let value: u128 = 0x0123_4567_89ab_cdef_fedc_ba98_7654_3210;
    for width in 0..=16usize {
        let mut buffer = Vec::new();
        write_unsigned(&mut buffer, value, width);
        assert_eq!(buffer.len(), width);
        let kept = if width == 16 { value } else { value & ((1u128 << (8 * width)) - 1) };
        assert_eq!(read_unsigned(&buffer, 0, width), Ok(kept));
    }
}

#[test]
fn unsigned_under_run_is_eof() {
    assert_eq!(read_unsigned(&[0x12], 0, 2), Err(ServerError::UnexpectedEof));
    assert_eq!(read_unsigned(&[], 0, 1), Err(ServerError::UnexpectedEof));
    assert_eq!(read_unsigned(&[1, 2, 3], 2, 2), Err(ServerError::UnexpectedEof));
    assert_eq!(read_unsigned(&[1, 2, 3], 4, 0), Err(ServerError::UnexpectedEof));
    assert_eq!(read_unsigned(&[1, 2, 3], usize::MAX, 16), Err(ServerError::UnexpectedEof));
}

#[test]
fn bytes_are_appended() {
    let mut buffer = vec![1, 2];
    write_bytes(&mut buffer, &[3, 4, 5]);
    assert_eq!(buffer, vec![1, 2, 3, 4, 5]);
    write_bytes(&mut buffer, &[]);
    assert_eq!(buffer, vec![1, 2, 3, 4, 5]);
}

#[test]
fn string_encodes_known_values() {
    let mut buffer = Vec::new();
    assert_eq!(write_string(&mut buffer, ""), Ok(()));
    assert_eq!(buffer, vec![0x00]);
    let mut buffer = Vec::new();
    assert_eq!(write_string(&mut buffer, "localhost"), Ok(()));
    assert_eq!(buffer, vec![9, b'l', b'o', b'c', b'a', b'l', b'h', b'o', b's', b't']);
    let mut buffer = Vec::new();
    assert_eq!(write_string(&mut buffer, "\u{436}"), Ok(()));
    assert_eq!(buffer, vec![2, 0xd0, 0xb6]);
}

#[test]
fn string_round_trips() {
    let long = "x".repeat(300);
    for text in ["", "a", "localhost", "minecraft:brand", "\u{416}\u{43e}\u{43f}\u{430}", "\u{1f600} end", long.as_str()] {
        let mut buffer = vec![0xee];
        assert_eq!(write_string(&mut buffer, text), Ok(()));
        let end = buffer.len();
        buffer.push(0xff);
        assert_eq!(read_string(&buffer, 1), Ok((text.to_string(), end - 1)));
    }
}

#[test]
fn string_length_counts_bytes_not_characters() {
    let mut buffer = Vec::new();
    assert_eq!(write_string(&mut buffer, "\u{1f600}"), Ok(()));
    assert_eq!(buffer, vec![4, 0xf0, 0x9f, 0x98, 0x80]);
}

#[test]
fn string_of_invalid_utf8_is_malformed() {
    assert_eq!(read_string(&[2, 0xff, 0xfe], 0), Err(ServerError::MalformedString));
    assert_eq!(read_string(&[1, 0x80], 0), Err(ServerError::MalformedString));
    assert_eq!(read_string(&[2, 0xc3, 0x28], 0), Err(ServerError::MalformedString));
    assert_eq!(read_string(&[3, 0xed, 0xa0, 0x80], 0), Err(ServerError::MalformedString));
    assert_eq!(read_string(&[2, 0xd0], 0), Err(ServerError::UnexpectedEof));
    assert_eq!(read_string(&[1, 0xd0, 0xb6], 0), Err(ServerError::MalformedString));
}

#[test]
fn string_faults_are_told_apart() {
    assert_eq!(read_string(&[], 0), Err(ServerError::UnexpectedEof));
    assert_eq!(read_string(&[5, b'a', b'b'], 0), Err(ServerError::UnexpectedEof));
    assert_eq!(
        read_string(&[0xff, 0xff, 0xff, 0xff, 0x0f], 0),
        Err(ServerError::Protocol(ProtocolFault::VarInt))
    );
    assert_eq!(read_string(&[0x80, 0x80, 0x80, 0x80, 0x80, 0x01], 0), Err(ServerError::VarIntTooBig));
}

#[test]
fn string_agrees_with_the_transport_crate() {
    for text in ["", "localhost", "\u{416}\u{43e}\u{43f}\u{430}"] {
        let mut ours = Vec::new();
        assert_eq!(write_string(&mut ours, text), Ok(()));
        let mut theirs: Vec<u8> = Vec::new();
        theirs.write_string(text).unwrap();
        assert_eq!(ours, theirs);
    }
}

#[test]
fn lossy_text_reads_valid_bytes_as_they_are() {
    assert_eq!(read_lossy(b"vanilla"), "vanilla");
    assert_eq!(read_lossy(&[0x07, b'v', b'a', b'n', b'i', b'l', b'l', b'a']), "\u{7}vanilla");
    assert_eq!(read_lossy(&[]), "");
}

#[test]
fn lossy_text_replaces_what_is_not_utf8() {
    assert_eq!(read_lossy(&[b'a', 0xff, b'b']), "a\u{fffd}b");
}
