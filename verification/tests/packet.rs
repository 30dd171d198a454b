use rust_mc_proto::DataReader;
use rust_mc_proto::DataWriter;
use rust_mc_serv::error::ProtocolFault;
use rust_mc_serv::error::ServerError;
use rust_mc_serv::packet::Packet;

#[test]
fn packet_starts_with_its_cursor_at_zero() {
    let packet = Packet::new(3, vec![1, 2, 3]);
    assert_eq!(packet.id(), 3);
    assert_eq!(packet.get_bytes(), &[1, 2, 3]);
    assert_eq!(packet.position(), 0);
    assert_eq!(packet.len(), 3);
    assert!(!packet.is_empty());
    let packet = Packet::from_bytes(4, &[9]);
    assert_eq!(packet.id(), 4);
    assert_eq!(packet.get_bytes(), &[9]);
    let packet = Packet::empty(5);
    assert_eq!(packet.id(), 5);
    assert_eq!(packet.get_bytes(), &[] as &[u8]);
    assert!(packet.is_empty());
    assert_eq!(packet.len(), 0);
}

#[test]
fn packet_clone_is_equal() {
    let mut packet = Packet::from_bytes(3, &[1, 2, 3]);
    packet.set_position(2);
    let copy = packet.clone();
    assert_eq!(copy, packet);
    assert_eq!(copy.position(), 2);
}

#[test]
fn packet_id_can_be_replaced() {
    let mut packet = Packet::from_bytes(3, &[1, 2, 3]);
    packet.set_position(1);
    packet.set_id(0x82);
    assert_eq!(packet.id(), 0x82);
    assert_eq!(packet.get_bytes(), &[1, 2, 3]);
    assert_eq!(packet.position(), 1);
}

#[test]
fn reads_advance_the_cursor() {
    let mut packet = Packet::from_bytes(0, &[0x80, 0x01, 0x07, 0xff, 0xfe]);
    assert_eq!(packet.read_varint(), Ok(128));
    assert_eq!(packet.position(), 2);
    assert_eq!(packet.read_byte(), Ok(7));
    assert_eq!(packet.position(), 3);
    assert_eq!(packet.len(), 2);
    assert_eq!(packet.read_short(), Ok(-2));
    assert_eq!(packet.position(), 5);
    assert!(packet.is_empty());
}

#[test]
fn failed_reads_leave_the_packet_as_it_was() {
    let mut packet = Packet::from_bytes(0, &[0x01, 0x02, 0x03]);
    packet.set_position(1);
    let before = packet.clone();
    assert_eq!(packet.read_int(), Err(ServerError::UnexpectedEof));
    assert_eq!(packet, before);
    assert_eq!(packet.read_long(), Err(ServerError::UnexpectedEof));
    assert_eq!(packet, before);
    assert_eq!(packet.read_uuid(), Err(ServerError::UnexpectedEof));
    assert_eq!(packet, before);
    assert_eq!(packet.read_bytes(3), Err(ServerError::UnexpectedEof));
    assert_eq!(packet, before);
    assert_eq!(packet.read_string(), Err(ServerError::UnexpectedEof));
    assert_eq!(packet, before);
    assert_eq!(packet.read_unsigned(3), Err(ServerError::UnexpectedEof));
    assert_eq!(packet, before);
    packet.set_position(3);
    assert_eq!(packet.read_byte(), Err(ServerError::UnexpectedEof));
    assert_eq!(packet.read_boolean(), Err(ServerError::UnexpectedEof));
    assert_eq!(packet.read_signed_byte(), Err(ServerError::UnexpectedEof));
    assert_eq!(packet.read_varint(), Err(ServerError::UnexpectedEof));
    assert_eq!(packet.read_unsigned_short(), Err(ServerError::UnexpectedEof));
    assert_eq!(packet.read_float_bits(), Err(ServerError::UnexpectedEof));
    assert_eq!(packet.read_double_bits(), Err(ServerError::UnexpectedEof));
    assert_eq!(packet.position(), 3);
}

#[test]
fn cursor_past_the_end_reads_nothing() {
    let mut packet = Packet::from_bytes(0, &[1, 2, 3]);
    packet.set_position(10);
    assert_eq!(packet.len(), 0);
    assert!(packet.is_empty());
    assert_eq!(packet.read_byte(), Err(ServerError::UnexpectedEof));
    assert_eq!(packet.read_bytes(0), Err(ServerError::UnexpectedEof));
    assert_eq!(packet.read_remaining(), Vec::<u8>::new());
    assert_eq!(packet.position(), 10);
    packet.set_position(usize::MAX);
    assert_eq!(packet.read_varint(), Err(ServerError::UnexpectedEof));
    assert_eq!(packet.read_long(), Err(ServerError::UnexpectedEof));
    packet.rewind();
    assert_eq!(packet.read_byte(), Ok(1));
}

#[test]
fn read_bytes_takes_exactly_what_is_asked() {
    let mut packet = Packet::from_bytes(0, &[1, 2, 3, 4]);
    assert_eq!(packet.read_bytes(0), Ok(vec![]));
    assert_eq!(packet.read_bytes(3), Ok(vec![1, 2, 3]));
    assert_eq!(packet.read_bytes(2), Err(ServerError::UnexpectedEof));
    assert_eq!(packet.read_bytes(1), Ok(vec![4]));
    assert_eq!(packet.read_bytes(0), Ok(vec![]));
}

#[test]
fn read_remaining_takes_the_rest() {
    let mut packet = Packet::from_bytes(0, &[1, 2, 3, 4]);
    assert_eq!(packet.read_byte(), Ok(1));
    assert_eq!(packet.read_remaining(), vec![2, 3, 4]);
    assert_eq!(packet.position(), 4);
    assert_eq!(packet.read_remaining(), Vec::<u8>::new());
}

#[test]
fn boolean_is_true_only_for_one() {
    let mut packet = Packet::from_bytes(0, &[0, 1, 2, 0xff]);
    assert_eq!(packet.read_boolean(), Ok(false));
    assert_eq!(packet.read_boolean(), Ok(true));
    assert_eq!(packet.read_boolean(), Ok(false));
    assert_eq!(packet.read_boolean(), Ok(false));
    let mut packet = Packet::empty(0);
    packet.write_boolean(true);
    packet.write_boolean(false);
    assert_eq!(packet.get_bytes(), &[1, 0]);
}

#[test]
fn signed_numbers_are_twos_complement() {
    let mut packet = Packet::empty(0);
    packet.write_signed_byte(-1);
    packet.write_signed_byte(i8::MIN);
    packet.write_signed_byte(i8::MAX);
    packet.write_short(-2);
    packet.write_short(i16::MIN);
    packet.write_int(-3);
    packet.write_int(i32::MIN);
    packet.write_long(-4);
    packet.write_long(i64::MIN);
    packet.write_long(0x0f38f26ad09c3e20);
    assert_eq!(
        packet.get_bytes(),
        &[
            0xff, 0x80, 0x7f, 0xff, 0xfe, 0x80, 0x00, 0xff, 0xff, 0xff, 0xfd, 0x80, 0x00, 0x00,
            0x00, 0xff, 0xff, 0xff, 0xff, 0xff, 0xff, 0xff, 0xfc, 0x80, 0x00, 0x00, 0x00, 0x00,
            0x00, 0x00, 0x00, 0x0f, 0x38, 0xf2, 0x6a, 0xd0, 0x9c, 0x3e, 0x20,
        ]
    );
    assert_eq!(packet.position(), 0);
    assert_eq!(packet.read_signed_byte(), Ok(-1));
    assert_eq!(packet.read_signed_byte(), Ok(i8::MIN));
    assert_eq!(packet.read_signed_byte(), Ok(i8::MAX));
    assert_eq!(packet.read_short(), Ok(-2));
    assert_eq!(packet.read_short(), Ok(i16::MIN));
    assert_eq!(packet.read_int(), Ok(-3));
    assert_eq!(packet.read_int(), Ok(i32::MIN));
    assert_eq!(packet.read_long(), Ok(-4));
    assert_eq!(packet.read_long(), Ok(i64::MIN));
    assert_eq!(packet.read_long(), Ok(0x0f38f26ad09c3e20));
    assert!(packet.is_empty());
}

#[test]
fn unsigned_numbers_and_bit_patterns_round_trip() {
    let mut packet = Packet::empty(0);
    packet.write_byte(0xab);
    packet.write_unsigned_short(25565);
    packet.write_float_bits(1.5f32.to_bits());
    packet.write_double_bits((-8.25f64).to_bits());
    packet.write_uuid(0x0011_2233_4455_6677_8899_aabb_ccdd_eeff);
    packet.write_unsigned(0x01_0203, 3);
    assert_eq!(&packet.get_bytes()[..3], &[0xab, 0x63, 0xdd]);
    assert_eq!(
        &packet.get_bytes()[15..31],
        &[
            0x00, 0x11, 0x22, 0x33, 0x44, 0x55, 0x66, 0x77, 0x88, 0x99, 0xaa, 0xbb, 0xcc, 0xdd,
            0xee, 0xff
        ]
    );
    assert_eq!(packet.read_byte(), Ok(0xab));
    assert_eq!(packet.read_unsigned_short(), Ok(25565));
    assert_eq!(packet.read_float_bits().map(f32::from_bits), Ok(1.5));
    assert_eq!(packet.read_double_bits().map(f64::from_bits), Ok(-8.25));
    assert_eq!(packet.read_uuid(), Ok(0x0011_2233_4455_6677_8899_aabb_ccdd_eeff));
    assert_eq!(packet.read_unsigned(3), Ok(0x01_0203));
}

#[test]
fn writes_append_and_leave_the_cursor() {
    let mut packet = Packet::from_bytes(0, &[5, 6]);
    assert_eq!(packet.read_byte(), Ok(5));
    packet.write_varint(300);
    packet.write_bytes(&[7, 8]);
    packet.write_u16_varint(128);
    assert_eq!(packet.write_usize_varint(2), Ok(()));
    assert_eq!(packet.write_string("ab"), Ok(()));
    assert_eq!(packet.position(), 1);
    assert_eq!(packet.get_bytes(), &[5, 6, 0xac, 0x02, 7, 8, 0x80, 0x01, 2, 2, b'a', b'b']);
}

#[test]
fn counts_that_are_no_varint_are_refused() {
    let mut packet = Packet::from_bytes(0, &[1]);
    assert_eq!(
        packet.write_usize_varint(i32::MAX as usize + 1),
        Err(ServerError::Protocol(ProtocolFault::VarInt))
    );
    assert_eq!(packet.get_bytes(), &[1]);
    assert_eq!(packet.write_usize_varint(i32::MAX as usize), Ok(()));
    assert_eq!(packet.get_bytes(), &[1, 0xff, 0xff, 0xff, 0xff, 0x07]);
}

#[test]
fn varint_reads_with_a_range_refuse_what_is_outside() {
    let negative = [0xff, 0xff, 0xff, 0xff, 0x0f];
    let mut packet = Packet::from_bytes(0, &negative);
    assert_eq!(packet.read_usize_varint(), Err(ServerError::Protocol(ProtocolFault::VarInt)));
    assert_eq!(packet.position(), 0);
    assert_eq!(packet.read_u16_varint(), Err(ServerError::Protocol(ProtocolFault::VarInt)));
    assert_eq!(packet.position(), 0);
    assert_eq!(packet.read_varint(), Ok(-1));
    let mut packet = Packet::from_bytes(0, &[0x80, 0x80, 0x04, 0xff, 0xff, 0x03]);
    assert_eq!(packet.read_u16_varint(), Err(ServerError::Protocol(ProtocolFault::VarInt)));
    assert_eq!(packet.read_usize_varint(), Ok(65536));
    assert_eq!(packet.read_u16_varint(), Ok(65535));
    let mut packet = Packet::from_bytes(0, &[0x80, 0x80, 0x80, 0x80, 0x80, 0x01]);
    assert_eq!(packet.read_usize_varint(), Err(ServerError::VarIntTooBig));
    assert_eq!(packet.read_u16_varint(), Err(ServerError::VarIntTooBig));
    assert_eq!(packet.read_varint(), Err(ServerError::VarIntTooBig));
    assert_eq!(packet.position(), 0);
}

#[test]
fn malformed_string_leaves_the_packet_as_it_was() {
    let mut packet = Packet::from_bytes(0, &[2, 0xff, 0xff, 7]);
    assert_eq!(packet.read_string(), Err(ServerError::MalformedString));
    assert_eq!(packet.position(), 0);
    assert_eq!(packet.read_bytes(3), Ok(vec![2, 0xff, 0xff]));
    assert_eq!(packet.read_byte(), Ok(7));
}

#[test]
fn packet_data_round_trips() {
    for id in [0u8, 1, 0x7f, 0x80, 0xff] {
        let packet = Packet::from_bytes(id, &[9, 8, 7]);
        let data = packet.to_data();
        let back = Packet::from_data(&data).unwrap();
        assert_eq!(back, packet);
    }
    assert_eq!(Packet::from_bytes(0x80, &[9]).to_data(), vec![0x80, 0x01, 9]);
    assert_eq!(Packet::from_bytes(0x7f, &[]).to_data(), vec![0x7f]);
}

#[test]
fn packet_data_ignores_the_cursor() {
    let mut packet = Packet::from_bytes(2, &[9, 8, 7]);
    packet.set_position(2);
    assert_eq!(packet.to_data(), vec![2, 9, 8, 7]);
}

#[test]
fn packet_data_faults() {
    assert_eq!(Packet::from_data(&[]), Err(ServerError::UnexpectedEof));
    assert_eq!(Packet::from_data(&[0x80]), Err(ServerError::UnexpectedEof));
    assert_eq!(
        Packet::from_data(&[0x80, 0x02]),
        Err(ServerError::Protocol(ProtocolFault::VarInt))
    );
    assert_eq!(
        Packet::from_data(&[0xff, 0xff, 0xff, 0xff, 0x0f]),
        Err(ServerError::Protocol(ProtocolFault::VarInt))
    );
    assert_eq!(
        Packet::from_data(&[0x80, 0x80, 0x80, 0x80, 0x80, 0x00]),
        Err(ServerError::VarIntTooBig)
    );
    assert_eq!(Packet::from_data(&[0xff, 0x01]).map(|packet| packet.id()), Ok(255));
}

#[test]
fn packet_fields_agree_with_the_transport_crate() {
    let mut ours = Packet::empty(0x0c);
    ours.write_varint(770);
    assert_eq!(ours.write_string("localhost"), Ok(()));
    ours.write_unsigned_short(25565);
    ours.write_long(-77);
    ours.write_int(i32::MIN);
    ours.write_short(-300);
    ours.write_signed_byte(-5);
    ours.write_boolean(true);
    ours.write_uuid(0x0011_2233_4455_6677_8899_aabb_ccdd_eeff);
    ours.write_float_bits(2.5f32.to_bits());
    ours.write_double_bits(1e100f64.to_bits());
    let mut theirs = rust_mc_proto::Packet::empty(0x0c);
    theirs.write_varint(770).unwrap();
    theirs.write_string("localhost").unwrap();
    theirs.write_unsigned_short(25565).unwrap();
    theirs.write_long(-77).unwrap();
    theirs.write_int(i32::MIN).unwrap();
    theirs.write_short(-300).unwrap();
    theirs.write_signed_byte(-5).unwrap();
    theirs.write_boolean(true).unwrap();
    theirs
        .write_uuid(&uuid::Uuid::from_u128(0x0011_2233_4455_6677_8899_aabb_ccdd_eeff))
        .unwrap();
    theirs.write_float(2.5).unwrap();
    theirs.write_double(1e100).unwrap();
    assert_eq!(ours.get_bytes(), theirs.get_bytes());
    theirs.get_mut().set_position(0);
    assert_eq!(ours.read_varint().ok(), theirs.read_varint().ok());
    assert_eq!(ours.read_string().ok(), theirs.read_string().ok());
    assert_eq!(ours.read_unsigned_short().ok(), theirs.read_unsigned_short().ok());
    assert_eq!(ours.read_long().ok(), theirs.read_long().ok());
    assert_eq!(ours.read_int().ok(), theirs.read_int().ok());
    assert_eq!(ours.read_short().ok(), theirs.read_short().ok());
    assert_eq!(ours.read_signed_byte().ok(), theirs.read_signed_byte().ok());
    assert_eq!(ours.read_boolean().ok(), theirs.read_boolean().ok());
    assert_eq!(ours.read_uuid().ok(), theirs.read_uuid().ok().map(|id| id.as_u128()));
    assert_eq!(ours.read_float_bits().ok().map(f32::from_bits), theirs.read_float().ok());
    assert_eq!(ours.read_double_bits().ok().map(f64::from_bits), theirs.read_double().ok());
}
