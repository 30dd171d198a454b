use rust_mc_serv::error::ProtocolFault;
use rust_mc_serv::error::ServerError;
use rust_mc_serv::frame::decode_frame;
use rust_mc_serv::frame::encode_frame;
use rust_mc_serv::frame::finish_deflated_frame;
use rust_mc_serv::frame::COMPRESSION_LEVEL;
use rust_mc_serv::frame::MAX_FRAME_LEN;
use rust_mc_serv::packet::Packet;

fn body_of(len: usize) -> Vec<u8> {
    (0..len).map(|i| (i * 7 % 251) as u8).collect()
}

#[test]
fn plain_frame_has_length_id_and_body() {
    let packet = Packet::from_bytes(0x00, &[1, 2, 3]);
    assert_eq!(encode_frame(&packet, None), Ok(vec![4, 0, 1, 2, 3]));
    let packet = Packet::empty(0x03);
    assert_eq!(encode_frame(&packet, None), Ok(vec![1, 3]));
    let packet = Packet::from_bytes(0x82, &[9]);
    assert_eq!(encode_frame(&packet, None), Ok(vec![3, 0x82, 0x01, 9]));
}

#[test]
fn plain_frame_length_is_a_varint() {
    let packet = Packet::from_bytes(0x01, &body_of(200));
    let frame = encode_frame(&packet, None).unwrap();
    assert_eq!(&frame[..3], &[0xc9, 0x01, 0x01]);
    assert_eq!(frame.len(), 2 + 1 + 200);
}

#[test]
fn frame_ignores_the_cursor() {
    let mut packet = Packet::from_bytes(0x00, &[1, 2, 3]);
    packet.set_position(2);
    assert_eq!(encode_frame(&packet, None), Ok(vec![4, 0, 1, 2, 3]));
}

#[test]
fn plain_frame_round_trips() {
    for len in [0usize, 1, 5, 126, 127, 128, 300, 20000] {
        for id in [0u8, 0x7f, 0x80, 0xff] {
            let packet = Packet::from_bytes(id, &body_of(len));
            let frame = encode_frame(&packet, None).unwrap();
            assert_eq!(decode_frame(&frame, None), Ok(Some((packet, frame.len()))));
        }
    }
}

#[test]
fn frame_below_threshold_is_stored_with_length_zero() {
    let packet = Packet::from_bytes(0x00, &[1, 2, 3]);
    let frame = encode_frame(&packet, Some(256)).unwrap();
    assert_eq!(frame, vec![5, 0, 0, 1, 2, 3]);
    assert_eq!(decode_frame(&frame, Some(256)), Ok(Some((packet, 6))));
}

#[test]
fn threshold_counts_id_and_body() {
    let packet = Packet::from_bytes(0x00, &body_of(9));
    let frame = encode_frame(&packet, Some(11)).unwrap();
    assert_eq!(frame[1], 0);
    assert_eq!(frame.len(), 1 + 1 + 10);
    let frame = encode_frame(&packet, Some(10)).unwrap();
    assert_eq!(frame[1], 10);
    let packet = Packet::from_bytes(0x80, &body_of(8));
    let frame = encode_frame(&packet, Some(10)).unwrap();
    assert_eq!(frame[1], 10);
    let frame = encode_frame(&packet, Some(11)).unwrap();
    assert_eq!(frame[1], 0);
}

#[test]
fn frame_at_threshold_is_compressed() {
    let packet = Packet::from_bytes(0x05, &vec![0x41; 255]);
    let frame = encode_frame(&packet, Some(256)).unwrap();
    assert_eq!(&frame[1..3], &[0x80, 0x02]);
    assert_eq!(frame[3], 0x78);
    assert!(frame.len() < 64);
    assert_eq!(frame[0] as usize, frame.len() - 1);
    assert_eq!(decode_frame(&frame, Some(256)), Ok(Some((packet, frame.len()))));
    let packet = Packet::from_bytes(0x05, &vec![0x41; 254]);
    let frame = encode_frame(&packet, Some(256)).unwrap();
    assert_eq!(&frame[..4], &[0x80, 0x02, 0x00, 0x05]);
    assert_eq!(frame.len(), 2 + 1 + 255);
}

#[test]
fn compressed_frame_round_trips() {
    for threshold in [0usize, 1, 64, 256] {
        for len in [0usize, 1, 63, 64, 255, 256, 1000, 70000] {
            let packet = Packet::from_bytes(0x27, &body_of(len));
            let frame = encode_frame(&packet, Some(threshold)).unwrap();
            assert_eq!(
                decode_frame(&frame, Some(threshold)),
                Ok(Some((packet, frame.len()))),
                "threshold {} length {}",
                threshold,
                len
            );
        }
    }
}

#[test]
fn threshold_zero_compresses_everything() {
    let packet = Packet::empty(0x03);
    let frame = encode_frame(&packet, Some(0)).unwrap();
    assert_eq!(frame[1], 1);
    assert_eq!(frame[2], 0x78);
    assert_eq!(decode_frame(&frame, Some(0)), Ok(Some((packet, frame.len()))));
}

#[test]
fn frame_is_decoded_from_the_front_of_a_stream() {
    let first = Packet::from_bytes(0x01, &[1, 2]);
    let second = Packet::from_bytes(0x02, &[3]);
    let mut stream = encode_frame(&first, None).unwrap();
    let split = stream.len();
    stream.extend(encode_frame(&second, None).unwrap());
    assert_eq!(decode_frame(&stream, None), Ok(Some((first, split))));
    assert_eq!(decode_frame(&stream[split..], None), Ok(Some((second, stream.len() - split))));
}

#[test]
fn incomplete_frame_is_awaited() {
    let packet = Packet::from_bytes(0x01, &body_of(300));
    for compression in [None, Some(10usize), Some(1000)] {
        let frame = encode_frame(&packet, compression).unwrap();
        for cut in [0usize, 1, 2, 3, frame.len() / 2, frame.len() - 1] {
            assert_eq!(decode_frame(&frame[..cut], compression), Ok(None), "cut at {}", cut);
        }
        assert!(matches!(decode_frame(&frame, compression), Ok(Some(_))));
    }
    assert_eq!(decode_frame(&[0x80, 0x80, 0x80, 0x80], None), Ok(None));
}

#[test]
fn frame_length_past_five_bytes_is_too_big() {
    assert_eq!(
        decode_frame(&[0x80, 0x80, 0x80, 0x80, 0x80, 0x01, 0x00], None),
        Err(ServerError::VarIntTooBig)
    );
    assert_eq!(
        decode_frame(&[0xff, 0xff, 0xff, 0xff, 0xff], Some(256)),
        Err(ServerError::VarIntTooBig)
    );
}

#[test]
fn negative_frame_length_is_refused() {
    assert_eq!(
        decode_frame(&[0xff, 0xff, 0xff, 0xff, 0x0f, 0x00], None),
        Err(ServerError::Protocol(ProtocolFault::VarInt))
    );
}

#[test]
fn empty_frame_has_no_id() {
    assert_eq!(decode_frame(&[0x00], None), Err(ServerError::UnexpectedEof));
    assert_eq!(decode_frame(&[0x00], Some(256)), Err(ServerError::UnexpectedEof));
    assert_eq!(decode_frame(&[0x01, 0x00], Some(256)), Err(ServerError::UnexpectedEof));
}

#[test]
fn id_must_fit_a_byte() {
    assert_eq!(
        decode_frame(&[0x02, 0x80, 0x02], None),
        Err(ServerError::Protocol(ProtocolFault::VarInt))
    );
    assert_eq!(
        decode_frame(&[0x03, 0x00, 0x80, 0x02], Some(1)),
        Err(ServerError::Protocol(ProtocolFault::VarInt))
    );
    assert_eq!(decode_frame(&[0x02, 0xff, 0x01], None).map(|f| f.map(|f| f.0.id())), Ok(Some(255)));
}

#[test]
fn payload_that_does_not_inflate_is_a_zlib_fault() {
    assert_eq!(
        decode_frame(&[0x04, 0x05, 0x01, 0x02, 0x03], Some(1)),
        Err(ServerError::Protocol(ProtocolFault::Zlib))
    );
    assert_eq!(
        decode_frame(&[0x01, 0x05], Some(1)),
        Err(ServerError::Protocol(ProtocolFault::Zlib))
    );
    let packet = Packet::from_bytes(0x05, &vec![0x41; 400]);
    let mut frame = encode_frame(&packet, Some(256)).unwrap();
    let last = frame.len() - 1;
    frame.truncate(last);
    frame[0] -= 1;
    assert_eq!(decode_frame(&frame, Some(256)), Err(ServerError::Protocol(ProtocolFault::Zlib)));
}

#[test]
fn negative_length_before_compression_is_refused() {
    assert_eq!(
        decode_frame(&[0x06, 0xff, 0xff, 0xff, 0xff, 0x0f, 0x00], Some(1)),
        Err(ServerError::Protocol(ProtocolFault::VarInt))
    );
}

#[test]
fn deflated_frame_is_put_together_from_the_stream() {
    assert_eq!(finish_deflated_frame(300, Some(vec![1, 2, 3])), Ok(vec![5, 0xac, 0x02, 1, 2, 3]));
    assert_eq!(finish_deflated_frame(1, Some(vec![])), Ok(vec![1, 1]));
    assert_eq!(
        finish_deflated_frame(300, None),
        Err(ServerError::Protocol(ProtocolFault::Zlib))
    );
}

#[test]
fn frame_limits_are_what_a_length_prefix_holds() {
    assert_eq!(MAX_FRAME_LEN, i32::MAX as usize);
    assert_eq!(COMPRESSION_LEVEL, 1);
}

#[test]
fn frames_agree_with_the_transport_crate() {
    for compression in [None, Some(0usize), Some(64), Some(256)] {
        for len in [0usize, 10, 63, 64, 255, 256, 5000] {
            let body = body_of(len);
            let ours = encode_frame(&Packet::from_bytes(0x2b, &body), compression).unwrap();
            let mut theirs: Vec<u8> = Vec::new();
            rust_mc_proto::write_packet(
                &mut theirs,
                compression,
                1,
                &rust_mc_proto::Packet::from_bytes(0x2b, &body),
            )
            .unwrap();
            assert_eq!(ours, theirs, "compression {:?} length {}", compression, len);
            let mut stream = std::io::Cursor::new(ours);
            let read = rust_mc_proto::read_packet(&mut stream, compression).unwrap();
            assert_eq!(read.id(), 0x2b);
            assert_eq!(read.get_bytes(), &body[..]);
            let decoded = decode_frame(&theirs, compression).unwrap().unwrap();
            assert_eq!(decoded.0, Packet::from_bytes(0x2b, &body));
            assert_eq!(decoded.1, theirs.len());
        }
    }
}
