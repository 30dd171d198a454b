use rust_mc_serv::config::Config;
use rust_mc_serv::context::ServerContext;
use rust_mc_serv::error::ProtocolFault;
use rust_mc_serv::error::ServerError;
use rust_mc_serv::event::Listener;
use rust_mc_serv::event::Quiet;
use rust_mc_serv::frame::decode_frame;
use rust_mc_serv::frame::encode_frame;
use rust_mc_serv::packet::Packet;
use rust_mc_serv::play::config::ConfigurationData;
use rust_mc_serv::player::context::ClientContext;
use rust_mc_serv::player::context::ClientInfo;
use rust_mc_serv::player::context::Delivery;
use rust_mc_serv::player::context::Handshake;
use rust_mc_serv::player::context::PlayerInfo;
use rust_mc_serv::protocol::handler::handle_connection;
use rust_mc_serv::protocol::handler::handle_disconnect;
use rust_mc_serv::protocol::handler::read_client_information;
use rust_mc_serv::protocol::handler::read_handshake;
use rust_mc_serv::protocol::handler::read_login_start;
use rust_mc_serv::protocol::handler::read_plugin_message;
use rust_mc_serv::protocol::handler::Stage;
use rust_mc_serv::protocol::handler::DEFAULT_STATUS;
use rust_mc_serv::protocol::ConnectionState;
use std::sync::Arc;
use std::sync::Mutex;

const ALICE: u128 = 0x0011_2233_4455_6677_8899_aabb_ccdd_eeff;

struct Motd {
    text: &'static str,
    heard: Arc<Mutex<Vec<String>>>,
}

impl Listener for Motd {
    fn on_status_priority(&self) -> i8 {
        0
    }

    fn on_plugin_message_priority(&self) -> i8 {
        0
    }

    fn on_disconnect_priority(&self) -> i8 {
        0
    }

    fn on_status(&self, client: &ClientContext, response: &mut String) -> Result<(), ServerError> {
        *response = format!("{} {}", self.text, client.handshake().unwrap().protocol_version);
        Ok(())
    }

    fn on_plugin_message(
        &self,
        _client: &ClientContext,
        channel: &str,
        data: &[u8],
    ) -> Result<(), ServerError> {
        self.heard.lock().unwrap().push(format!("{} {:?}", channel, data));
        Ok(())
    }

    fn on_disconnect(&self, client: &ClientContext) -> Result<(), ServerError> {
        self.heard.lock().unwrap().push(format!("bye {:?}", client.addr()));
        Ok(())
    }
}

fn server() -> ServerContext<Quiet, Quiet> {
    ServerContext::new(Config::default())
}

fn no_data() -> ConfigurationData {
    ConfigurationData { registry: vec![], tags: vec![] }
}

fn handshake(next_state: i32) -> Packet {
    let mut packet = Packet::empty(0x00);
    packet.write_varint(770);
    packet.write_string("localhost").unwrap();
    packet.write_unsigned_short(25565);
    packet.write_varint(next_state);
    packet
}

fn login_start(name: &str, uuid: u128) -> Packet {
    let mut packet = Packet::empty(0x00);
    packet.write_string(name).unwrap();
    packet.write_uuid(uuid);
    packet
}

fn brand(channel: &str, data: &[u8]) -> Packet {
    let mut packet = Packet::empty(0x02);
    packet.write_string(channel).unwrap();
    packet.write_bytes(data);
    packet
}

fn client_information() -> Packet {
    let mut packet = Packet::empty(0x00);
    packet.write_string("en_us").unwrap();
    packet.write_signed_byte(12);
    packet.write_varint(0);
    packet.write_boolean(true);
    packet.write_byte(127);
    packet.write_varint(1);
    packet.write_boolean(false);
    packet.write_boolean(true);
    packet.write_varint(2);
    packet
}

fn sent(client: &mut ClientContext, compression: Option<usize>) -> Vec<Packet> {
    let mut packets = Vec::new();
    while let Some(frame) = client.take_outbound().unwrap() {
        let (packet, used) = decode_frame(&frame, compression).unwrap().unwrap();
        assert_eq!(used, frame.len());
        packets.push(packet);
    }
    packets
}

#[test]
fn handshake_packet_is_read_field_by_field() {
    assert_eq!(
        read_handshake(handshake(1)),
        Ok((
            Handshake {
                protocol_version: 770,
                server_address: "localhost".to_string(),
                server_port: 25565
            },
            1
        ))
    );
    assert_eq!(read_handshake(Packet::empty(0)), Err(ServerError::UnexpectedEof));
    assert_eq!(
        read_handshake(Packet::from_bytes(0, &[0x82, 0x06, 2, 0xff, 0xff, 0, 1, 1])),
        Err(ServerError::MalformedString)
    );
    assert_eq!(
        read_handshake(Packet::from_bytes(0, &[0x82, 0x06, 1, b'a', 0x63])),
        Err(ServerError::UnexpectedEof)
    );
    assert_eq!(
        read_handshake(Packet::from_bytes(0, &[0x80, 0x80, 0x80, 0x80, 0x80, 0x01])),
        Err(ServerError::VarIntTooBig)
    );
}

#[test]
fn handshake_for_status_enters_status() {
    let mut server = server();
    let mut client = ClientContext::new((1, 2));
    let r = handle_connection(&mut server, &mut client, Stage::Handshake, handshake(1), &no_data());
    assert_eq!(r, Ok(Stage::Status));
    assert_eq!(client.state(), ConnectionState::Status);
    assert_eq!(
        client.handshake(),
        Some(Handshake {
            protocol_version: 770,
            server_address: "localhost".to_string(),
            server_port: 25565
        })
    );
    assert!(client.is_alive());
    assert_eq!(client.take_outbound(), Ok(None));
}

#[test]
fn status_session_answers_request_and_ping_only() {
    let mut server: ServerContext<Motd, Quiet> = ServerContext::new(Config::default());
    server.add_listener(Motd { text: "hello", heard: Arc::default() });
    let mut client = ClientContext::new((1, 2));
    let data = no_data();
    let stage =
        handle_connection(&mut server, &mut client, Stage::Handshake, handshake(1), &data).unwrap();
    let stage = handle_connection(&mut server, &mut client, stage, Packet::empty(0x00), &data).unwrap();
    assert_eq!(stage, Stage::Status);
    let mut expected = Packet::empty(0x00);
    expected.write_string("hello 770").unwrap();
    assert_eq!(sent(&mut client, None), vec![expected]);
    let mut ping = Packet::empty(0x01);
    ping.write_long(-123456789);
    let stage = handle_connection(&mut server, &mut client, stage, ping, &data).unwrap();
    assert_eq!(stage, Stage::Status);
    let mut pong = Packet::empty(0x01);
    pong.write_long(-123456789);
    assert_eq!(sent(&mut client, None), vec![pong]);
    assert!(client.is_alive());
    let r = handle_connection(&mut server, &mut client, stage, Packet::empty(0x03), &data);
    assert_eq!(r, Err(ServerError::UnexpectedPacket(0x03)));
    assert!(!client.is_alive());
    assert_eq!(client.state(), ConnectionState::Status);
    assert_eq!(client.take_outbound(), Ok(None));
}

#[test]
fn status_without_listeners_answers_the_default_document() {
    let mut server = server();
    let mut client = ClientContext::new((1, 2));
    let data = no_data();
    let stage =
        handle_connection(&mut server, &mut client, Stage::Handshake, handshake(1), &data).unwrap();
    handle_connection(&mut server, &mut client, stage, Packet::empty(0x00), &data).unwrap();
    let mut expected = Packet::empty(0x00);
    expected.write_string(DEFAULT_STATUS).unwrap();
    assert_eq!(sent(&mut client, None), vec![expected]);
    assert!(DEFAULT_STATUS.contains("Internal server error"));
}

#[test]
fn play_only_id_ends_a_status_session() {
    let mut server = server();
    let mut client = ClientContext::new((1, 2));
    let data = no_data();
    let stage =
        handle_connection(&mut server, &mut client, Stage::Handshake, handshake(1), &data).unwrap();
    let r = handle_connection(&mut server, &mut client, stage, Packet::from_bytes(0x1c, &[0; 25]), &data);
    assert_eq!(r, Err(ServerError::UnexpectedPacket(0x1c)));
    assert!(!client.is_alive());
}

#[test]
fn short_ping_is_fatal() {
    let mut server = server();
    let mut client = ClientContext::new((1, 2));
    let data = no_data();
    let stage =
        handle_connection(&mut server, &mut client, Stage::Handshake, handshake(1), &data).unwrap();
    let r = handle_connection(&mut server, &mut client, stage, Packet::from_bytes(0x01, &[1, 2]), &data);
    assert_eq!(r, Err(ServerError::UnexpectedEof));
    assert!(!client.is_alive());
}

#[test]
fn handshake_for_anything_else_is_refused() {
    for next_state in [0, 3, -1] {
        let mut server = server();
        let mut client = ClientContext::new((1, 2));
        let r = handle_connection(
            &mut server,
            &mut client,
            Stage::Handshake,
            handshake(next_state),
            &no_data(),
        );
        assert_eq!(r, Err(ServerError::UnexpectedState));
        assert!(!client.is_alive());
        assert_eq!(client.state(), ConnectionState::Handshake);
    }
}

#[test]
fn handshake_stage_awaits_the_handshake_only() {
    let mut server = server();
    let mut client = ClientContext::new((1, 2));
    let r = handle_connection(
        &mut server,
        &mut client,
        Stage::Handshake,
        Packet::empty(0x01),
        &no_data(),
    );
    assert_eq!(r, Err(ServerError::UnexpectedPacket(0x01)));
    assert!(!client.is_alive());
    assert_eq!(client.handshake(), None);
}

#[test]
fn login_announces_compression_then_confirms() {
    let mut server = server();
    let mut client = ClientContext::new((9, 9));
    server.insert(client.addr(), None);
    let data = no_data();
    let stage =
        handle_connection(&mut server, &mut client, Stage::Handshake, handshake(2), &data).unwrap();
    assert_eq!(stage, Stage::LoginStart);
    assert_eq!(client.state(), ConnectionState::Login);
    assert!(server.players().is_empty());
    let stage =
        handle_connection(&mut server, &mut client, stage, login_start("Alice", ALICE), &data).unwrap();
    assert_eq!(stage, Stage::LoginAcknowledged);
    assert_eq!(client.player_info(), Some(PlayerInfo { name: "Alice".to_string(), uuid: ALICE }));
    assert_eq!(client.compression(), Some(256));
    assert_eq!(
        server.players(),
        vec![((9, 9), PlayerInfo { name: "Alice".to_string(), uuid: ALICE })]
    );
    let first = client.take_outbound().unwrap().unwrap();
    assert_eq!(first, vec![3, 0x03, 0x80, 0x02]);
    let second = client.take_outbound().unwrap().unwrap();
    let mut success = Packet::empty(0x02);
    success.write_uuid(ALICE);
    success.write_string("Alice").unwrap();
    success.write_varint(0);
    assert_eq!(second[1], 0);
    assert_eq!(decode_frame(&second, Some(256)), Ok(Some((success, second.len()))));
    assert_eq!(client.take_outbound(), Ok(None));
    let stage =
        handle_connection(&mut server, &mut client, stage, Packet::empty(0x03), &data).unwrap();
    assert_eq!(stage, Stage::Brand);
    assert_eq!(client.state(), ConnectionState::Configuration);
    assert_eq!(client.take_outbound(), Ok(None));
}

#[test]
fn login_without_compression_stays_uncompressed() {
    let mut config = Config::default();
    config.server.compression_threshold = None;
    let mut server: ServerContext<Quiet, Quiet> = ServerContext::new(config);
    let mut client = ClientContext::new((9, 9));
    let data = no_data();
    let stage =
        handle_connection(&mut server, &mut client, Stage::Handshake, handshake(2), &data).unwrap();
    handle_connection(&mut server, &mut client, stage, login_start("Bob", 5), &data).unwrap();
    assert_eq!(client.compression(), None);
    let packets = sent(&mut client, None);
    assert_eq!(packets.len(), 1);
    assert_eq!(packets[0].id(), 0x02);
}

#[test]
fn login_with_a_threshold_beyond_a_varint_is_refused() {
    let mut config = Config::default();
    config.server.compression_threshold = Some(i32::MAX as usize + 1);
    let mut server: ServerContext<Quiet, Quiet> = ServerContext::new(config);
    let mut client = ClientContext::new((9, 9));
    let data = no_data();
    let stage =
        handle_connection(&mut server, &mut client, Stage::Handshake, handshake(2), &data).unwrap();
    let r = handle_connection(&mut server, &mut client, stage, login_start("Bob", 5), &data);
    assert_eq!(r, Err(ServerError::Protocol(ProtocolFault::VarInt)));
    assert!(!client.is_alive());
    assert_eq!(client.take_outbound(), Ok(None));
}

#[test]
fn login_start_is_read_field_by_field() {
    assert_eq!(
        read_login_start(login_start("Alice", ALICE)),
        Ok(PlayerInfo { name: "Alice".to_string(), uuid: ALICE })
    );
    assert_eq!(read_login_start(Packet::from_bytes(0, &[1, b'A', 1, 2])), Err(ServerError::UnexpectedEof));
    assert_eq!(read_login_start(Packet::from_bytes(0, &[1, 0xff])), Err(ServerError::MalformedString));
}

#[test]
fn broken_login_start_is_fatal_and_enters_nothing() {
    let mut server = server();
    let mut client = ClientContext::new((9, 9));
    let data = no_data();
    let stage =
        handle_connection(&mut server, &mut client, Stage::Handshake, handshake(2), &data).unwrap();
    let r = handle_connection(&mut server, &mut client, stage, Packet::from_bytes(0, &[1, b'A']), &data);
    assert_eq!(r, Err(ServerError::UnexpectedEof));
    assert!(!client.is_alive());
    assert_eq!(client.player_info(), None);
    assert!(server.players().is_empty());
    assert_eq!(client.take_outbound(), Ok(None));
}

#[test]
fn plugin_message_is_channel_and_rest() {
    assert_eq!(
        read_plugin_message(brand("minecraft:brand", &[7, b'v', b'a', b'n', b'i', b'l', b'l', b'a'])),
        Ok(("minecraft:brand".to_string(), vec![7, b'v', b'a', b'n', b'i', b'l', b'l', b'a']))
    );
    assert_eq!(read_plugin_message(brand("a:b", &[])), Ok(("a:b".to_string(), vec![])));
    assert_eq!(read_plugin_message(Packet::empty(2)), Err(ServerError::UnexpectedEof));
}

#[test]
fn client_information_is_read_field_by_field() {
    assert_eq!(
        read_client_information(client_information(), "vanilla".to_string()),
        Ok(ClientInfo {
            brand: "vanilla".to_string(),
            locale: "en_us".to_string(),
            view_distance: 12,
            chat_mode: 0,
            chat_colors: true,
            displayed_skin_parts: 127,
            main_hand: 1,
            enable_text_filtering: false,
            allow_server_listings: true,
            particle_status: 2,
        })
    );
    let mut short = client_information();
    let bytes = short.get_bytes().to_vec();
    short = Packet::from_bytes(0, &bytes[..bytes.len() - 1]);
    assert_eq!(
        read_client_information(short, String::new()),
        Err(ServerError::UnexpectedEof)
    );
}

fn registry_blob() -> Vec<u8> {
    let mut blob = encode_frame(&Packet::from_bytes(0x07, &[1, 1]), None).unwrap();
    blob.extend(encode_frame(&Packet::from_bytes(0x55, &[2, 2, 2]), None).unwrap());
    blob.extend(encode_frame(&Packet::from_bytes(0x07, &[]), None).unwrap());
    blob.extend([0x05, 0x07, 0x01]);
    blob
}

#[test]
fn configuration_runs_from_brand_to_play() {
    let heard: Arc<Mutex<Vec<String>>> = Arc::default();
    let mut server: ServerContext<Motd, Quiet> = ServerContext::new(Config::default());
    server.add_listener(Motd { text: "", heard: heard.clone() });
    let mut client = ClientContext::new((9, 9));
    let data = ConfigurationData { registry: registry_blob(), tags: vec![0xaa, 0xbb] };
    let mut stage = Stage::Handshake;
    for packet in [handshake(2), login_start("Alice", ALICE), Packet::empty(0x03)] {
        stage = handle_connection(&mut server, &mut client, stage, packet, &data).unwrap();
    }
    assert_eq!(stage, Stage::Brand);
    let _ = client.take_outbound().unwrap();
    let _ = client.take_outbound().unwrap();
    stage = handle_connection(&mut server, &mut client, stage, brand("other:channel", &[1, 2]), &data)
        .unwrap();
    assert_eq!(stage, Stage::Brand);
    assert_eq!(*heard.lock().unwrap(), vec!["other:channel [1, 2]"]);
    assert_eq!(client.brand(), None);
    stage = handle_connection(&mut server, &mut client, stage, brand("minecraft:brand", b"vanilla"), &data)
        .unwrap();
    assert_eq!(stage, Stage::ClientInformation);
    assert_eq!(client.brand(), Some("vanilla".to_string()));
    assert_eq!(heard.lock().unwrap().len(), 1);
    assert_eq!(client.take_outbound(), Ok(None));
    stage = handle_connection(&mut server, &mut client, stage, client_information(), &data).unwrap();
    assert_eq!(stage, Stage::KnownPacks);
    assert_eq!(client.client_info().unwrap().brand, "vanilla");
    assert_eq!(client.client_info().unwrap().view_distance, 12);
    let mut server_brand = Packet::empty(0x01);
    server_brand.write_string("minecraft:brand").unwrap();
    server_brand.write_string("rust_minecraft_server").unwrap();
    let mut flags = Packet::empty(0x0c);
    flags.write_varint(1);
    flags.write_string("minecraft:vanilla").unwrap();
    let mut packs = Packet::empty(0x0e);
    packs.write_varint(1);
    packs.write_string("minecraft").unwrap();
    packs.write_string("core").unwrap();
    packs.write_string("1.21.5").unwrap();
    assert_eq!(sent(&mut client, Some(256)), vec![server_brand, flags, packs]);
    stage = handle_connection(&mut server, &mut client, stage, Packet::from_bytes(0x07, &[0]), &data)
        .unwrap();
    assert_eq!(stage, Stage::AcknowledgeFinish);
    assert_eq!(
        sent(&mut client, Some(256)),
        vec![
            Packet::from_bytes(0x07, &[1, 1]),
            Packet::from_bytes(0x07, &[2, 2, 2]),
            Packet::from_bytes(0x07, &[]),
            Packet::from_bytes(0x0d, &[0xaa, 0xbb]),
            Packet::empty(0x03),
        ]
    );
    assert_eq!(client.state(), ConnectionState::Configuration);
    stage =
        handle_connection(&mut server, &mut client, stage, Packet::empty(0x03), &data).unwrap();
    assert_eq!(stage, Stage::Play);
    assert_eq!(client.state(), ConnectionState::Play);
    assert!(client.is_alive());
    assert_eq!(client.take_outbound(), Ok(None));
}

#[test]
fn each_configuration_stage_refuses_other_ids() {
    for (upto, wrong) in [(3usize, 0x00u8), (4, 0x02), (5, 0x03), (6, 0x07)] {
        let mut server = server();
        let mut client = ClientContext::new((9, 9));
        let data = no_data();
        let script = [
            handshake(2),
            login_start("Alice", ALICE),
            Packet::empty(0x03),
            brand("minecraft:brand", b"vanilla"),
            client_information(),
            Packet::empty(0x07),
        ];
        let mut stage = Stage::Handshake;
        for packet in script.iter().take(upto) {
            stage = handle_connection(&mut server, &mut client, stage, packet.clone(), &data).unwrap();
        }
        let r = handle_connection(&mut server, &mut client, stage, Packet::empty(wrong), &data);
        assert_eq!(r, Err(ServerError::UnexpectedPacket(wrong)), "after {} packets", upto);
        assert!(!client.is_alive());
    }
}

#[test]
fn packets_of_play_are_handed_to_the_buffer() {
    let mut server = server();
    let mut client = ClientContext::new((9, 9));
    let data = no_data();
    let mut moved = Packet::from_bytes(0x1c, &[1, 2, 3]);
    moved.set_position(2);
    let stage = handle_connection(&mut server, &mut client, Stage::Play, moved, &data).unwrap();
    assert_eq!(stage, Stage::Play);
    client.start_read_loop().unwrap();
    match client.read_any_packet(&vec![Quiet]) {
        Ok(Delivery::Packet(packet)) => {
            assert_eq!(packet, Packet::from_bytes(0x1c, &[1, 2, 3]));
            assert_eq!(packet.position(), 0);
        }
        other => panic!("{:?}", other),
    }
    let r = handle_connection(&mut server, &mut client, Stage::Play, Packet::empty(0x40), &data);
    assert_eq!(r, Err(ServerError::UnexpectedPacket(0x40)));
}

#[test]
fn disconnect_tells_listeners_and_leaves_the_directory() {
    let heard: Arc<Mutex<Vec<String>>> = Arc::default();
    let mut server: ServerContext<Motd, Quiet> = ServerContext::new(Config::default());
    server.add_listener(Motd { text: "", heard: heard.clone() });
    let mut client = ClientContext::new((9, 9));
    client.set_player_info(PlayerInfo { name: "Alice".to_string(), uuid: ALICE });
    server.update(&client);
    server.insert((8, 8), Some(PlayerInfo { name: "Bob".to_string(), uuid: 2 }));
    assert_eq!(server.players().len(), 2);
    assert_eq!(handle_disconnect(&mut server, &mut client), Ok(()));
    assert!(!client.is_alive());
    assert_eq!(*heard.lock().unwrap(), vec!["bye (9, 9)"]);
    assert_eq!(server.players(), vec![((8, 8), PlayerInfo { name: "Bob".to_string(), uuid: 2 })]);
}
