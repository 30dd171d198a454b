use rust_mc_serv::error::ServerError;
use rust_mc_serv::event::Quiet;
use rust_mc_serv::packet::Packet;
use rust_mc_serv::player::context::ClientContext;
use rust_mc_serv::player::helper::EncodedText;
use rust_mc_serv::player::helper::ProtocolHelper;
use rust_mc_serv::protocol::ConnectionState;

const PHASES: [ConnectionState; 5] = [
    ConnectionState::Handshake,
    ConnectionState::Status,
    ConnectionState::Login,
    ConnectionState::Configuration,
    ConnectionState::Play,
];

fn hooks() -> Vec<Quiet> {
    vec![Quiet]
}

fn client_in(phase: ConnectionState) -> ClientContext {
    let mut client = ClientContext::new((1, 1));
    let path: &[ConnectionState] = match phase {
        ConnectionState::Handshake => &[],
        ConnectionState::Status => &[ConnectionState::Status],
        ConnectionState::Login => &[ConnectionState::Login],
        ConnectionState::Configuration => &[ConnectionState::Login, ConnectionState::Configuration],
        ConnectionState::Play => {
            &[ConnectionState::Login, ConnectionState::Configuration, ConnectionState::Play]
        }
    };
    for step in path {
        client.set_state(&hooks(), *step).unwrap();
    }
    client
}

fn reason() -> EncodedText {
    EncodedText { json: "{\"text\":\"bye\"}".to_string(), nbt: vec![0x08, 0x00, 0x03, b'b', b'y', b'e'] }
}

#[test]
fn helper_remembers_the_phase_it_was_made_in() {
    for phase in PHASES {
        let mut client = client_in(phase);
        let helper = client.protocol_helper();
        assert_eq!(helper.state(), phase);
        assert_eq!(ProtocolHelper::new(&client).state(), phase);
        if phase == ConnectionState::Login {
            client.set_state(&hooks(), ConnectionState::Configuration).unwrap();
            assert_eq!(helper.state(), ConnectionState::Login);
        }
    }
}

#[test]
fn leaving_configuration_is_legal_in_configuration_only() {
    for phase in PHASES {
        let mut client = client_in(phase);
        let helper = client.protocol_helper();
        let r = helper.leave_configuration(&hooks(), &mut client);
        if phase == ConnectionState::Configuration {
            assert_eq!(r, Ok(()));
            assert_eq!(client.take_outbound(), Ok(Some(vec![1, 0x03])));
            assert_eq!(client.state(), ConnectionState::Configuration);
            assert_eq!(
                helper.complete_leave_configuration(&hooks(), &mut client, &Packet::empty(0x02)),
                Err(ServerError::UnexpectedPacket(0x02))
            );
            assert_eq!(client.state(), ConnectionState::Configuration);
            assert_eq!(
                helper.complete_leave_configuration(&hooks(), &mut client, &Packet::empty(0x03)),
                Ok(())
            );
            assert_eq!(client.state(), ConnectionState::Play);
        } else {
            assert_eq!(r, Err(ServerError::UnexpectedState));
            assert_eq!(client.take_outbound(), Ok(None));
            assert_eq!(
                helper.complete_leave_configuration(&hooks(), &mut client, &Packet::empty(0x03)),
                Err(ServerError::UnexpectedState)
            );
            assert_eq!(client.state(), phase);
        }
        assert!(client.is_alive());
    }
}

#[test]
fn entering_configuration_is_legal_in_play_only() {
    for phase in PHASES {
        let mut client = client_in(phase);
        let helper = client.protocol_helper();
        let r = helper.enter_configuration(&hooks(), &mut client);
        if phase == ConnectionState::Play {
            assert_eq!(r, Ok(()));
            assert_eq!(client.take_outbound(), Ok(Some(vec![1, 0x6f])));
            assert_eq!(
                helper.complete_enter_configuration(&hooks(), &mut client, &Packet::empty(0x0f)),
                Err(ServerError::UnexpectedPacket(0x0f))
            );
            assert_eq!(
                helper.complete_enter_configuration(&hooks(), &mut client, &Packet::empty(0x0e)),
                Ok(())
            );
            assert_eq!(client.state(), ConnectionState::Configuration);
        } else {
            assert_eq!(r, Err(ServerError::UnexpectedState));
            assert_eq!(client.take_outbound(), Ok(None));
            assert_eq!(
                helper.complete_enter_configuration(&hooks(), &mut client, &Packet::empty(0x0e)),
                Err(ServerError::UnexpectedState)
            );
            assert_eq!(client.state(), phase);
        }
    }
}

#[test]
fn ping_names_the_pong_to_wait_for() {
    for phase in PHASES {
        let mut client = client_in(phase);
        let r = client.protocol_helper().ping(&hooks(), &mut client);
        match phase {
            ConnectionState::Play => {
                assert_eq!(r, Ok(0x2b));
                assert_eq!(client.take_outbound(), Ok(Some(vec![1, 0x36])));
            }
            ConnectionState::Configuration => {
                assert_eq!(r, Ok(0x05));
                assert_eq!(client.take_outbound(), Ok(Some(vec![1, 0x05])));
            }
            _ => {
                assert_eq!(r, Err(ServerError::UnexpectedState));
                assert_eq!(client.take_outbound(), Ok(None));
            }
        }
    }
}

#[test]
fn disconnect_speaks_the_language_of_the_phase() {
    for phase in PHASES {
        let mut client = client_in(phase);
        let r = client.protocol_helper().disconnect(&hooks(), &mut client, &reason());
        match phase {
            ConnectionState::Login => {
                assert_eq!(r, Ok(()));
                let mut frame = vec![16, 0x00, 14];
                frame.extend_from_slice(b"{\"text\":\"bye\"}");
                assert_eq!(client.take_outbound(), Ok(Some(frame)));
                assert!(client.is_alive());
            }
            ConnectionState::Configuration => {
                assert_eq!(r, Ok(()));
                assert_eq!(
                    client.take_outbound(),
                    Ok(Some(vec![7, 0x02, 0x08, 0x00, 0x03, b'b', b'y', b'e']))
                );
                assert!(client.is_alive());
            }
            ConnectionState::Play => {
                assert_eq!(r, Ok(()));
                assert_eq!(
                    client.take_outbound(),
                    Ok(Some(vec![7, 0x1c, 0x08, 0x00, 0x03, b'b', b'y', b'e']))
                );
                assert!(client.is_alive());
            }
            _ => {
                assert_eq!(r, Err(ServerError::UnexpectedState));
                assert_eq!(client.take_outbound(), Ok(None));
                assert!(client.is_alive());
            }
        }
    }
}

#[test]
fn cookies_are_asked_for_in_configuration_only() {
    for phase in PHASES {
        let mut client = client_in(phase);
        let helper = client.protocol_helper();
        let r = helper.request_cookie(&hooks(), &mut client, "my:cookie");
        let mut reply = Packet::empty(0x01);
        reply.write_string("my:cookie").unwrap();
        reply.write_boolean(true);
        reply.write_varint(3);
        reply.write_bytes(&[7, 8, 9, 10]);
        if phase == ConnectionState::Configuration {
            assert_eq!(r, Ok(()));
            let mut frame = vec![11, 0x00, 9];
            frame.extend_from_slice(b"my:cookie");
            assert_eq!(client.take_outbound(), Ok(Some(frame)));
            assert_eq!(helper.read_cookie_response(reply), Ok(Some(vec![7, 8, 9])));
        } else {
            assert_eq!(r, Err(ServerError::UnexpectedState));
            assert_eq!(client.take_outbound(), Ok(None));
            assert_eq!(helper.read_cookie_response(reply), Err(ServerError::UnexpectedState));
        }
    }
}

#[test]
fn cookie_response_is_read_field_by_field() {
    let client = client_in(ConnectionState::Configuration);
    let helper = client.protocol_helper();
    let mut absent = Packet::empty(0x01);
    absent.write_string("my:cookie").unwrap();
    absent.write_boolean(false);
    assert_eq!(helper.read_cookie_response(absent), Ok(None));
    let mut empty = Packet::empty(0x01);
    empty.write_string("c").unwrap();
    empty.write_boolean(true);
    empty.write_varint(0);
    assert_eq!(helper.read_cookie_response(empty), Ok(Some(vec![])));
    let mut short = Packet::empty(0x01);
    short.write_string("c").unwrap();
    short.write_boolean(true);
    short.write_varint(5);
    short.write_bytes(&[1, 2]);
    assert_eq!(helper.read_cookie_response(short), Err(ServerError::UnexpectedEof));
    let mut odd = Packet::empty(0x01);
    odd.write_string("c").unwrap();
    odd.write_byte(2);
    odd.write_varint(1);
    odd.write_byte(9);
    assert_eq!(helper.read_cookie_response(odd), Ok(None));
    assert_eq!(
        helper.read_cookie_response(Packet::empty(0x02)),
        Err(ServerError::UnexpectedPacket(0x02))
    );
    assert_eq!(helper.read_cookie_response(Packet::empty(0x01)), Err(ServerError::UnexpectedEof));
}

#[test]
fn login_plugins_are_asked_during_login_only() {
    for phase in PHASES {
        let mut client = client_in(phase);
        let helper = client.protocol_helper();
        let r = helper.send_login_plugin_request(&hooks(), &mut client, 300, "a:b", &[1, 2]);
        let mut reply = Packet::empty(0x02);
        reply.write_varint(300);
        reply.write_boolean(true);
        reply.write_bytes(&[5, 6]);
        if phase == ConnectionState::Login {
            assert_eq!(r, Ok(()));
            assert_eq!(
                client.take_outbound(),
                Ok(Some(vec![9, 0x04, 0xac, 0x02, 3, b'a', b':', b'b', 1, 2]))
            );
            assert_eq!(helper.read_login_plugin_response(reply), Ok((300, Some(vec![5, 6]))));
        } else {
            assert_eq!(r, Err(ServerError::UnexpectedState));
            assert_eq!(client.take_outbound(), Ok(None));
            assert_eq!(helper.read_login_plugin_response(reply), Err(ServerError::UnexpectedState));
        }
    }
}

#[test]
fn login_plugin_response_is_read_field_by_field() {
    let client = client_in(ConnectionState::Login);
    let helper = client.protocol_helper();
    let mut not_understood = Packet::empty(0x02);
    not_understood.write_varint(-7);
    not_understood.write_boolean(false);
    not_understood.write_bytes(&[1]);
    assert_eq!(helper.read_login_plugin_response(not_understood), Ok((-7, None)));
    let mut empty = Packet::empty(0x02);
    empty.write_varint(1);
    empty.write_boolean(true);
    assert_eq!(helper.read_login_plugin_response(empty), Ok((1, Some(vec![]))));
    assert_eq!(
        helper.read_login_plugin_response(Packet::from_bytes(0x02, &[1])),
        Err(ServerError::UnexpectedEof)
    );
    assert_eq!(
        helper.read_login_plugin_response(Packet::empty(0x03)),
        Err(ServerError::UnexpectedPacket(0x03))
    );
}

#[test]
fn plugin_messages_go_out_in_configuration_and_play() {
    for phase in PHASES {
        let mut client = client_in(phase);
        let r = client.protocol_helper().send_plugin_message(&hooks(), &mut client, "a:b", &[1, 2]);
        match phase {
            ConnectionState::Configuration => {
                assert_eq!(r, Ok(()));
                assert_eq!(
                    client.take_outbound(),
                    Ok(Some(vec![7, 0x01, 3, b'a', b':', b'b', 1, 2]))
                );
            }
            ConnectionState::Play => {
                assert_eq!(r, Ok(()));
                assert_eq!(
                    client.take_outbound(),
                    Ok(Some(vec![7, 0x18, 3, b'a', b':', b'b', 1, 2]))
                );
            }
            _ => {
                assert_eq!(r, Err(ServerError::UnexpectedState));
                assert_eq!(client.take_outbound(), Ok(None));
            }
        }
    }
}
