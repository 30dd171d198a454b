use rust_mc_serv::error::ServerError;
use rust_mc_serv::event::listener_order;
use rust_mc_serv::event::packet_hook_order;
use rust_mc_serv::event::run_packet_hooks;
use rust_mc_serv::event::run_state_hooks;
use rust_mc_serv::event::state_hook_order;
use rust_mc_serv::event::trigger_disconnect;
use rust_mc_serv::event::trigger_plugin_message;
use rust_mc_serv::event::trigger_status;
use rust_mc_serv::event::Direction;
use rust_mc_serv::event::Listener;
use rust_mc_serv::event::Occasion;
use rust_mc_serv::event::PacketHandler;
use rust_mc_serv::event::Quiet;
use rust_mc_serv::order::order_by_priority;
use rust_mc_serv::packet::Packet;
use rust_mc_serv::player::context::ClientContext;
use rust_mc_serv::protocol::ConnectionState;
use std::sync::Arc;
use std::sync::Mutex;

type Log = Arc<Mutex<Vec<String>>>;

#[derive(Clone)]
struct Probe {
    name: &'static str,
    incoming: i8,
    outcoming: i8,
    state: i8,
    cancels: bool,
    lowers: bool,
    reads: usize,
    appends: Option<u8>,
    fails: bool,
    log: Log,
}

fn probe(name: &'static str, priority: i8, log: &Log) -> Probe {
    Probe {
        name,
        incoming: priority,
        outcoming: priority,
        state: priority,
        cancels: false,
        lowers: false,
        reads: 0,
        appends: None,
        fails: false,
        log: log.clone(),
    }
}

impl Probe {
    fn see(&self, way: &str, packet: &mut Packet, cancel: &mut bool) -> Result<(), ServerError> {
        self.log.lock().unwrap().push(format!(
            "{} {} id={} at={} len={} cancel={}",
            self.name,
            way,
            packet.id(),
            packet.position(),
            packet.get_bytes().len(),
            *cancel
        ));
        for _ in 0..self.reads {
            let _ = packet.read_byte();
        }
        if let Some(byte) = self.appends {
            packet.write_byte(byte);
        }
        if self.cancels {
            *cancel = true;
        }
        if self.lowers {
            *cancel = false;
        }
        if self.fails {
            return Err(ServerError::Other(self.name.to_string()));
        }
        Ok(())
    }
}

impl PacketHandler for Probe {
    fn on_incoming_packet_priority(&self) -> i8 {
        self.incoming
    }

    fn on_outcoming_packet_priority(&self) -> i8 {
        self.outcoming
    }

    fn on_state_priority(&self) -> i8 {
        self.state
    }

    fn on_incoming_packet(
        &self,
        _client: &ClientContext,
        packet: &mut Packet,
        cancel: &mut bool,
        _state: ConnectionState,
    ) -> Result<(), ServerError> {
        self.see("in", packet, cancel)
    }

    fn on_outcoming_packet(
        &self,
        _client: &ClientContext,
        packet: &mut Packet,
        cancel: &mut bool,
        _state: ConnectionState,
    ) -> Result<(), ServerError> {
        self.see("out", packet, cancel)
    }

    fn on_state(&self, client: &ClientContext, state: ConnectionState) -> Result<(), ServerError> {
        self.log.lock().unwrap().push(format!("{} state {:?} {:?}", self.name, state, client.state()));
        if self.fails {
            return Err(ServerError::Other(self.name.to_string()));
        }
        Ok(())
    }
}

impl Listener for Probe {
    fn on_status_priority(&self) -> i8 {
        self.incoming
    }

    fn on_plugin_message_priority(&self) -> i8 {
        self.outcoming
    }

    fn on_disconnect_priority(&self) -> i8 {
        self.state
    }

    fn on_status(&self, _client: &ClientContext, response: &mut String) -> Result<(), ServerError> {
        self.log.lock().unwrap().push(format!("{} status {}", self.name, response));
        if self.fails {
            return Err(ServerError::Other(self.name.to_string()));
        }
        response.push_str(self.name);
        Ok(())
    }

    fn on_plugin_message(
        &self,
        _client: &ClientContext,
        channel: &str,
        data: &[u8],
    ) -> Result<(), ServerError> {
        self.log.lock().unwrap().push(format!("{} plugin {} {:?}", self.name, channel, data));
        if self.fails {
            return Err(ServerError::Other(self.name.to_string()));
        }
        Ok(())
    }

    fn on_disconnect(&self, client: &ClientContext) -> Result<(), ServerError> {
        self.log.lock().unwrap().push(format!("{} disconnect {}", self.name, client.is_alive()));
        if self.fails {
            return Err(ServerError::Other(self.name.to_string()));
        }
        Ok(())
    }
}

fn names(log: &Log) -> Vec<String> {
    log.lock().unwrap().iter().map(|line| line.split(' ').next().unwrap().to_string()).collect()
}

fn client() -> ClientContext {
    ClientContext::new((1, 25565))
}

#[test]
fn priorities_sort_ascending_and_stably() {
    assert_eq!(order_by_priority(&vec![]), Vec::<usize>::new());
    assert_eq!(order_by_priority(&vec![0]), vec![0]);
    assert_eq!(order_by_priority(&vec![0, 0, 0]), vec![0, 1, 2]);
    assert_eq!(order_by_priority(&vec![3, 2, 1]), vec![2, 1, 0]);
    assert_eq!(order_by_priority(&vec![5, -3, 5, 0, -3]), vec![1, 4, 3, 0, 2]);
    assert_eq!(order_by_priority(&vec![127, -128, 0, -1, 1]), vec![1, 3, 2, 4, 0]);
}

#[test]
fn hooks_run_by_priority_then_registration() {
    let log = Log::default();
    let handlers = vec![
        probe("a", 5, &log),
        probe("b", -3, &log),
        probe("c", 5, &log),
        probe("d", 0, &log),
        probe("e", -3, &log),
    ];
    let mut packet = Packet::from_bytes(7, &[1, 2, 3]);
    let r = run_packet_hooks(
        &handlers,
        Direction::Incoming,
        &client(),
        &mut packet,
        ConnectionState::Play,
    );
    assert_eq!(r, Ok(false));
    assert_eq!(names(&log), vec!["b", "e", "d", "a", "c"]);
    assert_eq!(packet_hook_order(&handlers, Direction::Incoming), vec![1, 4, 3, 0, 2]);
}

#[test]
fn each_kind_of_hook_has_its_own_priority() {
    let log = Log::default();
    let mut first = probe("a", 0, &log);
    first.incoming = 1;
    first.outcoming = -1;
    first.state = 0;
    let mut second = probe("b", 0, &log);
    second.incoming = -1;
    second.outcoming = 1;
    second.state = 0;
    let handlers = vec![first, second];
    assert_eq!(packet_hook_order(&handlers, Direction::Incoming), vec![1, 0]);
    assert_eq!(packet_hook_order(&handlers, Direction::Outcoming), vec![0, 1]);
    assert_eq!(state_hook_order(&handlers), vec![0, 1]);
    assert_eq!(listener_order(&handlers, Occasion::Status), vec![1, 0]);
    assert_eq!(listener_order(&handlers, Occasion::PluginMessage), vec![0, 1]);
    assert_eq!(listener_order(&handlers, Occasion::Disconnect), vec![0, 1]);
}

#[test]
fn every_hook_sees_a_cancelled_packet() {
    let log = Log::default();
    let mut canceller = probe("veto", 0, &log);
    canceller.cancels = true;
    let handlers = vec![probe("late", 10, &log), canceller, probe("early", -10, &log)];
    let mut packet = Packet::from_bytes(7, &[1, 2, 3]);
    let r = run_packet_hooks(
        &handlers,
        Direction::Outcoming,
        &client(),
        &mut packet,
        ConnectionState::Play,
    );
    assert_eq!(r, Ok(true));
    assert_eq!(
        *log.lock().unwrap(),
        vec![
            "early out id=7 at=0 len=3 cancel=false",
            "veto out id=7 at=0 len=3 cancel=false",
            "late out id=7 at=0 len=3 cancel=true",
        ]
    );
}

#[test]
fn a_later_hook_cannot_lower_the_cancel_flag() {
    let log = Log::default();
    let mut canceller = probe("veto", 0, &log);
    canceller.cancels = true;
    let mut lowerer = probe("lower", 1, &log);
    lowerer.lowers = true;
    let handlers = vec![canceller, lowerer, probe("last", 2, &log)];
    let mut packet = Packet::empty(1);
    let r = run_packet_hooks(
        &handlers,
        Direction::Incoming,
        &client(),
        &mut packet,
        ConnectionState::Login,
    );
    assert_eq!(r, Ok(true));
    assert_eq!(
        *log.lock().unwrap(),
        vec![
            "veto in id=1 at=0 len=0 cancel=false",
            "lower in id=1 at=0 len=0 cancel=true",
            "last in id=1 at=0 len=0 cancel=true",
        ]
    );
}

#[test]
fn cursor_is_rewound_between_hooks() {
    let log = Log::default();
    let mut reader = probe("reader", 0, &log);
    reader.reads = 2;
    let mut second = probe("second", 1, &log);
    second.reads = 3;
    let handlers = vec![reader, second, probe("third", 2, &log)];
    let mut packet = Packet::from_bytes(9, &[1, 2, 3, 4]);
    let r = run_packet_hooks(
        &handlers,
        Direction::Incoming,
        &client(),
        &mut packet,
        ConnectionState::Play,
    );
    assert_eq!(r, Ok(false));
    assert_eq!(
        *log.lock().unwrap(),
        vec![
            "reader in id=9 at=0 len=4 cancel=false",
            "second in id=9 at=0 len=4 cancel=false",
            "third in id=9 at=0 len=4 cancel=false",
        ]
    );
    assert_eq!(packet.position(), 0);
    assert_eq!(packet.get_bytes(), &[1, 2, 3, 4]);
}

#[test]
fn first_hook_sees_the_cursor_as_given() {
    let log = Log::default();
    let handlers = vec![probe("a", 0, &log), probe("b", 0, &log)];
    let mut packet = Packet::from_bytes(9, &[1, 2, 3, 4]);
    packet.set_position(3);
    let _ = run_packet_hooks(
        &handlers,
        Direction::Incoming,
        &client(),
        &mut packet,
        ConnectionState::Play,
    );
    assert_eq!(
        *log.lock().unwrap(),
        vec!["a in id=9 at=3 len=4 cancel=false", "b in id=9 at=0 len=4 cancel=false"]
    );
}

#[test]
fn changes_to_a_packet_reach_later_hooks() {
    let log = Log::default();
    let mut writer = probe("writer", 0, &log);
    writer.appends = Some(0xaa);
    let handlers = vec![writer, probe("reader", 1, &log)];
    let mut packet = Packet::from_bytes(9, &[1]);
    let r = run_packet_hooks(
        &handlers,
        Direction::Outcoming,
        &client(),
        &mut packet,
        ConnectionState::Play,
    );
    assert_eq!(r, Ok(false));
    assert_eq!(log.lock().unwrap()[1], "reader out id=9 at=0 len=2 cancel=false");
    assert_eq!(packet.get_bytes(), &[1, 0xaa]);
}

#[test]
fn a_failing_hook_ends_the_chain() {
    let log = Log::default();
    let mut failing = probe("broken", 0, &log);
    failing.fails = true;
    failing.cancels = true;
    failing.reads = 1;
    let handlers = vec![probe("first", -1, &log), failing, probe("never", 1, &log)];
    let mut packet = Packet::from_bytes(9, &[1, 2]);
    let r = run_packet_hooks(
        &handlers,
        Direction::Incoming,
        &client(),
        &mut packet,
        ConnectionState::Play,
    );
    assert_eq!(r, Err(ServerError::Other("broken".to_string())));
    assert_eq!(names(&log), vec!["first", "broken"]);
    assert_eq!(packet.position(), 0);
}

#[test]
fn no_hooks_is_no_veto() {
    let handlers: Vec<Quiet> = Vec::new();
    let mut packet = Packet::from_bytes(9, &[1, 2]);
    packet.set_position(1);
    let r = run_packet_hooks(
        &handlers,
        Direction::Incoming,
        &client(),
        &mut packet,
        ConnectionState::Play,
    );
    assert_eq!(r, Ok(false));
    assert_eq!(packet.position(), 1);
}

#[test]
fn quiet_hooks_change_nothing() {
    let handlers = vec![Quiet, Quiet];
    let mut packet = Packet::from_bytes(7, &[1, 2, 3]);
    packet.set_position(2);
    let r = run_packet_hooks(
        &handlers,
        Direction::Outcoming,
        &client(),
        &mut packet,
        ConnectionState::Play,
    );
    assert_eq!(r, Ok(false));
    assert_eq!(packet.id(), 7);
    assert_eq!(packet.get_bytes(), &[1, 2, 3]);
    assert_eq!(packet.position(), 0);
    assert_eq!(run_state_hooks(&handlers, &client(), ConnectionState::Login), Ok(()));
    let mut document = "doc".to_string();
    assert_eq!(trigger_status(&handlers, &client(), &mut document), Ok(()));
    assert_eq!(document, "doc");
    assert_eq!(trigger_plugin_message(&handlers, &client(), "a:b", &[1]), Ok(()));
    assert_eq!(trigger_disconnect(&handlers, &client()), Ok(()));
}

#[test]
fn phase_hooks_run_in_order_until_one_fails() {
    let log = Log::default();
    let mut failing = probe("broken", 1, &log);
    failing.fails = true;
    let handlers = vec![probe("late", 2, &log), failing, probe("early", 0, &log)];
    let r = run_state_hooks(&handlers, &client(), ConnectionState::Status);
    assert_eq!(r, Err(ServerError::Other("broken".to_string())));
    assert_eq!(names(&log), vec!["early", "broken"]);
}

#[test]
fn status_listeners_rewrite_the_document_in_turn() {
    let log = Log::default();
    let listeners = vec![probe("c", 3, &log), probe("a", 1, &log), probe("b", 2, &log)];
    let mut document = "-".to_string();
    assert_eq!(trigger_status(&listeners, &client(), &mut document), Ok(()));
    assert_eq!(document, "-abc");
    assert_eq!(*log.lock().unwrap(), vec!["a status -", "b status -a", "c status -ab"]);
}

#[test]
fn a_failing_status_listener_keeps_what_came_before() {
    let log = Log::default();
    let mut failing = probe("b", 2, &log);
    failing.fails = true;
    let listeners = vec![probe("c", 3, &log), probe("a", 1, &log), failing];
    let mut document = "-".to_string();
    assert_eq!(
        trigger_status(&listeners, &client(), &mut document),
        Err(ServerError::Other("b".to_string()))
    );
    assert_eq!(document, "-a");
    assert_eq!(names(&log), vec!["a", "b"]);
}

#[test]
fn plugin_message_listeners_hear_channel_and_data() {
    let log = Log::default();
    let listeners = vec![probe("b", 2, &log), probe("a", 1, &log)];
    assert_eq!(trigger_plugin_message(&listeners, &client(), "my:channel", &[1, 2]), Ok(()));
    assert_eq!(
        *log.lock().unwrap(),
        vec!["a plugin my:channel [1, 2]", "b plugin my:channel [1, 2]"]
    );
}

#[test]
fn disconnect_listeners_all_hear_unless_one_fails() {
    let log = Log::default();
    let listeners = vec![probe("b", 2, &log), probe("a", 1, &log)];
    assert_eq!(trigger_disconnect(&listeners, &client()), Ok(()));
    assert_eq!(names(&log), vec!["a", "b"]);
    let log = Log::default();
    let mut failing = probe("a", 1, &log);
    failing.fails = true;
    let listeners = vec![probe("b", 2, &log), failing];
    assert_eq!(
        trigger_disconnect(&listeners, &client()),
        Err(ServerError::Other("a".to_string()))
    );
    assert_eq!(names(&log), vec!["a"]);
}
