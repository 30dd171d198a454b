//! What all connections of a server share: the settings, the registered
//! hooks, and the directory of live sessions.
//!
//! The directory maps the address of every live connection to the identity
//! of its player, once that is known. Sessions themselves stay with their
//! connections; the directory holds what is needed to find them.

use crate::config::Config;
use crate::event;
use crate::event::listener_priorities;
use crate::event::packet_priorities;
use crate::event::state_priorities;
use crate::event::Direction;
use crate::event::Listener;
use crate::event::Occasion;
use crate::event::PacketHandler;
use crate::order::is_priority_order;
use crate::order::priority_order;
use crate::player::context::PeerAddr;
use crate::player::context::ClientContext;
use crate::player::context::PlayerInfo;
use crate::player::context::PlayerInfoView;
use dashmap::DashMap;
use vstd::prelude::*;

verus! {

/// `dashmap::DashMap`, the concurrent map that holds the directory.
#[verifier::external_type_specification]
#[verifier::external_body]
#[verifier::reject_recursive_types(K)]
#[verifier::reject_recursive_types(V)]
#[verifier::reject_recursive_types(S)]
pub struct ExDashMap<K, V, S>(DashMap<K, V, S>);

/// The entries of a directory: for the address of every live connection, the
/// identity of its player, if known.
pub uninterp spec fn directory_entries(clients: DashMap<PeerAddr, Option<PlayerInfo>>) -> Map<
    PeerAddr,
    Option<PlayerInfo>,
>;

/// `DashMap::new`: a map without entries.
#[verifier::external_body]
fn directory_new() -> (clients: DashMap<PeerAddr, Option<PlayerInfo>>)
    ensures
        directory_entries(clients) =~= Map::empty(),
{
    DashMap::new()
}

/// `DashMap::insert`: the key maps to the value afterwards, every other key
/// as before; the answer is the value that the key had.
#[verifier::external_body]
fn directory_insert(
    clients: &mut DashMap<PeerAddr, Option<PlayerInfo>>,
    addr: PeerAddr,
    identity: Option<PlayerInfo>,
) -> (previous: Option<Option<PlayerInfo>>)
    ensures
        directory_entries(*final(clients)) == directory_entries(*old(clients)).insert(
            addr,
            identity,
        ),
        previous == if directory_entries(*old(clients)).contains_key(addr) {
            Some(directory_entries(*old(clients))[addr])
        } else {
            None
        },
{
    clients.insert(addr, identity)
}

/// `DashMap::remove`: the key has no entry afterwards, every other key as
/// before; the answer is the value that the key had.
#[verifier::external_body]
fn directory_remove(clients: &mut DashMap<PeerAddr, Option<PlayerInfo>>, addr: PeerAddr) -> (previous:
    Option<Option<PlayerInfo>>)
    ensures
        directory_entries(*final(clients)) == directory_entries(*old(clients)).remove(addr),
        previous == if directory_entries(*old(clients)).contains_key(addr) {
            Some(directory_entries(*old(clients))[addr])
        } else {
            None
        },
{
    clients.remove(&addr).map(|entry| entry.1)
}

/// Whether `listing` holds every entry of `entries` once, in whatever order.
pub open spec fn lists_entries(
    listing: Seq<(PeerAddr, Option<PlayerInfo>)>,
    entries: Map<PeerAddr, Option<PlayerInfo>>,
) -> bool {
    &&& forall|i: int|
        0 <= i < listing.len() ==> entries.contains_key((#[trigger] listing[i]).0)
            && entries[listing[i].0] == listing[i].1
    &&& forall|i: int, j: int|
        0 <= i < j < listing.len() ==> (#[trigger] listing[i]).0 != (#[trigger] listing[j]).0
    &&& forall|addr: PeerAddr| #[trigger]
        entries.contains_key(addr) ==> exists|i: int|
            0 <= i < listing.len() && (#[trigger] listing[i]).0 == addr
}

/// `DashMap::iter`, collected: every entry once, key and a clone of the
/// value. The order is that of the map's shards and says nothing.
#[verifier::external_body]
fn directory_snapshot(clients: &DashMap<PeerAddr, Option<PlayerInfo>>) -> (listing: Vec<
    (PeerAddr, Option<PlayerInfo>),
>)
    ensures
        lists_entries(listing@, directory_entries(*clients)),
{
    clients.iter().map(|entry| (*entry.key(), entry.value().clone())).collect()
}

/// The shared state of a server.
pub struct ServerContext<L, H> {
    config: Config,
    clients: DashMap<PeerAddr, Option<PlayerInfo>>,
    listeners: Vec<L>,
    handlers: Vec<H>,
}

impl<L: Listener, H: PacketHandler> ServerContext<L, H> {
    /// The directory: address of every live connection and the identity of
    /// its player, if known.
    pub closed spec fn clients(&self) -> Map<PeerAddr, Option<PlayerInfo>> {
        directory_entries(self.clients)
    }

    /// The directory as mathematical values.
    pub closed spec fn identities(&self) -> Map<PeerAddr, Option<PlayerInfoView>> {
        Map::new(
            |addr: PeerAddr| directory_entries(self.clients).contains_key(addr),
            |addr: PeerAddr|
                match directory_entries(self.clients)[addr] {
                    Some(info) => Some(info@),
                    None => None,
                },
        )
    }

    /// Whether two servers have the same settings and the same hooks.
    pub open spec fn same_setup(&self, other: &Self) -> bool {
        &&& self.settings() == other.settings()
        &&& self.listener_seq() == other.listener_seq()
        &&& self.handler_seq() == other.handler_seq()
    }

    /// The settings that the server was started with.
    pub closed spec fn settings(&self) -> Config {
        self.config
    }

    /// The registered listeners, in the order of registration.
    pub closed spec fn listener_seq(&self) -> Seq<L> {
        self.listeners@
    }

    /// The registered packet handlers, in the order of registration.
    pub closed spec fn handler_seq(&self) -> Seq<H> {
        self.handlers@
    }

    /// A server without hooks and without connections.
    pub fn new(config: Config) -> (server: Self)
        ensures
            server.settings() == config,
            server.clients() =~= Map::empty(),
            server.listener_seq() =~= Seq::empty(),
            server.handler_seq() =~= Seq::empty(),
    {
        ServerContext {
            config,
            clients: directory_new(),
            listeners: Vec::new(),
            handlers: Vec::new(),
        }
    }

    /// Registers a packet handler behind those already registered.
    pub fn add_packet_handler(&mut self, handler: H)
        ensures
            final(self).handler_seq() == old(self).handler_seq().push(handler),
            final(self).listener_seq() == old(self).listener_seq(),
            final(self).clients() == old(self).clients(),
            final(self).settings() == old(self).settings(),
    {
        self.handlers.push(handler);
    }

    /// Registers a listener behind those already registered.
    pub fn add_listener(&mut self, listener: L)
        ensures
            final(self).listener_seq() == old(self).listener_seq().push(listener),
            final(self).handler_seq() == old(self).handler_seq(),
            final(self).clients() == old(self).clients(),
            final(self).settings() == old(self).settings(),
    {
        self.listeners.push(listener);
    }

    /// The settings that the server was started with.
    pub fn config(&self) -> (config: &Config)
        ensures
            *config == self.settings(),
    {
        &self.config
    }

    /// The registered packet handlers, in the order of registration.
    pub fn handlers(&self) -> (handlers: &Vec<H>)
        ensures
            handlers@ == self.handler_seq(),
    {
        &self.handlers
    }

    /// The registered listeners, in the order of registration.
    pub fn registered_listeners(&self) -> (listeners: &Vec<L>)
        ensures
            listeners@ == self.listener_seq(),
    {
        &self.listeners
    }

    /// The order in which the packet hooks of one direction run: the
    /// registration indices by ascending priority, equal priorities in the
    /// order of registration.
    pub fn packet_handlers(&self, direction: Direction) -> (order: Vec<usize>)
        ensures
            order@ == priority_order(packet_priorities(self.handler_seq(), direction)),
            is_priority_order(packet_priorities(self.handler_seq(), direction), order@),
    {
        event::packet_hook_order(&self.handlers, direction)
    }

    /// The order in which the phase hooks run.
    pub fn state_handlers(&self) -> (order: Vec<usize>)
        ensures
            order@ == priority_order(state_priorities(self.handler_seq())),
            is_priority_order(state_priorities(self.handler_seq()), order@),
    {
        event::state_hook_order(&self.handlers)
    }

    /// The order in which the listeners hear of an occasion.
    pub fn listeners(&self, occasion: Occasion) -> (order: Vec<usize>)
        ensures
            order@ == priority_order(listener_priorities(self.listener_seq(), occasion)),
            is_priority_order(listener_priorities(self.listener_seq(), occasion), order@),
    {
        event::listener_order(&self.listeners, occasion)
    }

    /// Enters a connection into the directory, or replaces its entry: at
    /// accept time without an identity, later with the identity of its player.
    pub fn insert(&mut self, addr: PeerAddr, identity: Option<PlayerInfo>)
        ensures
            final(self).clients() == old(self).clients().insert(addr, identity),
            final(self).identities() == old(self).identities().insert(
                addr,
                match identity {
                    Some(info) => Some(info@),
                    None => None,
                },
            ),
            final(self).listener_seq() == old(self).listener_seq(),
            final(self).handler_seq() == old(self).handler_seq(),
            final(self).settings() == old(self).settings(),
    {
        let _ = directory_insert(&mut self.clients, addr, identity);
        assert(self.identities() =~= old(self).identities().insert(
            addr,
            match identity {
                Some(info) => Some(info@),
                None => None,
            },
        ));
    }

    /// Enters what a session knows of its player into the directory, under
    /// the session's address.
    pub fn update(&mut self, client: &ClientContext)
        ensures
            final(self).identities() == old(self).identities().insert(
                client@.addr,
                client@.player_info,
            ),
            final(self).same_setup(old(self)),
    {
        let identity: Option<PlayerInfo> = client.player_info();
        let addr: PeerAddr = client.addr();
        let _ = directory_insert(&mut self.clients, addr, identity);
        assert(self.identities() =~= old(self).identities().insert(
            client@.addr,
            client@.player_info,
        ));
    }

    /// Takes a connection out of the directory. Answers whether it was there.
    pub fn remove(&mut self, addr: PeerAddr) -> (present: bool)
        ensures
            present == old(self).clients().contains_key(addr),
            final(self).clients() == old(self).clients().remove(addr),
            final(self).identities() == old(self).identities().remove(addr),
            final(self).listener_seq() == old(self).listener_seq(),
            final(self).handler_seq() == old(self).handler_seq(),
            final(self).settings() == old(self).settings(),
    {
        let previous: Option<Option<PlayerInfo>> = directory_remove(&mut self.clients, addr);
        assert(self.identities() =~= old(self).identities().remove(addr));
        previous.is_some()
    }

    /// The sessions that have an identity, as they are at this moment, in no
    /// particular order: each such session once, with its address.
    #[verifier::loop_isolation(false)]
    pub fn players(&self) -> (players: Vec<(PeerAddr, PlayerInfo)>)
        ensures
            forall|i: int|
                0 <= i < players@.len() ==> self.clients().contains_key((#[trigger] players@[i]).0)
                    && self.clients()[players@[i].0] == Some(players@[i].1),
            forall|i: int, j: int|
                0 <= i < j < players@.len() ==> (#[trigger] players@[i]).0 != (
                #[trigger] players@[j]).0,
            forall|addr: PeerAddr| #[trigger]
                self.clients().contains_key(addr) && self.clients()[addr] is Some ==> exists|
                    i: int,
                |
                    0 <= i < players@.len() && (#[trigger] players@[i]).0 == addr,
    {
        let listing: Vec<(PeerAddr, Option<PlayerInfo>)> = directory_snapshot(&self.clients);
        let ghost entries = self.clients();
        let mut players: Vec<(PeerAddr, PlayerInfo)> = Vec::new();
        let ghost mut origin: Seq<int> = Seq::empty();
        let mut k: usize = 0;
        while k < listing.len()
            invariant
                k <= listing@.len(),
                entries == self.clients(),
                lists_entries(listing@, entries),
                origin.len() == players@.len(),
                forall|i: int|
                    0 <= i < players@.len() ==> 0 <= (#[trigger] origin[i]) < k && listing@[origin[i]]
                        == (players@[i].0, Some(players@[i].1)),
                forall|i: int, j: int|
                    0 <= i < j < players@.len() ==> (#[trigger] origin[i]) < (#[trigger] origin[j]),
                forall|n: int|
                    0 <= n < k && (#[trigger] listing@[n]).1 is Some ==> exists|i: int|
                        0 <= i < players@.len() && (#[trigger] players@[i]).0 == listing@[n].0,
            decreases listing@.len() - k,
        {
            let addr: PeerAddr = listing[k].0;
            match &listing[k].1 {
                Some(info) => {
                    let ghost before = players@;
                    players.push((addr, info.clone()));
                    proof {
                        origin = origin.push(k as int);
                        let last = players@.len() - 1;
                        assert(players@[last].0 == listing@[k as int].0);
                        assert forall|n: int|
                            0 <= n < k + 1 && (#[trigger] listing@[n]).1 is Some implies exists|
                            i: int,
                        |
                            0 <= i < players@.len() && (#[trigger] players@[i]).0
                                == listing@[n].0 by {
                            if n < k {
                                let i = choose|i: int|
                                    0 <= i < before.len() && (#[trigger] before[i]).0
                                        == listing@[n].0;
                                assert(players@[i].0 == listing@[n].0);
                            }
                        }
                    }
                },
                None => {},
            }
            k = k + 1;
        }
        proof {
            assert forall|addr: PeerAddr| #[trigger]
                entries.contains_key(addr) && entries[addr] is Some implies exists|i: int|
                0 <= i < players@.len() && (#[trigger] players@[i]).0 == addr by {
                let n = choose|n: int| 0 <= n < listing@.len() && (#[trigger] listing@[n]).0 == addr;
                assert(listing@[n].1 is Some);
            }
            assert forall|i: int, j: int| 0 <= i < j < players@.len() implies (
            #[trigger] players@[i]).0 != (#[trigger] players@[j]).0 by {
                assert(listing@[origin[i]].0 != listing@[origin[j]].0);
            }
            assert forall|i: int| 0 <= i < players@.len() implies entries.contains_key(
                (#[trigger] players@[i]).0,
            ) && entries[players@[i].0] == Some(players@[i].1) by {
                assert(entries.contains_key(listing@[origin[i]].0));
            }
        }
        players
    }

    /// The players to reach with what `sender` broadcasts: every session with
    /// an identity but the sender's own, told apart by address.
    #[verifier::loop_isolation(false)]
    pub fn players_except(&self, sender: PeerAddr) -> (others: Vec<(PeerAddr, PlayerInfo)>)
        ensures
            forall|i: int|
                0 <= i < others@.len() ==> (#[trigger] others@[i]).0 != sender
                    && self.clients().contains_key(others@[i].0) && self.clients()[others@[i].0]
                    == Some(others@[i].1),
            forall|i: int, j: int|
                0 <= i < j < others@.len() ==> (#[trigger] others@[i]).0 != (
                #[trigger] others@[j]).0,
            forall|addr: PeerAddr| #[trigger]
                self.clients().contains_key(addr) && self.clients()[addr] is Some && addr
                    != sender ==> exists|i: int|
                    0 <= i < others@.len() && (#[trigger] others@[i]).0 == addr,
    {
        let players: Vec<(PeerAddr, PlayerInfo)> = self.players();
        let ghost entries = self.clients();
        let mut others: Vec<(PeerAddr, PlayerInfo)> = Vec::new();
        let ghost mut origin: Seq<int> = Seq::empty();
        let mut k: usize = 0;
        while k < players.len()
            invariant
                k <= players@.len(),
                origin.len() == others@.len(),
                forall|i: int|
                    0 <= i < others@.len() ==> 0 <= (#[trigger] origin[i]) < k && players@[origin[i]]
                        == others@[i] && others@[i].0 != sender,
                forall|i: int, j: int|
                    0 <= i < j < others@.len() ==> (#[trigger] origin[i]) < (#[trigger] origin[j]),
                forall|n: int|
                    0 <= n < k && (#[trigger] players@[n]).0 != sender ==> exists|i: int|
                        0 <= i < others@.len() && (#[trigger] others@[i]).0 == players@[n].0,
            decreases players@.len() - k,
        {
            let addr: PeerAddr = players[k].0;
            if addr.0 != sender.0 || addr.1 != sender.1 {
                let ghost before = others@;
                others.push((addr, players[k].1.clone()));
                proof {
                    origin = origin.push(k as int);
                    let last = others@.len() - 1;
                    assert(others@[last].0 == players@[k as int].0);
                    assert forall|n: int|
                        0 <= n < k + 1 && (#[trigger] players@[n]).0 != sender implies exists|
                        i: int,
                    |
                        0 <= i < others@.len() && (#[trigger] others@[i]).0 == players@[n].0 by {
                        if n < k {
                            let i = choose|i: int|
                                0 <= i < before.len() && (#[trigger] before[i]).0 == players@[n].0;
                            assert(others@[i].0 == players@[n].0);
                        }
                    }
                }
            }
            k = k + 1;
        }
        proof {
            assert forall|addr: PeerAddr| #[trigger]
                entries.contains_key(addr) && entries[addr] is Some && addr
                    != sender implies exists|i: int|
                0 <= i < others@.len() && (#[trigger] others@[i]).0 == addr by {
                let n = choose|n: int| 0 <= n < players@.len() && (#[trigger] players@[n]).0 == addr;
                assert(players@[n].0 != sender);
            }
            assert forall|i: int, j: int| 0 <= i < j < others@.len() implies (
            #[trigger] others@[i]).0 != (#[trigger] others@[j]).0 by {
                assert(players@[origin[i]].0 != players@[origin[j]].0);
            }
            assert forall|i: int| 0 <= i < others@.len() implies (#[trigger] others@[i]).0
                != sender && entries.contains_key(others@[i].0) && entries[others@[i].0] == Some(
                others@[i].1,
            ) by {
                assert(entries.contains_key(players@[origin[i]].0));
            }
        }
        others
    }

    /// Looks for a player by unique id. Answers one session whose player has
    /// that id, or nothing if no session has.
    #[verifier::loop_isolation(false)]
    pub fn get_player_by_uuid(&self, uuid: u128) -> (found: Option<(PeerAddr, PlayerInfo)>)
        ensures
            match found {
                Some((addr, info)) => self.clients().contains_key(addr) && self.clients()[addr]
                    == Some(info) && info.uuid == uuid,
                None => forall|addr: PeerAddr| #[trigger]
                    self.clients().contains_key(addr) ==> !(self.clients()[addr] matches Some(info)
                        && info.uuid == uuid),
            },
    {
        let players: Vec<(PeerAddr, PlayerInfo)> = self.players();
        let mut k: usize = 0;
        while k < players.len()
            invariant
                k <= players@.len(),
                forall|n: int| 0 <= n < k ==> (#[trigger] players@[n]).1.uuid != uuid,
            decreases players@.len() - k,
        {
            if players[k].1.uuid == uuid {
                return Some((players[k].0, players[k].1.clone()));
            }
            k = k + 1;
        }
        proof {
            assert forall|addr: PeerAddr| #[trigger] self.clients().contains_key(addr) implies !(
            self.clients()[addr] matches Some(info) && info.uuid == uuid) by {
                if self.clients()[addr] is Some {
                    let n = choose|n: int|
                        0 <= n < players@.len() && (#[trigger] players@[n]).0 == addr;
                    assert(players@[n].1.uuid != uuid);
                }
            }
        }
        None
    }

    /// Looks for a player by name. Answers one session whose player has that
    /// name, or nothing if no session has.
    #[verifier::loop_isolation(false)]
    pub fn get_player_by_name(&self, name: &str) -> (found: Option<(PeerAddr, PlayerInfo)>)
        ensures
            match found {
                Some((addr, info)) => self.clients().contains_key(addr) && self.clients()[addr]
                    == Some(info) && info.name@ == name@,
                None => forall|addr: PeerAddr| #[trigger]
                    self.clients().contains_key(addr) ==> !(self.clients()[addr] matches Some(info)
                        && info.name@ == name@),
            },
    {
        let wanted: String = name.to_owned();
        let players: Vec<(PeerAddr, PlayerInfo)> = self.players();
        let mut k: usize = 0;
        while k < players.len()
            invariant
                k <= players@.len(),
                wanted@ == name@,
                forall|n: int| 0 <= n < k ==> (#[trigger] players@[n]).1.name@ != name@,
            decreases players@.len() - k,
        {
            if players[k].1.name == wanted {
                return Some((players[k].0, players[k].1.clone()));
            }
            k = k + 1;
        }
        proof {
            assert forall|addr: PeerAddr| #[trigger] self.clients().contains_key(addr) implies !(
            self.clients()[addr] matches Some(info) && info.name@ == name@) by {
                if self.clients()[addr] is Some {
                    let n = choose|n: int|
                        0 <= n < players@.len() && (#[trigger] players@[n]).0 == addr;
                    assert(players@[n].1.name@ != name@);
                }
            }
        }
        None
    }
}

} // verus!
