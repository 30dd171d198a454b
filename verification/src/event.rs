//! Hooks around traffic and lifecycle events, and the chains that run them.
//!
//! Hooks of one kind run by ascending priority, equal priorities in the order
//! of registration. Every hook of a chain runs, whatever the hooks before it
//! decided: a hook that raises the cancel flag vetoes the packet at the end of
//! the chain, and no later hook can lower the flag again. Only a hook that
//! fails ends a chain early, with its error. Between two hooks the packet's
//! cursor is put back to the start of the body.
//!
//! What a hook does is given by spec functions of its trait: an
//! implementation states there what its methods do. Where it states nothing,
//! a hook is held to be some function of what it sees, so that the chains are
//! exact for every implementation that answers alike when it sees alike.
//! `Quiet` is the implementation that does nothing at priority zero.

use crate::error::ServerError;
use crate::order;
use crate::order::is_priority_order;
use crate::order::priority_order;
use crate::packet::Packet;
use crate::packet::PacketView;
use crate::player::context::ClientContext;
use crate::player::context::ClientView;
use crate::protocol::ConnectionState;
use vstd::prelude::*;

verus! {

/// What a packet hook leaves behind.
pub struct HookOutcome {
    /// The packet as the hook left it.
    pub packet: PacketView,
    /// The cancel flag as the hook left it.
    pub cancel: bool,
    /// Whether the hook succeeded.
    pub result: Result<(), ServerError>,
}

/// What a status hook leaves behind.
pub struct StatusOutcome {
    /// The status document as the hook left it.
    pub response: Seq<char>,
    /// Whether the hook succeeded.
    pub result: Result<(), ServerError>,
}

/// Which way a packet travels.
#[derive(Debug, Clone, Copy, PartialEq, Eq, Structural)]
pub enum Direction {
    /// From client to server.
    Incoming,
    /// From server to client.
    Outcoming,
}

/// The lifecycle events that listeners hear of.
#[derive(Debug, Clone, Copy, PartialEq, Eq, Structural)]
pub enum Occasion {
    /// A status query is being answered.
    Status,
    /// A plugin message arrived on a channel that the server does not know.
    PluginMessage,
    /// The session ended.
    Disconnect,
}

/// Hooks for events that are no packets.
///
/// Each hook has a spec function that says what it does. A listener that
/// does not give one is held to some function of what the hook sees, of which
/// nothing more is known.
pub trait Listener {
    /// The priority of `on_status`.
    open spec fn status_priority(&self) -> i8 {
        (arbitrary::<spec_fn(&Self, Occasion) -> i8>())(self, Occasion::Status)
    }

    /// The priority of `on_plugin_message`.
    open spec fn plugin_message_priority(&self) -> i8 {
        (arbitrary::<spec_fn(&Self, Occasion) -> i8>())(self, Occasion::PluginMessage)
    }

    /// The priority of `on_disconnect`.
    open spec fn disconnect_priority(&self) -> i8 {
        (arbitrary::<spec_fn(&Self, Occasion) -> i8>())(self, Occasion::Disconnect)
    }

    /// What `on_status` does to the status document.
    open spec fn status(&self, client: ClientView, response: Seq<char>) -> StatusOutcome {
        (arbitrary::<spec_fn(&Self, ClientView, Seq<char>) -> StatusOutcome>())(
            self,
            client,
            response,
        )
    }

    /// What `on_plugin_message` answers.
    open spec fn plugin_message(
        &self,
        client: ClientView,
        channel: Seq<char>,
        data: Seq<u8>,
    ) -> Result<(), ServerError> {
        (arbitrary::<spec_fn(&Self, ClientView, Seq<char>, Seq<u8>) -> Result<(), ServerError>>())(
            self,
            client,
            channel,
            data,
        )
    }

    /// What `on_disconnect` answers.
    open spec fn disconnect(&self, client: ClientView) -> Result<(), ServerError> {
        (arbitrary::<spec_fn(&Self, ClientView) -> Result<(), ServerError>>())(self, client)
    }

    fn on_status_priority(&self) -> (priority: i8)
        ensures
            priority == self.status_priority(),
    ;

    fn on_plugin_message_priority(&self) -> (priority: i8)
        ensures
            priority == self.plugin_message_priority(),
    ;

    fn on_disconnect_priority(&self) -> (priority: i8)
        ensures
            priority == self.disconnect_priority(),
    ;

    /// May rewrite the document that answers a status query.
    fn on_status(&self, client: &ClientContext, response: &mut String) -> (r: Result<
        (),
        ServerError,
    >)
        ensures
            final(response)@ == self.status(client@, old(response)@).response,
            r == self.status(client@, old(response)@).result,
    ;

    /// Hears of a plugin message on a channel that the server does not know.
    fn on_plugin_message(&self, client: &ClientContext, channel: &str, data: &[u8]) -> (r: Result<
        (),
        ServerError,
    >)
        ensures
            r == self.plugin_message(client@, channel@, data@),
    ;

    /// Hears, once, that the session ended.
    fn on_disconnect(&self, client: &ClientContext) -> (r: Result<(), ServerError>)
        ensures
            r == self.disconnect(client@),
    ;
}

/// Hooks around every packet and every change of phase.
///
/// Each hook has a spec function that says what it does. A handler that does
/// not give one is held to some function of what the hook sees, of which
/// nothing more is known.
pub trait PacketHandler {
    /// The priority of `on_incoming_packet`.
    open spec fn incoming_priority(&self) -> i8 {
        (arbitrary::<spec_fn(&Self, Option<Direction>) -> i8>())(self, Some(Direction::Incoming))
    }

    /// The priority of `on_outcoming_packet`.
    open spec fn outcoming_priority(&self) -> i8 {
        (arbitrary::<spec_fn(&Self, Option<Direction>) -> i8>())(self, Some(Direction::Outcoming))
    }

    /// The priority of `on_state`.
    open spec fn state_priority(&self) -> i8 {
        (arbitrary::<spec_fn(&Self, Option<Direction>) -> i8>())(self, None)
    }

    /// What `on_incoming_packet` does to packet and cancel flag.
    open spec fn incoming(
        &self,
        client: ClientView,
        packet: PacketView,
        cancel: bool,
        state: ConnectionState,
    ) -> HookOutcome {
        (arbitrary::<
            spec_fn(&Self, Direction, ClientView, PacketView, bool, ConnectionState) -> HookOutcome,
        >())(self, Direction::Incoming, client, packet, cancel, state)
    }

    /// What `on_outcoming_packet` does to packet and cancel flag.
    open spec fn outcoming(
        &self,
        client: ClientView,
        packet: PacketView,
        cancel: bool,
        state: ConnectionState,
    ) -> HookOutcome {
        (arbitrary::<
            spec_fn(&Self, Direction, ClientView, PacketView, bool, ConnectionState) -> HookOutcome,
        >())(self, Direction::Outcoming, client, packet, cancel, state)
    }

    /// What `on_state` answers.
    open spec fn state_entered(&self, client: ClientView, state: ConnectionState) -> Result<
        (),
        ServerError,
    > {
        (arbitrary::<spec_fn(&Self, ClientView, ConnectionState) -> Result<(), ServerError>>())(
            self,
            client,
            state,
        )
    }

    fn on_incoming_packet_priority(&self) -> (priority: i8)
        ensures
            priority == self.incoming_priority(),
    ;

    fn on_outcoming_packet_priority(&self) -> (priority: i8)
        ensures
            priority == self.outcoming_priority(),
    ;

    fn on_state_priority(&self) -> (priority: i8)
        ensures
            priority == self.state_priority(),
    ;

    /// Sees a packet that arrived; may change it and may veto its delivery.
    fn on_incoming_packet(
        &self,
        client: &ClientContext,
        packet: &mut Packet,
        cancel: &mut bool,
        state: ConnectionState,
    ) -> (r: Result<(), ServerError>)
        ensures
            final(packet)@ == self.incoming(client@, old(packet)@, *old(cancel), state).packet,
            *final(cancel) == self.incoming(client@, old(packet)@, *old(cancel), state).cancel,
            r == self.incoming(client@, old(packet)@, *old(cancel), state).result,
    ;

    /// Sees a packet that is about to be sent; may change it and may veto it.
    fn on_outcoming_packet(
        &self,
        client: &ClientContext,
        packet: &mut Packet,
        cancel: &mut bool,
        state: ConnectionState,
    ) -> (r: Result<(), ServerError>)
        ensures
            final(packet)@ == self.outcoming(client@, old(packet)@, *old(cancel), state).packet,
            *final(cancel) == self.outcoming(client@, old(packet)@, *old(cancel), state).cancel,
            r == self.outcoming(client@, old(packet)@, *old(cancel), state).result,
    ;

    /// Hears that the connection entered a phase, before any packet of that
    /// phase is read.
    fn on_state(&self, client: &ClientContext, state: ConnectionState) -> (r: Result<
        (),
        ServerError,
    >)
        ensures
            r == self.state_entered(client@, state),
    ;
}

/// The hooks that do nothing: every priority zero, every packet and document
/// left as it is, nothing vetoed, nothing refused.
#[derive(Debug, Clone, Copy)]
pub struct Quiet;

impl Listener for Quiet {
    open spec fn status_priority(&self) -> i8 {
        0
    }

    open spec fn plugin_message_priority(&self) -> i8 {
        0
    }

    open spec fn disconnect_priority(&self) -> i8 {
        0
    }

    open spec fn status(&self, client: ClientView, response: Seq<char>) -> StatusOutcome {
        StatusOutcome { response, result: Ok(()) }
    }

    open spec fn plugin_message(
        &self,
        client: ClientView,
        channel: Seq<char>,
        data: Seq<u8>,
    ) -> Result<(), ServerError> {
        Ok(())
    }

    open spec fn disconnect(&self, client: ClientView) -> Result<(), ServerError> {
        Ok(())
    }

    fn on_status_priority(&self) -> (priority: i8) {
        0
    }

    fn on_plugin_message_priority(&self) -> (priority: i8) {
        0
    }

    fn on_disconnect_priority(&self) -> (priority: i8) {
        0
    }

    fn on_status(&self, client: &ClientContext, response: &mut String) -> (r: Result<
        (),
        ServerError,
    >) {
        Ok(())
    }

    fn on_plugin_message(&self, client: &ClientContext, channel: &str, data: &[u8]) -> (r: Result<
        (),
        ServerError,
    >) {
        Ok(())
    }

    fn on_disconnect(&self, client: &ClientContext) -> (r: Result<(), ServerError>) {
        Ok(())
    }
}

impl PacketHandler for Quiet {
    open spec fn incoming_priority(&self) -> i8 {
        0
    }

    open spec fn outcoming_priority(&self) -> i8 {
        0
    }

    open spec fn state_priority(&self) -> i8 {
        0
    }

    open spec fn incoming(
        &self,
        client: ClientView,
        packet: PacketView,
        cancel: bool,
        state: ConnectionState,
    ) -> HookOutcome {
        HookOutcome { packet, cancel, result: Ok(()) }
    }

    open spec fn outcoming(
        &self,
        client: ClientView,
        packet: PacketView,
        cancel: bool,
        state: ConnectionState,
    ) -> HookOutcome {
        HookOutcome { packet, cancel, result: Ok(()) }
    }

    open spec fn state_entered(&self, client: ClientView, state: ConnectionState) -> Result<
        (),
        ServerError,
    > {
        Ok(())
    }

    fn on_incoming_packet_priority(&self) -> (priority: i8) {
        0
    }

    fn on_outcoming_packet_priority(&self) -> (priority: i8) {
        0
    }

    fn on_state_priority(&self) -> (priority: i8) {
        0
    }

    fn on_incoming_packet(
        &self,
        client: &ClientContext,
        packet: &mut Packet,
        cancel: &mut bool,
        state: ConnectionState,
    ) -> (r: Result<(), ServerError>) {
        Ok(())
    }

    fn on_outcoming_packet(
        &self,
        client: &ClientContext,
        packet: &mut Packet,
        cancel: &mut bool,
        state: ConnectionState,
    ) -> (r: Result<(), ServerError>) {
        Ok(())
    }

    fn on_state(&self, client: &ClientContext, state: ConnectionState) -> (r: Result<
        (),
        ServerError,
    >) {
        Ok(())
    }
}

/// The priorities of the packet hooks for one direction, by registration.
pub open spec fn packet_priorities<H: PacketHandler>(
    handlers: Seq<H>,
    direction: Direction,
) -> Seq<i8> {
    Seq::new(
        handlers.len(),
        |i: int|
            match direction {
                Direction::Incoming => handlers[i].incoming_priority(),
                Direction::Outcoming => handlers[i].outcoming_priority(),
            },
    )
}

/// The priorities of the phase hooks, by registration.
pub open spec fn state_priorities<H: PacketHandler>(handlers: Seq<H>) -> Seq<i8> {
    Seq::new(handlers.len(), |i: int| handlers[i].state_priority())
}

/// The priorities of the listeners for one occasion, by registration.
pub open spec fn listener_priorities<L: Listener>(listeners: Seq<L>, occasion: Occasion) -> Seq<
    i8,
> {
    Seq::new(
        listeners.len(),
        |i: int|
            match occasion {
                Occasion::Status => listeners[i].status_priority(),
                Occasion::PluginMessage => listeners[i].plugin_message_priority(),
                Occasion::Disconnect => listeners[i].disconnect_priority(),
            },
    )
}

/// What one packet hook does in the given direction.
pub open spec fn packet_step<H: PacketHandler>(
    handler: H,
    direction: Direction,
    client: ClientView,
    packet: PacketView,
    cancel: bool,
    state: ConnectionState,
) -> HookOutcome {
    match direction {
        Direction::Incoming => handler.incoming(client, packet, cancel, state),
        Direction::Outcoming => handler.outcoming(client, packet, cancel, state),
    }
}

/// Where a packet chain stands after the first `done` hooks of `order`: the
/// packet with its cursor at the start, whether any hook so far raised the
/// cancel flag, and the error of the first hook that failed, after which no
/// hook runs.
pub open spec fn packet_chain<H: PacketHandler>(
    handlers: Seq<H>,
    order: Seq<usize>,
    direction: Direction,
    client: ClientView,
    state: ConnectionState,
    start: PacketView,
    done: nat,
) -> HookOutcome
    decreases done,
{
    if done == 0 {
        HookOutcome { packet: start, cancel: false, result: Ok(()) }
    } else {
        let before = packet_chain(
            handlers,
            order,
            direction,
            client,
            state,
            start,
            (done - 1) as nat,
        );
        if before.result is Err {
            before
        } else {
            let step = packet_step(
                handlers[order[done - 1] as int],
                direction,
                client,
                before.packet,
                before.cancel,
                state,
            );
            HookOutcome {
                packet: step.packet.rewound(),
                cancel: before.cancel || step.cancel,
                result: step.result,
            }
        }
    }
}

/// What the whole chain of packet hooks makes of a packet.
pub open spec fn packet_pipeline<H: PacketHandler>(
    handlers: Seq<H>,
    direction: Direction,
    client: ClientView,
    state: ConnectionState,
    start: PacketView,
) -> HookOutcome {
    packet_chain(
        handlers,
        priority_order(packet_priorities(handlers, direction)),
        direction,
        client,
        state,
        start,
        handlers.len(),
    )
}

/// Where the chain of phase hooks stands after the first `done` hooks.
pub open spec fn state_chain<H: PacketHandler>(
    handlers: Seq<H>,
    order: Seq<usize>,
    client: ClientView,
    state: ConnectionState,
    done: nat,
) -> Result<(), ServerError>
    decreases done,
{
    if done == 0 {
        Ok(())
    } else {
        let before = state_chain(handlers, order, client, state, (done - 1) as nat);
        if before is Err {
            before
        } else {
            handlers[order[done - 1] as int].state_entered(client, state)
        }
    }
}

/// What the whole chain of phase hooks answers.
pub open spec fn state_pipeline<H: PacketHandler>(
    handlers: Seq<H>,
    client: ClientView,
    state: ConnectionState,
) -> Result<(), ServerError> {
    state_chain(handlers, priority_order(state_priorities(handlers)), client, state, handlers.len())
}

/// Where the chain of status hooks stands after the first `done` hooks.
pub open spec fn status_chain<L: Listener>(
    listeners: Seq<L>,
    order: Seq<usize>,
    client: ClientView,
    start: Seq<char>,
    done: nat,
) -> StatusOutcome
    decreases done,
{
    if done == 0 {
        StatusOutcome { response: start, result: Ok(()) }
    } else {
        let before = status_chain(listeners, order, client, start, (done - 1) as nat);
        if before.result is Err {
            before
        } else {
            listeners[order[done - 1] as int].status(client, before.response)
        }
    }
}

/// What the whole chain of status hooks makes of a status document.
pub open spec fn status_pipeline<L: Listener>(
    listeners: Seq<L>,
    client: ClientView,
    start: Seq<char>,
) -> StatusOutcome {
    status_chain(
        listeners,
        priority_order(listener_priorities(listeners, Occasion::Status)),
        client,
        start,
        listeners.len(),
    )
}

/// Where the chain of plugin message hooks stands after the first `done`.
pub open spec fn plugin_message_chain<L: Listener>(
    listeners: Seq<L>,
    order: Seq<usize>,
    client: ClientView,
    channel: Seq<char>,
    data: Seq<u8>,
    done: nat,
) -> Result<(), ServerError>
    decreases done,
{
    if done == 0 {
        Ok(())
    } else {
        let before = plugin_message_chain(
            listeners,
            order,
            client,
            channel,
            data,
            (done - 1) as nat,
        );
        if before is Err {
            before
        } else {
            listeners[order[done - 1] as int].plugin_message(client, channel, data)
        }
    }
}

/// What the whole chain of plugin message hooks answers.
pub open spec fn plugin_message_pipeline<L: Listener>(
    listeners: Seq<L>,
    client: ClientView,
    channel: Seq<char>,
    data: Seq<u8>,
) -> Result<(), ServerError> {
    plugin_message_chain(
        listeners,
        priority_order(listener_priorities(listeners, Occasion::PluginMessage)),
        client,
        channel,
        data,
        listeners.len(),
    )
}

/// Where the chain of disconnect hooks stands after the first `done`.
pub open spec fn disconnect_chain<L: Listener>(
    listeners: Seq<L>,
    order: Seq<usize>,
    client: ClientView,
    done: nat,
) -> Result<(), ServerError>
    decreases done,
{
    if done == 0 {
        Ok(())
    } else {
        let before = disconnect_chain(listeners, order, client, (done - 1) as nat);
        if before is Err {
            before
        } else {
            listeners[order[done - 1] as int].disconnect(client)
        }
    }
}

/// What the whole chain of disconnect hooks answers.
pub open spec fn disconnect_pipeline<L: Listener>(
    listeners: Seq<L>,
    client: ClientView,
) -> Result<(), ServerError> {
    disconnect_chain(
        listeners,
        priority_order(listener_priorities(listeners, Occasion::Disconnect)),
        client,
        listeners.len(),
    )
}

/// Once a hook has raised the cancel flag, the chain ends cancelled, however
/// many hooks follow and whatever they do, unless one of them fails.
pub proof fn lemma_cancel_is_kept<H: PacketHandler>(
    handlers: Seq<H>,
    order: Seq<usize>,
    direction: Direction,
    client: ClientView,
    state: ConnectionState,
    start: PacketView,
    raised: nat,
    done: nat,
)
    requires
        raised <= done,
        packet_chain(handlers, order, direction, client, state, start, raised).cancel,
        packet_chain(handlers, order, direction, client, state, start, done).result is Ok,
    ensures
        packet_chain(handlers, order, direction, client, state, start, done).cancel,
    decreases done,
{
    if raised < done {
        let before = packet_chain(
            handlers,
            order,
            direction,
            client,
            state,
            start,
            (done - 1) as nat,
        );
        if before.result is Ok {
            lemma_cancel_is_kept(
                handlers,
                order,
                direction,
                client,
                state,
                start,
                raised,
                (done - 1) as nat,
            );
        }
    }
}

/// A raised cancel flag stops no hook: as long as no hook has failed, the
/// next hook in order runs on the packet as its predecessors left it, flag
/// raised or not.
pub proof fn lemma_every_hook_runs<H: PacketHandler>(
    handlers: Seq<H>,
    order: Seq<usize>,
    direction: Direction,
    client: ClientView,
    state: ConnectionState,
    start: PacketView,
    done: nat,
)
    requires
        packet_chain(handlers, order, direction, client, state, start, done).result is Ok,
    ensures
        packet_chain(handlers, order, direction, client, state, start, done + 1).result
            == packet_step(
            handlers[order[done as int] as int],
            direction,
            client,
            packet_chain(handlers, order, direction, client, state, start, done).packet,
            packet_chain(handlers, order, direction, client, state, start, done).cancel,
            state,
        ).result,
{
}

/// Every hook but the first finds the packet's cursor at the start of the
/// body, wherever the hook before it left the cursor.
pub proof fn lemma_cursor_is_rewound<H: PacketHandler>(
    handlers: Seq<H>,
    order: Seq<usize>,
    direction: Direction,
    client: ClientView,
    state: ConnectionState,
    start: PacketView,
    done: nat,
)
    requires
        done >= 1,
    ensures
        packet_chain(handlers, order, direction, client, state, start, done).packet.cursor == 0,
    decreases done,
{
    reveal_with_fuel(packet_chain, 2);
    if done > 1 {
        lemma_cursor_is_rewound(handlers, order, direction, client, state, start, (done - 1) as nat);
    }
}

fn packet_hook_priorities<H: PacketHandler>(handlers: &Vec<H>, direction: Direction) -> (priorities:
    Vec<i8>)
    ensures
        priorities@ == packet_priorities(handlers@, direction),
{
    let mut priorities: Vec<i8> = Vec::new();
    let mut i: usize = 0;
    while i < handlers.len()
        invariant
            i <= handlers@.len(),
            priorities@.len() == i,
            forall|k: int|
                0 <= k < i ==> priorities@[k] == packet_priorities(handlers@, direction)[k],
        decreases handlers@.len() - i,
    {
        let priority: i8 = match direction {
            Direction::Incoming => handlers[i].on_incoming_packet_priority(),
            Direction::Outcoming => handlers[i].on_outcoming_packet_priority(),
        };
        priorities.push(priority);
        i = i + 1;
    }
    assert(priorities@ =~= packet_priorities(handlers@, direction));
    priorities
}

fn state_hook_priorities<H: PacketHandler>(handlers: &Vec<H>) -> (priorities: Vec<i8>)
    ensures
        priorities@ == state_priorities(handlers@),
{
    let mut priorities: Vec<i8> = Vec::new();
    let mut i: usize = 0;
    while i < handlers.len()
        invariant
            i <= handlers@.len(),
            priorities@.len() == i,
            forall|k: int| 0 <= k < i ==> priorities@[k] == state_priorities(handlers@)[k],
        decreases handlers@.len() - i,
    {
        let priority: i8 = handlers[i].on_state_priority();
        priorities.push(priority);
        i = i + 1;
    }
    assert(priorities@ =~= state_priorities(handlers@));
    priorities
}

fn listener_hook_priorities<L: Listener>(listeners: &Vec<L>, occasion: Occasion) -> (priorities:
    Vec<i8>)
    ensures
        priorities@ == listener_priorities(listeners@, occasion),
{
    let mut priorities: Vec<i8> = Vec::new();
    let mut i: usize = 0;
    while i < listeners.len()
        invariant
            i <= listeners@.len(),
            priorities@.len() == i,
            forall|k: int|
                0 <= k < i ==> priorities@[k] == listener_priorities(listeners@, occasion)[k],
        decreases listeners@.len() - i,
    {
        let priority: i8 = match occasion {
            Occasion::Status => listeners[i].on_status_priority(),
            Occasion::PluginMessage => listeners[i].on_plugin_message_priority(),
            Occasion::Disconnect => listeners[i].on_disconnect_priority(),
        };
        priorities.push(priority);
        i = i + 1;
    }
    assert(priorities@ =~= listener_priorities(listeners@, occasion));
    priorities
}

/// The order in which the packet hooks of one direction run, as registration
/// indices.
pub fn packet_hook_order<H: PacketHandler>(handlers: &Vec<H>, direction: Direction) -> (order: Vec<
    usize,
>)
    ensures
        order@ == priority_order(packet_priorities(handlers@, direction)),
        is_priority_order(packet_priorities(handlers@, direction), order@),
        order@.len() == handlers@.len(),
        forall|k: int| 0 <= k < order@.len() ==> (#[trigger] order@[k]) < handlers@.len(),
{
    let priorities: Vec<i8> = packet_hook_priorities(handlers, direction);
    order::order_by_priority(&priorities)
}

/// The order in which the phase hooks run, as registration indices.
pub fn state_hook_order<H: PacketHandler>(handlers: &Vec<H>) -> (order: Vec<usize>)
    ensures
        order@ == priority_order(state_priorities(handlers@)),
        is_priority_order(state_priorities(handlers@), order@),
        order@.len() == handlers@.len(),
        forall|k: int| 0 <= k < order@.len() ==> (#[trigger] order@[k]) < handlers@.len(),
{
    let priorities: Vec<i8> = state_hook_priorities(handlers);
    order::order_by_priority(&priorities)
}

/// The order in which the listeners hear of an occasion, as registration
/// indices.
pub fn listener_order<L: Listener>(listeners: &Vec<L>, occasion: Occasion) -> (order: Vec<usize>)
    ensures
        order@ == priority_order(listener_priorities(listeners@, occasion)),
        is_priority_order(listener_priorities(listeners@, occasion), order@),
        order@.len() == listeners@.len(),
        forall|k: int| 0 <= k < order@.len() ==> (#[trigger] order@[k]) < listeners@.len(),
{
    let priorities: Vec<i8> = listener_hook_priorities(listeners, occasion);
    order::order_by_priority(&priorities)
}

/// Runs every packet hook of one direction on `packet`. Answers whether the
/// packet was vetoed; a hook that fails ends the chain with its error.
pub fn run_packet_hooks<H: PacketHandler>(
    handlers: &Vec<H>,
    direction: Direction,
    client: &ClientContext,
    packet: &mut Packet,
    state: ConnectionState,
) -> (r: Result<bool, ServerError>)
    ensures
        final(packet)@ == packet_pipeline(
            handlers@,
            direction,
            client@,
            state,
            old(packet)@,
        ).packet,
        r == match packet_pipeline(handlers@, direction, client@, state, old(packet)@).result {
            Ok(_) => Ok::<bool, ServerError>(
                packet_pipeline(handlers@, direction, client@, state, old(packet)@).cancel,
            ),
            Err(error) => Err::<bool, ServerError>(error),
        },
{
    let ghost start = packet@;
    let order: Vec<usize> = packet_hook_order(handlers, direction);
    let mut cancelled: bool = false;
    let mut done: usize = 0;
    while done < order.len()
        invariant
            done <= order@.len(),
            order@.len() == handlers@.len(),
            forall|k: int| 0 <= k < order@.len() ==> (#[trigger] order@[k]) < handlers@.len(),
            start == old(packet)@,
            order@ == priority_order(packet_priorities(handlers@, direction)),
            packet_chain(handlers@, order@, direction, client@, state, start, done as nat).packet
                == packet@,
            packet_chain(handlers@, order@, direction, client@, state, start, done as nat).cancel
                == cancelled,
            packet_chain(handlers@, order@, direction, client@, state, start, done as nat).result
                is Ok,
        decreases order@.len() - done,
    {
        let index: usize = order[done];
        let mut flag: bool = cancelled;
        let step: Result<(), ServerError> = match direction {
            Direction::Incoming => handlers[index].on_incoming_packet(
                client,
                packet,
                &mut flag,
                state,
            ),
            Direction::Outcoming => handlers[index].on_outcoming_packet(
                client,
                packet,
                &mut flag,
                state,
            ),
        };
        packet.rewind();
        cancelled = cancelled || flag;
        done = done + 1;
        match step {
            Err(error) => {
                proof {
                    lemma_chain_stays_failed(
                        handlers@,
                        order@,
                        direction,
                        client@,
                        state,
                        start,
                        done as nat,
                        order@.len(),
                    );
                }
                return Err(error);
            },
            Ok(_) => {},
        }
    }
    Ok(cancelled)
}

/// A chain that has failed stays as it is.
proof fn lemma_chain_stays_failed<H: PacketHandler>(
    handlers: Seq<H>,
    order: Seq<usize>,
    direction: Direction,
    client: ClientView,
    state: ConnectionState,
    start: PacketView,
    failed: nat,
    done: nat,
)
    requires
        failed <= done,
        packet_chain(handlers, order, direction, client, state, start, failed).result is Err,
    ensures
        packet_chain(handlers, order, direction, client, state, start, done) == packet_chain(
            handlers,
            order,
            direction,
            client,
            state,
            start,
            failed,
        ),
    decreases done,
{
    if failed < done {
        lemma_chain_stays_failed(
            handlers,
            order,
            direction,
            client,
            state,
            start,
            failed,
            (done - 1) as nat,
        );
    }
}

/// Tells every phase hook that the connection entered `state`. The first hook
/// that fails ends the chain with its error.
pub fn run_state_hooks<H: PacketHandler>(
    handlers: &Vec<H>,
    client: &ClientContext,
    state: ConnectionState,
) -> (r: Result<(), ServerError>)
    ensures
        match state_pipeline(handlers@, client@, state) {
            Ok(_) => r is Ok,
            Err(error) => r == Err::<(), ServerError>(error),
        },
{
    let order: Vec<usize> = state_hook_order(handlers);
    let mut done: usize = 0;
    while done < order.len()
        invariant
            done <= order@.len(),
            order@.len() == handlers@.len(),
            forall|k: int| 0 <= k < order@.len() ==> (#[trigger] order@[k]) < handlers@.len(),
            order@ == priority_order(state_priorities(handlers@)),
            state_chain(handlers@, order@, client@, state, done as nat) is Ok,
        decreases order@.len() - done,
    {
        let index: usize = order[done];
        let step: Result<(), ServerError> = handlers[index].on_state(client, state);
        done = done + 1;
        match step {
            Err(error) => {
                proof {
                    lemma_state_chain_stays_failed(
                        handlers@,
                        order@,
                        client@,
                        state,
                        done as nat,
                        order@.len(),
                    );
                }
                return Err(error);
            },
            Ok(_) => {},
        }
    }
    Ok(())
}

proof fn lemma_state_chain_stays_failed<H: PacketHandler>(
    handlers: Seq<H>,
    order: Seq<usize>,
    client: ClientView,
    state: ConnectionState,
    failed: nat,
    done: nat,
)
    requires
        failed <= done,
        state_chain(handlers, order, client, state, failed) is Err,
    ensures
        state_chain(handlers, order, client, state, done) == state_chain(
            handlers,
            order,
            client,
            state,
            failed,
        ),
    decreases done,
{
    if failed < done {
        lemma_state_chain_stays_failed(handlers, order, client, state, failed, (done - 1) as nat);
    }
}

/// Lets every listener rewrite the status document in turn.
pub fn trigger_status<L: Listener>(listeners: &Vec<L>, client: &ClientContext, response: &mut String) -> (r:
    Result<(), ServerError>)
    ensures
        final(response)@ == status_pipeline(listeners@, client@, old(response)@).response,
        match status_pipeline(listeners@, client@, old(response)@).result {
            Ok(_) => r is Ok,
            Err(error) => r == Err::<(), ServerError>(error),
        },
{
    let ghost start = response@;
    let order: Vec<usize> = listener_order(listeners, Occasion::Status);
    let mut done: usize = 0;
    while done < order.len()
        invariant
            done <= order@.len(),
            order@.len() == listeners@.len(),
            forall|k: int| 0 <= k < order@.len() ==> (#[trigger] order@[k]) < listeners@.len(),
            start == old(response)@,
            order@ == priority_order(listener_priorities(listeners@, Occasion::Status)),
            status_chain(listeners@, order@, client@, start, done as nat).response == response@,
            status_chain(listeners@, order@, client@, start, done as nat).result is Ok,
        decreases order@.len() - done,
    {
        let index: usize = order[done];
        let step: Result<(), ServerError> = listeners[index].on_status(client, response);
        done = done + 1;
        match step {
            Err(error) => {
                proof {
                    lemma_status_chain_stays_failed(
                        listeners@,
                        order@,
                        client@,
                        start,
                        done as nat,
                        order@.len(),
                    );
                }
                return Err(error);
            },
            Ok(_) => {},
        }
    }
    Ok(())
}

proof fn lemma_status_chain_stays_failed<L: Listener>(
    listeners: Seq<L>,
    order: Seq<usize>,
    client: ClientView,
    start: Seq<char>,
    failed: nat,
    done: nat,
)
    requires
        failed <= done,
        status_chain(listeners, order, client, start, failed).result is Err,
    ensures
        status_chain(listeners, order, client, start, done) == status_chain(
            listeners,
            order,
            client,
            start,
            failed,
        ),
    decreases done,
{
    if failed < done {
        lemma_status_chain_stays_failed(listeners, order, client, start, failed, (done - 1) as nat);
    }
}

/// Tells every listener of a plugin message on an unknown channel.
pub fn trigger_plugin_message<L: Listener>(
    listeners: &Vec<L>,
    client: &ClientContext,
    channel: &str,
    data: &[u8],
) -> (r: Result<(), ServerError>)
    ensures
        match plugin_message_pipeline(listeners@, client@, channel@, data@) {
            Ok(_) => r is Ok,
            Err(error) => r == Err::<(), ServerError>(error),
        },
{
    let order: Vec<usize> = listener_order(listeners, Occasion::PluginMessage);
    let mut done: usize = 0;
    while done < order.len()
        invariant
            done <= order@.len(),
            order@.len() == listeners@.len(),
            forall|k: int| 0 <= k < order@.len() ==> (#[trigger] order@[k]) < listeners@.len(),
            order@ == priority_order(listener_priorities(listeners@, Occasion::PluginMessage)),
            plugin_message_chain(listeners@, order@, client@, channel@, data@, done as nat) is Ok,
        decreases order@.len() - done,
    {
        let index: usize = order[done];
        let step: Result<(), ServerError> = listeners[index].on_plugin_message(
            client,
            channel,
            data,
        );
        done = done + 1;
        match step {
            Err(error) => {
                proof {
                    lemma_plugin_chain_stays_failed(
                        listeners@,
                        order@,
                        client@,
                        channel@,
                        data@,
                        done as nat,
                        order@.len(),
                    );
                }
                return Err(error);
            },
            Ok(_) => {},
        }
    }
    Ok(())
}

proof fn lemma_plugin_chain_stays_failed<L: Listener>(
    listeners: Seq<L>,
    order: Seq<usize>,
    client: ClientView,
    channel: Seq<char>,
    data: Seq<u8>,
    failed: nat,
    done: nat,
)
    requires
        failed <= done,
        plugin_message_chain(listeners, order, client, channel, data, failed) is Err,
    ensures
        plugin_message_chain(listeners, order, client, channel, data, done)
            == plugin_message_chain(listeners, order, client, channel, data, failed),
    decreases done,
{
    if failed < done {
        lemma_plugin_chain_stays_failed(
            listeners,
            order,
            client,
            channel,
            data,
            failed,
            (done - 1) as nat,
        );
    }
}

/// Tells every listener that the session ended.
pub fn trigger_disconnect<L: Listener>(listeners: &Vec<L>, client: &ClientContext) -> (r: Result<
    (),
    ServerError,
>)
    ensures
        match disconnect_pipeline(listeners@, client@) {
            Ok(_) => r is Ok,
            Err(error) => r == Err::<(), ServerError>(error),
        },
{
    let order: Vec<usize> = listener_order(listeners, Occasion::Disconnect);
    let mut done: usize = 0;
    while done < order.len()
        invariant
            done <= order@.len(),
            order@.len() == listeners@.len(),
            forall|k: int| 0 <= k < order@.len() ==> (#[trigger] order@[k]) < listeners@.len(),
            order@ == priority_order(listener_priorities(listeners@, Occasion::Disconnect)),
            disconnect_chain(listeners@, order@, client@, done as nat) is Ok,
        decreases order@.len() - done,
    {
        let index: usize = order[done];
        let step: Result<(), ServerError> = listeners[index].on_disconnect(client);
        done = done + 1;
        match step {
            Err(error) => {
                proof {
                    lemma_disconnect_chain_stays_failed(
                        listeners@,
                        order@,
                        client@,
                        done as nat,
                        order@.len(),
                    );
                }
                return Err(error);
            },
            Ok(_) => {},
        }
    }
    Ok(())
}

proof fn lemma_disconnect_chain_stays_failed<L: Listener>(
    listeners: Seq<L>,
    order: Seq<usize>,
    client: ClientView,
    failed: nat,
    done: nat,
)
    requires
        failed <= done,
        disconnect_chain(listeners, order, client, failed) is Err,
    ensures
        disconnect_chain(listeners, order, client, done) == disconnect_chain(
            listeners,
            order,
            client,
            failed,
        ),
    decreases done,
{
    if failed < done {
        lemma_disconnect_chain_stays_failed(listeners, order, client, failed, (done - 1) as nat);
    }
}

} // verus!
