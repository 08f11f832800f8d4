//! The gateway server's side of one client connection, as a state machine.
//!
//! A connection first sends a hello line naming its client id; the gateway
//! registers the client and acknowledges. Later lines are heartbeats, data or
//! a disconnect request. The connection ends at end of stream, on a read
//! error, on a disconnect request or when the acknowledgement cannot be
//! sent, and the client is then unregistered.
//! The caller performs the I/O and feeds each outcome to `Gateway::handle`,
//! which updates the registry and the metrics and says what to do next.

use vstd::prelude::*;
use vstd::string::StringExecFns;
use crate::message::{ClientMessage, MessageType, message_is};
use crate::metrics::{MetricCounts, ServerMetrics};
use crate::registry::{
    ClientRegistry, ClientInfo, create_client_registry, get_client_count, keyed_by_id,
    register_client, unregister_client,
};

verus! {

/// Where a connection stands.
#[derive(Debug, Clone, Copy, PartialEq, Eq, Structural)]
pub enum SessionState {
    /// No line has been read yet.
    AwaitingHello,
    /// The hello named `client_id`, which is registered.
    Active { client_id: u128 },
    /// The connection is over.
    Closed,
}

/// What the caller observed on the connection.
#[derive(Debug)]
pub enum SessionEvent {
    /// A line of `bytes` bytes was read (zero bytes: end of stream), and
    /// `message` is what it parsed to, if it parsed.
    LineRead { bytes: usize, message: Option<ClientMessage> },
    /// Reading from the connection failed.
    ReadFailed,
    /// Sending the acknowledgement of the hello failed.
    AckFailed,
}

/// Why a registered client's connection ended.
#[derive(Debug, Clone, Copy, PartialEq, Eq, Structural)]
pub enum CloseReason {
    EndOfStream,
    Requested,
    ReadError,
    AcknowledgementFailed,
}

/// What the caller is to do after an event.
#[derive(Debug, Clone, Copy, PartialEq, Eq, Structural)]
pub enum SessionAction {
    /// `client_id` was registered: send it the acknowledgement.
    Acknowledge { client_id: u128 },
    /// A heartbeat from `client_id`.
    Heartbeat { client_id: u128 },
    /// Data from `client_id`.
    Data { client_id: u128 },
    /// Nothing to do; keep reading.
    Ignore,
    /// A line from `client_id` did not parse; keep reading.
    Rejected { client_id: u128 },
    /// `client_id` was unregistered and the connection is over.
    Closed { client_id: u128, reason: CloseReason },
    /// The connection is over with an error before any client was registered.
    Aborted,
}

/// The state after `event` in state `state`.
pub open spec fn next_state(state: SessionState, event: SessionEvent) -> SessionState {
    match state {
        SessionState::AwaitingHello => match event {
            SessionEvent::LineRead { bytes, message: Some(m) } => SessionState::Active {
                client_id: m.client_id,
            },
            _ => SessionState::Closed,
        },
        SessionState::Active { client_id } => match event {
            SessionEvent::LineRead { bytes, message } => {
                if bytes == 0 {
                    SessionState::Closed
                } else {
                    match message {
                        Some(m) => if m.message_type == MessageType::Disconnect {
                            SessionState::Closed
                        } else {
                            state
                        },
                        None => state,
                    }
                }
            },
            _ => SessionState::Closed,
        },
        SessionState::Closed => SessionState::Closed,
    }
}

/// What the caller is told to do after `event` in state `state`.
pub open spec fn next_action(state: SessionState, event: SessionEvent) -> SessionAction {
    match state {
        SessionState::AwaitingHello => match event {
            SessionEvent::LineRead { bytes, message: Some(m) } => SessionAction::Acknowledge {
                client_id: m.client_id,
            },
            _ => SessionAction::Aborted,
        },
        SessionState::Active { client_id } => match event {
            SessionEvent::LineRead { bytes, message } => {
                if bytes == 0 {
                    SessionAction::Closed { client_id, reason: CloseReason::EndOfStream }
                } else {
                    match message {
                        Some(m) => match m.message_type {
                            MessageType::Disconnect => SessionAction::Closed {
                                client_id,
                                reason: CloseReason::Requested,
                            },
                            MessageType::Heartbeat => SessionAction::Heartbeat { client_id },
                            MessageType::Data => SessionAction::Data { client_id },
                            MessageType::Connect => SessionAction::Ignore,
                        },
                        None => SessionAction::Rejected { client_id },
                    }
                }
            },
            SessionEvent::ReadFailed => SessionAction::Closed {
                client_id,
                reason: CloseReason::ReadError,
            },
            SessionEvent::AckFailed => SessionAction::Closed {
                client_id,
                reason: CloseReason::AcknowledgementFailed,
            },
        },
        SessionState::Closed => SessionAction::Ignore,
    }
}

/// The size of the line that `event` counts as a received message in state
/// `state`: every line read as the hello (even an empty one), and every
/// non-empty line afterwards.
pub open spec fn counted_line(state: SessionState, event: SessionEvent) -> Option<usize> {
    match event {
        SessionEvent::LineRead { bytes, message } => match state {
            SessionState::AwaitingHello => Some(bytes),
            SessionState::Active { client_id } => if bytes > 0 {
                Some(bytes)
            } else {
                None
            },
            SessionState::Closed => None,
        },
        _ => None,
    }
}

/// The client that `event` registers in state `state`: the one a parsed hello names.
pub open spec fn registered_by(state: SessionState, event: SessionEvent) -> Option<u128> {
    match next_action(state, event) {
        SessionAction::Acknowledge { client_id } => Some(client_id),
        _ => None,
    }
}

/// The client that `event` unregisters in state `state`.
pub open spec fn unregistered_by(state: SessionState, event: SessionEvent) -> Option<u128> {
    match next_action(state, event) {
        SessionAction::Closed { client_id, reason } => Some(client_id),
        _ => None,
    }
}

/// The counters after `event` in state `state`, given the counters before and
/// the number of clients registered after it.
pub open spec fn counts_after(
    counts: MetricCounts,
    state: SessionState,
    event: SessionEvent,
    clients_after: nat,
) -> MetricCounts {
    let counted = match counted_line(state, event) {
        Some(bytes) => counts.after_message(bytes),
        None => counts,
    };
    match registered_by(state, event) {
        Some(id) => counted.after_peak(clients_after as usize),
        None => counted,
    }
}

/// A closed connection stays closed, and nothing it observes has any effect.
pub proof fn lemma_closed_is_final(event: SessionEvent)
    ensures
        next_state(SessionState::Closed, event) == SessionState::Closed,
        next_action(SessionState::Closed, event) == SessionAction::Ignore,
        counted_line(SessionState::Closed, event) is None,
        registered_by(SessionState::Closed, event) is None,
        unregistered_by(SessionState::Closed, event) is None,
{
}

/// Only the hello registers a client, and the client it registers is the
/// one the hello names; the connection then stands for that client.
pub proof fn lemma_only_hello_registers(state: SessionState, event: SessionEvent)
    ensures
        registered_by(state, event) is Some ==> state == SessionState::AwaitingHello,
        registered_by(state, event) matches Some(id) ==> {
            &&& event matches SessionEvent::LineRead { message: Some(m), .. }
            &&& m.client_id == id
            &&& next_state(state, event) == SessionState::Active { client_id: id }
        },
        state == SessionState::AwaitingHello && next_state(state, event) != SessionState::Closed
            ==> registered_by(state, event) is Some,
{
}

/// While a connection stands for a client it keeps standing for that same
/// client, and however it ends, it unregisters exactly that client.
pub proof fn lemma_active_session_ends_by_unregistering(client_id: u128, event: SessionEvent)
    ensures
        ({
            let state = SessionState::Active { client_id };
            &&& next_state(state, event) == state || next_state(state, event) == SessionState::Closed
            &&& registered_by(state, event) is None
            &&& next_state(state, event) == SessionState::Closed
                ==> unregistered_by(state, event) == Some(client_id)
            &&& next_state(state, event) == state ==> unregistered_by(state, event) is None
            &&& unregistered_by(state, event) is Some ==> next_state(state, event) == SessionState::Closed
        }),
{
}

/// A connection whose hello names a client that was not registered, and
/// that then ends in any way, leaves the registry as it found it (when no other connection changed it
/// in between), whatever entry the hello stored.
pub proof fn lemma_session_round_trip(
    clients: Map<u128, ClientInfo>,
    hello: SessionEvent,
    info: ClientInfo,
    end: SessionEvent,
    id: u128,
)
    requires
        registered_by(SessionState::AwaitingHello, hello) == Some(id),
        !clients.contains_key(id),
        next_state(SessionState::Active { client_id: id }, end) == SessionState::Closed,
    ensures
        next_state(SessionState::AwaitingHello, hello) == (SessionState::Active { client_id: id }),
        unregistered_by(SessionState::Active { client_id: id }, end) == Some(id),
        clients.insert(id, info).remove(id) == clients,
{
    crate::registry::lemma_register_then_unregister(clients, id, info);
}

/// A parsed line from a registered client is dispatched by its message type
/// alone, whatever its size and text: data is delivered as data, a
/// heartbeat as a heartbeat, a disconnect request closes the connection and
/// unregisters the client, and a repeated hello is ignored. An unparsable
/// non-empty line is rejected and the connection stays open.
pub proof fn lemma_lines_dispatched_by_type(client_id: u128, bytes: usize, message: ClientMessage)
    requires
        bytes > 0,
    ensures
        ({
            let state = SessionState::Active { client_id };
            let event = SessionEvent::LineRead { bytes, message: Some(message) };
            &&& message.message_type == MessageType::Data ==> next_action(state, event) == (SessionAction::Data { client_id })
                && next_state(state, event) == state
            &&& message.message_type == MessageType::Heartbeat ==> next_action(state, event) == (SessionAction::Heartbeat { client_id })
                && next_state(state, event) == state
            &&& message.message_type == MessageType::Connect ==> next_action(state, event) == SessionAction::Ignore
                && next_state(state, event) == state
            &&& message.message_type == MessageType::Disconnect ==> next_action(state, event) == (SessionAction::Closed {
                client_id,
                reason: CloseReason::Requested,
            }) && next_state(state, event) == SessionState::Closed
            &&& counted_line(state, event) == Some(bytes)
            &&& registered_by(state, event) is None
        }),
        next_action(
            SessionState::Active { client_id },
            SessionEvent::LineRead { bytes, message: None },
        ) == (SessionAction::Rejected { client_id }),
        next_state(SessionState::Active { client_id }, SessionEvent::LineRead { bytes, message: None })
            == (SessionState::Active { client_id }),
{
}

/// After a hello registers a client, the peak is at least the number of
/// registered clients.
pub proof fn lemma_hello_raises_peak_to_count(
    counts: MetricCounts,
    state: SessionState,
    event: SessionEvent,
    clients_after: nat,
)
    requires
        registered_by(state, event) is Some,
        clients_after <= usize::MAX,
    ensures
        counts_after(counts, state, event, clients_after).peak_clients >= clients_after,
{
}

/// The values that the server's monitor reports once a second.
#[derive(Debug, Clone, Copy, PartialEq, Eq, Structural)]
pub struct ServerStats {
    pub client_count: usize,
    pub counts: MetricCounts,
}

/// The shared state of the gateway server: the registry of connected clients
/// and the traffic metrics.
#[derive(Debug)]
pub struct Gateway {
    pub registry: ClientRegistry,
    pub metrics: ServerMetrics,
}

/// The acknowledgement that the gateway sends for a hello: a `Connect`
/// message from `server_id` saying "Connected with TLS" at `timestamp`.
pub fn acknowledgement(server_id: u128, timestamp: u64) -> (ack: ClientMessage)
    ensures
        message_is(ack, server_id, MessageType::Connect, "Connected with TLS"@, timestamp),
{
    ClientMessage {
        client_id: server_id,
        message_type: MessageType::Connect,
        payload: String::from_str("Connected with TLS"),
        timestamp,
    }
}

impl Gateway {
    /// A gateway with no clients and fresh metrics.
    pub fn new() -> (g: Gateway)
        ensures
            g.registry@ == Map::<u128, ClientInfo>::empty(),
            g.metrics@ == MetricCounts::zero(),
    {
        Gateway { registry: create_client_registry(), metrics: ServerMetrics::new() }
    }

    /// Counts a newly accepted connection.
    pub fn accept_connection(&mut self)
        ensures
            final(self).metrics@ == old(self).metrics@.after_connection(),
            final(self).registry@ == old(self).registry@,
    {
        self.metrics.record_connection();
    }

    /// Counts `bytes` bytes sent to a client.
    pub fn bytes_sent(&mut self, bytes: usize)
        ensures
            final(self).metrics@ == old(self).metrics@.after_bytes_sent(bytes),
            final(self).registry@ == old(self).registry@,
    {
        self.metrics.record_bytes_sent(bytes);
    }

    /// Applies `event`, observed on a connection in state `*state`.
    ///
    /// The state and the returned action follow `next_state` and
    /// `next_action`. A parsed hello registers its client (a fresh entry whose
    /// connection time and last heartbeat are one reading of the clock) and
    /// raises the peak to the new number of clients; an action `Closed`
    /// unregisters its client; nothing else touches the registry. Lines are
    /// counted as received messages as `counted_line` says.
    pub fn handle(&mut self, state: &mut SessionState, event: SessionEvent) -> (action: SessionAction)
        ensures
            *final(state) == next_state(*old(state), event),
            action == next_action(*old(state), event),
            final(self).metrics@ == counts_after(
                old(self).metrics@,
                *old(state),
                event,
                final(self).registry@.len(),
            ),
            keyed_by_id(final(self).registry@),
            final(self).registry@.dom().finite(),
            match *old(state) {
            SessionState::Active { client_id } => match event {
                SessionEvent::LineRead { bytes, message } => if bytes == 0 {
                    &&& action == (SessionAction::Closed { client_id, reason: CloseReason::EndOfStream })
                    &&& *final(state) == SessionState::Closed
                    &&& final(self).registry@ == old(self).registry@.remove(client_id)
                    &&& final(self).metrics@ == old(self).metrics@
                } else {
                    &&& final(self).metrics@ == old(self).metrics@.after_message(bytes)
                    &&& match message {
                        Some(m) => match m.message_type {
                            MessageType::Data => {
                                &&& action == (SessionAction::Data { client_id })
                                &&& *final(state) == *old(state)
                                &&& final(self).registry@ == old(self).registry@
                            },
                            MessageType::Heartbeat => {
                                &&& action == (SessionAction::Heartbeat { client_id })
                                &&& *final(state) == *old(state)
                                &&& final(self).registry@ == old(self).registry@
                            },
                            MessageType::Connect => {
                                &&& action == SessionAction::Ignore
                                &&& *final(state) == *old(state)
                                &&& final(self).registry@ == old(self).registry@
                            },
                            MessageType::Disconnect => {
                                &&& action == (SessionAction::Closed { client_id, reason: CloseReason::Requested })
                                &&& *final(state) == SessionState::Closed
                                &&& final(self).registry@ == old(self).registry@.remove(client_id)
                            },
                        },
                        None => {
                            &&& action == (SessionAction::Rejected { client_id })
                            &&& *final(state) == *old(state)
                            &&& final(self).registry@ == old(self).registry@
                        },
                    }
                },
                SessionEvent::ReadFailed => {
                    &&& action == (SessionAction::Closed { client_id, reason: CloseReason::ReadError })
                    &&& *final(state) == SessionState::Closed
                    &&& final(self).registry@ == old(self).registry@.remove(client_id)
                    &&& final(self).metrics@ == old(self).metrics@
                },
                SessionEvent::AckFailed => {
                    &&& action == (SessionAction::Closed { client_id, reason: CloseReason::AcknowledgementFailed })
                    &&& *final(state) == SessionState::Closed
                    &&& final(self).registry@ == old(self).registry@.remove(client_id)
                    &&& final(self).metrics@ == old(self).metrics@
                },
            },
            SessionState::AwaitingHello => match event {
                SessionEvent::LineRead { bytes, message } => {
                    &&& final(self).metrics@.total_messages == vstd::wrapping::u64_specs::wrapping_add(
                        old(self).metrics@.total_messages,
                        1,
                    )
                    &&& match message {
                        Some(m) => {
                            &&& action == (SessionAction::Acknowledge { client_id: m.client_id })
                            &&& *final(state) == (SessionState::Active { client_id: m.client_id })
                            &&& final(self).registry@.contains_key(m.client_id)
                            &&& final(self).metrics@.peak_clients >= final(self).registry@.len()
                        },
                        None => {
                            &&& action == SessionAction::Aborted
                            &&& *final(state) == SessionState::Closed
                            &&& final(self).registry@ == old(self).registry@
                        },
                    }
                },
                _ => {
                    &&& action == SessionAction::Aborted
                    &&& *final(state) == SessionState::Closed
                    &&& final(self).registry@ == old(self).registry@
                    &&& final(self).metrics@ == old(self).metrics@
                },
            },
            SessionState::Closed => {
                &&& action == SessionAction::Ignore
                &&& *final(state) == SessionState::Closed
                &&& final(self).registry@ == old(self).registry@
                &&& final(self).metrics@ == old(self).metrics@
            },
            },
            match registered_by(*old(state), event) {
                Some(id) => {
                    &&& final(self).registry@ == old(self).registry@.insert(id, final(self).registry@[id])
                    &&& final(self).registry@[id].id == id
                    &&& final(self).registry@[id].connected_at == final(self).registry@[id].last_heartbeat
                },
                None => match unregistered_by(*old(state), event) {
                    Some(id) => final(self).registry@ == old(self).registry@.remove(id),
                    None => final(self).registry@ == old(self).registry@,
                },
            },
    {
        proof {
            use_type_invariant(&self.registry);
            self.registry.lemma_invariant_keyed_by_id();
        }
        let current = *state;
        match current {
            SessionState::AwaitingHello => {
                match event {
                    SessionEvent::LineRead { bytes, message } => {
                        self.metrics.record_message(bytes);
                        match message {
                            Some(m) => {
                                let client_id = m.client_id;
                                register_client(&mut self.registry, client_id);
                                let count = get_client_count(&self.registry);
                                self.metrics.update_peak_clients(count);
                                *state = SessionState::Active { client_id };
                                SessionAction::Acknowledge { client_id }
                            },
                            None => {
                                *state = SessionState::Closed;
                                SessionAction::Aborted
                            },
                        }
                    },
                    _ => {
                        *state = SessionState::Closed;
                        SessionAction::Aborted
                    },
                }
            },
            SessionState::Active { client_id } => {
                match event {
                    SessionEvent::LineRead { bytes, message } => {
                        if bytes == 0 {
                            unregister_client(&mut self.registry, client_id);
                            *state = SessionState::Closed;
                            SessionAction::Closed { client_id, reason: CloseReason::EndOfStream }
                        } else {
                            self.metrics.record_message(bytes);
                            match message {
                                Some(m) => {
                                    match m.message_type {
                                        MessageType::Disconnect => {
                                            unregister_client(&mut self.registry, client_id);
                                            *state = SessionState::Closed;
                                            SessionAction::Closed {
                                                client_id,
                                                reason: CloseReason::Requested,
                                            }
                                        },
                                        MessageType::Heartbeat => SessionAction::Heartbeat { client_id },
                                        MessageType::Data => SessionAction::Data { client_id },
                                        MessageType::Connect => SessionAction::Ignore,
                                    }
                                },
                                None => SessionAction::Rejected { client_id },
                            }
                        }
                    },
                    SessionEvent::ReadFailed => {
                        unregister_client(&mut self.registry, client_id);
                        *state = SessionState::Closed;
                        SessionAction::Closed { client_id, reason: CloseReason::ReadError }
                    },
                    SessionEvent::AckFailed => {
                        unregister_client(&mut self.registry, client_id);
                        *state = SessionState::Closed;
                        SessionAction::Closed { client_id, reason: CloseReason::AcknowledgementFailed }
                    },
                }
            },
            SessionState::Closed => SessionAction::Ignore,
        }
    }

    /// One tick of the server monitor: raises the peak to the current number
    /// of clients, reports the client count and all counters as they then
    /// stand, and starts a new second.
    pub fn monitor_tick(&mut self) -> (stats: ServerStats)
        ensures
            stats.client_count == old(self).registry@.len(),
            stats.counts == old(self).metrics@.after_peak(stats.client_count),
            final(self).metrics@ == stats.counts.after_reset(),
            final(self).registry@ == old(self).registry@,
    {
        let client_count = get_client_count(&self.registry);
        self.metrics.update_peak_clients(client_count);
        let counts = self.metrics.counts();
        self.metrics.reset_per_second_counters();
        ServerStats { client_count, counts }
    }
}

} // verus!
