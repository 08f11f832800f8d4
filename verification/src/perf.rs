//! The load generator: counters of a performance run, the schedule of one
//! simulated client, and the arithmetic of the run's plan.

use vstd::prelude::*;
use vstd::string::StringExecFns;
use crate::decimal::decimal;
use crate::message::{ClientMessage, MessageType, message_is, numbered_payload};

verus! {

/// The most clients a run may simulate.
pub const MAX_CLIENTS: usize = 10000;

/// A simulated client sends a keepalive every 10 seconds (in nanoseconds).
pub const KEEPALIVE_INTERVAL_NANOS: u64 = 10_000_000_000;

/// A simulated client sends a data message every 5 seconds (in nanoseconds).
pub const DATA_INTERVAL_NANOS: u64 = 5_000_000_000;

/// A simulated client looks at its schedule every 500 milliseconds.
pub const POLL_INTERVAL_MILLIS: u64 = 500;

/// The run's statistics are reported every 5 seconds.
pub const REPORT_INTERVAL_SECS: u64 = 5;

/// Reporting goes on for this many seconds past the run's duration.
pub const REPORT_GRACE_SECS: u64 = 60;

/// Waiting for the clients goes on for this many seconds past duration and ramp-up.
pub const COMPLETION_GRACE_SECS: u64 = 30;

/// Counters of a performance run.
#[derive(Debug, Clone, Copy, PartialEq, Eq, Structural)]
pub struct TestStats {
    pub total_clients: usize,
    pub connected_clients: usize,
    pub failed_connections: usize,
    pub messages_sent: usize,
    pub messages_received: usize,
    pub total_bytes_sent: usize,
    pub total_bytes_received: usize,
    pub errors: usize,
}

impl TestStats {
    /// All counters at zero.
    pub open spec fn zero() -> TestStats {
        TestStats {
            total_clients: 0,
            connected_clients: 0,
            failed_connections: 0,
            messages_sent: 0,
            messages_received: 0,
            total_bytes_sent: 0,
            total_bytes_received: 0,
            errors: 0,
        }
    }

    /// The counters after a client's `outcome`.
    pub open spec fn after_outcome(self, outcome: ClientOutcome) -> TestStats {
        match outcome {
            ClientOutcome::ConnectFailed => TestStats {
                total_clients: (self.total_clients + 1) as usize,
                failed_connections: (self.failed_connections + 1) as usize,
                ..self
            },
            ClientOutcome::Connected => TestStats {
                total_clients: (self.total_clients + 1) as usize,
                connected_clients: (self.connected_clients + 1) as usize,
                ..self
            },
            ClientOutcome::HandshakeFailed => TestStats {
                failed_connections: (self.failed_connections + 1) as usize,
                ..self
            },
            ClientOutcome::SessionEnded { error } => TestStats {
                connected_clients: (self.connected_clients - 1) as usize,
                errors: (if error { self.errors + 1 } else { self.errors as int }) as usize,
                ..self
            },
        }
    }

    /// The counters after a line of `bytes` bytes of kind `kind`: keepalives
    /// and data count as sent messages, the acknowledgement as a received
    /// message, and the hello and farewell only as bytes sent.
    pub open spec fn after_line(self, kind: LineKind, bytes: usize) -> TestStats {
        match kind {
            LineKind::Hello | LineKind::Farewell => TestStats {
                total_bytes_sent: (self.total_bytes_sent + bytes) as usize,
                ..self
            },
            LineKind::Keepalive | LineKind::Data => TestStats {
                messages_sent: (self.messages_sent + 1) as usize,
                total_bytes_sent: (self.total_bytes_sent + bytes) as usize,
                ..self
            },
            LineKind::Acknowledgement => TestStats {
                messages_received: (self.messages_received + 1) as usize,
                total_bytes_received: (self.total_bytes_received + bytes) as usize,
                ..self
            },
        }
    }

    /// Recording `outcome` neither overflows a counter nor takes a client
    /// away while none is connected.
    pub open spec fn outcome_fits(self, outcome: ClientOutcome) -> bool {
        match outcome {
            ClientOutcome::ConnectFailed => self.total_clients < usize::MAX && self.failed_connections
                < usize::MAX,
            ClientOutcome::Connected => self.total_clients < usize::MAX && self.connected_clients
                < usize::MAX,
            ClientOutcome::HandshakeFailed => self.failed_connections < usize::MAX,
            ClientOutcome::SessionEnded { error } => self.connected_clients > 0 && (error ==> self.errors
                < usize::MAX),
        }
    }

    /// Recording a line of kind `kind` and `bytes` bytes overflows no counter.
    pub open spec fn line_fits(self, kind: LineKind, bytes: usize) -> bool {
        match kind {
            LineKind::Hello | LineKind::Farewell => self.total_bytes_sent + bytes <= usize::MAX,
            LineKind::Keepalive | LineKind::Data => self.messages_sent < usize::MAX
                && self.total_bytes_sent + bytes <= usize::MAX,
            LineKind::Acknowledgement => self.messages_received < usize::MAX
                && self.total_bytes_received + bytes <= usize::MAX,
        }
    }

    /// All counters at zero.
    pub fn new() -> (s: TestStats)
        ensures
            s == TestStats::zero(),
    {
        TestStats {
            total_clients: 0,
            connected_clients: 0,
            failed_connections: 0,
            messages_sent: 0,
            messages_received: 0,
            total_bytes_sent: 0,
            total_bytes_received: 0,
            errors: 0,
        }
    }

    /// Counts what became of a client.
    pub fn record_outcome(&mut self, outcome: ClientOutcome)
        requires
            old(self).outcome_fits(outcome),
        ensures
            *final(self) == old(self).after_outcome(outcome),
            outcome == ClientOutcome::ConnectFailed ==> {
                &&& final(self).total_clients == old(self).total_clients + 1
                &&& final(self).failed_connections == old(self).failed_connections + 1
                &&& final(self).connected_clients == old(self).connected_clients
            },
            outcome == ClientOutcome::Connected ==> {
                &&& final(self).total_clients == old(self).total_clients + 1
                &&& final(self).connected_clients == old(self).connected_clients + 1
                &&& final(self).failed_connections == old(self).failed_connections
            },
            outcome == ClientOutcome::HandshakeFailed ==> {
                &&& final(self).failed_connections == old(self).failed_connections + 1
                &&& final(self).total_clients == old(self).total_clients
                &&& final(self).connected_clients == old(self).connected_clients
            },
            outcome matches ClientOutcome::SessionEnded { error } ==> {
                &&& final(self).connected_clients == old(self).connected_clients - 1
                &&& final(self).errors == old(self).errors + (if error { 1int } else { 0int })
                &&& final(self).total_clients == old(self).total_clients
                &&& final(self).failed_connections == old(self).failed_connections
            },
            final(self).messages_sent == old(self).messages_sent,
            final(self).messages_received == old(self).messages_received,
            final(self).total_bytes_sent == old(self).total_bytes_sent,
            final(self).total_bytes_received == old(self).total_bytes_received,
    {
        match outcome {
            ClientOutcome::ConnectFailed => {
                self.total_clients = self.total_clients + 1;
                self.failed_connections = self.failed_connections + 1;
            },
            ClientOutcome::Connected => {
                self.total_clients = self.total_clients + 1;
                self.connected_clients = self.connected_clients + 1;
            },
            ClientOutcome::HandshakeFailed => {
                self.failed_connections = self.failed_connections + 1;
            },
            ClientOutcome::SessionEnded { error } => {
                self.connected_clients = self.connected_clients - 1;
                if error {
                    self.errors = self.errors + 1;
                }
            },
        }
    }

    /// Counts a line that a client wrote or read.
    pub fn record_line(&mut self, kind: LineKind, bytes: usize)
        requires
            old(self).line_fits(kind, bytes),
        ensures
            *final(self) == old(self).after_line(kind, bytes),
            kind == LineKind::Acknowledgement ==> {
                &&& final(self).messages_received == old(self).messages_received + 1
                &&& final(self).total_bytes_received == old(self).total_bytes_received + bytes
                &&& final(self).messages_sent == old(self).messages_sent
                &&& final(self).total_bytes_sent == old(self).total_bytes_sent
            },
            (kind == LineKind::Keepalive || kind == LineKind::Data) ==> {
                &&& final(self).messages_sent == old(self).messages_sent + 1
                &&& final(self).total_bytes_sent == old(self).total_bytes_sent + bytes
                &&& final(self).messages_received == old(self).messages_received
                &&& final(self).total_bytes_received == old(self).total_bytes_received
            },
            (kind == LineKind::Hello || kind == LineKind::Farewell) ==> {
                &&& final(self).messages_sent == old(self).messages_sent
                &&& final(self).total_bytes_sent == old(self).total_bytes_sent + bytes
                &&& final(self).messages_received == old(self).messages_received
                &&& final(self).total_bytes_received == old(self).total_bytes_received
            },
            final(self).total_clients == old(self).total_clients,
            final(self).connected_clients == old(self).connected_clients,
            final(self).failed_connections == old(self).failed_connections,
            final(self).errors == old(self).errors,
    {
        match kind {
            LineKind::Hello | LineKind::Farewell => {
                self.total_bytes_sent = self.total_bytes_sent + bytes;
            },
            LineKind::Keepalive | LineKind::Data => {
                self.messages_sent = self.messages_sent + 1;
                self.total_bytes_sent = self.total_bytes_sent + bytes;
            },
            LineKind::Acknowledgement => {
                self.messages_received = self.messages_received + 1;
                self.total_bytes_received = self.total_bytes_received + bytes;
            },
        }
    }

    /// The integer figures of the final report: clients counted as connected
    /// successfully (all clients counted less those that failed), and kibibytes
    /// sent and received, rounded down.
    pub fn final_summary(&self) -> (summary: FinalSummary)
        requires
            self.failed_connections <= self.total_clients,
        ensures
            summary.successful_connections == self.total_clients - self.failed_connections,
            summary.kib_sent == self.total_bytes_sent / 1024,
            summary.kib_received == self.total_bytes_received / 1024,
    {
        FinalSummary {
            successful_connections: self.total_clients - self.failed_connections,
            kib_sent: self.total_bytes_sent / 1024,
            kib_received: self.total_bytes_received / 1024,
        }
    }
}

/// What became of a simulated client.
#[derive(Debug, Clone, Copy, PartialEq, Eq, Structural)]
pub enum ClientOutcome {
    /// It could not open a connection.
    ConnectFailed,
    /// It opened a connection.
    Connected,
    /// Its connection was open but the TLS handshake failed; it stays
    /// counted among the connected clients.
    HandshakeFailed,
    /// Its session ended, with or without an error.
    SessionEnded { error: bool },
}

/// A line that a simulated client wrote or read.
#[derive(Debug, Clone, Copy, PartialEq, Eq, Structural)]
pub enum LineKind {
    Hello,
    Acknowledgement,
    Keepalive,
    Data,
    Farewell,
}

/// The counters after each of `outcomes` in turn.
pub open spec fn after_outcomes(stats: TestStats, outcomes: Seq<ClientOutcome>) -> TestStats
    decreases outcomes.len(),
{
    if outcomes.len() == 0 {
        stats
    } else {
        after_outcomes(stats, outcomes.drop_last()).after_outcome(outcomes.last())
    }
}

/// How many of `outcomes` are `kind`, counting every `SessionEnded` alike.
pub open spec fn count_outcomes(outcomes: Seq<ClientOutcome>, kind: ClientOutcome) -> nat
    decreases outcomes.len(),
{
    if outcomes.len() == 0 {
        0
    } else {
        count_outcomes(outcomes.drop_last(), kind) + if same_kind(outcomes.last(), kind) {
            1nat
        } else {
            0nat
        }
    }
}

/// Both outcomes are of the same variant.
pub open spec fn same_kind(a: ClientOutcome, b: ClientOutcome) -> bool {
    match (a, b) {
        (ClientOutcome::ConnectFailed, ClientOutcome::ConnectFailed) => true,
        (ClientOutcome::Connected, ClientOutcome::Connected) => true,
        (ClientOutcome::HandshakeFailed, ClientOutcome::HandshakeFailed) => true,
        (ClientOutcome::SessionEnded { .. }, ClientOutcome::SessionEnded { .. }) => true,
        _ => false,
    }
}

/// What one client can go through: a failed connect, or a connect followed
/// by nothing yet, by a failed handshake, or by the end of its session.
pub open spec fn client_history(outcomes: Seq<ClientOutcome>) -> bool {
    ||| outcomes == seq![ClientOutcome::ConnectFailed]
    ||| outcomes == seq![ClientOutcome::Connected]
    ||| outcomes == seq![ClientOutcome::Connected, ClientOutcome::HandshakeFailed]
    ||| exists|error: bool| outcomes == seq![ClientOutcome::Connected, ClientOutcome::SessionEnded { error }]
}

/// One client's run keeps failures within the clients counted: a failed
/// connect counts the client as well as the failure, and a failed handshake
/// follows the connect that counted the client.
pub proof fn lemma_client_keeps_failures_within_total(stats: TestStats, outcomes: Seq<ClientOutcome>)
    requires
        client_history(outcomes),
        stats.failed_connections <= stats.total_clients,
        stats.total_clients < usize::MAX,
    ensures
        after_outcomes(stats, outcomes).failed_connections <= after_outcomes(stats, outcomes).total_clients,
{
    reveal_with_fuel(after_outcomes, 3);
    assert(outcomes.drop_last().len() <= 1);
    if outcomes.len() == 2 {
        assert(outcomes.drop_last() =~= seq![ClientOutcome::Connected]);
        assert(outcomes.drop_last().drop_last() =~= Seq::<ClientOutcome>::empty());
    } else {
        assert(outcomes.drop_last() =~= Seq::<ClientOutcome>::empty());
    }
}

/// From zero counters, a run's outcomes (any interleaving of its clients')
/// count as failures every failed connect and failed handshake, and as
/// clients every failed connect and every connect. So as long as no more
/// handshakes fail than clients connected, no more connections have failed
/// than clients were counted, and the final report's successful
/// connections are never negative.
pub proof fn lemma_failures_within_total(outcomes: Seq<ClientOutcome>)
    requires
        outcomes.len() <= usize::MAX,
    ensures
        after_outcomes(TestStats::zero(), outcomes).failed_connections == count_outcomes(
            outcomes,
            ClientOutcome::ConnectFailed,
        ) + count_outcomes(outcomes, ClientOutcome::HandshakeFailed),
        after_outcomes(TestStats::zero(), outcomes).total_clients == count_outcomes(
            outcomes,
            ClientOutcome::ConnectFailed,
        ) + count_outcomes(outcomes, ClientOutcome::Connected),
        count_outcomes(outcomes, ClientOutcome::HandshakeFailed) <= count_outcomes(
            outcomes,
            ClientOutcome::Connected,
        ) ==> after_outcomes(TestStats::zero(), outcomes).failed_connections <= after_outcomes(
            TestStats::zero(),
            outcomes,
        ).total_clients,
    decreases outcomes.len(),
{
    if outcomes.len() > 0 {
        let rest = outcomes.drop_last();
        lemma_failures_within_total(rest);
        lemma_counts_bounded(rest);
    }
}

/// The outcomes of the four kinds number no more than all outcomes.
pub proof fn lemma_counts_bounded(outcomes: Seq<ClientOutcome>)
    ensures
        count_outcomes(outcomes, ClientOutcome::ConnectFailed) + count_outcomes(
            outcomes,
            ClientOutcome::Connected,
        ) + count_outcomes(outcomes, ClientOutcome::HandshakeFailed) <= outcomes.len(),
    decreases outcomes.len(),
{
    if outcomes.len() > 0 {
        lemma_counts_bounded(outcomes.drop_last());
    }
}

/// The integer figures of the final report of a run.
#[derive(Debug, Clone, Copy, PartialEq, Eq, Structural)]
pub struct FinalSummary {
    pub successful_connections: usize,
    pub kib_sent: usize,
    pub kib_received: usize,
}

/// Whether a run may simulate `clients` clients: from one to `MAX_CLIENTS`.
pub fn client_count_allowed(clients: usize) -> (allowed: bool)
    ensures
        allowed == (1 <= clients && clients <= MAX_CLIENTS),
{
    1 <= clients && clients <= MAX_CLIENTS
}

/// The pause between spawning two clients, in milliseconds: the ramp-up time
/// shared out evenly (rounded down), or no pause without ramp-up or clients.
pub fn spawn_interval_millis(rampup_secs: u64, clients: usize) -> (millis: u64)
    requires
        rampup_secs * 1000 <= u64::MAX,
    ensures
        millis == (if rampup_secs > 0 && clients > 0 {
            (rampup_secs * 1000) / (clients as int)
        } else {
            0
        }),
{
    if rampup_secs > 0 && clients > 0 {
        (rampup_secs * 1000) / (clients as u64)
    } else {
        0
    }
}

/// Whether to pause after spawning client number `index` (counting from 0):
/// after every client but the last, when the pause is not zero.
pub fn pause_after_spawn(index: usize, clients: usize, interval_millis: u64) -> (pause: bool)
    requires
        index < clients,
    ensures
        pause == (index < clients - 1 && interval_millis > 0),
{
    index < clients - 1 && interval_millis > 0
}

/// How long to wait for all clients, in seconds: the run's duration and
/// ramp-up plus a grace period.
pub fn completion_timeout_secs(duration_secs: u64, rampup_secs: u64) -> (secs: u64)
    requires
        duration_secs + rampup_secs + COMPLETION_GRACE_SECS <= u64::MAX,
    ensures
        secs == duration_secs + rampup_secs + COMPLETION_GRACE_SECS,
{
    duration_secs + rampup_secs + COMPLETION_GRACE_SECS
}

/// Whether the reporter stops: once a grace period past the run's duration
/// has elapsed.
pub fn report_finished(elapsed_secs: u64, duration_secs: u64) -> (finished: bool)
    requires
        duration_secs + REPORT_GRACE_SECS <= u64::MAX,
    ensures
        finished == (elapsed_secs >= duration_secs + REPORT_GRACE_SECS),
{
    elapsed_secs >= duration_secs + REPORT_GRACE_SECS
}

/// `later - earlier`, or zero when `later` is not later.
pub open spec fn elapsed(earlier: u64, later: u64) -> nat {
    if later >= earlier {
        (later - earlier) as nat
    } else {
        0
    }
}

/// What a simulated client is to do next.
#[derive(Debug, Clone, Copy, PartialEq, Eq, Structural)]
pub enum PerfAction {
    /// The run is over: say goodbye.
    Finish,
    /// Send a keepalive, then ask again.
    SendKeepalive,
    /// Send the data message carrying `number`, then ask again.
    SendData { number: u64 },
    /// Nothing is due: pause, then ask again.
    Wait,
}

/// The schedule of one simulated client. Times are nanoseconds on one
/// monotonic clock.
#[derive(Debug, Clone, Copy, PartialEq, Eq, Structural)]
pub struct PerfSession {
    /// How many data messages the client sends in all.
    pub messages_to_send: usize,
    /// How many data messages it has sent.
    pub data_sent: usize,
    /// When it last sent a keepalive (or started).
    pub last_keepalive: u64,
    /// When it last sent a data message (or started).
    pub last_data: u64,
    /// When the run ends.
    pub end: u64,
}

impl PerfSession {
    /// The client has not sent more data messages than it was to send.
    pub open spec fn within_budget(self) -> bool {
        self.data_sent <= self.messages_to_send
    }

    /// A keepalive is due at `now`: ten seconds have passed since the last one.
    pub open spec fn keepalive_is_due(self, now: u64) -> bool {
        elapsed(self.last_keepalive, now) >= KEEPALIVE_INTERVAL_NANOS
    }

    /// A data message is due at `now`: some remain to be sent and five
    /// seconds have passed since the last one.
    pub open spec fn data_is_due(self, now: u64) -> bool {
        self.data_sent < self.messages_to_send && elapsed(self.last_data, now) >= DATA_INTERVAL_NANOS
    }

    /// The schedule after a keepalive sent at `now`.
    pub open spec fn after_keepalive(self, now: u64) -> PerfSession {
        PerfSession { last_keepalive: now, ..self }
    }

    /// The schedule after a data message sent at `now`.
    pub open spec fn after_data(self, now: u64) -> PerfSession {
        PerfSession { data_sent: (self.data_sent + 1) as usize, last_data: now, ..self }
    }

    /// What the client does next at `now`: stop once the run is over, else
    /// send a keepalive if one is due, else a data message if one is due,
    /// else wait.
    pub open spec fn step(self, now: u64) -> PerfAction {
        if now >= self.end {
            PerfAction::Finish
        } else if self.keepalive_is_due(now) {
            PerfAction::SendKeepalive
        } else if self.data_is_due(now) {
            PerfAction::SendData { number: (self.data_sent + 1) as u64 }
        } else {
            PerfAction::Wait
        }
    }

    /// A schedule that starts at `now` and runs until `end`, with
    /// `messages_to_send` data messages to send.
    pub fn new(messages_to_send: usize, now: u64, end: u64) -> (s: PerfSession)
        ensures
            s == (PerfSession { messages_to_send, data_sent: 0, last_keepalive: now, last_data: now, end }),
            s.within_budget(),
    {
        PerfSession { messages_to_send, data_sent: 0, last_keepalive: now, last_data: now, end }
    }

    /// Whether the run is over at `now`.
    pub fn finished(&self, now: u64) -> (over: bool)
        ensures
            over == (now >= self.end),
    {
        now >= self.end
    }

    /// Whether a keepalive is due at `now`: ten seconds have passed since the last one.
    pub fn keepalive_due(&self, now: u64) -> (due: bool)
        ensures
            due == self.keepalive_is_due(now),
            due == (now >= self.last_keepalive && now - self.last_keepalive >= 10_000_000_000),
    {
        now.saturating_sub(self.last_keepalive) >= KEEPALIVE_INTERVAL_NANOS
    }

    /// Records a keepalive sent at `now`.
    pub fn keepalive_sent(&mut self, now: u64)
        ensures
            *final(self) == old(self).after_keepalive(now),
            final(self).last_keepalive == now,
            final(self).last_data == old(self).last_data,
            final(self).data_sent == old(self).data_sent,
            final(self).messages_to_send == old(self).messages_to_send,
            final(self).end == old(self).end,
    {
        self.last_keepalive = now;
    }

    /// Whether a data message is due at `now`: some remain to be sent and five
    /// seconds have passed since the last one.
    pub fn data_due(&self, now: u64) -> (due: bool)
        ensures
            due == self.data_is_due(now),
            due == (self.data_sent < self.messages_to_send && now >= self.last_data && now - self.last_data
                >= 5_000_000_000),
    {
        self.data_sent < self.messages_to_send && now.saturating_sub(self.last_data)
            >= DATA_INTERVAL_NANOS
    }

    /// The number that the next data message carries, counting from 1.
    pub fn next_data_number(&self) -> (n: u64)
        requires
            self.data_sent < self.messages_to_send,
        ensures
            n == self.data_sent + 1,
    {
        (self.data_sent as u64) + 1
    }

    /// What the client does next at `now`.
    pub fn next_action(&self, now: u64) -> (action: PerfAction)
        ensures
            action == self.step(now),
            now >= self.end ==> action == PerfAction::Finish,
            now < self.end && now >= self.last_keepalive && now - self.last_keepalive >= 10_000_000_000
                ==> action == PerfAction::SendKeepalive,
            now < self.end && !(now >= self.last_keepalive && now - self.last_keepalive >= 10_000_000_000)
                && self.data_sent < self.messages_to_send && now >= self.last_data && now - self.last_data
                >= 5_000_000_000 ==> action == (PerfAction::SendData { number: (self.data_sent + 1) as u64 }),
            now < self.end && !(now >= self.last_keepalive && now - self.last_keepalive >= 10_000_000_000)
                && !(self.data_sent < self.messages_to_send && now >= self.last_data && now - self.last_data
                >= 5_000_000_000) ==> action == PerfAction::Wait,
    {
        if self.finished(now) {
            PerfAction::Finish
        } else if self.keepalive_due(now) {
            PerfAction::SendKeepalive
        } else if self.data_due(now) {
            PerfAction::SendData { number: self.next_data_number() }
        } else {
            PerfAction::Wait
        }
    }

    /// Records a data message sent at `now`.
    pub fn data_message_sent(&mut self, now: u64)
        requires
            old(self).data_sent < old(self).messages_to_send,
        ensures
            *final(self) == old(self).after_data(now),
            final(self).data_sent == old(self).data_sent + 1,
            final(self).last_data == now,
            final(self).last_keepalive == old(self).last_keepalive,
            final(self).messages_to_send == old(self).messages_to_send,
            final(self).end == old(self).end,
    {
        self.data_sent = self.data_sent + 1;
        self.last_data = now;
    }
}

/// A simulated client never sends more data messages than it was to send:
/// a data message is due only while some remain, and recording one while
/// some remain keeps the schedule within budget. Once a keepalive or a data
/// message is recorded at `now`, it is not due again at `now`, so each step
/// at one instant sends each at most once.
pub proof fn lemma_data_within_budget(s: PerfSession, now: u64)
    ensures
        s.step(now) matches PerfAction::SendData { number } ==> s.data_sent < s.messages_to_send
            && number == s.data_sent + 1,
        !s.after_keepalive(now).keepalive_is_due(now),
        !s.after_data(now).data_is_due(now),
        s.data_is_due(now) ==> s.data_sent < s.messages_to_send,
        s.within_budget() && s.data_sent < s.messages_to_send ==> s.after_data(now).within_budget(),
        s.data_sent == s.messages_to_send ==> !s.data_is_due(now),
{
}

/// Keepalives run on their own timer: a keepalive is due exactly when ten
/// seconds have passed since the last keepalive (never when the clock reads
/// earlier), and sending a data message at any time changes neither that nor
/// when the next keepalive falls due.
pub proof fn lemma_keepalives_ignore_data(s: PerfSession, sent_at: u64, now: u64)
    ensures
        s.keepalive_is_due(now) == (now >= s.last_keepalive && now - s.last_keepalive >= 10_000_000_000),
        s.after_data(sent_at).keepalive_is_due(now) == s.keepalive_is_due(now),
        s.after_data(sent_at).last_keepalive == s.last_keepalive,
        s.after_keepalive(now).last_data == s.last_data,
        s.after_keepalive(now).data_sent == s.data_sent,
        s.after_keepalive(sent_at).keepalive_is_due(now) == (now >= sent_at && now - sent_at >= 10_000_000_000),
{
}

/// Each line a client writes or reads is counted once and adds its own size:
/// the acknowledgement adds one received message and its bytes to what was
/// received, keepalives and data add one sent message and their bytes to
/// what was sent, the hello and the farewell add only their bytes to what was
/// sent; nothing else changes.
pub proof fn lemma_lines_add_their_bytes(s: TestStats, bytes: usize)
    requires
        s.messages_sent < usize::MAX,
        s.messages_received < usize::MAX,
        s.total_bytes_sent + bytes <= usize::MAX,
        s.total_bytes_received + bytes <= usize::MAX,
    ensures
        s.after_line(LineKind::Acknowledgement, bytes).total_bytes_received == s.total_bytes_received + bytes,
        s.after_line(LineKind::Acknowledgement, bytes).messages_received == s.messages_received + 1,
        s.after_line(LineKind::Acknowledgement, bytes).total_bytes_sent == s.total_bytes_sent,
        s.after_line(LineKind::Acknowledgement, bytes).messages_sent == s.messages_sent,
        s.after_line(LineKind::Keepalive, bytes).total_bytes_sent == s.total_bytes_sent + bytes,
        s.after_line(LineKind::Keepalive, bytes).messages_sent == s.messages_sent + 1,
        s.after_line(LineKind::Keepalive, bytes).total_bytes_received == s.total_bytes_received,
        s.after_line(LineKind::Data, bytes).total_bytes_sent == s.total_bytes_sent + bytes,
        s.after_line(LineKind::Data, bytes).messages_sent == s.messages_sent + 1,
        s.after_line(LineKind::Data, bytes).total_bytes_received == s.total_bytes_received,
        s.after_line(LineKind::Hello, bytes).total_bytes_sent == s.total_bytes_sent + bytes,
        s.after_line(LineKind::Hello, bytes).messages_sent == s.messages_sent,
        s.after_line(LineKind::Farewell, bytes).total_bytes_sent == s.total_bytes_sent + bytes,
        s.after_line(LineKind::Farewell, bytes).messages_sent == s.messages_sent,
        s.after_line(LineKind::Hello, bytes).total_bytes_received == s.total_bytes_received,
        s.after_line(LineKind::Farewell, bytes).total_bytes_received == s.total_bytes_received,
{
}

/// The message a simulated client opens with.
pub fn perf_hello(client_id: u128, timestamp: u64) -> (m: ClientMessage)
    ensures
        message_is(m, client_id, MessageType::Connect, "Perf test client"@, timestamp),
{
    ClientMessage {
        client_id,
        message_type: MessageType::Connect,
        payload: String::from_str("Perf test client"),
        timestamp,
    }
}

/// The `n`-th data message of a simulated client.
pub fn perf_data(client_id: u128, n: u64, timestamp: u64) -> (m: ClientMessage)
    ensures
        message_is(m, client_id, MessageType::Data, "Perf test data #"@ + decimal(n as nat), timestamp),
{
    ClientMessage {
        client_id,
        message_type: MessageType::Data,
        payload: numbered_payload("Perf test data #", n),
        timestamp,
    }
}

/// The message a simulated client closes with.
pub fn perf_farewell(client_id: u128, timestamp: u64) -> (m: ClientMessage)
    ensures
        message_is(m, client_id, MessageType::Disconnect, "Perf test complete"@, timestamp),
{
    ClientMessage {
        client_id,
        message_type: MessageType::Disconnect,
        payload: String::from_str("Perf test complete"),
        timestamp,
    }
}

} // verus!
