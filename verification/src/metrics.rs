//! Counters that the gateway server keeps about its traffic.

use vstd::prelude::*;
use crate::clock::MonotonicClock;

verus! {

/// Adding `y` to a 64-bit counter `x`, wrapping around at 2^64 as an atomic
/// `fetch_add` does.
pub open spec fn counter_add(x: u64, y: u64) -> u64 {
    vstd::wrapping::u64_specs::wrapping_add(x, y)
}

/// The larger of a recorded peak and a current client count.
pub open spec fn peak_after(peak: usize, current: usize) -> usize {
    if current > peak {
        current
    } else {
        peak
    }
}

/// The values of all traffic counters at one moment.
#[derive(Debug, Clone, Copy, PartialEq, Eq, Structural)]
pub struct MetricCounts {
    pub total_connections: u64,
    pub total_messages: u64,
    pub total_bytes_received: u64,
    pub total_bytes_sent: u64,
    pub peak_clients: usize,
    pub connections_last_second: u64,
    pub messages_last_second: u64,
}

impl MetricCounts {
    /// All counters at zero.
    pub open spec fn zero() -> MetricCounts {
        MetricCounts {
            total_connections: 0,
            total_messages: 0,
            total_bytes_received: 0,
            total_bytes_sent: 0,
            peak_clients: 0,
            connections_last_second: 0,
            messages_last_second: 0,
        }
    }

    /// One more accepted connection, in the total and in the current second.
    pub open spec fn after_connection(self) -> MetricCounts {
        MetricCounts {
            total_connections: counter_add(self.total_connections, 1),
            connections_last_second: counter_add(self.connections_last_second, 1),
            ..self
        }
    }

    /// One more received message of `bytes` bytes.
    pub open spec fn after_message(self, bytes: usize) -> MetricCounts {
        MetricCounts {
            total_messages: counter_add(self.total_messages, 1),
            total_bytes_received: counter_add(self.total_bytes_received, bytes as u64),
            messages_last_second: counter_add(self.messages_last_second, 1),
            ..self
        }
    }

    /// `bytes` more bytes sent.
    pub open spec fn after_bytes_sent(self, bytes: usize) -> MetricCounts {
        MetricCounts { total_bytes_sent: counter_add(self.total_bytes_sent, bytes as u64), ..self }
    }

    /// The peak raised to `current` clients when that is larger.
    pub open spec fn after_peak(self, current: usize) -> MetricCounts {
        MetricCounts { peak_clients: peak_after(self.peak_clients, current), ..self }
    }

    /// The per-second counters back at zero.
    pub open spec fn after_reset(self) -> MetricCounts {
        MetricCounts { connections_last_second: 0, messages_last_second: 0, ..self }
    }

    /// The per-second counters do not exceed the matching totals.
    pub open spec fn rates_within_totals(self) -> bool {
        &&& self.connections_last_second <= self.total_connections
        &&& self.messages_last_second <= self.total_messages
    }
}

/// The peak after reporting `current` clients is at least `current` and at
/// least the earlier peak, is one of the two, and reporting the same count
/// again changes nothing.
pub proof fn lemma_peak_is_running_maximum(counts: MetricCounts, current: usize)
    ensures
        counts.after_peak(current).peak_clients >= current,
        counts.after_peak(current).peak_clients >= counts.peak_clients,
        counts.after_peak(current).peak_clients == current
            || counts.after_peak(current).peak_clients == counts.peak_clients,
        counts.after_peak(current).after_peak(current) == counts.after_peak(current),
{
}

/// Starting a new second zeroes the per-second counters and keeps every
/// total and the peak.
pub proof fn lemma_reset_keeps_totals(counts: MetricCounts)
    ensures
        counts.after_reset().connections_last_second == 0,
        counts.after_reset().messages_last_second == 0,
        counts.after_reset().total_connections == counts.total_connections,
        counts.after_reset().total_messages == counts.total_messages,
        counts.after_reset().total_bytes_received == counts.total_bytes_received,
        counts.after_reset().total_bytes_sent == counts.total_bytes_sent,
        counts.after_reset().peak_clients == counts.peak_clients,
        counts.after_reset().rates_within_totals(),
{
}

/// As long as the totals do not wrap around, the per-second counters never
/// exceed the totals: fresh counters satisfy this, and every recording, the
/// peak update and the reset keep it.
pub proof fn lemma_rates_within_totals(counts: MetricCounts, bytes: usize, current: usize)
    ensures
        MetricCounts::zero().rates_within_totals(),
        counts.rates_within_totals() && counts.total_connections < u64::MAX
            ==> counts.after_connection().rates_within_totals(),
        counts.rates_within_totals() && counts.total_messages < u64::MAX
            ==> counts.after_message(bytes).rates_within_totals(),
        counts.rates_within_totals() ==> counts.after_bytes_sent(bytes).rates_within_totals(),
        counts.rates_within_totals() ==> counts.after_peak(current).rates_within_totals(),
        counts.after_reset().rates_within_totals(),
{
}

/// Without wrap-around, recording a connection or a message adds exactly one
/// to the matching total and to the matching per-second counter.
pub proof fn lemma_counters_count_up(counts: MetricCounts, bytes: usize)
    ensures
        counts.total_connections < u64::MAX && counts.connections_last_second < u64::MAX ==> {
            &&& counts.after_connection().total_connections == counts.total_connections + 1
            &&& counts.after_connection().connections_last_second == counts.connections_last_second + 1
        },
        counts.total_messages < u64::MAX && counts.messages_last_second < u64::MAX
            && counts.total_bytes_received + bytes <= u64::MAX ==> {
            &&& counts.after_message(bytes).total_messages == counts.total_messages + 1
            &&& counts.after_message(bytes).messages_last_second == counts.messages_last_second + 1
            &&& counts.after_message(bytes).total_bytes_received == counts.total_bytes_received + bytes
        },
        counts.total_bytes_sent + bytes <= u64::MAX ==> counts.after_bytes_sent(bytes).total_bytes_sent
            == counts.total_bytes_sent + bytes,
        counts.after_bytes_sent(bytes).total_bytes_received == counts.total_bytes_received,
        counts.after_message(bytes).total_bytes_sent == counts.total_bytes_sent,
        counts.after_connection().total_messages == counts.total_messages,
        counts.after_message(bytes).total_connections == counts.total_connections,
{
}

/// The counters after reporting each of `currents` in turn as the current
/// number of clients.
pub open spec fn after_peaks(counts: MetricCounts, currents: Seq<usize>) -> MetricCounts
    decreases currents.len(),
{
    if currents.len() == 0 {
        counts
    } else {
        after_peaks(counts, currents.drop_last()).after_peak(currents.last())
    }
}

/// The counters after `n` accepted connections.
pub open spec fn after_connections(counts: MetricCounts, n: nat) -> MetricCounts
    decreases n,
{
    if n == 0 {
        counts
    } else {
        after_connections(counts, (n - 1) as nat).after_connection()
    }
}

/// Reporting any sequence of client counts leaves the peak at the largest of
/// the earlier peak and all reported counts: it is at least each of them and
/// is one of them. No other counter changes.
pub proof fn lemma_peak_over_sequence(counts: MetricCounts, currents: Seq<usize>)
    ensures
        after_peaks(counts, currents).peak_clients >= counts.peak_clients,
        forall|i: int| 0 <= i < currents.len() ==> after_peaks(counts, currents).peak_clients >= #[trigger] currents[i],
        after_peaks(counts, currents).peak_clients == counts.peak_clients || exists|i: int|
            0 <= i < currents.len() && after_peaks(counts, currents).peak_clients == #[trigger] currents[i],
        after_peaks(counts, currents) == (MetricCounts {
            peak_clients: after_peaks(counts, currents).peak_clients,
            ..counts
        }),
    decreases currents.len(),
{
    if currents.len() > 0 {
        let rest = currents.drop_last();
        lemma_peak_over_sequence(counts, rest);
        let before = after_peaks(counts, rest).peak_clients;
        let after = after_peaks(counts, currents).peak_clients;
        assert forall|i: int| 0 <= i < currents.len() implies after >= #[trigger] currents[i] by {
            if i < currents.len() - 1 {
                assert(currents[i] == rest[i]);
            }
        }
        if after != counts.peak_clients {
            if after == currents.last() {
                assert(after == currents[currents.len() - 1]);
            } else {
                assert(after == before);
                let j = choose|j: int| 0 <= j < rest.len() && before == #[trigger] rest[j];
                assert(currents[j] == rest[j]);
            }
        }
    }
}

/// Without wrap-around, `n` accepted connections add exactly `n` to the total
/// and to the current second's count, and change nothing else.
pub proof fn lemma_connections_add_up(counts: MetricCounts, n: nat)
    requires
        counts.total_connections + n <= u64::MAX,
        counts.connections_last_second + n <= u64::MAX,
    ensures
        after_connections(counts, n).total_connections == counts.total_connections + n,
        after_connections(counts, n).connections_last_second == counts.connections_last_second + n,
        after_connections(counts, n) == (MetricCounts {
            total_connections: after_connections(counts, n).total_connections,
            connections_last_second: after_connections(counts, n).connections_last_second,
            ..counts
        }),
    decreases n,
{
    if n > 0 {
        lemma_connections_add_up(counts, (n - 1) as nat);
    }
}

/// The time from `start` to `now`, in the clock's nanoseconds, or zero when
/// `now` is not later.
pub open spec fn time_between(start: u64, now: u64) -> u64 {
    if now >= start {
        (now - start) as u64
    } else {
        0
    }
}

/// Traffic counters of the gateway server.
///
/// Times are readings of the metrics' own clock, in nanoseconds. Totals count since the server started; the `*_last_second` counters
/// count since the last call of `reset_per_second_counters`.
#[derive(Debug)]
pub struct ServerMetrics {
    pub clock: MonotonicClock,
    pub start_time: u64,
    pub total_connections: u64,
    pub total_messages: u64,
    pub total_bytes_received: u64,
    pub total_bytes_sent: u64,
    pub peak_clients: usize,
    pub connections_last_second: u64,
    pub messages_last_second: u64,
    pub last_reset_time: u64,
}

impl View for ServerMetrics {
    type V = MetricCounts;

    open spec fn view(&self) -> MetricCounts {
        MetricCounts {
            total_connections: self.total_connections,
            total_messages: self.total_messages,
            total_bytes_received: self.total_bytes_received,
            total_bytes_sent: self.total_bytes_sent,
            peak_clients: self.peak_clients,
            connections_last_second: self.connections_last_second,
            messages_last_second: self.messages_last_second,
        }
    }
}

impl ServerMetrics {
    /// Fresh metrics on a new clock: every counter is zero, and both the
    /// start time and the last reset time are readings of that clock taken now.
    pub fn new() -> (m: Self)
        ensures
            m@ == MetricCounts::zero(),
    {
        let clock = MonotonicClock::new();
        let start_time = clock.now_nanos();
        let last_reset_time = clock.now_nanos();
        ServerMetrics::started_at(clock, start_time, last_reset_time)
    }

    /// Fresh metrics on `clock`, started at `start_time` and last reset at
    /// `last_reset_time`: every counter is zero.
    pub fn started_at(clock: MonotonicClock, start_time: u64, last_reset_time: u64) -> (m: Self)
        ensures
            m@ == MetricCounts::zero(),
            m.clock == clock,
            m.start_time == start_time,
            m.last_reset_time == last_reset_time,
    {
        ServerMetrics {
            clock,
            start_time,
            total_connections: 0,
            total_messages: 0,
            total_bytes_received: 0,
            total_bytes_sent: 0,
            peak_clients: 0,
            connections_last_second: 0,
            messages_last_second: 0,
            last_reset_time,
        }
    }

    /// Counts one accepted connection, in the total and in the current second.
    pub fn record_connection(&mut self)
        ensures
            final(self)@ == old(self)@.after_connection(),
            final(self).clock == old(self).clock,
            final(self).start_time == old(self).start_time,
            final(self).last_reset_time == old(self).last_reset_time,
    {
        self.total_connections = self.total_connections.wrapping_add(1);
        self.connections_last_second = self.connections_last_second.wrapping_add(1);
    }

    /// Counts one received message of `bytes` bytes: one more message in the
    /// total and in the current second, and `bytes` more bytes received.
    pub fn record_message(&mut self, bytes: usize)
        ensures
            final(self)@ == old(self)@.after_message(bytes),
            final(self).clock == old(self).clock,
            final(self).start_time == old(self).start_time,
            final(self).last_reset_time == old(self).last_reset_time,
    {
        self.total_messages = self.total_messages.wrapping_add(1);
        self.total_bytes_received = self.total_bytes_received.wrapping_add(bytes as u64);
        self.messages_last_second = self.messages_last_second.wrapping_add(1);
    }

    /// Counts `bytes` more bytes sent.
    pub fn record_bytes_sent(&mut self, bytes: usize)
        ensures
            final(self)@ == old(self)@.after_bytes_sent(bytes),
            final(self).clock == old(self).clock,
            final(self).start_time == old(self).start_time,
            final(self).last_reset_time == old(self).last_reset_time,
    {
        self.total_bytes_sent = self.total_bytes_sent.wrapping_add(bytes as u64);
    }

    /// Raises the recorded peak to `current_clients` when that is larger.
    pub fn update_peak_clients(&mut self, current_clients: usize)
        ensures
            final(self)@ == old(self)@.after_peak(current_clients),
            final(self).clock == old(self).clock,
            final(self).start_time == old(self).start_time,
            final(self).last_reset_time == old(self).last_reset_time,
    {
        if current_clients > self.peak_clients {
            self.peak_clients = current_clients;
        }
    }

    /// Starts a new second: both per-second counters go back to zero and the
    /// last reset time becomes a reading of the clock taken now. Totals, the
    /// peak and the start time stay as they were.
    pub fn reset_per_second_counters(&mut self)
        ensures
            final(self)@ == old(self)@.after_reset(),
            final(self).clock == old(self).clock,
            final(self).start_time == old(self).start_time,
    {
        let now = self.clock.now_nanos();
        self.reset_per_second_counters_at(now);
    }

    /// Starts a new second at `now`: both per-second counters go back to zero
    /// and the last reset time becomes `now`. Totals, the peak and the start
    /// time stay as they were.
    pub fn reset_per_second_counters_at(&mut self, now: u64)
        ensures
            final(self)@ == old(self)@.after_reset(),
            final(self).clock == old(self).clock,
            final(self).start_time == old(self).start_time,
            final(self).last_reset_time == now,
    {
        self.connections_last_second = 0;
        self.messages_last_second = 0;
        self.last_reset_time = now;
    }

    /// The nanoseconds elapsed since the metrics started, as read from their
    /// clock now: the time from the start time to a reading of the clock
    /// that is no earlier than the last reset (itself a reading of the same
    /// clock, which does not go back; a reading earlier than it is taken as
    /// the reset time). So the uptime covers at least every second that has
    /// been reset since the start.
    pub fn get_uptime(&self) -> (uptime: u64)
        ensures
            exists|now: u64| now >= self.last_reset_time && uptime == time_between(self.start_time, now),
            self.last_reset_time >= self.start_time ==> uptime >= self.last_reset_time - self.start_time,
            uptime <= u64::MAX - self.start_time,
    {
        let reading = self.clock.now_nanos();
        let now = if reading >= self.last_reset_time {
            reading
        } else {
            self.last_reset_time
        };
        self.uptime_at(now)
    }

    /// The nanoseconds from the start time to the clock reading `now`, or
    /// zero when `now` is not later.
    pub fn uptime_at(&self, now: u64) -> (uptime: u64)
        ensures
            uptime == time_between(self.start_time, now),
            now >= self.start_time ==> uptime + self.start_time == now,
            now < self.start_time ==> uptime == 0,
    {
        now.saturating_sub(self.start_time)
    }

    /// The current values of all counters.
    pub fn counts(&self) -> (counts: MetricCounts)
        ensures
            counts == self@,
    {
        MetricCounts {
            total_connections: self.total_connections,
            total_messages: self.total_messages,
            total_bytes_received: self.total_bytes_received,
            total_bytes_sent: self.total_bytes_sent,
            peak_clients: self.peak_clients,
            connections_last_second: self.connections_last_second,
            messages_last_second: self.messages_last_second,
        }
    }
}

} // verus!
