use iot_gateway::clock::MonotonicClock;
use iot_gateway::metrics::{MetricCounts, ServerMetrics};

fn zero() -> MetricCounts {
    MetricCounts {
        total_connections: 0,
        total_messages: 0,
        total_bytes_received: 0,
        total_bytes_sent: 0,
        peak_clients: 0,
        connections_last_second: 0,
        messages_last_second: 0,
    }
}

#[test]
fn new_metrics_start_at_zero() {
    let m = ServerMetrics::new();
    assert_eq!(m.counts(), zero());
}

#[test]
fn record_connection_counts_total_and_rate() {
    let mut m = ServerMetrics::new();
    m.record_connection();
    m.record_connection();
    assert_eq!(m.total_connections, 2);
    assert_eq!(m.connections_last_second, 2);
    assert_eq!(m.total_messages, 0);
}

#[test]
fn record_message_counts_messages_and_bytes() {
    let mut m = ServerMetrics::new();
    m.record_message(10);
    m.record_message(0);
    m.record_message(32);
    assert_eq!(m.total_messages, 3);
    assert_eq!(m.messages_last_second, 3);
    assert_eq!(m.total_bytes_received, 42);
    assert_eq!(m.total_bytes_sent, 0);
}

#[test]
fn record_bytes_sent_adds_up() {
    let mut m = ServerMetrics::new();
    m.record_bytes_sent(100);
    m.record_bytes_sent(23);
    assert_eq!(m.total_bytes_sent, 123);
    assert_eq!(m.total_messages, 0);
}

#[test]
fn counters_wrap_around_like_atomics() {
    let mut m = ServerMetrics::new();
    m.total_connections = u64::MAX;
    m.record_connection();
    assert_eq!(m.total_connections, 0);
    m.total_bytes_received = u64::MAX - 1;
    m.record_message(3);
    assert_eq!(m.total_bytes_received, 1);
}

#[test]
fn peak_is_the_running_maximum() {
    let mut m = ServerMetrics::new();
    m.update_peak_clients(3);
    assert_eq!(m.peak_clients, 3);
    m.update_peak_clients(1);
    assert_eq!(m.peak_clients, 3);
    m.update_peak_clients(7);
    assert_eq!(m.peak_clients, 7);
    m.update_peak_clients(7);
    assert_eq!(m.peak_clients, 7);
}

#[test]
fn reset_clears_rates_and_keeps_totals() {
    let mut m = ServerMetrics::new();
    m.record_connection();
    m.record_message(5);
    m.record_bytes_sent(9);
    m.update_peak_clients(2);
    m.reset_per_second_counters();
    assert_eq!(m.connections_last_second, 0);
    assert_eq!(m.messages_last_second, 0);
    assert_eq!(m.total_connections, 1);
    assert_eq!(m.total_messages, 1);
    assert_eq!(m.total_bytes_received, 5);
    assert_eq!(m.total_bytes_sent, 9);
    assert_eq!(m.peak_clients, 2);
    assert!(m.counts().connections_last_second <= m.counts().total_connections);
}

#[test]
fn rates_stay_within_totals_across_resets() {
    let mut m = ServerMetrics::new();
    for i in 0..10 {
        m.record_connection();
        m.record_message(i);
        if i % 3 == 0 {
            m.reset_per_second_counters();
        }
        let c = m.counts();
        assert!(c.connections_last_second <= c.total_connections);
        assert!(c.messages_last_second <= c.total_messages);
    }
}

#[test]
fn uptime_grows() {
    let m = ServerMetrics::new();
    let first = m.get_uptime();
    let second = m.get_uptime();
    assert!(second >= first);
}

#[test]
fn reset_at_records_the_given_time() {
    let mut m = ServerMetrics::started_at(MonotonicClock::new(), 100, 100);
    m.record_connection();
    m.reset_per_second_counters_at(5_000);
    assert_eq!(m.last_reset_time, 5_000);
    assert_eq!(m.start_time, 100);
    assert_eq!(m.connections_last_second, 0);
    assert_eq!(m.total_connections, 1);
}

#[test]
fn started_at_records_both_times() {
    let m = ServerMetrics::started_at(MonotonicClock::new(), 7, 9);
    assert_eq!(m.start_time, 7);
    assert_eq!(m.last_reset_time, 9);
    assert_eq!(m.counts(), zero());
}

#[test]
fn uptime_is_measured_from_the_start_time() {
    let m = ServerMetrics::started_at(MonotonicClock::new(), 1_000, 4_000);
    assert_eq!(m.uptime_at(5_000), 4_000);
    assert_eq!(m.uptime_at(1_000), 0);
    assert_eq!(m.uptime_at(500), 0);
}

#[test]
fn clock_readings_do_not_go_back() {
    let clock = MonotonicClock::new();
    let first = clock.now_nanos();
    let second = clock.now_nanos();
    assert!(second >= first);
}

#[test]
fn peak_over_a_sequence_is_the_maximum() {
    let mut m = ServerMetrics::new();
    let counts = [3usize, 9, 2, 9, 4, 0];
    for c in counts {
        m.update_peak_clients(c);
    }
    assert_eq!(m.peak_clients, *counts.iter().max().unwrap());
}

#[test]
fn n_connections_add_n() {
    let mut m = ServerMetrics::new();
    for _ in 0..17 {
        m.record_connection();
    }
    assert_eq!(m.total_connections, 17);
    assert_eq!(m.connections_last_second, 17);
}
