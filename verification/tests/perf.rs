use iot_gateway::perf::{
    client_count_allowed, completion_timeout_secs, pause_after_spawn, perf_data, perf_farewell, perf_hello,
    report_finished, spawn_interval_millis, ClientOutcome, LineKind, PerfAction, PerfSession, TestStats,
    DATA_INTERVAL_NANOS, KEEPALIVE_INTERVAL_NANOS,
};
use iot_gateway::message::MessageType;

const SEC: u64 = 1_000_000_000;

#[test]
fn new_stats_are_zero() {
    let s = TestStats::new();
    assert_eq!(s.total_clients, 0);
    assert_eq!(s.connected_clients, 0);
    assert_eq!(s.failed_connections, 0);
    assert_eq!(s.messages_sent, 0);
    assert_eq!(s.messages_received, 0);
    assert_eq!(s.total_bytes_sent, 0);
    assert_eq!(s.total_bytes_received, 0);
    assert_eq!(s.errors, 0);
}

#[test]
fn stats_record_a_client_lifecycle() {
    let mut s = TestStats::new();
    s.record_outcome(ClientOutcome::Connected);
    s.record_line(LineKind::Hello, 70);
    s.record_line(LineKind::Acknowledgement, 90);
    s.record_line(LineKind::Keepalive, 50);
    s.record_line(LineKind::Data, 60);
    s.record_line(LineKind::Farewell, 40);
    s.record_outcome(ClientOutcome::SessionEnded { error: true });
    assert_eq!(s.total_clients, 1);
    assert_eq!(s.connected_clients, 0);
    assert_eq!(s.failed_connections, 0);
    assert_eq!(s.messages_sent, 2);
    assert_eq!(s.total_bytes_sent, 220);
    assert_eq!(s.messages_received, 1);
    assert_eq!(s.total_bytes_received, 90);
    assert_eq!(s.errors, 1);
}

#[test]
fn session_without_error_counts_no_error() {
    let mut s = TestStats::new();
    s.record_outcome(ClientOutcome::Connected);
    s.record_outcome(ClientOutcome::SessionEnded { error: false });
    assert_eq!(s.errors, 0);
    assert_eq!(s.connected_clients, 0);
}

#[test]
fn failures_are_counted_among_clients() {
    let mut s = TestStats::new();
    s.record_outcome(ClientOutcome::ConnectFailed);
    s.record_outcome(ClientOutcome::Connected);
    s.record_outcome(ClientOutcome::HandshakeFailed);
    s.record_outcome(ClientOutcome::Connected);
    assert_eq!(s.total_clients, 3);
    assert_eq!(s.failed_connections, 2);
    assert_eq!(s.connected_clients, 2);
    assert!(s.failed_connections <= s.total_clients);
    assert_eq!(s.final_summary().successful_connections, 1);
}

#[test]
fn final_summary_figures() {
    let mut s = TestStats::new();
    for _ in 0..5 {
        s.record_outcome(ClientOutcome::Connected);
    }
    s.record_outcome(ClientOutcome::HandshakeFailed);
    s.record_line(LineKind::Hello, 2047);
    s.record_line(LineKind::Acknowledgement, 5000);
    let summary = s.final_summary();
    assert_eq!(summary.successful_connections, 4);
    assert_eq!(summary.kib_sent, 1);
    assert_eq!(summary.kib_received, 4);
}

#[test]
fn client_limit_is_ten_thousand() {
    assert!(!client_count_allowed(0));
    assert!(client_count_allowed(1));
    assert!(client_count_allowed(10_000));
    assert!(!client_count_allowed(10_001));
}

#[test]
fn spawn_interval_shares_out_the_rampup() {
    assert_eq!(spawn_interval_millis(5, 100), 50);
    assert_eq!(spawn_interval_millis(15, 5000), 3);
    assert_eq!(spawn_interval_millis(1, 3000), 0);
    assert_eq!(spawn_interval_millis(0, 100), 0);
    assert_eq!(spawn_interval_millis(5, 0), 0);
}

#[test]
fn pause_after_all_but_the_last_client() {
    assert!(pause_after_spawn(0, 3, 10));
    assert!(pause_after_spawn(1, 3, 10));
    assert!(!pause_after_spawn(2, 3, 10));
    assert!(!pause_after_spawn(0, 3, 0));
}

#[test]
fn run_plan_arithmetic() {
    assert_eq!(completion_timeout_secs(30, 5), 65);
    assert!(!report_finished(89, 30));
    assert!(report_finished(90, 30));
}

#[test]
fn schedule_sends_keepalives_every_ten_seconds() {
    let mut s = PerfSession::new(5, 0, 60 * SEC);
    assert!(!s.keepalive_due(9 * SEC));
    assert!(s.keepalive_due(KEEPALIVE_INTERVAL_NANOS));
    s.keepalive_sent(10 * SEC);
    assert!(!s.keepalive_due(19 * SEC));
    assert!(s.keepalive_due(20 * SEC));
}

#[test]
fn schedule_sends_at_most_the_budgeted_data() {
    let mut s = PerfSession::new(2, 0, 60 * SEC);
    assert!(!s.data_due(4 * SEC));
    assert!(s.data_due(DATA_INTERVAL_NANOS));
    assert_eq!(s.next_data_number(), 1);
    s.data_message_sent(5 * SEC);
    assert_eq!(s.next_data_number(), 2);
    assert!(s.data_due(10 * SEC));
    s.data_message_sent(10 * SEC);
    assert_eq!(s.data_sent, 2);
    assert!(!s.data_due(100 * SEC));
}

#[test]
fn schedule_steps_keepalive_then_data_then_wait() {
    let mut s = PerfSession::new(1, 0, 60 * SEC);
    let now = 10 * SEC;
    assert_eq!(s.next_action(now), PerfAction::SendKeepalive);
    s.keepalive_sent(now);
    assert_eq!(s.next_action(now), PerfAction::SendData { number: 1 });
    s.data_message_sent(now);
    assert_eq!(s.next_action(now), PerfAction::Wait);
    assert_eq!(s.next_action(20 * SEC), PerfAction::SendKeepalive);
    assert_eq!(s.next_action(60 * SEC), PerfAction::Finish);
}

#[test]
fn schedule_ends_at_the_deadline() {
    let s = PerfSession::new(1, 0, 30 * SEC);
    assert!(!s.finished(30 * SEC - 1));
    assert!(s.finished(30 * SEC));
}

#[test]
fn clock_going_back_never_makes_anything_due() {
    let s = PerfSession::new(1, 50 * SEC, 100 * SEC);
    assert!(!s.keepalive_due(0));
    assert!(!s.data_due(0));
}

#[test]
fn perf_messages() {
    let hello = perf_hello(3, 11);
    assert_eq!((hello.client_id, hello.message_type, hello.payload.as_str(), hello.timestamp), (3, MessageType::Connect, "Perf test client", 11));
    let data = perf_data(3, 4, 12);
    assert_eq!((data.message_type, data.payload.as_str()), (MessageType::Data, "Perf test data #4"));
    let bye = perf_farewell(3, 13);
    assert_eq!((bye.message_type, bye.payload.as_str()), (MessageType::Disconnect, "Perf test complete"));
}
