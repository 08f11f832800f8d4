use iot_gateway::message::{ClientMessage, MessageType};
use iot_gateway::registry::get_client_count;
use iot_gateway::session::{acknowledgement, CloseReason, Gateway, SessionAction, SessionEvent, SessionState};

fn message(client_id: u128, message_type: MessageType, payload: &str) -> ClientMessage {
    ClientMessage { client_id, message_type, payload: payload.to_string(), timestamp: 1_674_472_800 }
}

fn line(bytes: usize, m: Option<ClientMessage>) -> SessionEvent {
    SessionEvent::LineRead { bytes, message: m }
}

#[test]
fn hello_registers_and_acknowledges() {
    let mut g = Gateway::new();
    let mut s = SessionState::AwaitingHello;
    let a = g.handle(&mut s, line(80, Some(message(5, MessageType::Connect, "hi"))));
    assert_eq!(a, SessionAction::Acknowledge { client_id: 5 });
    assert_eq!(s, SessionState::Active { client_id: 5 });
    assert_eq!(get_client_count(&g.registry), 1);
    assert_eq!(g.metrics.total_messages, 1);
    assert_eq!(g.metrics.total_bytes_received, 80);
    assert_eq!(g.metrics.peak_clients, 1);
}

#[test]
fn unparsable_hello_aborts_but_is_counted() {
    let mut g = Gateway::new();
    let mut s = SessionState::AwaitingHello;
    let a = g.handle(&mut s, line(12, None));
    assert_eq!(a, SessionAction::Aborted);
    assert_eq!(s, SessionState::Closed);
    assert_eq!(get_client_count(&g.registry), 0);
    assert_eq!(g.metrics.total_messages, 1);
    assert_eq!(g.metrics.total_bytes_received, 12);
}

#[test]
fn empty_hello_is_counted_and_aborts() {
    let mut g = Gateway::new();
    let mut s = SessionState::AwaitingHello;
    let a = g.handle(&mut s, line(0, None));
    assert_eq!(a, SessionAction::Aborted);
    assert_eq!(g.metrics.total_messages, 1);
}

#[test]
fn read_failure_before_hello_aborts_uncounted() {
    let mut g = Gateway::new();
    let mut s = SessionState::AwaitingHello;
    let a = g.handle(&mut s, SessionEvent::ReadFailed);
    assert_eq!(a, SessionAction::Aborted);
    assert_eq!(s, SessionState::Closed);
    assert_eq!(g.metrics.total_messages, 0);
}

#[test]
fn heartbeat_data_and_connect_keep_the_session() {
    let mut g = Gateway::new();
    let mut s = SessionState::AwaitingHello;
    g.handle(&mut s, line(50, Some(message(9, MessageType::Connect, "hi"))));
    assert_eq!(
        g.handle(&mut s, line(40, Some(message(9, MessageType::Heartbeat, "keepalive")))),
        SessionAction::Heartbeat { client_id: 9 }
    );
    assert_eq!(
        g.handle(&mut s, line(60, Some(message(9, MessageType::Data, "t=23.5")))),
        SessionAction::Data { client_id: 9 }
    );
    assert_eq!(g.handle(&mut s, line(45, Some(message(9, MessageType::Connect, "again")))), SessionAction::Ignore);
    assert_eq!(g.handle(&mut s, line(3, None)), SessionAction::Rejected { client_id: 9 });
    assert_eq!(s, SessionState::Active { client_id: 9 });
    assert_eq!(g.metrics.total_messages, 5);
    assert_eq!(g.metrics.total_bytes_received, 198);
    assert_eq!(get_client_count(&g.registry), 1);
}

#[test]
fn messages_are_attributed_to_the_hello_client() {
    let mut g = Gateway::new();
    let mut s = SessionState::AwaitingHello;
    g.handle(&mut s, line(50, Some(message(9, MessageType::Connect, "hi"))));
    let a = g.handle(&mut s, line(40, Some(message(1234, MessageType::Heartbeat, "keepalive"))));
    assert_eq!(a, SessionAction::Heartbeat { client_id: 9 });
}

#[test]
fn disconnect_request_unregisters() {
    let mut g = Gateway::new();
    let mut s = SessionState::AwaitingHello;
    g.handle(&mut s, line(50, Some(message(9, MessageType::Connect, "hi"))));
    let a = g.handle(&mut s, line(30, Some(message(9, MessageType::Disconnect, "bye"))));
    assert_eq!(a, SessionAction::Closed { client_id: 9, reason: CloseReason::Requested });
    assert_eq!(s, SessionState::Closed);
    assert_eq!(get_client_count(&g.registry), 0);
    assert_eq!(g.metrics.total_messages, 2);
}

#[test]
fn end_of_stream_unregisters_uncounted() {
    let mut g = Gateway::new();
    let mut s = SessionState::AwaitingHello;
    g.handle(&mut s, line(50, Some(message(9, MessageType::Connect, "hi"))));
    let a = g.handle(&mut s, line(0, None));
    assert_eq!(a, SessionAction::Closed { client_id: 9, reason: CloseReason::EndOfStream });
    assert_eq!(get_client_count(&g.registry), 0);
    assert_eq!(g.metrics.total_messages, 1);
}

#[test]
fn read_error_unregisters() {
    let mut g = Gateway::new();
    let mut s = SessionState::AwaitingHello;
    g.handle(&mut s, line(50, Some(message(9, MessageType::Connect, "hi"))));
    let a = g.handle(&mut s, SessionEvent::ReadFailed);
    assert_eq!(a, SessionAction::Closed { client_id: 9, reason: CloseReason::ReadError });
    assert_eq!(get_client_count(&g.registry), 0);
}

#[test]
fn failed_acknowledgement_unregisters() {
    let mut g = Gateway::new();
    let mut s = SessionState::AwaitingHello;
    g.handle(&mut s, line(50, Some(message(9, MessageType::Connect, "hi"))));
    let a = g.handle(&mut s, SessionEvent::AckFailed);
    assert_eq!(a, SessionAction::Closed { client_id: 9, reason: CloseReason::AcknowledgementFailed });
    assert_eq!(s, SessionState::Closed);
    assert_eq!(get_client_count(&g.registry), 0);
}

#[test]
fn closed_session_ignores_everything() {
    let mut g = Gateway::new();
    let mut s = SessionState::Closed;
    assert_eq!(g.handle(&mut s, line(10, Some(message(1, MessageType::Connect, "x")))), SessionAction::Ignore);
    assert_eq!(g.handle(&mut s, SessionEvent::ReadFailed), SessionAction::Ignore);
    assert_eq!(s, SessionState::Closed);
    assert_eq!(g.metrics.total_messages, 0);
    assert_eq!(get_client_count(&g.registry), 0);
}

#[test]
fn peak_tracks_concurrent_sessions() {
    let mut g = Gateway::new();
    let mut a = SessionState::AwaitingHello;
    let mut b = SessionState::AwaitingHello;
    g.handle(&mut a, line(10, Some(message(1, MessageType::Connect, "a"))));
    g.handle(&mut b, line(10, Some(message(2, MessageType::Connect, "b"))));
    assert_eq!(g.metrics.peak_clients, 2);
    g.handle(&mut a, line(0, None));
    g.handle(&mut b, line(0, None));
    assert_eq!(get_client_count(&g.registry), 0);
    assert_eq!(g.metrics.peak_clients, 2);
}

#[test]
fn connections_and_sent_bytes_are_counted() {
    let mut g = Gateway::new();
    g.accept_connection();
    g.accept_connection();
    g.bytes_sent(120);
    assert_eq!(g.metrics.total_connections, 2);
    assert_eq!(g.metrics.connections_last_second, 2);
    assert_eq!(g.metrics.total_bytes_sent, 120);
}

#[test]
fn monitor_tick_reports_then_resets() {
    let mut g = Gateway::new();
    let mut s = SessionState::AwaitingHello;
    g.accept_connection();
    g.handle(&mut s, line(10, Some(message(1, MessageType::Connect, "a"))));
    let stats = g.monitor_tick();
    assert_eq!(stats.client_count, 1);
    assert_eq!(stats.counts.connections_last_second, 1);
    assert_eq!(stats.counts.messages_last_second, 1);
    assert_eq!(stats.counts.peak_clients, 1);
    assert_eq!(g.metrics.connections_last_second, 0);
    assert_eq!(g.metrics.messages_last_second, 0);
    assert_eq!(g.metrics.total_connections, 1);
    let again = g.monitor_tick();
    assert_eq!(again.counts.messages_last_second, 0);
    assert_eq!(again.counts.total_messages, 1);
}

#[test]
fn acknowledgement_is_a_connect_from_the_server() {
    let ack = acknowledgement(42, 1_700_000_000);
    assert_eq!(ack.client_id, 42);
    assert_eq!(ack.message_type, MessageType::Connect);
    assert_eq!(ack.payload, "Connected with TLS");
    assert_eq!(ack.timestamp, 1_700_000_000);
}
