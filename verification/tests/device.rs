use iot_gateway::device::{client_farewell, client_hello, heartbeat, test_data, test_data_step, DataStep, TEST_DATA_MESSAGES};
use iot_gateway::message::MessageType;

#[test]
fn client_hello_message() {
    let m = client_hello(99, 1_674_472_800);
    assert_eq!(m.client_id, 99);
    assert_eq!(m.message_type, MessageType::Connect);
    assert_eq!(m.payload, "Hello from TLS client");
    assert_eq!(m.timestamp, 1_674_472_800);
}

#[test]
fn heartbeat_message() {
    let m = heartbeat(99, 5);
    assert_eq!((m.message_type, m.payload.as_str(), m.timestamp), (MessageType::Heartbeat, "keepalive", 5));
}

#[test]
fn test_data_messages_are_numbered_from_one() {
    let payloads: Vec<String> = (1..=TEST_DATA_MESSAGES).map(|i| test_data(1, i, 0).payload).collect();
    assert_eq!(
        payloads,
        vec![
            "Test data message #1",
            "Test data message #2",
            "Test data message #3",
            "Test data message #4",
            "Test data message #5"
        ]
    );
    assert_eq!(test_data(1, 12, 0).message_type, MessageType::Data);
}

#[test]
fn farewell_message() {
    let m = client_farewell(99, 6);
    assert_eq!((m.message_type, m.payload.as_str()), (MessageType::Disconnect, "Goodbye"));
}

#[test]
fn test_data_run_is_five_numbered_messages_then_farewell() {
    let steps: Vec<DataStep> = (0..7).map(test_data_step).collect();
    assert_eq!(
        steps,
        vec![
            DataStep::Data { number: 1 },
            DataStep::Data { number: 2 },
            DataStep::Data { number: 3 },
            DataStep::Data { number: 4 },
            DataStep::Data { number: 5 },
            DataStep::Farewell,
            DataStep::Farewell,
        ]
    );
}
