//! The messages and schedule of the example IoT client.

use vstd::prelude::*;
use vstd::string::StringExecFns;
use crate::decimal::decimal;
use crate::message::{ClientMessage, MessageType, message_is, numbered_payload};

verus! {

/// The client sends a heartbeat every 30 seconds.
pub const HEARTBEAT_INTERVAL_SECS: u64 = 30;

/// The client waits 2 seconds before its first data message.
pub const TEST_DATA_DELAY_SECS: u64 = 2;

/// The client waits 5 seconds after each data message.
pub const TEST_DATA_INTERVAL_SECS: u64 = 5;

/// The client sends 5 data messages, numbered from 1.
pub const TEST_DATA_MESSAGES: u64 = 5;

/// What the client sends next in its test-data run.
#[derive(Debug, Clone, Copy, PartialEq, Eq, Structural)]
pub enum DataStep {
    /// The data message carrying `number`.
    Data { number: u64 },
    /// The closing message; the run ends.
    Farewell,
}

/// The next step of the test-data run after `sent` data messages: data
/// messages numbered 1 to `TEST_DATA_MESSAGES`, then the farewell.
pub fn test_data_step(sent: u64) -> (step: DataStep)
    ensures
        sent < TEST_DATA_MESSAGES ==> step == (DataStep::Data { number: (sent + 1) as u64 }),
        sent >= TEST_DATA_MESSAGES ==> step == DataStep::Farewell,
{
    if sent < TEST_DATA_MESSAGES {
        DataStep::Data { number: sent + 1 }
    } else {
        DataStep::Farewell
    }
}

/// The message the client opens its connection with.
pub fn client_hello(client_id: u128, timestamp: u64) -> (m: ClientMessage)
    ensures
        message_is(m, client_id, MessageType::Connect, "Hello from TLS client"@, timestamp),
{
    ClientMessage {
        client_id,
        message_type: MessageType::Connect,
        payload: String::from_str("Hello from TLS client"),
        timestamp,
    }
}

/// A keepalive message, as both the client and the load generator send it.
pub fn heartbeat(client_id: u128, timestamp: u64) -> (m: ClientMessage)
    ensures
        message_is(m, client_id, MessageType::Heartbeat, "keepalive"@, timestamp),
{
    ClientMessage {
        client_id,
        message_type: MessageType::Heartbeat,
        payload: String::from_str("keepalive"),
        timestamp,
    }
}

/// The `n`-th data message of the client.
pub fn test_data(client_id: u128, n: u64, timestamp: u64) -> (m: ClientMessage)
    ensures
        message_is(m, client_id, MessageType::Data, "Test data message #"@ + decimal(n as nat), timestamp),
{
    ClientMessage {
        client_id,
        message_type: MessageType::Data,
        payload: numbered_payload("Test data message #", n),
        timestamp,
    }
}

/// The message the client closes its connection with.
pub fn client_farewell(client_id: u128, timestamp: u64) -> (m: ClientMessage)
    ensures
        message_is(m, client_id, MessageType::Disconnect, "Goodbye"@, timestamp),
{
    ClientMessage {
        client_id,
        message_type: MessageType::Disconnect,
        payload: String::from_str("Goodbye"),
        timestamp,
    }
}

} // verus!
