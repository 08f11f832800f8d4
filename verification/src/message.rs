//! The messages that clients and the gateway exchange, one JSON object per line.

use vstd::prelude::*;
use vstd::string::StringExecFns;
use crate::decimal::{decimal, push_decimal};

verus! {

/// The kind of a message.
#[derive(Debug, Clone, Copy, PartialEq, Eq, Structural)]
pub enum MessageType {
    Connect,
    Disconnect,
    Data,
    Heartbeat,
}

/// A message: who sent it (the 128-bit value of a UUID), what kind it is,
/// its text and its Unix timestamp in seconds.
#[derive(Debug)]
pub struct ClientMessage {
    pub client_id: u128,
    pub message_type: MessageType,
    pub payload: String,
    pub timestamp: u64,
}

/// `message` was sent by `client_id`, is of kind `kind`, carries `text` and
/// the time `timestamp`.
pub open spec fn message_is(
    message: ClientMessage,
    client_id: u128,
    kind: MessageType,
    text: Seq<char>,
    timestamp: u64,
) -> bool {
    &&& message.client_id == client_id
    &&& message.message_type == kind
    &&& message.payload@ == text
    &&& message.timestamp == timestamp
}

/// The text `prefix` followed by `n` in decimal, as in `"Test data message #3"`.
pub fn numbered_payload(prefix: &str, n: u64) -> (text: String)
    ensures
        text@ == prefix@ + decimal(n as nat),
{
    let mut text = String::from_str(prefix);
    push_decimal(&mut text, n);
    text
}

} // verus!
