//! A session service run as a subprocess that speaks one JSON message per
//! line. The library holds the messages as values; the runtime writes and
//! reads the lines.

use vstd::prelude::*;
use crate::bridge::HostCall;
use crate::instance::copy_bytes;
use crate::recipient::{ClientId, MessageRecipient};

verus! {

/// Builds stdio services that run `command`.
pub struct StdioProcessServiceFactory {
    command: String,
}

impl StdioProcessServiceFactory {
    /// A factory for services that run `command`.
    pub fn new(command: &str) -> (r: StdioProcessServiceFactory)
        ensures
            r.spec_command() == command@,
    {
        StdioProcessServiceFactory { command: command.to_owned() }
    }

    pub closed spec fn spec_command(&self) -> Seq<char> {
        self.command@
    }

    /// The command each service runs.
    pub fn command(&self) -> (r: &str)
        ensures
            r@ == self.spec_command(),
    {
        self.command.as_str()
    }
}

/// The body of a message between host and process.
#[derive(Clone, Debug)]
pub enum MessagePayload {
    Bytes(Vec<u8>),
    Text(String),
}

/// An event the host sends to the process.
#[derive(Clone, Debug)]
pub enum MessageToProcess {
    Connect { client: ClientId },
    Disconnect { client: ClientId },
    Message { client: ClientId, message: MessagePayload },
    Timer,
}

/// A message the process sends out through the room.
#[derive(Clone, Debug)]
pub enum MessageFromProcess {
    Message { recipient: MessageRecipient, message: MessagePayload },
}

impl MessageToProcess {
    /// The event for a text message from `client`.
    pub fn text(client: ClientId, message: &str) -> (r: MessageToProcess)
        ensures
            r matches MessageToProcess::Message { client: c, message: MessagePayload::Text(t) }
                && c == client && t@ == message@,
    {
        MessageToProcess::Message { client, message: MessagePayload::Text(message.to_owned()) }
    }

    /// The event for binary data from `client`.
    pub fn binary(client: ClientId, message: &[u8]) -> (r: MessageToProcess)
        ensures
            r matches MessageToProcess::Message { client: c, message: MessagePayload::Bytes(b) }
                && c == client && b@ == message@,
    {
        let b = copy_bytes(message);
        MessageToProcess::Message { client, message: MessagePayload::Bytes(b) }
    }
}

impl MessageFromProcess {
    /// The outbound event that the process's message stands for: text is
    /// sent as a message, bytes as binary, to the same recipient.
    pub fn into_host_call(self) -> (r: HostCall)
        ensures
            match (self, r) {
                (
                    MessageFromProcess::Message { recipient, message: MessagePayload::Text(t) },
                    HostCall::SendMessage { recipient: to, text },
                ) => to == recipient && text == t,
                (
                    MessageFromProcess::Message { recipient, message: MessagePayload::Bytes(b) },
                    HostCall::SendBinary { recipient: to, data },
                ) => to == recipient && data == b,
                _ => false,
            },
    {
        match self {
            MessageFromProcess::Message { recipient, message: MessagePayload::Text(text) } => {
                HostCall::SendMessage { recipient, text }
            },
            MessageFromProcess::Message { recipient, message: MessagePayload::Bytes(data) } => {
                HostCall::SendBinary { recipient, data }
            },
        }
    }
}

} // verus!
