//! The errors of the protocol.

use crate::fields::Field;
use vstd::prelude::*;

verus! {

/// Why the value of a field was not accepted.
#[derive(Clone, Copy, Debug, PartialEq, Eq, Structural)]
pub enum Cause {
    /// The member is not a JSON string.
    NotText,
    /// The text is not a UUID.
    NotAnIdentifier,
    /// The text is not an address.
    NotAnAddress,
    /// The text is not a date and time.
    NotATimestamp,
    /// The request type is none that the protocol knows.
    UnknownRequest,
}

/// Why a datagram was not accepted as an envelope.
#[derive(Clone, Copy, Debug, PartialEq, Eq, Structural)]
pub enum DecodeError {
    /// The datagram is too long, is not UTF-8 or is not JSON.
    Malformed,
    /// A field that the envelope needs is not there.
    MissingField(Field),
    /// A field is there, but its value is not of the field's type.
    InvalidField(Field, Cause),
}

/// Errors of building and reading messages.
#[derive(Debug)]
pub enum MessageError {
    /// No message could be made; the text says why.
    MessageCreationError(String),
    /// A document or a datagram is no message.
    JsonParseError(DecodeError),
}

/// Errors of a peer.
#[derive(Debug)]
pub enum ClientError {
    /// The rendezvous server gave no answer, or none that fits the request.
    ServerUnavailableError(String),
    /// The server has no peer on record under the identifier asked for.
    PeerNotFoundError(String),
    /// A datagram could not be sent or received.
    UdpFailureError(String),
    /// The peer could not be set up.
    ClientCreationError(String),
}

/// Errors of the rendezvous server.
#[derive(Debug)]
pub enum NodeError {
    /// The server could not be set up.
    NodeCreationError(String),
    /// A datagram that reached the server is no envelope.
    JsonParseError(DecodeError),
}

impl Clone for MessageError {
    fn clone(&self) -> (copy: Self)
        ensures
            copy == *self,
    {
        match self {
            MessageError::MessageCreationError(message) => MessageError::MessageCreationError(
                message.clone(),
            ),
            MessageError::JsonParseError(error) => MessageError::JsonParseError(*error),
        }
    }
}

impl Clone for ClientError {
    fn clone(&self) -> (copy: Self)
        ensures
            copy == *self,
    {
        match self {
            ClientError::ServerUnavailableError(message) => ClientError::ServerUnavailableError(
                message.clone(),
            ),
            ClientError::PeerNotFoundError(message) => ClientError::PeerNotFoundError(
                message.clone(),
            ),
            ClientError::UdpFailureError(message) => ClientError::UdpFailureError(message.clone()),
            ClientError::ClientCreationError(message) => ClientError::ClientCreationError(
                message.clone(),
            ),
        }
    }
}

impl Clone for NodeError {
    fn clone(&self) -> (copy: Self)
        ensures
            copy == *self,
    {
        match self {
            NodeError::NodeCreationError(message) => NodeError::NodeCreationError(message.clone()),
            NodeError::JsonParseError(error) => NodeError::JsonParseError(*error),
        }
    }
}

impl Cause {
    /// The cause in words.
    pub open spec fn description(self) -> Seq<char> {
        match self {
            Cause::NotText => "not a string"@,
            Cause::NotAnIdentifier => "not an identifier"@,
            Cause::NotAnAddress => "not an address"@,
            Cause::NotATimestamp => "not a timestamp"@,
            Cause::UnknownRequest => "unknown request type"@,
        }
    }

    /// The cause in words.
    pub fn to_str(self) -> (text: &'static str)
        ensures
            text@ == self.description(),
    {
        match self {
            Cause::NotText => "not a string",
            Cause::NotAnIdentifier => "not an identifier",
            Cause::NotAnAddress => "not an address",
            Cause::NotATimestamp => "not a timestamp",
            Cause::UnknownRequest => "unknown request type",
        }
    }
}

impl DecodeError {
    /// The error in words.
    pub open spec fn description(self) -> Seq<char> {
        match self {
            DecodeError::Malformed => "malformed datagram"@,
            DecodeError::MissingField(field) => "missing field "@ + field.spec_name(),
            DecodeError::InvalidField(field, cause) => "invalid field "@ + field.spec_name()
                + ": "@ + cause.description(),
        }
    }

    /// The error in words.
    pub fn to_string(&self) -> (text: String)
        ensures
            text@ == self.description(),
    {
        match self {
            DecodeError::Malformed => String::from_str("malformed datagram"),
            DecodeError::MissingField(field) => {
                let mut text = String::from_str("missing field ");
                text.append(field.name());
                text
            },
            DecodeError::InvalidField(field, cause) => {
                let mut text = String::from_str("invalid field ");
                text.append(field.name());
                text.append(": ");
                text.append(cause.to_str());
                text
            },
        }
    }
}

impl MessageError {
    /// The error in words: the name of its kind, a colon, and the details.
    pub open spec fn description(self) -> Seq<char> {
        match self {
            MessageError::MessageCreationError(message) => "MessageError: "@ + message@,
            MessageError::JsonParseError(error) => "JsonParseError: "@ + error.description(),
        }
    }

    /// The error in words.
    pub fn to_string(&self) -> (text: String)
        ensures
            text@ == self.description(),
    {
        match self {
            MessageError::MessageCreationError(message) => {
                let mut text = String::from_str("MessageError: ");
                text.append(message.as_str());
                text
            },
            MessageError::JsonParseError(error) => {
                let mut text = String::from_str("JsonParseError: ");
                let details = error.to_string();
                text.append(details.as_str());
                text
            },
        }
    }
}

impl ClientError {
    /// The error in words: the name of its kind, a colon, and the details.
    pub open spec fn description(self) -> Seq<char> {
        match self {
            ClientError::ServerUnavailableError(message) => "ServerUnavailableError: "@
                + message@,
            ClientError::PeerNotFoundError(message) => "PeerNotFoundError: "@ + message@,
            ClientError::UdpFailureError(message) => "UdpFailureError: "@ + message@,
            ClientError::ClientCreationError(message) => "ClientCreationError: "@ + message@,
        }
    }

    /// The error in words.
    pub fn to_string(&self) -> (text: String)
        ensures
            text@ == self.description(),
    {
        let (mut text, message) = match self {
            ClientError::ServerUnavailableError(message) => (
                String::from_str("ServerUnavailableError: "),
                message,
            ),
            ClientError::PeerNotFoundError(message) => (
                String::from_str("PeerNotFoundError: "),
                message,
            ),
            ClientError::UdpFailureError(message) => (
                String::from_str("UdpFailureError: "),
                message,
            ),
            ClientError::ClientCreationError(message) => (
                String::from_str("ClientCreationError: "),
                message,
            ),
        };
        text.append(message.as_str());
        text
    }
}

impl NodeError {
    /// The error in words: the name of its kind, a colon, and the details.
    pub open spec fn description(self) -> Seq<char> {
        match self {
            NodeError::NodeCreationError(message) => "NodeCreationError: "@ + message@,
            NodeError::JsonParseError(error) => "JsonParseError: "@ + error.description(),
        }
    }

    /// The error in words.
    pub fn to_string(&self) -> (text: String)
        ensures
            text@ == self.description(),
    {
        match self {
            NodeError::NodeCreationError(message) => {
                let mut text = String::from_str("NodeCreationError: ");
                text.append(message.as_str());
                text
            },
            NodeError::JsonParseError(error) => {
                let mut text = String::from_str("JsonParseError: ");
                let details = error.to_string();
                text.append(details.as_str());
                text
            },
        }
    }
}

} // verus!
