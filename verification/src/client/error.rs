use crate::message::Message;
use crate::error::error_text;
use crate::state::{message_name, message_text, state_name, state_text, Request, ServerState};
use crate::version::{format_version, format_versions, version_text, versions_text};
use vstd::prelude::*;
use vstd::string::StringExecFns;

verus! {

/// The error type of std's I/O, carried through as it is.
#[verifier::external_type_specification]
#[verifier::external_body]
pub struct ExIoError(std::io::Error);

/// What can go wrong while a connection is set up.
#[derive(Debug)]
pub enum ConnectionError {
    /// The server chose none of the versions that were offered.
    HandshakeFailed([u32; 4]),
    /// The name under which the server was to be validated is no DNS name.
    InvalidDNSName(String),
    /// The stream failed.
    IoError(std::io::Error),
}

/// What can go wrong in a session.
#[derive(Debug)]
pub enum Error {
    /// The name under which the server was to be validated is no DNS name.
    InvalidDNSName(String),
    /// The stream failed.
    IOError(std::io::Error),
    /// The server chose none of the versions that were offered.
    HandshakeFailed([u32; 4]),
    /// The version of the session does not have the request.
    UnsupportedOperation(u32),
    /// The request may not be sent in the state that the server is in.
    InvalidState { state: ServerState, message: Message },
    /// The server gave a response that it may not give in its state to the
    /// request that is waiting, or gave one while no request is waiting.
    InvalidResponse { state: ServerState, request: Option<Request>, response: Message },
    /// The connection could not be set up.
    ConnectionError(ConnectionError),
    /// A message could not be written or read.
    ProtocolError(crate::error::Error),
}

/// `ToString::to_string` of std on an I/O error: the text that the error
/// shows. Nothing is claimed of it.
#[verifier::external_body]
pub(crate) fn io_error_text(e: &std::io::Error) -> String {
    e.to_string()
}

/// The text of a failed handshake.
pub open spec fn handshake_failed_text(offered: Seq<u32>) -> Seq<char> {
    "handshake with server failed for versions ["@ + versions_text(offered) + "]"@
}

/// The text of a name that is no DNS name.
pub open spec fn invalid_dns_name_text(name: Seq<char>) -> Seq<char> {
    "invalid DNS name: "@ + name
}

/// The text of a request that the version does not have.
pub open spec fn unsupported_operation_text(version: u32) -> Seq<char> {
    "unsupported operation for client with version = "@ + version_text(version)
}

/// Shows a failed handshake.
pub fn handshake_failed_message(offered: &[u32; 4]) -> (text: String)
    ensures
        text@ == handshake_failed_text(offered@),
{
    let mut text = String::from_str("handshake with server failed for versions [");
    let shown = format_versions(offered.as_slice());
    text.append(shown.as_str());
    text.append("]");
    text
}

/// Shows a name that is no DNS name.
pub fn invalid_dns_name_message(name: &str) -> (text: String)
    ensures
        text@ == invalid_dns_name_text(name@),
{
    let mut text = String::from_str("invalid DNS name: ");
    text.append(name);
    text
}

impl ConnectionError {
    /// What the error says. The text of an I/O error is that of std.
    pub fn message(&self) -> (text: String)
        ensures
            match *self {
                ConnectionError::HandshakeFailed(offered) => text@ == handshake_failed_text(
                    offered@,
                ),
                ConnectionError::InvalidDNSName(name) => text@ == invalid_dns_name_text(name@),
                ConnectionError::IoError(_) => true,
            },
    {
        match self {
            ConnectionError::HandshakeFailed(offered) => handshake_failed_message(offered),
            ConnectionError::InvalidDNSName(name) => invalid_dns_name_message(name.as_str()),
            ConnectionError::IoError(e) => io_error_text(e),
        }
    }
}

/// The text of a request that the state does not permit.
pub open spec fn invalid_state_text(state: ServerState, message: Message) -> Seq<char> {
    "unsupported operation for server in "@ + state_text(state) + " state: "@ + message_text(
        message,
    )
}

/// The text of a response that the server may not give.
pub open spec fn invalid_response_text(state: ServerState, response: Message) -> Seq<char> {
    "server gave unexpected response while in "@ + state_text(state) + " state: "@
        + message_text(response)
}

impl Error {
    /// What the error says. Of a message it names the kind. The text of an
    /// I/O error is that of std.
    pub fn message(&self) -> (text: String)
        ensures
            match *self {
                Error::InvalidDNSName(name) => text@ == invalid_dns_name_text(name@),
                Error::IOError(_) => true,
                Error::HandshakeFailed(offered) => text@ == handshake_failed_text(offered@),
                Error::UnsupportedOperation(version) => text@ == unsupported_operation_text(
                    version,
                ),
                Error::InvalidState { state, message } => text@ == invalid_state_text(
                    state,
                    message,
                ),
                Error::InvalidResponse { state, request, response } => text@
                    == invalid_response_text(state, response),
                Error::ConnectionError(ConnectionError::HandshakeFailed(offered)) => text@
                    == handshake_failed_text(offered@),
                Error::ConnectionError(ConnectionError::InvalidDNSName(name)) => text@
                    == invalid_dns_name_text(name@),
                Error::ConnectionError(ConnectionError::IoError(_)) => true,
                Error::ProtocolError(e) => text@ == error_text(e),
            },
    {
        match self {
            Error::InvalidDNSName(name) => invalid_dns_name_message(name.as_str()),
            Error::IOError(e) => io_error_text(e),
            Error::HandshakeFailed(offered) => handshake_failed_message(offered),
            Error::UnsupportedOperation(version) => {
                let mut text = String::from_str("unsupported operation for client with version = ");
                let shown = format_version(*version);
                text.append(shown.as_str());
                text
            },
            Error::InvalidState { state, message } => {
                let mut text = String::from_str("unsupported operation for server in ");
                text.append(state_name(*state));
                text.append(" state: ");
                text.append(message_name(message));
                text
            },
            Error::InvalidResponse { state, request, response } => {
                let mut text = String::from_str("server gave unexpected response while in ");
                text.append(state_name(*state));
                text.append(" state: ");
                text.append(message_name(response));
                text
            },
            Error::ConnectionError(e) => e.message(),
            Error::ProtocolError(e) => e.message(),
        }
    }
}

} // verus!
