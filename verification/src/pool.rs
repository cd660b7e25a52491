use crate::client::error::io_error_text;
use crate::client::handshake::{handshake_bytes, handshake_request};
use crate::state::{message_name, message_text};
use crate::version::{format_hex, hex_digits};
use crate::duplicate::copy_dictionary;
use crate::message::{Hello, Init, Message};
use crate::state::ServerState;
use crate::term::{dict_remove, first_key, has_key, Entries, Term};
use crate::value::{Dictionary, Value};
use crate::version::{V1_0, V2_0, V3_0, V4_0, V4_1};
use vstd::prelude::*;
use vstd::string::StringExecFns;

verus! {

/// What can go wrong while a pool sets up or tests a connection.
#[derive(Debug)]
pub enum Error {
    /// The address of the server resolved to nothing.
    InvalidAddress,
    /// The metadata lack what the version needs for the first request.
    InvalidMetadata(String),
    /// The server answered the first request with something else than a success.
    ClientInitFailed(Message),
    /// The handshake agreed on a version that this library does not speak.
    InvalidClientVersion(u32),
    /// The session failed.
    ClientError(crate::client::error::Error),
    /// A message could not be written or read, or was not the one expected.
    ProtocolError(crate::error::Error),
    /// The stream failed.
    IoError(std::io::Error),
}

/// What a pool needs to open connections: where the server is, under which
/// name it is to be validated if the stream is to be secured, the versions
/// to offer in the handshake, in order of preference, and the metadata for the
/// first request.
#[derive(Debug)]
pub struct BoltConnectionManager {
    pub address: String,
    pub domain: Option<String>,
    pub preferred_versions: [u32; 4],
    pub metadata: Dictionary,
}

/// Whether a version starts a session with `Init`.
pub open spec fn starts_with_init(version: u32) -> bool {
    version == V1_0 || version == V2_0
}

/// Whether a version starts a session with `Hello`.
pub open spec fn starts_with_hello(version: u32) -> bool {
    version == V3_0 || version == V4_0 || version == V4_1
}

/// The name of the client in the metadata, if the metadata bind `user_agent`
/// to a string.
pub open spec fn user_agent(metadata: Entries) -> Option<Seq<char>> {
    if has_key(metadata, "user_agent"@) {
        match metadata[first_key(metadata, "user_agent"@)].1 {
            Term::String(name) => Some(name),
            _ => None,
        }
    } else {
        None
    }
}

/// The text of the error for metadata without a `user_agent`.
pub open spec fn missing_user_agent_text() -> Seq<char> {
    "must contain a user_agent"@
}

/// The text of the error for metadata whose `user_agent` is no string.
pub open spec fn malformed_user_agent_text() -> Seq<char> {
    "user_agent must be a string"@
}

/// The first request of a session. Versions 1 and 2 send the name of the
/// client, taken out of the metadata, and the rest of the metadata; later
/// versions send the metadata whole.
pub fn first_request(version: u32, metadata: Dictionary) -> (r: Result<Message, Error>)
    ensures
        starts_with_init(version) ==> match user_agent(metadata@) {
            Some(name) => r matches Ok(Message::Init(init)) && init.client_name@ == name
                && init.auth_token@ == dict_remove(metadata@, "user_agent"@),
            None => r matches Err(Error::InvalidMetadata(text)) && text@ == (if has_key(
                metadata@,
                "user_agent"@,
            ) {
                malformed_user_agent_text()
            } else {
                missing_user_agent_text()
            }),
        },
        starts_with_hello(version) ==> (r matches Ok(Message::Hello(hello)) && hello.metadata@
            == metadata@),
        !starts_with_init(version) && !starts_with_hello(version) ==> (r matches Err(
            Error::InvalidClientVersion(v),
        ) && v == version),
{
    match version {
        V1_0 | V2_0 => {
            let mut rest = metadata;
            match rest.remove("user_agent") {
                None => Err(
                    Error::InvalidMetadata(String::from_str("must contain a user_agent")),
                ),
                Some(Value::String(client_name)) => Ok(
                    Message::Init(Init { client_name, auth_token: rest }),
                ),
                Some(_) => Err(
                    Error::InvalidMetadata(String::from_str("user_agent must be a string")),
                ),
            }
        },
        V3_0 | V4_0 | V4_1 => Ok(Message::Hello(Hello { metadata })),
        _ => Err(Error::InvalidClientVersion(version)),
    }
}

/// What the response to the first request means for the connection: it
/// stands where the response is a success, else it failed with that response.
pub fn initialized(response: Message) -> (r: Result<(), Error>)
    ensures
        match response {
            Message::Success(_) => r is Ok,
            _ => r matches Err(Error::ClientInitFailed(given)) && given == response,
        },
{
    match response {
        Message::Success(_) => Ok(()),
        other => Err(Error::ClientInitFailed(other)),
    }
}

/// What the response to a reset means for a connection that is handed out
/// again: it is sound where the response is a success.
pub fn validated(response: &Message) -> (r: Result<(), Error>)
    ensures
        match *response {
            Message::Success(_) => r is Ok,
            _ => r matches Err(Error::ProtocolError(e)) && e
                == crate::error::Error::InvalidConversion,
        },
{
    match response {
        Message::Success(_) => Ok(()),
        _ => Err(Error::ProtocolError(crate::error::Error::InvalidConversion)),
    }
}

/// Whether a connection is of no use any more: whether its session is defunct.
pub fn broken(state: ServerState) -> (b: bool)
    ensures
        b == (state is Defunct),
{
    match state {
        ServerState::Defunct => true,
        _ => false,
    }
}

impl BoltConnectionManager {
    /// A manager for the first of the addresses that the name of the server
    /// resolved to. Fails where there is none.
    pub fn new(
        addresses: Vec<String>,
        domain: Option<String>,
        preferred_versions: [u32; 4],
        metadata: Dictionary,
    ) -> (r: Result<BoltConnectionManager, Error>)
        ensures
            match r {
                Ok(manager) => addresses@.len() > 0 && manager.address@ == addresses@[0]@
                    && manager.domain == domain && manager.preferred_versions
                    == preferred_versions && manager.metadata@ == metadata@,
                Err(e) => addresses@.len() == 0 && e is InvalidAddress,
            },
    {
        let mut found = addresses;
        if found.len() == 0 {
            return Err(Error::InvalidAddress);
        }
        let address: String = found.swap_remove(0);
        Ok(BoltConnectionManager { address, domain, preferred_versions, metadata })
    }

    /// The bytes that open the handshake.
    pub fn handshake(&self) -> (bytes: Vec<u8>)
        ensures
            bytes@ == handshake_bytes(self.preferred_versions@),
    {
        handshake_request(&self.preferred_versions)
    }

    /// The first request of a session of the version that the handshake agreed on.
    pub fn first_request(&self, version: u32) -> (r: Result<Message, Error>)
        ensures
            starts_with_init(version) ==> match user_agent(self.metadata@) {
                Some(name) => r matches Ok(Message::Init(init)) && init.client_name@ == name
                    && init.auth_token@ == dict_remove(self.metadata@, "user_agent"@),
                None => r matches Err(Error::InvalidMetadata(text)) && text@ == (if has_key(
                    self.metadata@,
                    "user_agent"@,
                ) {
                    malformed_user_agent_text()
                } else {
                    missing_user_agent_text()
                }),
            },
            starts_with_hello(version) ==> (r matches Ok(Message::Hello(hello))
                && hello.metadata@ == self.metadata@),
            !starts_with_init(version) && !starts_with_hello(version) ==> (r matches Err(
                Error::InvalidClientVersion(v),
            ) && v == version),
    {
        first_request(version, copy_dictionary(&self.metadata))
    }

    /// Whether a connection is of no use any more.
    pub fn has_broken(&self, state: ServerState) -> (b: bool)
        ensures
            b == (state is Defunct),
    {
        broken(state)
    }
}

impl Error {
    /// What the error says. Of a response it names the kind. The text of an
    /// I/O error is that of std; the text of a session error is that of the
    /// session.
    pub fn message(&self) -> (text: String)
        ensures
            match *self {
                Error::InvalidAddress => text@ == "invalid host address"@,
                Error::InvalidMetadata(what) => text@ == "invalid metadata: "@ + what@,
                Error::ClientInitFailed(response) => text@
                    == "client initialization failed: received "@ + message_text(response),
                Error::InvalidClientVersion(version) => text@ == "invalid client version: "@ + (
                "0x"@ + hex_digits(version as nat)),
                Error::ProtocolError(e) => text@ == crate::error::error_text(e),
                _ => true,
            },
    {
        match self {
            Error::InvalidAddress => String::from_str("invalid host address"),
            Error::InvalidMetadata(what) => {
                let mut text = String::from_str("invalid metadata: ");
                text.append(what.as_str());
                text
            },
            Error::ClientInitFailed(response) => {
                let mut text = String::from_str("client initialization failed: received ");
                text.append(message_name(response));
                text
            },
            Error::InvalidClientVersion(version) => {
                let mut text = String::from_str("invalid client version: ");
                let shown = format_hex(*version);
                text.append(shown.as_str());
                text
            },
            Error::ClientError(e) => e.message(),
            Error::ProtocolError(e) => e.message(),
            Error::IoError(e) => io_error_text(e),
        }
    }
}

} // verus!
