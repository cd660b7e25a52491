use crate::chunk::{chunk_message, frame, split, MAX_CHUNK_SIZE};
use crate::client::error::{ConnectionError, Error};
use crate::client::handshake::{chosen_version, handshake_response};
use crate::encode::append_bytes;
use crate::format::{encodable, encode_term, parse_message};
use crate::message::{Message, Record};
use crate::state::{
    advance, after_send, is_open, next_state, open_in, permits, project, projected_state,
    request_kind, request_legal, request_supported, response_kind, sent, supports, Request,
    ServerState,
};
use vstd::pervasive::VecAdditionalExecFns;
use vstd::prelude::*;

verus! {

/// Whether a request may go out, and if not, why not.
#[derive(Debug, Clone, Copy, PartialEq, Eq, Structural)]
pub enum Admission {
    /// The request may go out.
    Admitted,
    /// The version of the session does not have the request.
    Unsupported,
    /// The request is a reset and the stream is closed.
    Closed,
    /// The request may not be sent in the state.
    Illegal,
}

/// What the session hands on of a response.
#[derive(Debug)]
pub enum Delivery {
    /// A record: the response to the request is not complete yet.
    Record(Record),
    /// The response that ends the exchange: a success, a failure or an ignored.
    Terminal(Message),
}

/// The client's side of a conversation with a server: the version that was
/// agreed on, the state of the server as far as the responses and the
/// requests so far tell it, and the requests, oldest first, whose last
/// response has not come yet.
#[derive(Debug)]
pub struct Session {
    pub version: u32,
    pub state: ServerState,
    pub pending: Vec<Request>,
}

/// Whether a request may go out in a state of a session of a version.
pub open spec fn admission(version: u32, state: ServerState, request: Request) -> Admission {
    if !request_supported(version, request) {
        Admission::Unsupported
    } else if request is Reset && !is_open(state) {
        Admission::Closed
    } else if !request_legal(state, request) {
        Admission::Illegal
    } else {
        Admission::Admitted
    }
}

/// A session and what goes on the wire once a message has been sent in it:
/// nothing, where the message is refused.
pub open spec fn sent_one(
    version: u32,
    state: ServerState,
    pending: Seq<Request>,
    message: Message,
) -> Option<(ServerState, Seq<Request>, Seq<u8>)> {
    match request_kind(message) {
        Some(request) => if admission(version, projected_state(state, pending), request)
            is Admitted && encodable(message@) {
            Some(
                (
                    after_send(state, request),
                    if request is Goodbye {
                        pending
                    } else {
                        pending.push(request)
                    },
                    frame(split(encode_term(message@), MAX_CHUNK_SIZE as int)),
                ),
            )
        } else {
            None
        },
        None => None,
    }
}

/// A session and what goes on the wire once the messages have been sent in it
/// one after the other: nothing, where one of them is refused.
pub open spec fn sent_all(
    version: u32,
    state: ServerState,
    pending: Seq<Request>,
    messages: Seq<Message>,
) -> Option<(ServerState, Seq<Request>, Seq<u8>)>
    decreases messages.len(),
{
    if messages.len() == 0 {
        Some((state, pending, Seq::empty()))
    } else {
        match sent_all(version, state, pending, messages.drop_last()) {
            Some((s, p, bytes)) => match sent_one(version, s, p, messages.last()) {
                Some((s2, p2, more)) => Some((s2, p2, bytes + more)),
                None => None,
            },
            None => None,
        }
    }
}

/// Whether `e` is the error that a message is refused with in a session.
pub open spec fn refuses(
    e: Error,
    version: u32,
    state: ServerState,
    pending: Seq<Request>,
    message: Message,
) -> bool {
    let projected = projected_state(state, pending);
    match request_kind(message) {
        None => e matches Error::InvalidState { state: s, message: m } && s == projected && m
            == message,
        Some(request) => match admission(version, projected, request) {
            Admission::Unsupported => e matches Error::UnsupportedOperation(v) && v == version,
            Admission::Closed => e is IOError,
            Admission::Illegal => e matches Error::InvalidState { state: s, message: m } && s
                == projected && m == message,
            Admission::Admitted => !encodable(message@) && (e matches Error::ProtocolError(p) && p
                == crate::error::Error::ValueTooLarge),
        },
    }
}

/// `std::io::Error::from` of std on `ErrorKind::NotConnected`: the error of a
/// stream that is not open. Nothing is claimed of it.
#[verifier::external_body]
fn not_connected() -> std::io::Error {
    std::io::Error::from(std::io::ErrorKind::NotConnected)
}

/// Decides whether a request may go out.
pub fn decide(version: u32, state: ServerState, request: Request) -> (a: Admission)
    ensures
        a == admission(version, state, request),
{
    let reset: bool = match request {
        Request::Reset => true,
        _ => false,
    };
    if !supports(version, request) {
        Admission::Unsupported
    } else if reset && !open_in(state) {
        Admission::Closed
    } else if !permits(state, request) {
        Admission::Illegal
    } else {
        Admission::Admitted
    }
}

/// Takes the message at `i` out of `messages` and leaves an `Ignored` in its place.
fn take_message(messages: &mut Vec<Message>, i: usize) -> (m: Message)
    requires
        i < old(messages)@.len(),
    ensures
        m == old(messages)@[i as int],
        final(messages)@ == old(messages)@.update(i as int, Message::Ignored),
{
    let mut taken = Message::Ignored;
    messages.set_and_swap(i, &mut taken);
    taken
}

impl Session {
    /// The state that the server will be in once the pending requests have
    /// got the responses that are expected. Requests are admitted by it.
    pub open spec fn projected(&self) -> ServerState {
        projected_state(self.state, self.pending@)
    }

    /// A session on a stream that has just been opened, after a handshake
    /// that agreed on `version`.
    pub fn new(version: u32) -> (session: Session)
        ensures
            session.version == version,
            session.state == ServerState::Connected,
            session.pending@ == Seq::<Request>::empty(),
    {
        Session { version, state: ServerState::Connected, pending: Vec::new() }
    }

    /// A session from the server's reply to a handshake. The handshake fails
    /// where the server names no version or one that was not offered.
    pub fn connect(offered: &[u32; 4], reply: &[u8; 4]) -> (r: Result<Session, ConnectionError>)
        ensures
            match chosen_version(offered@, reply@) {
                Some(v) => r matches Ok(session) && session.version == v && session.state
                    == ServerState::Connected && session.pending@ == Seq::<Request>::empty(),
                None => r matches Err(ConnectionError::HandshakeFailed(versions)) && versions
                    == *offered,
            },
    {
        match handshake_response(offered, reply) {
            Ok(version) => Ok(Session::new(version)),
            Err(e) => Err(e),
        }
    }

    /// The version that the handshake agreed on.
    pub fn version(&self) -> (v: u32)
        ensures
            v == self.version,
    {
        self.version
    }

    /// The state of the server as far as the session knows it.
    pub fn server_state(&self) -> (s: ServerState)
        ensures
            s == self.state,
    {
        self.state
    }

    /// The number of requests whose last response has not come yet.
    pub fn outstanding(&self) -> (n: usize)
        ensures
            n == self.pending@.len(),
    {
        self.pending.len()
    }

    /// Sends a message: says what to write to the stream, and counts the
    /// request as pending. The message is refused, and the session stays as
    /// it is, where the message is no request, where the version does not
    /// have it, where the projected state does not permit it, or where the
    /// format cannot write it.
    pub fn send(&mut self, message: Message) -> (r: Result<Vec<u8>, Error>)
        ensures
            final(self).version == old(self).version,
            match sent_one(old(self).version, old(self).state, old(self).pending@, message) {
                Some((state, pending, bytes)) => {
                    &&& r matches Ok(out) && out@ == bytes
                    &&& final(self).state == state
                    &&& final(self).pending@ == pending
                },
                None => {
                    &&& r matches Err(e) && refuses(
                        e,
                        old(self).version,
                        old(self).state,
                        old(self).pending@,
                        message,
                    )
                    &&& final(self).state == old(self).state
                    &&& final(self).pending@ == old(self).pending@
                },
            },
    {
        let projected: ServerState = project(self.state, &self.pending);
        let request: Request = match message.request() {
            Some(request) => request,
            None => {
                return Err(Error::InvalidState { state: projected, message });
            },
        };
        match decide(self.version, projected, request) {
            Admission::Unsupported => {
                return Err(Error::UnsupportedOperation(self.version));
            },
            Admission::Closed => {
                return Err(Error::IOError(not_connected()));
            },
            Admission::Illegal => {
                return Err(Error::InvalidState { state: projected, message });
            },
            Admission::Admitted => {},
        }
        let bytes: Vec<u8> = match message.encode() {
            Ok(bytes) => bytes,
            Err(e) => {
                return Err(Error::ProtocolError(e));
            },
        };
        let framed: Vec<u8> = chunk_message(bytes.as_slice());
        self.state = sent(self.state, request);
        match request {
            Request::Goodbye => {},
            _ => {
                self.pending.push(request);
            },
        }
        Ok(framed)
    }

    /// Sends messages back to back: says what to write to the stream for all
    /// of them, and counts the requests as pending. Where one of them is
    /// refused, nothing is to be written and the session stays as it is.
    pub fn send_all(&mut self, messages: Vec<Message>) -> (r: Result<Vec<u8>, Error>)
        ensures
            final(self).version == old(self).version,
            match sent_all(old(self).version, old(self).state, old(self).pending@, messages@) {
                Some((state, pending, bytes)) => {
                    &&& r matches Ok(out) && out@ == bytes
                    &&& final(self).state == state
                    &&& final(self).pending@ == pending
                },
                None => {
                    &&& final(self).state == old(self).state
                    &&& final(self).pending@ == old(self).pending@
                    &&& r matches Err(e) && exists|k: int|
                        0 <= k < messages@.len() && (#[trigger] sent_all(
                            old(self).version,
                            old(self).state,
                            old(self).pending@,
                            messages@.take(k),
                        ) matches Some((s, p, _)) && refuses(
                            e,
                            old(self).version,
                            s,
                            p,
                            messages@[k],
                        ))
                },
            },
    {
        let state: ServerState = self.state;
        let kept: usize = self.pending.len();
        let mut rest = messages;
        let mut out: Vec<u8> = Vec::new();
        let mut i: usize = 0;
        assert(messages@.take(0) =~= Seq::<Message>::empty());
        while i < rest.len()
            invariant
                i <= rest@.len(),
                rest@.len() == messages@.len(),
                forall|j: int| i <= j < rest@.len() ==> rest@[j] == messages@[j],
                self.version == old(self).version,
                state == old(self).state,
                kept == old(self).pending@.len(),
                kept <= self.pending@.len(),
                self.pending@.subrange(0, kept as int) == old(self).pending@,
                sent_all(
                    old(self).version,
                    old(self).state,
                    old(self).pending@,
                    messages@.take(i as int),
                ) == Some((self.state, self.pending@, out@)),
            decreases rest@.len() - i,
        {
            let message = take_message(&mut rest, i);
            proof {
                assert(messages@.take(i + 1).drop_last() =~= messages@.take(i as int));
                assert(messages@.take(i + 1).last() == messages@[i as int]);
            }
            match self.send(message) {
                Ok(bytes) => {
                    append_bytes(bytes.as_slice(), &mut out);
                    assert(self.pending@.subrange(0, kept as int) =~= old(self).pending@);
                },
                Err(e) => {
                    self.state = state;
                    self.pending.truncate(kept);
                    proof {
                        lemma_sent_all_stops(
                            old(self).version,
                            old(self).state,
                            old(self).pending@,
                            messages@,
                            i as int,
                        );
                    }
                    return Err(e);
                },
            }
            i += 1;
        }
        proof {
            assert(messages@.take(i as int) =~= messages@);
        }
        Ok(out)
    }

    /// Takes a response from the server. A record is handed on and the
    /// request stays pending; another response ends the exchange with the
    /// oldest pending request. Either way the state moves as the response
    /// says. A message that the server may not give now is refused, and the
    /// session is defunct from then on.
    pub fn receive(&mut self, message: Message) -> (r: Result<Delivery, Error>)
        ensures
            final(self).version == old(self).version,
            match received(old(self).state, old(self).pending@, message) {
                Some(next) => {
                    &&& final(self).state == next
                    &&& match message {
                        Message::Record(record) => {
                            &&& r matches Ok(Delivery::Record(given)) && given == record
                            &&& final(self).pending@ == old(self).pending@
                        },
                        _ => {
                            &&& r matches Ok(Delivery::Terminal(given)) && given == message
                            &&& final(self).pending@ == old(self).pending@.drop_first()
                        },
                    }
                },
                None => {
                    &&& r matches Err(Error::InvalidResponse { state, request, response })
                        && state == old(self).state && response == message && request == (
                    if old(self).pending@.len() > 0 {
                        Some(old(self).pending@[0])
                    } else {
                        None
                    })
                    &&& final(self).state == ServerState::Defunct
                    &&& final(self).pending@ == old(self).pending@
                },
            },
    {
        let state: ServerState = self.state;
        if self.pending.len() == 0 {
            self.state = ServerState::Defunct;
            return Err(Error::InvalidResponse { state, request: None, response: message });
        }
        let request: Request = self.pending[0];
        let next: Option<ServerState> = match message.response() {
            Some(response) => advance(state, request, response),
            None => None,
        };
        match next {
            None => {
                self.state = ServerState::Defunct;
                Err(Error::InvalidResponse { state, request: Some(request), response: message })
            },
            Some(next) => {
                self.state = next;
                match message {
                    Message::Record(record) => Ok(Delivery::Record(record)),
                    other => {
                        self.pending.remove(0);
                        assert(self.pending@ =~= old(self).pending@.drop_first());
                        Ok(Delivery::Terminal(other))
                    },
                }
            },
        }
    }

    /// Takes the bytes of a response from the server, as the stream carried
    /// them between two chunks of length zero. Bytes that are no message
    /// leave the session defunct.
    pub fn receive_bytes(&mut self, bytes: &[u8]) -> (r: Result<Delivery, Error>)
        ensures
            final(self).version == old(self).version,
            match parse_message(bytes@, 0) {
                Err(e) => {
                    &&& r matches Err(Error::ProtocolError(p)) && p == e
                    &&& final(self).state == ServerState::Defunct
                    &&& final(self).pending@ == old(self).pending@
                },
                Ok((t, _)) => match r {
                    Ok(Delivery::Record(record)) => {
                        &&& Message::Record(record)@ == t
                        &&& received(old(self).state, old(self).pending@, Message::Record(record))
                            == Some(final(self).state)
                        &&& final(self).pending@ == old(self).pending@
                    },
                    Ok(Delivery::Terminal(message)) => {
                        &&& message@ == t && !(message is Record)
                        &&& received(old(self).state, old(self).pending@, message) == Some(
                            final(self).state,
                        )
                        &&& final(self).pending@ == old(self).pending@.drop_first()
                    },
                    Err(Error::InvalidResponse { state, request, response }) => {
                        &&& response@ == t && state == old(self).state
                        &&& received(old(self).state, old(self).pending@, response) is None
                        &&& final(self).state == ServerState::Defunct
                        &&& final(self).pending@ == old(self).pending@
                    },
                    Err(_) => false,
                },
            },
    {
        match Message::decode(bytes) {
            Ok(message) => self.receive(message),
            Err(e) => {
                self.state = ServerState::Defunct;
                Err(Error::ProtocolError(e))
            },
        }
    }

    /// Takes the bytes of a response from the server and keeps the records of
    /// an exchange apart from the response that ends it: a record goes to the
    /// end of `records` and nothing is handed on; the response that ends the
    /// exchange is handed on and `records` stay as they are.
    pub fn gather(&mut self, bytes: &[u8], records: &mut Vec<Record>) -> (r: Result<
        Option<Message>,
        Error,
    >)
        ensures
            final(self).version == old(self).version,
            match parse_message(bytes@, 0) {
                Err(e) => {
                    &&& r matches Err(Error::ProtocolError(p)) && p == e
                    &&& final(self).state == ServerState::Defunct
                    &&& final(self).pending@ == old(self).pending@
                    &&& final(records)@ == old(records)@
                },
                Ok((t, _)) => match r {
                    Ok(None) => {
                        &&& final(records)@.len() == old(records)@.len() + 1
                        &&& final(records)@.drop_last() == old(records)@
                        &&& Message::Record(final(records)@.last())@ == t
                        &&& received(
                            old(self).state,
                            old(self).pending@,
                            Message::Record(final(records)@.last()),
                        ) == Some(final(self).state)
                        &&& final(self).pending@ == old(self).pending@
                    },
                    Ok(Some(message)) => {
                        &&& message@ == t && !(message is Record)
                        &&& received(old(self).state, old(self).pending@, message) == Some(
                            final(self).state,
                        )
                        &&& final(self).pending@ == old(self).pending@.drop_first()
                        &&& final(records)@ == old(records)@
                    },
                    Err(Error::InvalidResponse { state, request, response }) => {
                        &&& response@ == t && state == old(self).state
                        &&& received(old(self).state, old(self).pending@, response) is None
                        &&& final(self).state == ServerState::Defunct
                        &&& final(self).pending@ == old(self).pending@
                        &&& final(records)@ == old(records)@
                    },
                    Err(_) => false,
                },
            },
    {
        match self.receive_bytes(bytes) {
            Ok(Delivery::Record(record)) => {
                records.push(record);
                assert(records@.drop_last() =~= old(records)@);
                Ok(None)
            },
            Ok(Delivery::Terminal(message)) => Ok(Some(message)),
            Err(e) => Err(e),
        }
    }

    /// Looks, before a new exchange starts, whether an earlier one was
    /// abandoned between its request and its last response. If so the stream
    /// is out of step, and the session is defunct from then on.
    pub fn settled(&mut self) -> (sound: bool)
        ensures
            final(self).version == old(self).version,
            final(self).pending@ == old(self).pending@,
            sound == (old(self).pending@.len() == 0),
            final(self).state == (if sound {
                old(self).state
            } else {
                ServerState::Defunct
            }),
    {
        if self.pending.len() == 0 {
            true
        } else {
            self.state = ServerState::Defunct;
            false
        }
    }

    /// Notes that the stream failed, or that an exchange was abandoned between
    /// its request and its response: the session is defunct from then on.
    pub fn fail(&mut self)
        ensures
            final(self).version == old(self).version,
            final(self).state == ServerState::Defunct,
            final(self).pending@ == old(self).pending@,
    {
        self.state = ServerState::Defunct;
    }
}

/// The state that a message from the server leads to, if the server may give
/// it now: if a request is pending and the message is a response that the
/// server may give to the oldest one in this state.
pub open spec fn received(state: ServerState, pending: Seq<Request>, message: Message) -> Option<
    ServerState,
> {
    if pending.len() == 0 {
        None
    } else {
        match response_kind(message) {
            Some(response) => next_state(state, pending[0], response),
            None => None,
        }
    }
}

/// Where a message is refused, the messages up to it and it are refused together.
pub proof fn lemma_sent_all_stops(
    version: u32,
    state: ServerState,
    pending: Seq<Request>,
    messages: Seq<Message>,
    k: int,
)
    requires
        0 <= k < messages.len(),
        sent_all(version, state, pending, messages.take(k)) matches Some((s, p, _)) && sent_one(
            version,
            s,
            p,
            messages[k],
        ) is None,
    ensures
        sent_all(version, state, pending, messages) is None,
    decreases messages.len() - k,
{
    assert(messages.take(k + 1).drop_last() =~= messages.take(k));
    assert(messages.take(k + 1).last() == messages[k]);
    assert(sent_all(version, state, pending, messages.take(k + 1)) is None);
    lemma_sent_all_none(version, state, pending, messages, k + 1);
}

/// Where the first messages are refused together, all of them are.
pub proof fn lemma_sent_all_none(
    version: u32,
    state: ServerState,
    pending: Seq<Request>,
    messages: Seq<Message>,
    k: int,
)
    requires
        0 <= k <= messages.len(),
        sent_all(version, state, pending, messages.take(k)) is None,
    ensures
        sent_all(version, state, pending, messages) is None,
    decreases messages.len() - k,
{
    if k == messages.len() {
        assert(messages.take(k) =~= messages);
    } else {
        assert(messages.take(k + 1).drop_last() =~= messages.take(k));
        lemma_sent_all_none(version, state, pending, messages, k + 1);
    }
}

} // verus!
