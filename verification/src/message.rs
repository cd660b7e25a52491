use crate::catalog::{
    SIGNATURE_ACK_FAILURE, SIGNATURE_BEGIN, SIGNATURE_COMMIT, SIGNATURE_DISCARD,
    SIGNATURE_FAILURE, SIGNATURE_GOODBYE, SIGNATURE_HELLO, SIGNATURE_IGNORED, SIGNATURE_INIT,
    SIGNATURE_PULL, SIGNATURE_RECORD, SIGNATURE_RESET, SIGNATURE_ROLLBACK, SIGNATURE_RUN,
    SIGNATURE_SUCCESS,
};
use crate::term::Term;
use crate::value::{values_view, Dictionary, Value};
use vstd::prelude::*;

verus! {

/// The first request of a session in versions 1 and 2: the client's name and its credentials.
#[derive(Debug, PartialEq)]
pub struct Init {
    pub client_name: String,
    pub auth_token: Dictionary,
}

/// The first request of a session from version 3 on. The client's name stands
/// in the metadata under `user_agent`, beside the credentials.
#[derive(Debug, PartialEq)]
pub struct Hello {
    pub metadata: Dictionary,
}

/// A statement to run, with its parameters, in versions 1 and 2.
#[derive(Debug, PartialEq)]
pub struct Run {
    pub statement: String,
    pub parameters: Dictionary,
}

/// A statement to run from version 3 on, with its parameters and metadata.
#[derive(Debug, PartialEq)]
pub struct RunWithMetadata {
    pub statement: String,
    pub parameters: Dictionary,
    pub metadata: Dictionary,
}

/// A request for records from version 4 on. The metadata holds `n`, the
/// number of records asked for, -1 for all of them, and may hold `qid`.
#[derive(Debug, PartialEq)]
pub struct Pull {
    pub metadata: Dictionary,
}

/// A request to drop records from version 4 on, with the metadata of `Pull`.
#[derive(Debug, PartialEq)]
pub struct Discard {
    pub metadata: Dictionary,
}

/// The start of a transaction.
#[derive(Debug, PartialEq)]
pub struct Begin {
    pub metadata: Dictionary,
}

/// The server did what the request asked for.
#[derive(Debug, PartialEq)]
pub struct Success {
    pub metadata: Dictionary,
}

/// The server could not do what the request asked for.
#[derive(Debug, PartialEq)]
pub struct Failure {
    pub metadata: Dictionary,
}

/// One row of a result.
#[derive(Debug, PartialEq)]
pub struct Record {
    pub fields: Vec<Value>,
}

/// A message of the protocol: the requests of the client and the responses of the server.
#[derive(Debug, PartialEq)]
pub enum Message {
    Init(Init),
    Hello(Hello),
    Run(Run),
    RunWithMetadata(RunWithMetadata),
    PullAll,
    Pull(Pull),
    DiscardAll,
    Discard(Discard),
    AckFailure,
    Reset,
    Goodbye,
    Begin(Begin),
    Commit,
    Rollback,
    Success(Success),
    Failure(Failure),
    Ignored,
    Record(Record),
}

/// A message as the structure that the wire carries.
pub open spec fn message_view(m: Message) -> Term {
    match m {
        Message::Init(i) => Term::Structure(
            SIGNATURE_INIT,
            seq![Term::String(i.client_name@), Term::Dictionary(i.auth_token@)],
        ),
        Message::Hello(h) => Term::Structure(SIGNATURE_HELLO, seq![Term::Dictionary(h.metadata@)]),
        Message::Run(r) => Term::Structure(
            SIGNATURE_RUN,
            seq![Term::String(r.statement@), Term::Dictionary(r.parameters@)],
        ),
        Message::RunWithMetadata(r) => Term::Structure(
            SIGNATURE_RUN,
            seq![
                Term::String(r.statement@),
                Term::Dictionary(r.parameters@),
                Term::Dictionary(r.metadata@),
            ],
        ),
        Message::PullAll => Term::Structure(SIGNATURE_PULL, Seq::empty()),
        Message::Pull(p) => Term::Structure(SIGNATURE_PULL, seq![Term::Dictionary(p.metadata@)]),
        Message::DiscardAll => Term::Structure(SIGNATURE_DISCARD, Seq::empty()),
        Message::Discard(d) => Term::Structure(
            SIGNATURE_DISCARD,
            seq![Term::Dictionary(d.metadata@)],
        ),
        Message::AckFailure => Term::Structure(SIGNATURE_ACK_FAILURE, Seq::empty()),
        Message::Reset => Term::Structure(SIGNATURE_RESET, Seq::empty()),
        Message::Goodbye => Term::Structure(SIGNATURE_GOODBYE, Seq::empty()),
        Message::Begin(b) => Term::Structure(SIGNATURE_BEGIN, seq![Term::Dictionary(b.metadata@)]),
        Message::Commit => Term::Structure(SIGNATURE_COMMIT, Seq::empty()),
        Message::Rollback => Term::Structure(SIGNATURE_ROLLBACK, Seq::empty()),
        Message::Success(s) => Term::Structure(
            SIGNATURE_SUCCESS,
            seq![Term::Dictionary(s.metadata@)],
        ),
        Message::Failure(f) => Term::Structure(
            SIGNATURE_FAILURE,
            seq![Term::Dictionary(f.metadata@)],
        ),
        Message::Ignored => Term::Structure(SIGNATURE_IGNORED, Seq::empty()),
        Message::Record(r) => Term::Structure(
            SIGNATURE_RECORD,
            seq![Term::List(values_view(r.fields@))],
        ),
    }
}

impl View for Message {
    type V = Term;

    open spec fn view(&self) -> Term {
        message_view(*self)
    }
}

impl Message {
    /// Every dictionary in the message, at any depth, has distinct keys.
    pub open spec fn wf(&self) -> bool {
        self@.wf()
    }
}

} // verus!
