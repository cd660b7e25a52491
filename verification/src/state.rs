use crate::message::Message;
use crate::term::{first_key, has_key, Entries, Term};
use crate::value::Value;
use crate::version::{is_known_version, V1_0, V2_0, V3_0, V4_0, V4_1};
use vstd::prelude::*;

verus! {

/// What the client knows of the state that the server is in.
#[derive(Debug, Clone, Copy, PartialEq, Eq, Structural)]
pub enum ServerState {
    Disconnected,
    Connected,
    Defunct,
    Ready,
    Streaming,
    TxReady,
    TxStreaming,
    Failed,
    Interrupted,
}

/// The kinds of request.
#[derive(Debug, Clone, Copy, PartialEq, Eq, Structural)]
pub enum Request {
    Init,
    Hello,
    Run,
    RunWithMetadata,
    PullAll,
    Pull,
    DiscardAll,
    Discard,
    AckFailure,
    Reset,
    Goodbye,
    Begin,
    Commit,
    Rollback,
}

/// The kinds of response. A success says whether more records are to be had.
#[derive(Debug, Clone, Copy, PartialEq, Eq, Structural)]
pub enum Response {
    Success { has_more: bool },
    Failure,
    Ignored,
    Record,
}

/// The name of a state.
pub open spec fn state_text(state: ServerState) -> Seq<char> {
    match state {
        ServerState::Disconnected => "Disconnected"@,
        ServerState::Connected => "Connected"@,
        ServerState::Defunct => "Defunct"@,
        ServerState::Ready => "Ready"@,
        ServerState::Streaming => "Streaming"@,
        ServerState::TxReady => "TxReady"@,
        ServerState::TxStreaming => "TxStreaming"@,
        ServerState::Failed => "Failed"@,
        ServerState::Interrupted => "Interrupted"@,
    }
}

/// The name of a state.
pub fn state_name(state: ServerState) -> (name: &'static str)
    ensures
        name@ == state_text(state),
{
    match state {
        ServerState::Disconnected => "Disconnected",
        ServerState::Connected => "Connected",
        ServerState::Defunct => "Defunct",
        ServerState::Ready => "Ready",
        ServerState::Streaming => "Streaming",
        ServerState::TxReady => "TxReady",
        ServerState::TxStreaming => "TxStreaming",
        ServerState::Failed => "Failed",
        ServerState::Interrupted => "Interrupted",
    }
}

/// The name of the kind of a message.
pub open spec fn message_text(m: Message) -> Seq<char> {
    match m {
        Message::Init(_) => "Init"@,
        Message::Hello(_) => "Hello"@,
        Message::Run(_) => "Run"@,
        Message::RunWithMetadata(_) => "RunWithMetadata"@,
        Message::PullAll => "PullAll"@,
        Message::Pull(_) => "Pull"@,
        Message::DiscardAll => "DiscardAll"@,
        Message::Discard(_) => "Discard"@,
        Message::AckFailure => "AckFailure"@,
        Message::Reset => "Reset"@,
        Message::Goodbye => "Goodbye"@,
        Message::Begin(_) => "Begin"@,
        Message::Commit => "Commit"@,
        Message::Rollback => "Rollback"@,
        Message::Success(_) => "Success"@,
        Message::Failure(_) => "Failure"@,
        Message::Ignored => "Ignored"@,
        Message::Record(_) => "Record"@,
    }
}

/// The name of the kind of a message.
pub fn message_name(m: &Message) -> (name: &'static str)
    ensures
        name@ == message_text(*m),
{
    match m {
        Message::Init(_) => "Init",
        Message::Hello(_) => "Hello",
        Message::Run(_) => "Run",
        Message::RunWithMetadata(_) => "RunWithMetadata",
        Message::PullAll => "PullAll",
        Message::Pull(_) => "Pull",
        Message::DiscardAll => "DiscardAll",
        Message::Discard(_) => "Discard",
        Message::AckFailure => "AckFailure",
        Message::Reset => "Reset",
        Message::Goodbye => "Goodbye",
        Message::Begin(_) => "Begin",
        Message::Commit => "Commit",
        Message::Rollback => "Rollback",
        Message::Success(_) => "Success",
        Message::Failure(_) => "Failure",
        Message::Ignored => "Ignored",
        Message::Record(_) => "Record",
    }
}

/// Whether the metadata of a success bind `has_more` to true.
pub open spec fn has_more(metadata: Entries) -> bool {
    has_key(metadata, "has_more"@) && metadata[first_key(metadata, "has_more"@)].1
        == Term::Boolean(true)
}

/// The kind of request that a message is, if it is a request.
pub open spec fn request_kind(m: Message) -> Option<Request> {
    match m {
        Message::Init(_) => Some(Request::Init),
        Message::Hello(_) => Some(Request::Hello),
        Message::Run(_) => Some(Request::Run),
        Message::RunWithMetadata(_) => Some(Request::RunWithMetadata),
        Message::PullAll => Some(Request::PullAll),
        Message::Pull(_) => Some(Request::Pull),
        Message::DiscardAll => Some(Request::DiscardAll),
        Message::Discard(_) => Some(Request::Discard),
        Message::AckFailure => Some(Request::AckFailure),
        Message::Reset => Some(Request::Reset),
        Message::Goodbye => Some(Request::Goodbye),
        Message::Begin(_) => Some(Request::Begin),
        Message::Commit => Some(Request::Commit),
        Message::Rollback => Some(Request::Rollback),
        _ => None,
    }
}

/// The kind of response that a message is, if it is a response.
pub open spec fn response_kind(m: Message) -> Option<Response> {
    match m {
        Message::Success(s) => Some(Response::Success { has_more: has_more(s.metadata@) }),
        Message::Failure(_) => Some(Response::Failure),
        Message::Ignored => Some(Response::Ignored),
        Message::Record(_) => Some(Response::Record),
        _ => None,
    }
}

/// Whether a version of the protocol has a kind of request.
pub open spec fn request_supported(version: u32, request: Request) -> bool {
    match request {
        Request::Init | Request::Run | Request::AckFailure => version == V1_0 || version == V2_0,
        Request::PullAll | Request::DiscardAll => version == V1_0 || version == V2_0 || version
            == V3_0,
        Request::Pull | Request::Discard => version == V4_0 || version == V4_1,
        Request::Reset => is_known_version(version),
        _ => version == V3_0 || version == V4_0 || version == V4_1,
    }
}

/// Whether the stream to the server is open in this state.
pub open spec fn is_open(state: ServerState) -> bool {
    !(state is Disconnected) && !(state is Defunct)
}

/// Whether a request may be sent in a state. In `Failed` and `Interrupted`
/// every request of a running session may be sent: the server ignores it.
pub open spec fn request_legal(state: ServerState, request: Request) -> bool {
    match request {
        Request::Init | Request::Hello => state is Connected,
        Request::Reset | Request::Goodbye => is_open(state),
        Request::Run | Request::RunWithMetadata => state is Ready || state is TxReady || state
            is Failed || state is Interrupted,
        Request::PullAll | Request::Pull | Request::DiscardAll | Request::Discard => state
            is Streaming || state is TxStreaming || state is Failed || state is Interrupted,
        Request::AckFailure => state is Failed || state is Interrupted,
        Request::Begin => state is Ready || state is Failed || state is Interrupted,
        Request::Commit | Request::Rollback => state is TxReady || state is Failed || state
            is Interrupted,
    }
}

/// The state once a request has gone out: a reset interrupts the server at
/// once, and after a goodbye the connection is gone.
pub open spec fn after_send(state: ServerState, request: Request) -> ServerState {
    match request {
        Request::Reset => if is_open(state) {
            ServerState::Interrupted
        } else {
            state
        },
        Request::Goodbye => ServerState::Defunct,
        _ => state,
    }
}

/// Whether a request asks for records.
pub open spec fn is_pull(request: Request) -> bool {
    request is PullAll || request is Pull
}

/// Whether a request ends a stream of records: by taking them or by dropping them.
pub open spec fn ends_stream(request: Request) -> bool {
    request is PullAll || request is Pull || request is DiscardAll || request is Discard
}

/// Whether a request runs a statement.
pub open spec fn is_run(request: Request) -> bool {
    request is Run || request is RunWithMetadata
}

/// The state that a success leads to, if the server may answer the request
/// with a success in this state.
pub open spec fn next_on_success(state: ServerState, request: Request, more: bool) -> Option<
    ServerState,
> {
    if !is_open(state) || request is Goodbye {
        None
    } else if request is Reset {
        Some(ServerState::Ready)
    } else {
        match state {
            ServerState::Connected => if request is Init || request is Hello {
                Some(ServerState::Ready)
            } else {
                None
            },
            ServerState::Ready => if is_run(request) {
                Some(ServerState::Streaming)
            } else if request is Begin {
                Some(ServerState::TxReady)
            } else {
                None
            },
            ServerState::Streaming => if request is Pull && more {
                Some(ServerState::Streaming)
            } else if ends_stream(request) {
                Some(ServerState::Ready)
            } else {
                None
            },
            ServerState::TxReady => if is_run(request) {
                Some(ServerState::TxStreaming)
            } else if request is Commit || request is Rollback {
                Some(ServerState::Ready)
            } else {
                None
            },
            ServerState::TxStreaming => if request is Pull && more {
                Some(ServerState::TxStreaming)
            } else if ends_stream(request) {
                Some(ServerState::TxReady)
            } else {
                None
            },
            ServerState::Failed => if request is AckFailure {
                Some(ServerState::Ready)
            } else {
                None
            },
            ServerState::Interrupted => Some(ServerState::Interrupted),
            _ => None,
        }
    }
}

/// The state that a response leads to, if the server may give it to the
/// request in this state. Where it may not, the response is invalid.
pub open spec fn next_state(state: ServerState, request: Request, response: Response) -> Option<
    ServerState,
> {
    match response {
        Response::Success { has_more } => next_on_success(state, request, has_more),
        Response::Failure => if !is_open(state) || request is Goodbye {
            None
        } else if state is Connected && (request is Init || request is Hello) {
            Some(ServerState::Defunct)
        } else {
            Some(ServerState::Failed)
        },
        Response::Ignored => if (state is Failed || state is Interrupted) && !(request is Reset)
            && !(request is Goodbye) {
            Some(state)
        } else {
            None
        },
        Response::Record => if is_pull(request) && (state is Streaming || state is TxStreaming
            || state is Interrupted) {
            Some(state)
        } else {
            None
        },
    }
}

/// The state that the request leaves behind where the server answers as
/// expected: with a success that announces no more records, or, in `Failed`
/// and `Interrupted`, by ignoring it.
pub open spec fn expected_state(state: ServerState, request: Request) -> ServerState {
    let sent = after_send(state, request);
    match next_on_success(sent, request, false) {
        Some(next) => next,
        None => sent,
    }
}

/// The state after each of the requests has gone out and got the expected answer.
pub open spec fn projected_state(state: ServerState, requests: Seq<Request>) -> ServerState
    decreases requests.len(),
{
    if requests.len() == 0 {
        state
    } else {
        expected_state(projected_state(state, requests.drop_last()), requests.last())
    }
}

/// The state after a run of exchanges, each a request and the response it
/// got, if every response was one that the server may give.
pub open spec fn driven_state(state: ServerState, exchanges: Seq<(Request, Response)>) -> Option<
    ServerState,
>
    decreases exchanges.len(),
{
    if exchanges.len() == 0 {
        Some(state)
    } else {
        match driven_state(state, exchanges.drop_last()) {
            Some(s) => next_state(
                after_send(s, exchanges.last().0),
                exchanges.last().0,
                exchanges.last().1,
            ),
            None => None,
        }
    }
}

impl Message {
    /// The kind of request that the message is, if it is a request.
    pub fn request(&self) -> (r: Option<Request>)
        ensures
            r == request_kind(*self),
    {
        match self {
            Message::Init(_) => Some(Request::Init),
            Message::Hello(_) => Some(Request::Hello),
            Message::Run(_) => Some(Request::Run),
            Message::RunWithMetadata(_) => Some(Request::RunWithMetadata),
            Message::PullAll => Some(Request::PullAll),
            Message::Pull(_) => Some(Request::Pull),
            Message::DiscardAll => Some(Request::DiscardAll),
            Message::Discard(_) => Some(Request::Discard),
            Message::AckFailure => Some(Request::AckFailure),
            Message::Reset => Some(Request::Reset),
            Message::Goodbye => Some(Request::Goodbye),
            Message::Begin(_) => Some(Request::Begin),
            Message::Commit => Some(Request::Commit),
            Message::Rollback => Some(Request::Rollback),
            _ => None,
        }
    }

    /// The kind of response that the message is, if it is a response.
    pub fn response(&self) -> (r: Option<Response>)
        ensures
            r == response_kind(*self),
    {
        match self {
            Message::Success(s) => {
                let more: bool = match s.metadata.get("has_more") {
                    Some(Value::Boolean(true)) => true,
                    _ => false,
                };
                Some(Response::Success { has_more: more })
            },
            Message::Failure(_) => Some(Response::Failure),
            Message::Ignored => Some(Response::Ignored),
            Message::Record(_) => Some(Response::Record),
            _ => None,
        }
    }
}

/// Decides whether a version of the protocol has a kind of request.
pub fn supports(version: u32, request: Request) -> (supported: bool)
    ensures
        supported == request_supported(version, request),
{
    match request {
        Request::Init | Request::Run | Request::AckFailure => version == V1_0 || version == V2_0,
        Request::PullAll | Request::DiscardAll => version == V1_0 || version == V2_0 || version
            == V3_0,
        Request::Pull | Request::Discard => version == V4_0 || version == V4_1,
        Request::Reset => version == V1_0 || version == V2_0 || version == V3_0 || version == V4_0
            || version == V4_1,
        _ => version == V3_0 || version == V4_0 || version == V4_1,
    }
}

/// Decides whether the stream to the server is open in a state.
pub fn open_in(state: ServerState) -> (open: bool)
    ensures
        open == is_open(state),
{
    match state {
        ServerState::Disconnected | ServerState::Defunct => false,
        _ => true,
    }
}

/// Decides whether a request may be sent in a state.
pub fn permits(state: ServerState, request: Request) -> (legal: bool)
    ensures
        legal == request_legal(state, request),
{
    let stalled: bool = match state {
        ServerState::Failed | ServerState::Interrupted => true,
        _ => false,
    };
    match request {
        Request::Init | Request::Hello => match state {
            ServerState::Connected => true,
            _ => false,
        },
        Request::Reset | Request::Goodbye => open_in(state),
        Request::Run | Request::RunWithMetadata => match state {
            ServerState::Ready | ServerState::TxReady => true,
            _ => stalled,
        },
        Request::PullAll | Request::Pull | Request::DiscardAll | Request::Discard => match state {
            ServerState::Streaming | ServerState::TxStreaming => true,
            _ => stalled,
        },
        Request::AckFailure => stalled,
        Request::Begin => match state {
            ServerState::Ready => true,
            _ => stalled,
        },
        Request::Commit | Request::Rollback => match state {
            ServerState::TxReady => true,
            _ => stalled,
        },
    }
}

/// The state once a request has gone out.
pub fn sent(state: ServerState, request: Request) -> (next: ServerState)
    ensures
        next == after_send(state, request),
{
    match request {
        Request::Reset => if open_in(state) {
            ServerState::Interrupted
        } else {
            state
        },
        Request::Goodbye => ServerState::Defunct,
        _ => state,
    }
}

/// The state that a success leads to, if the server may answer the request
/// with a success in this state.
pub fn succeed(state: ServerState, request: Request, more: bool) -> (next: Option<ServerState>)
    ensures
        next == next_on_success(state, request, more),
{
    let run: bool = match request {
        Request::Run | Request::RunWithMetadata => true,
        _ => false,
    };
    let ends: bool = match request {
        Request::PullAll | Request::Pull | Request::DiscardAll | Request::Discard => true,
        _ => false,
    };
    let pull_more: bool = match request {
        Request::Pull => more,
        _ => false,
    };
    if !open_in(state) {
        return None;
    }
    match request {
        Request::Goodbye => {
            return None;
        },
        Request::Reset => {
            return Some(ServerState::Ready);
        },
        _ => {},
    }
    match state {
        ServerState::Connected => match request {
            Request::Init | Request::Hello => Some(ServerState::Ready),
            _ => None,
        },
        ServerState::Ready => if run {
            Some(ServerState::Streaming)
        } else {
            match request {
                Request::Begin => Some(ServerState::TxReady),
                _ => None,
            }
        },
        ServerState::Streaming => if pull_more {
            Some(ServerState::Streaming)
        } else if ends {
            Some(ServerState::Ready)
        } else {
            None
        },
        ServerState::TxReady => if run {
            Some(ServerState::TxStreaming)
        } else {
            match request {
                Request::Commit | Request::Rollback => Some(ServerState::Ready),
                _ => None,
            }
        },
        ServerState::TxStreaming => if pull_more {
            Some(ServerState::TxStreaming)
        } else if ends {
            Some(ServerState::TxReady)
        } else {
            None
        },
        ServerState::Failed => match request {
            Request::AckFailure => Some(ServerState::Ready),
            _ => None,
        },
        ServerState::Interrupted => Some(ServerState::Interrupted),
        _ => None,
    }
}

/// The state that a response leads to, if the server may give it to the
/// request in this state.
pub fn advance(state: ServerState, request: Request, response: Response) -> (next: Option<
    ServerState,
>)
    ensures
        next == next_state(state, request, response),
{
    let goodbye: bool = match request {
        Request::Goodbye => true,
        _ => false,
    };
    match response {
        Response::Success { has_more } => succeed(state, request, has_more),
        Response::Failure => {
            if !open_in(state) || goodbye {
                None
            } else {
                match (state, request) {
                    (ServerState::Connected, Request::Init) | (
                        ServerState::Connected,
                        Request::Hello,
                    ) => Some(ServerState::Defunct),
                    _ => Some(ServerState::Failed),
                }
            }
        },
        Response::Ignored => match (state, request) {
            (_, Request::Reset) | (_, Request::Goodbye) => None,
            (ServerState::Failed, _) | (ServerState::Interrupted, _) => Some(state),
            _ => None,
        },
        Response::Record => match (state, request) {
            (ServerState::Streaming, Request::PullAll)
            | (ServerState::Streaming, Request::Pull)
            | (ServerState::TxStreaming, Request::PullAll)
            | (ServerState::TxStreaming, Request::Pull)
            | (ServerState::Interrupted, Request::PullAll)
            | (ServerState::Interrupted, Request::Pull) => Some(state),
            _ => None,
        },
    }
}

/// The state that the request leaves behind where the server answers as expected.
pub fn expect(state: ServerState, request: Request) -> (next: ServerState)
    ensures
        next == expected_state(state, request),
{
    let after: ServerState = sent(state, request);
    match succeed(after, request, false) {
        Some(next) => next,
        None => after,
    }
}

/// The state after each of the requests has gone out and got the expected answer.
pub fn project(state: ServerState, requests: &Vec<Request>) -> (next: ServerState)
    ensures
        next == projected_state(state, requests@),
{
    let mut current: ServerState = state;
    let mut i: usize = 0;
    while i < requests.len()
        invariant
            i <= requests@.len(),
            current == projected_state(state, requests@.take(i as int)),
        decreases requests@.len() - i,
    {
        proof {
            assert(requests@.take(i + 1).drop_last() =~= requests@.take(i as int));
        }
        current = expect(current, requests[i]);
        i += 1;
    }
    proof {
        assert(requests@.take(i as int) =~= requests@);
    }
    current
}

/// The transitions of a session, row by row. In each row the first state is
/// the one in which the request went out.
pub proof fn lemma_transition_table(state: ServerState, request: Request, more: bool)
    ensures
        next_state(ServerState::Connected, Request::Init, Response::Success { has_more: more })
            == Some(ServerState::Ready),
        next_state(ServerState::Connected, Request::Hello, Response::Success { has_more: more })
            == Some(ServerState::Ready),
        next_state(ServerState::Connected, Request::Init, Response::Failure) == Some(
            ServerState::Defunct,
        ),
        next_state(ServerState::Connected, Request::Hello, Response::Failure) == Some(
            ServerState::Defunct,
        ),
        is_run(request) ==> next_state(
            ServerState::Ready,
            request,
            Response::Success { has_more: more },
        ) == Some(ServerState::Streaming),
        next_state(ServerState::Ready, Request::Begin, Response::Success { has_more: more })
            == Some(ServerState::TxReady),
        ends_stream(request) && !(request is Pull && more) ==> next_state(
            ServerState::Streaming,
            request,
            Response::Success { has_more: more },
        ) == Some(ServerState::Ready),
        next_state(ServerState::Streaming, Request::Pull, Response::Success { has_more: true })
            == Some(ServerState::Streaming),
        is_run(request) ==> next_state(
            ServerState::TxReady,
            request,
            Response::Success { has_more: more },
        ) == Some(ServerState::TxStreaming),
        is_pull(request) && !(request is Pull && more) ==> next_state(
            ServerState::TxStreaming,
            request,
            Response::Success { has_more: more },
        ) == Some(ServerState::TxReady),
        next_state(ServerState::TxReady, Request::Commit, Response::Success { has_more: more })
            == Some(ServerState::Ready),
        next_state(ServerState::TxReady, Request::Rollback, Response::Success { has_more: more })
            == Some(ServerState::Ready),
        is_open(state) ==> next_state(
            after_send(state, Request::Reset),
            Request::Reset,
            Response::Success { has_more: more },
        ) == Some(ServerState::Ready),
        is_open(state) && !(request is Goodbye) && !(state is Connected && (request is Init
            || request is Hello)) ==> next_state(
            after_send(state, request),
            request,
            Response::Failure,
        ) == Some(ServerState::Failed),
        next_state(
            ServerState::Failed,
            Request::AckFailure,
            Response::Success { has_more: more },
        ) == Some(ServerState::Ready),
        !(request is Reset) && !(request is Goodbye) ==> next_state(
            ServerState::Failed,
            request,
            Response::Ignored,
        ) == Some(ServerState::Failed),
{
}

/// A run of exchanges can be driven in two parts: the state after the whole
/// run is the state after the second part, started where the first part ended.
pub proof fn lemma_driven_append(
    state: ServerState,
    first: Seq<(Request, Response)>,
    second: Seq<(Request, Response)>,
)
    ensures
        driven_state(state, first + second) == match driven_state(state, first) {
            Some(s) => driven_state(s, second),
            None => None,
        },
    decreases second.len(),
{
    if second.len() == 0 {
        assert(first + second =~= first);
    } else {
        lemma_driven_append(state, first, second.drop_last());
        assert((first + second).drop_last() =~= first + second.drop_last());
        assert((first + second).last() == second.last());
    }
}

/// While the stream is open, no response closes it but a failure of the
/// first request; and no response opens a closed stream.
pub proof fn lemma_stream_stays_open(state: ServerState, request: Request, response: Response)
    ensures
        match next_state(state, request, response) {
            Some(next) => is_open(state) && (is_open(next) || (state is Connected
                && response is Failure)),
            None => true,
        },
{
}

/// The response that a request expects: a success that announces no more
/// records, where the server may give one, else an ignored.
pub open spec fn expected_response(state: ServerState, request: Request) -> Response {
    if next_on_success(after_send(state, request), request, false) is Some {
        Response::Success { has_more: false }
    } else {
        Response::Ignored
    }
}

/// Every request is legal in the state that the requests before it lead to
/// when they get the expected responses, and none is a goodbye.
pub open spec fn legal_run(state: ServerState, requests: Seq<Request>) -> bool {
    forall|i: int|
        0 <= i < requests.len() ==> request_legal(
            projected_state(state, requests.take(i)),
            #[trigger] requests[i],
        ) && !(requests[i] is Goodbye)
}

/// The requests, each with the response it expects.
pub open spec fn expected_run(state: ServerState, requests: Seq<Request>) -> Seq<
    (Request, Response),
>
    decreases requests.len(),
{
    if requests.len() == 0 {
        Seq::empty()
    } else {
        expected_run(state, requests.drop_last()).push(
            (
                requests.last(),
                expected_response(
                    projected_state(state, requests.drop_last()),
                    requests.last(),
                ),
            ),
        )
    }
}

/// Where a request is legal and gets the response it expects, the server may
/// give that response, and the state it leads to is the expected one.
pub proof fn lemma_expected_step(state: ServerState, request: Request)
    requires
        request_legal(state, request),
        !(request is Goodbye),
    ensures
        next_state(after_send(state, request), request, expected_response(state, request))
            == Some(expected_state(state, request)),
{
}

/// The projection is what the table gives: where every request of a run is
/// legal when it goes out and gets the response it expects, the server may
/// give each of these responses, and the state they lead to is the projected one.
pub proof fn lemma_projection_is_driven(state: ServerState, requests: Seq<Request>)
    requires
        legal_run(state, requests),
    ensures
        driven_state(state, expected_run(state, requests)) == Some(
            projected_state(state, requests),
        ),
    decreases requests.len(),
{
    if requests.len() > 0 {
        let front = requests.drop_last();
        assert forall|i: int| 0 <= i < front.len() implies request_legal(
            projected_state(state, front.take(i)),
            #[trigger] front[i],
        ) && !(front[i] is Goodbye) by {
            assert(front.take(i) =~= requests.take(i));
            assert(front[i] == requests[i]);
        }
        lemma_projection_is_driven(state, front);
        let run = expected_run(state, requests);
        let before = projected_state(state, front);
        let last = requests.last();
        assert(run.drop_last() =~= expected_run(state, front));
        assert(run.last() == (last, expected_response(before, last)));
        assert(requests.take(requests.len() - 1) =~= front);
        assert(request_legal(before, requests[requests.len() - 1]));
        lemma_expected_step(before, last);
        assert(driven_state(state, run) == next_state(
            after_send(before, last),
            last,
            expected_response(before, last),
        ));
        assert(projected_state(state, requests) == expected_state(before, last));
    }
}

} // verus!
