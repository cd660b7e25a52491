use bolt_proto::chunk::{chunk_message, reassemble};
use bolt_proto::client::error::Error;
use bolt_proto::client::session::{Delivery, Session};
use bolt_proto::message::{
    Begin, Failure, Hello, Init, Message, Pull, Record, Run, RunWithMetadata, Success,
};
use bolt_proto::state::{Request, ServerState};
use bolt_proto::value::{Dictionary, Duration, Value};
use bolt_proto::version::{V1_0, V2_0, V3_0, V4_0, V4_1};

fn dict(entries: Vec<(&str, Value)>) -> Dictionary {
    Dictionary { entries: entries.into_iter().map(|(k, v)| (k.to_string(), v)).collect() }
}

fn success() -> Message {
    Message::Success(Success::new(dict(vec![])))
}

fn failure() -> Message {
    Message::Failure(
        Failure::new(dict(vec![("code", Value::string("Neo.ClientError.Statement.SyntaxError"))])),
    )
}

fn record(i: i64) -> Message {
    Message::Record(Record::new(vec![Value::Integer(i)]))
}

fn run(statement: &str) -> Message {
    Message::Run(Run::new(statement.to_string(), dict(vec![])))
}

fn run3(statement: &str) -> Message {
    Message::RunWithMetadata(
        RunWithMetadata::new(statement.to_string(), dict(vec![]), dict(vec![])),
    )
}

fn init() -> Message {
    Message::Init(
        Init::new("bolt-client/X.Y.Z".to_string(), dict(vec![("scheme", Value::string("basic"))])),
    )
}

fn hello() -> Message {
    Message::Hello(Hello::new(dict(vec![("user_agent", Value::string("bolt-client/X.Y.Z"))])))
}

/// What the server sends for a message: its bytes between two chunk marks.
fn from_server(session: &mut Session, m: Message) -> Result<Delivery, Error> {
    let framed = chunk_message(&m.encode().unwrap());
    let (bytes, used) = reassemble(&framed).unwrap();
    assert_eq!(used, framed.len());
    session.receive_bytes(&bytes)
}

fn terminal(session: &mut Session, m: Message) -> Message {
    match from_server(session, m) {
        Ok(Delivery::Terminal(m)) => m,
        other => panic!("{:?}", other),
    }
}

fn ready(version: u32) -> Session {
    let mut session = Session::new(version);
    let first = if version == V1_0 || version == V2_0 { init() } else { hello() };
    session.send(first).unwrap();
    assert!(matches!(terminal(&mut session, success()), Message::Success(_)));
    assert_eq!(session.server_state(), ServerState::Ready);
    session
}

#[test]
fn sent_bytes_are_the_message_in_chunks() {
    let mut session = ready(V3_0);
    let bytes = session.send(Message::Reset).unwrap();
    assert_eq!(bytes, vec![0x00, 0x02, 0xB0, 0x0F, 0x00, 0x00]);
    let mut session = ready(V1_0);
    let bytes = session.send(run("R")).unwrap();
    assert_eq!(bytes, vec![0x00, 0x05, 0xB2, 0x10, 0x81, 0x52, 0xA0, 0x00, 0x00]);
    assert_eq!(session.outstanding(), 1);
}

#[test]
fn first_request_succeeds() {
    for version in [V1_0, V2_0, V3_0, V4_0, V4_1] {
        let session = ready(version);
        assert_eq!(session.version(), version);
        assert_eq!(session.outstanding(), 0);
    }
}

#[test]
fn first_request_that_fails_leaves_the_session_defunct() {
    let mut session = Session::new(V3_0);
    session.send(hello()).unwrap();
    assert!(matches!(terminal(&mut session, failure()), Message::Failure(_)));
    assert_eq!(session.server_state(), ServerState::Defunct);
    let mut session = Session::new(V2_0);
    session.send(init()).unwrap();
    assert!(matches!(terminal(&mut session, failure()), Message::Failure(_)));
    assert_eq!(session.server_state(), ServerState::Defunct);
}

#[test]
fn run_then_pull_all_collects_the_records() {
    let mut session = ready(V2_0);
    session.send(run("RETURN 1 as num;")).unwrap();
    assert!(matches!(terminal(&mut session, success()), Message::Success(_)));
    assert_eq!(session.server_state(), ServerState::Streaming);
    session.send(Message::PullAll).unwrap();
    let mut records = Vec::new();
    for i in 0..3 {
        match from_server(&mut session, record(i)).unwrap() {
            Delivery::Record(r) => records.push(r),
            other => panic!("{:?}", other),
        }
        assert_eq!(session.server_state(), ServerState::Streaming);
        assert_eq!(session.outstanding(), 1);
    }
    assert!(matches!(terminal(&mut session, success()), Message::Success(_)));
    assert_eq!(records.len(), 3);
    assert_eq!(records[2].fields(), &[Value::Integer(2)]);
    assert_eq!(session.server_state(), ServerState::Ready);
    assert_eq!(session.outstanding(), 0);
}

#[test]
fn pipelined_run_answers_in_order() {
    let mut session = ready(V3_0);
    let batch = vec![run3("RETURN 1;"), Message::PullAll, run3("RETURN 2;"), Message::PullAll];
    let wire = session.send_all(batch).unwrap();
    let mut expected = Vec::new();
    for m in [run3("RETURN 1;"), Message::PullAll, run3("RETURN 2;"), Message::PullAll] {
        expected.extend(chunk_message(&m.encode().unwrap()));
    }
    assert_eq!(wire, expected);
    assert_eq!(session.outstanding(), 4);
    assert_eq!(session.server_state(), ServerState::Ready);
    let mut responses = Vec::new();
    for m in [success(), record(1), success(), success(), record(2), record(3), success()] {
        match from_server(&mut session, m).unwrap() {
            Delivery::Record(r) => responses.push(Message::Record(r)),
            Delivery::Terminal(t) => responses.push(t),
        }
    }
    assert_eq!(responses.len(), 7);
    assert!(matches!(responses[0], Message::Success(_)));
    assert_eq!(responses[1], record(1));
    assert!(matches!(responses[3], Message::Success(_)));
    assert_eq!(responses[5], record(3));
    assert_eq!(session.outstanding(), 0);
    assert_eq!(session.server_state(), ServerState::Ready);
}

#[test]
fn pipelined_run_in_version_two() {
    let mut session = ready(V2_0);
    let mut batch = Vec::new();
    for _ in 0..4 {
        batch.push(run("MATCH (n {test: 'v2-pipelined'}) DETACH DELETE n;"));
        batch.push(Message::PullAll);
    }
    session.send_all(batch).unwrap();
    assert_eq!(session.outstanding(), 8);
    let duration = Value::Duration(Duration::new(118, 7, 0, 0));
    let mut seen = 0;
    for i in 0..8 {
        if i == 7 {
            let row = Message::Record(Record::new(vec![duration.clone()]));
            match from_server(&mut session, row).unwrap() {
                Delivery::Record(r) => {
                    assert_eq!(r.fields()[0], Value::Duration(Duration::new(118, 7, 0, 0)));
                    seen += 1;
                }
                other => panic!("{:?}", other),
            }
        }
        assert!(matches!(terminal(&mut session, success()), Message::Success(_)));
    }
    assert_eq!(seen, 1);
    assert_eq!(session.server_state(), ServerState::Ready);
}

#[test]
fn failure_in_a_batch_is_followed_by_ignored() {
    let mut session = ready(V3_0);
    let batch = vec![run3("bad"), Message::PullAll, run3("RETURN 2;"), Message::PullAll];
    session.send_all(batch).unwrap();
    assert!(matches!(terminal(&mut session, failure()), Message::Failure(_)));
    assert_eq!(session.server_state(), ServerState::Failed);
    for _ in 0..3 {
        assert!(matches!(terminal(&mut session, Message::Ignored), Message::Ignored));
        assert_eq!(session.server_state(), ServerState::Failed);
    }
    assert_eq!(session.outstanding(), 0);
}

#[test]
fn failure_then_recovery_by_reset() {
    let mut session = ready(V3_0);
    session.send(run3("RETURN 1;")).unwrap();
    terminal(&mut session, success());
    assert_eq!(session.server_state(), ServerState::Streaming);
    session.send(Message::PullAll).unwrap();
    assert!(matches!(terminal(&mut session, failure()), Message::Failure(_)));
    assert_eq!(session.server_state(), ServerState::Failed);
    session.send(run3("RETURN 1;")).unwrap();
    assert!(matches!(terminal(&mut session, Message::Ignored), Message::Ignored));
    assert_eq!(session.server_state(), ServerState::Failed);
    session.send(Message::Reset).unwrap();
    assert_eq!(session.server_state(), ServerState::Interrupted);
    assert!(matches!(terminal(&mut session, success()), Message::Success(_)));
    assert_eq!(session.server_state(), ServerState::Ready);
}

#[test]
fn failure_then_recovery_by_ack_failure() {
    for version in [V1_0, V2_0] {
        let mut session = ready(version);
        session.send(run("bad")).unwrap();
        assert!(matches!(terminal(&mut session, failure()), Message::Failure(_)));
        assert_eq!(session.server_state(), ServerState::Failed);
        session.send(Message::AckFailure).unwrap();
        assert!(matches!(terminal(&mut session, success()), Message::Success(_)));
        assert_eq!(session.server_state(), ServerState::Ready);
        session.send(run("RETURN 1 as num;")).unwrap();
        assert!(matches!(terminal(&mut session, success()), Message::Success(_)));
    }
}

#[test]
fn ack_failure_after_an_ignored_request() {
    let mut session = ready(V2_0);
    session.send(run("bad")).unwrap();
    terminal(&mut session, failure());
    session.send(run("RETURN 1 as num;")).unwrap();
    assert!(matches!(terminal(&mut session, Message::Ignored), Message::Ignored));
    assert_eq!(session.server_state(), ServerState::Failed);
    session.send(Message::AckFailure).unwrap();
    assert!(matches!(terminal(&mut session, success()), Message::Success(_)));
    session.send(run("RETURN 1 as num;")).unwrap();
    assert!(matches!(terminal(&mut session, success()), Message::Success(_)));
    assert_eq!(session.server_state(), ServerState::Streaming);
}

#[test]
fn discard_all_ends_the_stream() {
    let mut session = ready(V2_0);
    session.send(run("RETURN 1 as num;")).unwrap();
    terminal(&mut session, success());
    session.send(Message::DiscardAll).unwrap();
    assert!(matches!(terminal(&mut session, success()), Message::Success(_)));
    assert_eq!(session.server_state(), ServerState::Ready);
}

#[test]
fn request_that_the_state_does_not_permit_is_not_sent() {
    let mut session = ready(V2_0);
    match session.send(Message::DiscardAll) {
        Err(Error::InvalidState { state, message }) => {
            assert_eq!(state, ServerState::Ready);
            assert_eq!(message, Message::DiscardAll);
        }
        other => panic!("{:?}", other),
    }
    assert!(matches!(session.send(Message::PullAll), Err(Error::InvalidState { .. })));
    assert!(matches!(session.send(init()), Err(Error::InvalidState { .. })));
    assert!(matches!(session.send(Message::AckFailure), Err(Error::InvalidState { .. })));
    assert_eq!(session.server_state(), ServerState::Ready);
    assert_eq!(session.outstanding(), 0);
    let mut fresh = Session::new(V3_0);
    assert!(
        matches!(
            fresh.send(run3("RETURN 1;")),
            Err(Error::InvalidState { state: ServerState::Connected, .. }),
        ),
    );
    let mut session = ready(V3_0);
    assert!(matches!(session.send(Message::Commit), Err(Error::InvalidState { .. })));
    assert!(matches!(session.send(Message::Rollback), Err(Error::InvalidState { .. })));
}

#[test]
fn response_is_no_request() {
    let mut session = ready(V3_0);
    match session.send(success()) {
        Err(Error::InvalidState { state, message }) => {
            assert_eq!(state, ServerState::Ready);
            assert!(matches!(message, Message::Success(_)));
        }
        other => panic!("{:?}", other),
    }
    assert!(matches!(session.send(Message::Ignored), Err(Error::InvalidState { .. })));
    assert!(matches!(session.send(record(1)), Err(Error::InvalidState { .. })));
}

#[test]
fn request_that_the_version_does_not_have_is_not_sent() {
    let mut session = Session::new(V1_0);
    assert!(matches!(session.send(hello()), Err(Error::UnsupportedOperation(v)) if v == V1_0));
    let mut session = ready(V2_0);
    assert!(matches!(session.send(run3("R")), Err(Error::UnsupportedOperation(v)) if v == V2_0));
    assert!(matches!(session.send(Message::Goodbye), Err(Error::UnsupportedOperation(_))));
    assert!(
        matches!(
            session.send(Message::Begin(Begin::new(dict(vec![])))),
            Err(Error::UnsupportedOperation(_)),
        ),
    );
    let mut session = Session::new(V3_0);
    assert!(matches!(session.send(init()), Err(Error::UnsupportedOperation(v)) if v == V3_0));
    let mut session = ready(V3_0);
    assert!(matches!(session.send(run("R")), Err(Error::UnsupportedOperation(_))));
    assert!(matches!(session.send(Message::AckFailure), Err(Error::UnsupportedOperation(_))));
    assert!(
        matches!(
            session.send(Message::Pull(Pull::new(dict(vec![])))),
            Err(Error::UnsupportedOperation(_)),
        ),
    );
    let mut session = ready(V4_0);
    assert!(
        matches!(session.send(Message::PullAll), Err(Error::UnsupportedOperation(v)) if v == V4_0),
    );
    assert!(matches!(session.send(Message::DiscardAll), Err(Error::UnsupportedOperation(_))));
    let mut session = Session::new(7);
    assert!(matches!(session.send(Message::Reset), Err(Error::UnsupportedOperation(7))));
    assert!(matches!(session.send(hello()), Err(Error::UnsupportedOperation(7))));
}

#[test]
fn pull_with_more_to_come_keeps_streaming() {
    let mut session = ready(V4_1);
    session.send(run3("UNWIND range(1, 3) AS n RETURN n;")).unwrap();
    terminal(&mut session, success());
    let pull = || Message::Pull(Pull::new(dict(vec![("n", Value::Integer(2))])));
    session.send(pull()).unwrap();
    from_server(&mut session, record(1)).unwrap();
    from_server(&mut session, record(2)).unwrap();
    let more = Message::Success(Success::new(dict(vec![("has_more", Value::Boolean(true))])));
    terminal(&mut session, more);
    assert_eq!(session.server_state(), ServerState::Streaming);
    session.send(pull()).unwrap();
    from_server(&mut session, record(3)).unwrap();
    let done = Message::Success(Success::new(dict(vec![("has_more", Value::Boolean(false))])));
    terminal(&mut session, done);
    assert_eq!(session.server_state(), ServerState::Ready);
}

#[test]
fn transaction_runs_through_its_states() {
    let mut session = ready(V3_0);
    session.send(Message::Begin(Begin::new(dict(vec![])))).unwrap();
    terminal(&mut session, success());
    assert_eq!(session.server_state(), ServerState::TxReady);
    session.send(run3("CREATE (n);")).unwrap();
    terminal(&mut session, success());
    assert_eq!(session.server_state(), ServerState::TxStreaming);
    session.send(Message::PullAll).unwrap();
    terminal(&mut session, success());
    assert_eq!(session.server_state(), ServerState::TxReady);
    session.send(Message::Commit).unwrap();
    terminal(&mut session, success());
    assert_eq!(session.server_state(), ServerState::Ready);
    session.send(Message::Begin(Begin::new(dict(vec![])))).unwrap();
    terminal(&mut session, success());
    session.send(Message::Rollback).unwrap();
    terminal(&mut session, success());
    assert_eq!(session.server_state(), ServerState::Ready);
}

#[test]
fn response_that_the_server_may_not_give_leaves_the_session_defunct() {
    let mut session = ready(V3_0);
    match from_server(&mut session, success()) {
        Err(Error::InvalidResponse { state, request, response }) => {
            assert_eq!(state, ServerState::Ready);
            assert_eq!(request, None);
            assert!(matches!(response, Message::Success(_)));
        }
        other => panic!("{:?}", other),
    }
    assert_eq!(session.server_state(), ServerState::Defunct);

    let mut session = ready(V3_0);
    session.send(run3("RETURN 1;")).unwrap();
    match from_server(&mut session, record(1)) {
        Err(Error::InvalidResponse { state, request, response }) => {
            assert_eq!(state, ServerState::Ready);
            assert_eq!(request, Some(Request::RunWithMetadata));
            assert_eq!(response, record(1));
        }
        other => panic!("{:?}", other),
    }
    assert_eq!(session.server_state(), ServerState::Defunct);

    let mut session = ready(V3_0);
    session.send(run3("RETURN 1;")).unwrap();
    assert!(
        matches!(from_server(&mut session, Message::Ignored), Err(Error::InvalidResponse { .. })),
    );
    assert_eq!(session.server_state(), ServerState::Defunct);

    let mut session = ready(V3_0);
    session.send(run3("RETURN 1;")).unwrap();
    assert!(
        matches!(from_server(&mut session, Message::Reset), Err(Error::InvalidResponse { .. })),
    );
    assert_eq!(session.server_state(), ServerState::Defunct);
}

#[test]
fn bytes_that_are_no_message_leave_the_session_defunct() {
    let mut session = ready(V3_0);
    session.send(run3("RETURN 1;")).unwrap();
    match session.receive_bytes(&[0xB1, 0x70]) {
        Err(Error::ProtocolError(e)) => assert_eq!(e, bolt_proto::error::Error::Truncated),
        other => panic!("{:?}", other),
    }
    assert_eq!(session.server_state(), ServerState::Defunct);
    let mut session = ready(V3_0);
    assert!(matches!(
        session.receive_bytes(&[0xC4]),
        Err(Error::ProtocolError(bolt_proto::error::Error::InvalidMarker(0xC4)))
    ));
    assert_eq!(session.server_state(), ServerState::Defunct);
}

#[test]
fn defunct_session_sends_nothing() {
    let mut session = ready(V3_0);
    session.fail();
    assert_eq!(session.server_state(), ServerState::Defunct);
    assert!(matches!(session.send(Message::Reset), Err(Error::IOError(_))));
    assert!(
        matches!(
            session.send(run3("R")),
            Err(Error::InvalidState { state: ServerState::Defunct, .. }),
        ),
    );
    assert!(matches!(session.send(Message::Goodbye), Err(Error::InvalidState { .. })));
    assert_eq!(session.server_state(), ServerState::Defunct);
    assert_eq!(session.outstanding(), 0);
}

#[test]
fn goodbye_ends_the_session() {
    let mut session = ready(V3_0);
    let bytes = session.send(Message::Goodbye).unwrap();
    assert_eq!(bytes, vec![0x00, 0x02, 0xB0, 0x02, 0x00, 0x00]);
    assert_eq!(session.server_state(), ServerState::Defunct);
    assert_eq!(session.outstanding(), 0);
}

#[test]
fn reset_is_legal_wherever_the_stream_is_open() {
    for version in [V1_0, V2_0, V3_0, V4_0, V4_1] {
        let mut session = Session::new(version);
        session.send(Message::Reset).unwrap();
        assert_eq!(session.server_state(), ServerState::Interrupted);
        terminal(&mut session, success());
        assert_eq!(session.server_state(), ServerState::Ready);
    }
    let mut session = ready(V3_0);
    session.send(run3("RETURN 1;")).unwrap();
    terminal(&mut session, success());
    assert_eq!(session.server_state(), ServerState::Streaming);
    session.send(Message::Reset).unwrap();
    terminal(&mut session, success());
    assert_eq!(session.server_state(), ServerState::Ready);
}

#[test]
fn reset_behind_a_request_interrupts_it() {
    let mut session = ready(V3_0);
    session.send_all(vec![run3("RETURN 1;"), Message::Reset]).unwrap();
    assert_eq!(session.server_state(), ServerState::Interrupted);
    assert!(matches!(terminal(&mut session, Message::Ignored), Message::Ignored));
    assert_eq!(session.server_state(), ServerState::Interrupted);
    assert!(matches!(terminal(&mut session, success()), Message::Success(_)));
    assert_eq!(session.server_state(), ServerState::Ready);
}

#[test]
fn batch_with_a_refused_request_leaves_the_session_as_it_was() {
    let mut session = ready(V3_0);
    let batch = vec![run3("RETURN 1;"), Message::PullAll, Message::PullAll];
    match session.send_all(batch) {
        Err(Error::InvalidState { state, message }) => {
            assert_eq!(state, ServerState::Ready);
            assert_eq!(message, Message::PullAll);
        }
        other => panic!("{:?}", other),
    }
    assert_eq!(session.server_state(), ServerState::Ready);
    assert_eq!(session.outstanding(), 0);
    assert!(matches!(
        session.send_all(vec![Message::Reset, run("R")]),
        Err(Error::UnsupportedOperation(_))
    ));
    assert_eq!(session.server_state(), ServerState::Ready);
    assert_eq!(session.outstanding(), 0);
    assert_eq!(session.send_all(vec![]).unwrap(), Vec::<u8>::new());
}


#[test]
fn records_are_gathered_until_the_exchange_ends() {
    let mut session = ready(V2_0);
    session.send(run("RETURN 1 as num;")).unwrap();
    let mut records = Vec::new();
    let done = session.gather(&success().encode().unwrap(), &mut records).unwrap();
    assert!(matches!(done, Some(Message::Success(_))));
    assert!(records.is_empty());
    session.send(Message::PullAll).unwrap();
    for i in 0..3 {
        assert_eq!(session.gather(&record(i).encode().unwrap(), &mut records).unwrap(), None);
        assert_eq!(records.len(), (i + 1) as usize);
    }
    let done = session.gather(&success().encode().unwrap(), &mut records).unwrap();
    assert!(matches!(done, Some(Message::Success(_))));
    assert_eq!(records, vec![
        Record::new(vec![Value::Integer(0)]),
        Record::new(vec![Value::Integer(1)]),
        Record::new(vec![Value::Integer(2)]),
    ]);
    assert_eq!(session.server_state(), ServerState::Ready);
    assert!(matches!(
        session.gather(&success().encode().unwrap(), &mut records),
        Err(Error::InvalidResponse { .. })
    ));
    assert_eq!(records.len(), 3);
    assert_eq!(session.server_state(), ServerState::Defunct);
}

#[test]
fn pull_and_discard_ask_for_a_number_of_records() {
    let pull = Pull::records(-1);
    assert_eq!(pull.metadata().len(), 1);
    assert_eq!(pull.metadata().get("n"), Some(&Value::Integer(-1)));
    assert_eq!(
        Message::Pull(Pull::records(100)).encode().unwrap(),
        vec![0xB1, 0x3F, 0xA1, 0x81, 0x6E, 0x64],
    );
    let discard = bolt_proto::message::Discard::records(-1);
    assert_eq!(
        Message::Discard(discard).encode().unwrap(),
        vec![0xB1, 0x2F, 0xA1, 0x81, 0x6E, 0xFF],
    );
}

#[test]
fn abandoned_exchange_leaves_the_session_defunct() {
    let mut session = ready(V3_0);
    assert!(session.settled());
    assert_eq!(session.server_state(), ServerState::Ready);
    session.send(run3("RETURN 1;")).unwrap();
    assert!(!session.settled());
    assert_eq!(session.server_state(), ServerState::Defunct);
    assert_eq!(session.outstanding(), 1);
}
