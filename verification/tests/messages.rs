use bolt_proto::error::Error;
use bolt_proto::message::{
    Begin, Discard, Failure, Hello, Init, Message, Pull, Record, Run, RunWithMetadata, Success,
};
use bolt_proto::serialize::Structure;
use bolt_proto::state::{Request, Response};
use bolt_proto::value::{Dictionary, Node, Value};

fn dict(entries: Vec<(&str, Value)>) -> Dictionary {
    Dictionary { entries: entries.into_iter().map(|(k, v)| (k.to_string(), v)).collect() }
}

fn all_messages() -> Vec<Message> {
    vec![
        Message::Init(
            Init::new("agent/1.0".to_string(), dict(vec![("scheme", Value::string("basic"))])),
        ),
        Message::Hello(Hello::new(dict(vec![("user_agent", Value::string("agent/1.0"))]))),
        Message::Run(Run::new("RETURN 1;".to_string(), dict(vec![]))),
        Message::RunWithMetadata(RunWithMetadata::new(
            "RETURN $x;".to_string(),
            dict(vec![("x", Value::Integer(1))]),
            dict(vec![("mode", Value::string("r"))]),
        )),
        Message::PullAll,
        Message::Pull(Pull::new(dict(vec![("n", Value::Integer(-1))]))),
        Message::DiscardAll,
        Message::Discard(Discard::new(dict(vec![("n", Value::Integer(10))]))),
        Message::AckFailure,
        Message::Reset,
        Message::Goodbye,
        Message::Begin(Begin::new(dict(vec![]))),
        Message::Commit,
        Message::Rollback,
        Message::Success(Success::new(dict(vec![("has_more", Value::Boolean(true))]))),
        Message::Failure(Failure::new(dict(vec![("code", Value::string("Neo.ClientError"))]))),
        Message::Ignored,
        Message::Record(Record::new(vec![
            Value::Integer(1),
            Value::Node(Node::new(1, vec!["L".to_string()], dict(vec![]))),
        ])),
    ]
}

#[test]
fn messages_without_fields_are_two_bytes() {
    assert_eq!(Message::PullAll.encode().unwrap(), vec![0xB0, 0x3F]);
    assert_eq!(Message::DiscardAll.encode().unwrap(), vec![0xB0, 0x2F]);
    assert_eq!(Message::AckFailure.encode().unwrap(), vec![0xB0, 0x0E]);
    assert_eq!(Message::Reset.encode().unwrap(), vec![0xB0, 0x0F]);
    assert_eq!(Message::Goodbye.encode().unwrap(), vec![0xB0, 0x02]);
    assert_eq!(Message::Commit.encode().unwrap(), vec![0xB0, 0x12]);
    assert_eq!(Message::Rollback.encode().unwrap(), vec![0xB0, 0x13]);
    assert_eq!(Message::Ignored.encode().unwrap(), vec![0xB0, 0x7E]);
}

#[test]
fn messages_with_fields_are_written_field_by_field() {
    let init = Message::Init(Init::new("a".to_string(), dict(vec![])));
    assert_eq!(init.encode().unwrap(), vec![0xB2, 0x01, 0x81, 0x61, 0xA0]);
    let hello = Message::Hello(Hello::new(dict(vec![("k", Value::Integer(1))])));
    assert_eq!(hello.encode().unwrap(), vec![0xB1, 0x01, 0xA1, 0x81, 0x6B, 0x01]);
    let run = Message::Run(Run::new("R".to_string(), dict(vec![])));
    assert_eq!(run.encode().unwrap(), vec![0xB2, 0x10, 0x81, 0x52, 0xA0]);
    let run3 = Message::RunWithMetadata(
        RunWithMetadata::new("R".to_string(), dict(vec![]), dict(vec![])),
    );
    assert_eq!(run3.encode().unwrap(), vec![0xB3, 0x10, 0x81, 0x52, 0xA0, 0xA0]);
    let pull = Message::Pull(Pull::new(dict(vec![("n", Value::Integer(-1))])));
    assert_eq!(pull.encode().unwrap(), vec![0xB1, 0x3F, 0xA1, 0x81, 0x6E, 0xFF]);
    let discard = Message::Discard(Discard::new(dict(vec![])));
    assert_eq!(discard.encode().unwrap(), vec![0xB1, 0x2F, 0xA0]);
    let begin = Message::Begin(Begin::new(dict(vec![])));
    assert_eq!(begin.encode().unwrap(), vec![0xB1, 0x11, 0xA0]);
    let success = Message::Success(Success::new(dict(vec![])));
    assert_eq!(success.encode().unwrap(), vec![0xB1, 0x70, 0xA0]);
    let failure = Message::Failure(Failure::new(dict(vec![])));
    assert_eq!(failure.encode().unwrap(), vec![0xB1, 0x7F, 0xA0]);
    let record = Message::Record(Record::new(vec![Value::Integer(1), Value::Null]));
    assert_eq!(record.encode().unwrap(), vec![0xB1, 0x71, 0x92, 0x01, 0xC0]);
}

#[test]
fn every_message_reads_back() {
    for m in all_messages() {
        let bytes = m.encode().unwrap();
        assert_eq!(Message::decode(&bytes).unwrap(), m);
        assert_eq!(bytes[1], m.get_signature());
        assert_eq!(m.clone(), m);
    }
}

#[test]
fn field_count_tells_messages_with_one_signature_apart() {
    assert!(matches!(Message::decode(&[0xB1, 0x01, 0xA0]), Ok(Message::Hello(_))));
    assert!(matches!(Message::decode(&[0xB2, 0x01, 0x80, 0xA0]), Ok(Message::Init(_))));
    assert!(matches!(Message::decode(&[0xB2, 0x10, 0x80, 0xA0]), Ok(Message::Run(_))));
    assert!(
        matches!(Message::decode(&[0xB3, 0x10, 0x80, 0xA0, 0xA0]), Ok(Message::RunWithMetadata(_))),
    );
    assert!(matches!(Message::decode(&[0xB0, 0x3F]), Ok(Message::PullAll)));
    assert!(matches!(Message::decode(&[0xB1, 0x3F, 0xA0]), Ok(Message::Pull(_))));
    assert!(matches!(Message::decode(&[0xB0, 0x2F]), Ok(Message::DiscardAll)));
    assert!(matches!(Message::decode(&[0xB1, 0x2F, 0xA0]), Ok(Message::Discard(_))));
}

#[test]
fn what_is_no_message_is_refused() {
    assert_eq!(Message::decode(&[]), Err(Error::Truncated));
    assert_eq!(Message::decode(&[0xB0]), Err(Error::Truncated));
    assert_eq!(Message::decode(&[0xB1, 0x70]), Err(Error::Truncated));
    assert_eq!(Message::decode(&[0x01]), Err(Error::InvalidMarker(0x01)));
    assert_eq!(Message::decode(&[0xA0]), Err(Error::InvalidMarker(0xA0)));
    assert_eq!(Message::decode(&[0xC4]), Err(Error::InvalidMarker(0xC4)));
    // the signature of a node
    assert_eq!(
        Message::decode(&[0xB3, 0x4E, 0x01, 0x90, 0xA0]),
        Err(Error::InvalidSignature(0x4E)),
    );
    assert_eq!(Message::decode(&[0xB0, 0x55]), Err(Error::InvalidSignature(0x55)));
    // a reset with a field, a success without one, an init with three
    assert_eq!(Message::decode(&[0xB1, 0x0F, 0x01]), Err(Error::InvalidStructure));
    assert_eq!(Message::decode(&[0xB0, 0x70]), Err(Error::InvalidStructure));
    assert_eq!(Message::decode(&[0xB3, 0x01, 0x80, 0xA0, 0xA0]), Err(Error::InvalidStructure));
    // a success whose field is a list, a record whose field is a dictionary
    assert_eq!(Message::decode(&[0xB1, 0x70, 0x90]), Err(Error::InvalidStructure));
    assert_eq!(Message::decode(&[0xB1, 0x71, 0xA0]), Err(Error::InvalidStructure));
    // an init whose name is an integer
    assert_eq!(Message::decode(&[0xB2, 0x01, 0x01, 0xA0]), Err(Error::InvalidStructure));
    // a record with a value that is refused
    assert_eq!(
        Message::decode(&[0xB1, 0x71, 0x91, 0xB0, 0x99]),
        Err(Error::InvalidSignature(0x99)),
    );
}

#[test]
fn kinds_of_request_and_response() {
    assert_eq!(Message::Reset.request(), Some(Request::Reset));
    assert_eq!(Message::PullAll.request(), Some(Request::PullAll));
    assert_eq!(Message::Ignored.request(), None);
    assert_eq!(Message::Ignored.response(), Some(Response::Ignored));
    assert_eq!(Message::Reset.response(), None);
    let more = Message::Success(Success::new(dict(vec![("has_more", Value::Boolean(true))])));
    assert_eq!(more.response(), Some(Response::Success { has_more: true }));
    assert_eq!(more.request(), None);
    let done = Message::Success(Success::new(dict(vec![("has_more", Value::Boolean(false))])));
    assert_eq!(done.response(), Some(Response::Success { has_more: false }));
    let odd = Message::Success(Success::new(dict(vec![("has_more", Value::Integer(1))])));
    assert_eq!(odd.response(), Some(Response::Success { has_more: false }));
    let plain = Message::Success(Success::new(dict(vec![])));
    assert_eq!(plain.response(), Some(Response::Success { has_more: false }));
    let failure = Message::Failure(Failure::new(dict(vec![])));
    assert_eq!(failure.response(), Some(Response::Failure));
    assert_eq!(Message::Record(Record::new(vec![])).response(), Some(Response::Record));
}

#[test]
fn payload_is_had_only_from_its_own_kind_of_message() {
    let success = Message::Success(Success::new(dict(vec![("fields", Value::List(vec![]))])));
    let payload = Success::try_from(success).unwrap();
    assert_eq!(payload.metadata().get("fields"), Some(&Value::List(vec![])));
    assert_eq!(Success::try_from(Message::Ignored), Err(Error::InvalidConversion));
    assert_eq!(
        Success::try_from(Message::Failure(Failure::new(dict(vec![])))),
        Err(Error::InvalidConversion)
    );
    assert!(Failure::try_from(Message::Failure(Failure::new(dict(vec![])))).is_ok());
    let record = Record::try_from(Message::Record(Record::new(vec![Value::Integer(1)]))).unwrap();
    assert_eq!(record.fields(), &[Value::Integer(1)]);
    assert!(Record::try_from(Message::Reset).is_err());
}
