use bolt_proto::error::Error;
use bolt_proto::message::{Message, Success};
use bolt_proto::serialize::{value_into_bytes, Deserialize, Serialize, Structure};
use bolt_proto::value::{Date, Dictionary, Node, UnboundRelationship, Value};
use bytes::Bytes;

#[test]
fn value_goes_into_a_buffer() {
    let bytes = Value::Integer(200).try_into_bytes().unwrap();
    assert_eq!(&bytes[..], &[0xC9, 0x00, 0xC8]);
    let bytes = value_into_bytes(&Value::string("ab")).unwrap();
    assert_eq!(&bytes[..], &[0x82, 0x61, 0x62]);
}

#[test]
fn value_comes_out_of_a_buffer_and_the_buffer_moves_on() {
    let mut buffer = Bytes::from(vec![0x01, 0x81, 0x61, 0xC9, 0x00, 0xC8, 0xFF]);
    assert_eq!(Value::try_from_bytes(&mut buffer), Ok(Value::Integer(1)));
    assert_eq!(&buffer[..], &[0x81, 0x61, 0xC9, 0x00, 0xC8, 0xFF]);
    assert_eq!(Value::try_from_bytes(&mut buffer), Ok(Value::string("a")));
    assert_eq!(Value::try_from_bytes(&mut buffer), Ok(Value::Integer(200)));
    assert_eq!(Value::try_from_bytes(&mut buffer), Ok(Value::Integer(-1)));
    assert!(buffer.is_empty());
    assert_eq!(Value::try_from_bytes(&mut buffer), Err(Error::Truncated));
}

#[test]
fn buffer_stays_where_the_bytes_are_refused() {
    let mut buffer = Bytes::from(vec![0x92, 0x01]);
    assert_eq!(Value::try_from_bytes(&mut buffer), Err(Error::Truncated));
    assert_eq!(&buffer[..], &[0x92, 0x01]);
    let mut buffer = Bytes::from(vec![0xC4, 0x01]);
    assert_eq!(Value::try_from_bytes(&mut buffer), Err(Error::InvalidMarker(0xC4)));
    assert_eq!(buffer.len(), 2);
}

#[test]
fn message_goes_through_a_buffer() {
    let m = Message::Success(Success::new(Dictionary::new()));
    let mut buffer = m.clone().try_into_bytes().unwrap();
    assert_eq!(&buffer[..], &[0xB1, 0x70, 0xA0]);
    assert_eq!(Message::try_from_bytes(&mut buffer), Ok(m));
    assert!(buffer.is_empty());
    let mut two = Bytes::from(vec![0xB0, 0x0F, 0xB0, 0x7E]);
    assert_eq!(Message::try_from_bytes(&mut two), Ok(Message::Reset));
    assert_eq!(Message::try_from_bytes(&mut two), Ok(Message::Ignored));
}

#[test]
fn structures_tell_their_signature() {
    let node = Node::new(1, vec![], Dictionary::new());
    assert_eq!(node.get_signature(), 0x4E);
    assert_eq!(&node.try_into_bytes().unwrap()[..], &[0xB3, 0x4E, 0x01, 0x90, 0xA0]);
    let rel = UnboundRelationship::new(1, "R".to_string(), Dictionary::new());
    assert_eq!(rel.get_signature(), 0x72);
    let date = Date::new(0);
    assert_eq!(date.get_signature(), 0x44);
    assert_eq!(&date.try_into_bytes().unwrap()[..], &[0xB1, 0x44, 0x00]);
    assert_eq!(Message::Reset.get_signature(), 0x0F);
    assert_eq!(Message::Success(Success::new(Dictionary::new())).get_signature(), 0x70);
}
