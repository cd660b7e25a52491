use bolt_proto::marker::{
    integer_marker, size_marker, Marker, MARKER_MEDIUM_STRUCTURE, MARKER_SMALL_STRUCTURE,
    MARKER_TINY_STRUCTURE,
};
use bolt_proto::message::{Message, RunWithMetadata, Success};
use bolt_proto::value::{Date, Dictionary, Duration, Node, Point3D, Relationship, Value};
use bolt_proto::wire::{classify_marker, Kind, Marker as Class};

#[test]
fn markers_of_structures() {
    assert_eq!(MARKER_TINY_STRUCTURE, 0xB0);
    assert_eq!(MARKER_SMALL_STRUCTURE, 0xDC);
    assert_eq!(MARKER_MEDIUM_STRUCTURE, 0xDD);
    assert_eq!(Node::new(1, vec![], Dictionary::new()).get_marker(), Ok(0xB3));
    assert_eq!(
        Relationship::new(1, 2, 3, "R".to_string(), Dictionary::new()).get_marker(),
        Ok(0xB5),
    );
    assert_eq!(Date::new(1).get_marker(), Ok(0xB1));
    assert_eq!(Duration::new(1, 2, 3, 4).get_marker(), Ok(0xB4));
    assert_eq!(Point3D::new(1, 2, 3, 4).get_marker(), Ok(0xB4));
    assert_eq!(Value::Date(Date::new(1)).get_marker(), Ok(0xB1));
    assert_eq!(Message::Reset.get_marker(), Ok(0xB0));
    assert_eq!(Message::Success(Success::new(Dictionary::new())).get_marker(), Ok(0xB1));
    let run = RunWithMetadata::new("R".to_string(), Dictionary::new(), Dictionary::new());
    assert_eq!(Message::RunWithMetadata(run).get_marker(), Ok(0xB3));
}

#[test]
fn marker_is_the_first_byte_written() {
    let values = vec![
        Value::Null,
        Value::Boolean(true),
        Value::Boolean(false),
        Value::Integer(5),
        Value::Integer(-5),
        Value::Integer(-100),
        Value::Integer(1000),
        Value::Integer(100000),
        Value::Integer(i64::MIN),
        Value::Float(0),
        Value::Bytes(vec![0; 3]),
        Value::Bytes(vec![0; 300]),
        Value::string(""),
        Value::string("0123456789abcdef"),
        Value::List(vec![Value::Null; 15]),
        Value::List(vec![Value::Null; 16]),
        Value::Dictionary(Dictionary::new()),
        Value::Node(Node::new(1, vec![], Dictionary::new())),
    ];
    for v in values {
        assert_eq!(v.get_marker().unwrap(), v.encode().unwrap()[0]);
    }
}

#[test]
fn markers_by_kind_and_length() {
    assert_eq!(size_marker(Kind::String, 15), Ok(0x8F));
    assert_eq!(size_marker(Kind::String, 16), Ok(0xD0));
    assert_eq!(size_marker(Kind::String, 256), Ok(0xD1));
    assert_eq!(size_marker(Kind::String, 65536), Ok(0xD2));
    assert_eq!(size_marker(Kind::Bytes, 0), Ok(0xCC));
    assert_eq!(size_marker(Kind::Bytes, 256), Ok(0xCD));
    assert_eq!(size_marker(Kind::Bytes, 65536), Ok(0xCE));
    assert_eq!(size_marker(Kind::List, 3), Ok(0x93));
    assert_eq!(size_marker(Kind::Dictionary, 255), Ok(0xD8));
    assert_eq!(size_marker(Kind::Structure, 15), Ok(0xBF));
    assert_eq!(size_marker(Kind::Structure, 16), Ok(MARKER_SMALL_STRUCTURE));
    assert_eq!(size_marker(Kind::Structure, 256), Ok(MARKER_MEDIUM_STRUCTURE));
    assert!(size_marker(Kind::Structure, 65536).is_err());
    assert_eq!(integer_marker(0), 0x00);
    assert_eq!(integer_marker(-16), 0xF0);
    assert_eq!(integer_marker(-17), 0xC8);
    assert_eq!(integer_marker(128), 0xC9);
    assert_eq!(integer_marker(40000), 0xCA);
    assert_eq!(integer_marker(1 << 40), 0xCB);
}

#[test]
fn every_first_byte_has_its_class() {
    for b in 0..=255u8 {
        let class = classify_marker(b);
        match b {
            0x00..=0x7F => assert_eq!(class, Class::Tiny(b as i64)),
            0x80..=0x8F => assert_eq!(class, Class::Sized(Kind::String, 0, b - 0x80)),
            0x90..=0x9F => assert_eq!(class, Class::Sized(Kind::List, 0, b - 0x90)),
            0xA0..=0xAF => assert_eq!(class, Class::Sized(Kind::Dictionary, 0, b - 0xA0)),
            0xB0..=0xBF => assert_eq!(class, Class::Sized(Kind::Structure, 0, b - 0xB0)),
            0xC0 => assert_eq!(class, Class::Null),
            0xC1 => assert_eq!(class, Class::Float),
            0xC2 => assert_eq!(class, Class::False),
            0xC3 => assert_eq!(class, Class::True),
            0xC8 => assert_eq!(class, Class::Integer(1)),
            0xC9 => assert_eq!(class, Class::Integer(2)),
            0xCA => assert_eq!(class, Class::Integer(4)),
            0xCB => assert_eq!(class, Class::Integer(8)),
            0xCC => assert_eq!(class, Class::Sized(Kind::Bytes, 1, 0)),
            0xCD => assert_eq!(class, Class::Sized(Kind::Bytes, 2, 0)),
            0xCE => assert_eq!(class, Class::Sized(Kind::Bytes, 4, 0)),
            0xD0 => assert_eq!(class, Class::Sized(Kind::String, 1, 0)),
            0xD1 => assert_eq!(class, Class::Sized(Kind::String, 2, 0)),
            0xD2 => assert_eq!(class, Class::Sized(Kind::String, 4, 0)),
            0xD4 => assert_eq!(class, Class::Sized(Kind::List, 1, 0)),
            0xD5 => assert_eq!(class, Class::Sized(Kind::List, 2, 0)),
            0xD6 => assert_eq!(class, Class::Sized(Kind::List, 4, 0)),
            0xD8 => assert_eq!(class, Class::Sized(Kind::Dictionary, 1, 0)),
            0xD9 => assert_eq!(class, Class::Sized(Kind::Dictionary, 2, 0)),
            0xDA => assert_eq!(class, Class::Sized(Kind::Dictionary, 4, 0)),
            0xDC => assert_eq!(class, Class::Sized(Kind::Structure, 1, 0)),
            0xDD => assert_eq!(class, Class::Sized(Kind::Structure, 2, 0)),
            0xF0..=0xFF => assert_eq!(class, Class::Tiny(b as i64 - 256)),
            _ => assert_eq!(class, Class::Invalid),
        }
    }
}
