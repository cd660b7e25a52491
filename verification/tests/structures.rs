use bolt_proto::error::Error;
use bolt_proto::value::{
    Date, DateTimeOffset, DateTimeZoneId, Dictionary, Duration, LocalDateTime, LocalTime, Node,
    Path, Point2D, Point3D, Relationship, Time, UnboundRelationship, Value,
};

fn dict(entries: Vec<(&str, Value)>) -> Dictionary {
    Dictionary { entries: entries.into_iter().map(|(k, v)| (k.to_string(), v)).collect() }
}

fn round_trip(v: &Value) -> Value {
    Value::decode(&v.encode().unwrap()).unwrap()
}

#[test]
fn dictionary_with_one_entry() {
    let v = Value::Dictionary(dict(vec![("n", Value::Integer(1))]));
    assert_eq!(v.encode().unwrap(), vec![0xA1, 0x81, 0x6E, 0x01]);
    assert_eq!(Value::decode(&[0xA1, 0x81, 0x6E, 0x01]).unwrap(), v);
}

#[test]
fn node_with_one_label_and_one_property() {
    let node = Node {
        node_identity: 42,
        labels: vec!["L".to_string()],
        properties: dict(vec![("k", Value::String("v".to_string()))]),
    };
    let expected = vec![0xB3, 0x4E, 0x2A, 0x91, 0x81, 0x4C, 0xA1, 0x81, 0x6B, 0x81, 0x76];
    assert_eq!(Value::Node(node).encode().unwrap(), expected);
    match Value::decode(&expected).unwrap() {
        Value::Node(n) => {
            assert_eq!(n.node_identity(), 42);
            assert_eq!(n.labels(), &["L".to_string()]);
            assert_eq!(n.properties().get("k"), Some(&Value::String("v".to_string())));
        }
        other => panic!("{:?}", other),
    }
}

#[test]
fn relationship_is_written_field_by_field() {
    let r = Relationship {
        rel_identity: 1,
        start_node_identity: 2,
        end_node_identity: 3,
        rel_type: "T".to_string(),
        properties: dict(vec![]),
    };
    let v = Value::Relationship(r);
    assert_eq!(v.encode().unwrap(), vec![0xB5, 0x52, 0x01, 0x02, 0x03, 0x81, 0x54, 0xA0]);
    assert_eq!(round_trip(&v), v);
}

#[test]
fn unbound_relationship_is_written_field_by_field() {
    let r = UnboundRelationship::new(
        7,
        "KNOWS".to_string(),
        dict(vec![("since", Value::Integer(1999))]),
    );
    assert_eq!(r.rel_identity(), 7);
    assert_eq!(r.rel_type(), "KNOWS");
    assert_eq!(r.properties().get("since"), Some(&Value::Integer(1999)));
    let v = Value::UnboundRelationship(r);
    assert_eq!(
        v.encode().unwrap(),
        vec![
            0xB3, 0x72, 0x07, 0x85, 0x4B, 0x4E, 0x4F, 0x57, 0x53, 0xA1, 0x85, 0x73, 0x69, 0x6E,
            0x63, 0x65, 0xC9, 0x07, 0xCF
        ]
    );
    assert_eq!(round_trip(&v), v);
}

#[test]
fn path_holds_nodes_relationships_and_a_sequence() {
    let a = Node { node_identity: 1, labels: vec![], properties: dict(vec![]) };
    let b = Node { node_identity: 2, labels: vec!["B".to_string()], properties: dict(vec![]) };
    let r = UnboundRelationship::new(9, "R".to_string(), dict(vec![]));
    let v = Value::Path(Path { nodes: vec![a, b], relationships: vec![r], sequence: vec![1, 1] });
    assert_eq!(
        v.encode().unwrap(),
        vec![
            0xB3, 0x50, 0x92, 0xB3, 0x4E, 0x01, 0x90, 0xA0, 0xB3, 0x4E, 0x02, 0x91, 0x81, 0x42,
            0xA0, 0x91, 0xB3, 0x72, 0x09, 0x81, 0x52, 0xA0, 0x92, 0x01, 0x01
        ]
    );
    assert_eq!(round_trip(&v), v);
}

#[test]
fn temporal_values_are_structures_of_integers() {
    let date = Value::Date(Date { days_since_epoch: 18000 });
    assert_eq!(date.encode().unwrap(), vec![0xB1, 0x44, 0xC9, 0x46, 0x50]);
    let time = Value::Time(Time { nanos_since_midnight: 1, zone_offset: -3600 });
    assert_eq!(time.encode().unwrap(), vec![0xB2, 0x54, 0x01, 0xC9, 0xF1, 0xF0]);
    let local_time = Value::LocalTime(LocalTime { nanos_since_midnight: 0 });
    assert_eq!(local_time.encode().unwrap(), vec![0xB1, 0x74, 0x00]);
    let offset = Value::DateTimeOffset(
        DateTimeOffset { epoch_seconds: 1, nanos: 2, offset_seconds: 3 },
    );
    assert_eq!(offset.encode().unwrap(), vec![0xB3, 0x46, 0x01, 0x02, 0x03]);
    let zoned = Value::DateTimeZoneId(
        DateTimeZoneId { epoch_seconds: 1, nanos: 2, zone_id: "UTC".to_string() },
    );
    assert_eq!(zoned.encode().unwrap(), vec![0xB3, 0x66, 0x01, 0x02, 0x83, 0x55, 0x54, 0x43]);
    let local = Value::LocalDateTime(LocalDateTime { epoch_seconds: 1267792201, nanos: 500 });
    assert_eq!(
        local.encode().unwrap(),
        vec![0xB2, 0x64, 0xCA, 0x4B, 0x90, 0xF9, 0x49, 0xC9, 0x01, 0xF4],
    );
    let duration = Value::Duration(Duration { months: 118, days: 7, seconds: 0, nanos: 0 });
    assert_eq!(duration.encode().unwrap(), vec![0xB4, 0x45, 0x76, 0x07, 0x00, 0x00]);
    for v in [date, time, local_time, offset, zoned, local, duration] {
        assert_eq!(round_trip(&v), v);
    }
}

#[test]
fn points_hold_floats() {
    let p2 = Value::Point2D(Point2D { srid: 7203, x: 1.0f64.to_bits(), y: 2.0f64.to_bits() });
    assert_eq!(
        p2.encode().unwrap(),
        vec![
            0xB3, 0x58, 0xC9, 0x1C, 0x23, 0xC1, 0x3F, 0xF0, 0, 0, 0, 0, 0, 0, 0xC1, 0x40, 0, 0, 0,
            0, 0, 0, 0
        ]
    );
    let p3 = Value::Point3D(Point3D {
        srid: 9157,
        x: 42.5123f64.to_bits(),
        y: 1.123f64.to_bits(),
        z: 3214.0f64.to_bits(),
    });
    match round_trip(&p3) {
        Value::Point3D(p) => {
            assert_eq!(p.srid(), 9157);
            assert_eq!(f64::from_bits(p.x()), 42.5123);
            assert_eq!(f64::from_bits(p.y()), 1.123);
            assert_eq!(f64::from_bits(p.z()), 3214.0);
        }
        other => panic!("{:?}", other),
    }
    assert_eq!(round_trip(&p2), p2);
}

#[test]
fn nested_values_read_back() {
    let inner = Value::List(
        vec![Value::Null, Value::Boolean(true), Value::Float(0.25f64.to_bits())],
    );
    let v = Value::Dictionary(dict(vec![
        ("list", inner),
        ("text", Value::String("gr\u{00fc}\u{00df}e \u{4e16}\u{754c} \u{1F600}".to_string())),
        ("bytes", Value::Bytes(vec![0, 1, 2, 255])),
        ("nested", Value::Dictionary(dict(vec![("deep", Value::Integer(-1234567890123))]))),
    ]));
    assert_eq!(round_trip(&v), v);
}

#[test]
fn unknown_signature_is_refused() {
    assert_eq!(Value::decode(&[0xB1, 0x01, 0x01]), Err(Error::InvalidSignature(0x01)));
    assert_eq!(Value::decode(&[0xB0, 0x70]), Err(Error::InvalidSignature(0x70)));
    assert_eq!(Value::decode(&[0xB0, 0x00]), Err(Error::InvalidSignature(0x00)));
}

#[test]
fn field_count_that_is_not_the_declared_one_is_refused() {
    // a node with two fields
    assert_eq!(Value::decode(&[0xB2, 0x4E, 0x01, 0x90]), Err(Error::InvalidStructure));
    // a date without a field
    assert_eq!(Value::decode(&[0xB0, 0x44]), Err(Error::InvalidStructure));
    // a node that announces fifteen fields
    let mut bytes = vec![0xBF, 0x4E];
    bytes.extend(std::iter::repeat(0x01).take(15));
    assert_eq!(Value::decode(&bytes), Err(Error::InvalidStructure));
    // a node whose three fields stand behind a count of one and of two bytes
    assert!(matches!(Value::decode(&[0xDC, 0x03, 0x4E, 0x01, 0x90, 0xA0]), Ok(Value::Node(_))));
    assert!(
        matches!(Value::decode(&[0xDD, 0x00, 0x03, 0x4E, 0x01, 0x90, 0xA0]), Ok(Value::Node(_))),
    );
}

#[test]
fn fields_of_the_wrong_kind_are_refused() {
    // a node whose identity is a string
    assert_eq!(Value::decode(&[0xB3, 0x4E, 0x81, 0x61, 0x90, 0xA0]), Err(Error::InvalidStructure));
    // a node with a label that is no string
    assert_eq!(Value::decode(&[0xB3, 0x4E, 0x01, 0x91, 0x01, 0xA0]), Err(Error::InvalidStructure));
    // a date whose days are a float
    assert_eq!(
        Value::decode(&[0xB1, 0x44, 0xC1, 0, 0, 0, 0, 0, 0, 0, 0]),
        Err(Error::InvalidStructure)
    );
    // a path whose nodes are integers
    assert_eq!(Value::decode(&[0xB3, 0x50, 0x91, 0x01, 0x90, 0x90]), Err(Error::InvalidStructure));
}

#[test]
fn dictionary_key_that_is_no_string_is_refused() {
    assert_eq!(Value::decode(&[0xA1, 0x01, 0x01]), Err(Error::InvalidStructure));
    assert_eq!(Value::decode(&[0xA1, 0xC0, 0x01]), Err(Error::InvalidStructure));
}

#[test]
fn bytes_that_are_no_utf8_are_refused() {
    assert_eq!(Value::decode(&[0x81, 0xFF]), Err(Error::InvalidUtf8));
    assert_eq!(Value::decode(&[0x82, 0xC3, 0x28]), Err(Error::InvalidUtf8));
    // an overlong form and a surrogate
    assert_eq!(Value::decode(&[0x82, 0xC0, 0x80]), Err(Error::InvalidUtf8));
    assert_eq!(Value::decode(&[0x83, 0xED, 0xA0, 0x80]), Err(Error::InvalidUtf8));
    // a sequence of two bytes cut after the first
    assert_eq!(Value::decode(&[0x81, 0xC3]), Err(Error::InvalidUtf8));
    assert_eq!(Value::decode(&[0x82, 0xC3, 0xBC]).unwrap(), Value::String("\u{00fc}".to_string()));
}

#[test]
fn values_that_end_early_are_truncated() {
    let node = vec![0xB3, 0x4E, 0x2A, 0x91, 0x81, 0x4C, 0xA1, 0x81, 0x6B, 0x81, 0x76];
    for cut in 0..node.len() {
        assert_eq!(Value::decode(&node[..cut]), Err(Error::Truncated), "cut at {}", cut);
    }
    assert_eq!(Value::decode(&[0x92, 0x01]), Err(Error::Truncated));
    assert_eq!(Value::decode(&[0xA1, 0x81, 0x61]), Err(Error::Truncated));
    assert_eq!(Value::decode(&[0xCC, 0x02, 0x00]), Err(Error::Truncated));
    assert_eq!(Value::decode(&[0xD6, 0xFF, 0xFF, 0xFF, 0xFF, 0x01]), Err(Error::Truncated));
}

#[test]
fn what_follows_the_first_value_is_left_alone() {
    assert_eq!(Value::decode(&[0x01, 0x02, 0x03]).unwrap(), Value::Integer(1));
    assert_eq!(Value::decode(&[0x90, 0xFF]).unwrap(), Value::List(vec![]));
}

#[test]
fn narrowing_an_integer_overflows_where_it_does_not_fit() {
    assert_eq!(Value::Integer(127).try_into_i8(), Ok(127i8));
    assert_eq!(Value::Integer(-128).try_into_i8(), Ok(-128i8));
    assert_eq!(Value::Integer(128).try_into_i8(), Err(Error::IntegerOverflow));
    assert_eq!(Value::Integer(-129).try_into_i8(), Err(Error::IntegerOverflow));
    assert_eq!(Value::Integer(32767).try_into_i16(), Ok(32767i16));
    assert_eq!(Value::Integer(32768).try_into_i16(), Err(Error::IntegerOverflow));
    assert_eq!(Value::Integer(-32769).try_into_i16(), Err(Error::IntegerOverflow));
    assert_eq!(Value::Integer(2147483647).try_into_i32(), Ok(2147483647i32));
    assert_eq!(Value::Integer(2147483648).try_into_i32(), Err(Error::IntegerOverflow));
    assert_eq!(Value::Integer(-2147483649).try_into_i32(), Err(Error::IntegerOverflow));
    assert_eq!(Value::Integer(i64::MIN).try_into_i64(), Ok(i64::MIN));
    assert_eq!(Value::Null.try_into_i32(), Err(Error::InvalidConversion));
    assert_eq!(Value::String("1".to_string()).try_into_i64(), Err(Error::InvalidConversion));
}

#[test]
fn a_value_is_converted_only_to_its_own_kind() {
    assert_eq!(Value::String("abc".to_string()).try_into_string(), Ok("abc".to_string()));
    assert_eq!(Value::Integer(1).try_into_string(), Err(Error::InvalidConversion));
    assert_eq!(Value::Boolean(true).try_into_bool(), Ok(true));
    assert_eq!(Value::Null.try_into_bool(), Err(Error::InvalidConversion));
    assert_eq!(Value::Float(7).try_into_float(), Ok(7u64));
    assert_eq!(Value::List(vec![Value::Null]).try_into_list(), Ok(vec![Value::Null]));
    assert_eq!(Value::Bytes(vec![1]).try_into_bytes_vec(), Ok(vec![1u8]));
    assert!(Value::Null.try_into_dictionary().is_err());
    assert_eq!(Value::from(5i8), Value::Integer(5));
    assert_eq!(Value::from(-5i64), Value::Integer(-5));
    assert_eq!(Value::from(true), Value::Boolean(true));
    assert_eq!(Value::from("x".to_string()), Value::String("x".to_string()));
    assert_eq!(Value::string("Rust"), Value::String("Rust".to_string()));
    let node = Node::new(1, vec![], dict(vec![]));
    assert!(UnboundRelationship::try_from(Value::Node(node)).is_err());
    let rel = UnboundRelationship::new(1, "R".to_string(), dict(vec![]));
    assert_eq!(
        UnboundRelationship::try_from(Value::UnboundRelationship(rel)).unwrap().rel_type(),
        "R",
    );
}

#[test]
fn a_copy_equals_what_it_was_made_from() {
    let v = Value::List(vec![
        Value::Dictionary(dict(vec![("a", Value::Bytes(vec![1, 2, 3]))])),
        Value::Node(
            Node::new(3, vec!["X".to_string(), "Y".to_string()], dict(vec![("p", Value::Null)])),
        ),
        Value::Path(Path::new(vec![], vec![], vec![1, 2, 3])),
    ]);
    let copy = v.clone();
    assert_eq!(copy, v);
    assert_eq!(copy.encode().unwrap(), v.encode().unwrap());
}
