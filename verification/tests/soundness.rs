use bolt_proto::message::{Message, Success};
use bolt_proto::wellformed::{has_distinct_keys, well_formed};
use bolt_proto::value::{Dictionary, Node, Path, Relationship, UnboundRelationship, Value};

fn dict(entries: Vec<(&str, Value)>) -> Dictionary {
    Dictionary { entries: entries.into_iter().map(|(k, v)| (k.to_string(), v)).collect() }
}

fn twice() -> Dictionary {
    dict(vec![("a", Value::Integer(1)), ("b", Value::Integer(2)), ("a", Value::Integer(3))])
}

#[test]
fn keys_are_distinct_or_not() {
    assert!(has_distinct_keys(&dict(vec![])));
    assert!(has_distinct_keys(&dict(vec![("a", Value::Null)])));
    assert!(
        has_distinct_keys(&dict(vec![("a", Value::Null), ("b", Value::Null), ("c", Value::Null)])),
    );
    assert!(!has_distinct_keys(&twice()));
    assert!(
        !has_distinct_keys(&dict(vec![("x", Value::Null), ("y", Value::Null), ("y", Value::Null)])),
    );
}

#[test]
fn values_without_dictionaries_are_well_formed() {
    for v in [
        Value::Null,
        Value::Boolean(true),
        Value::Integer(1),
        Value::Float(1),
        Value::Bytes(vec![1]),
        Value::string("a"),
        Value::List(vec![Value::Null, Value::List(vec![])]),
        Value::Path(Path::new(vec![], vec![], vec![1])),
    ] {
        assert!(well_formed(&v));
    }
}

#[test]
fn key_that_occurs_twice_at_any_depth_is_found() {
    assert!(!well_formed(&Value::Dictionary(twice())));
    assert!(!well_formed(&Value::List(vec![Value::Null, Value::Dictionary(twice())])));
    assert!(!well_formed(&Value::Dictionary(dict(vec![("outer", Value::Dictionary(twice()))]))));
    assert!(!well_formed(&Value::Node(Node::new(1, vec![], twice()))));
    assert!(
        !well_formed(&Value::Relationship(Relationship::new(1, 2, 3, "R".to_string(), twice()))),
    );
    assert!(
        !well_formed(
            &Value::UnboundRelationship(UnboundRelationship::new(1, "R".to_string(), twice())),
        ),
    );
    let inner = Node::new(1, vec![], dict(vec![("p", Value::Dictionary(twice()))]));
    assert!(!well_formed(&Value::Path(Path::new(vec![inner], vec![], vec![]))));
    let rel = UnboundRelationship::new(1, "R".to_string(), twice());
    assert!(!well_formed(&Value::Path(Path::new(vec![], vec![rel], vec![]))));
    let fine = Node::new(
        1,
        vec!["L".to_string()],
        dict(vec![("a", Value::Integer(1)), ("b", Value::Integer(2))]),
    );
    assert!(well_formed(&Value::Node(fine)));
}

#[test]
fn well_formed_value_reads_back_as_itself() {
    let v = Value::Dictionary(dict(vec![
        ("a", Value::List(vec![Value::Integer(-17), Value::string("x")])),
        ("b", Value::Node(Node::new(5, vec!["L".to_string()], dict(vec![("k", Value::Null)])))),
    ]));
    assert!(well_formed(&v));
    let back = Value::decode(&v.encode().unwrap()).unwrap();
    assert_eq!(back, v);
    assert!(well_formed(&back));
}

#[test]
fn value_with_a_key_twice_reads_back_with_the_later_binding() {
    let v = Value::Dictionary(twice());
    let back = Value::decode(&v.encode().unwrap()).unwrap();
    assert!(well_formed(&back));
    assert_eq!(
        back,
        Value::Dictionary(dict(vec![("a", Value::Integer(3)), ("b", Value::Integer(2))])),
    );
}

#[test]
fn what_is_read_is_well_formed() {
    let bytes = [
        0xA3, 0x81, 0x61, 0x01, 0x81, 0x61, 0x02, 0x81, 0x61, 0xA2, 0x81, 0x62, 0x01, 0x81, 0x62,
        0x02,
    ];
    let v = Value::decode(&bytes).unwrap();
    assert!(well_formed(&v));
    assert_eq!(
        v,
        Value::Dictionary(
            dict(vec![("a", Value::Dictionary(dict(vec![("b", Value::Integer(2))])))]),
        )
    );
    let m = Message::decode(&[0xB1, 0x70, 0xA2, 0x81, 0x61, 0x01, 0x81, 0x61, 0x02]).unwrap();
    assert_eq!(m, Message::Success(Success::new(dict(vec![("a", Value::Integer(2))]))));
}
