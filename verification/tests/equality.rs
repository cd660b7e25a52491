use bolt_proto::same::{same_bytes, same_integers, same_strings, same_value, value_tag};
use bolt_proto::value::{Date, Dictionary, Node, Path, Time, UnboundRelationship, Value};

fn dict(entries: Vec<(&str, Value)>) -> Dictionary {
    Dictionary { entries: entries.into_iter().map(|(k, v)| (k.to_string(), v)).collect() }
}

#[test]
fn order_of_entries_does_not_count() {
    let ab = dict(vec![("a", Value::Integer(1)), ("b", Value::Integer(2))]);
    let ba = dict(vec![("b", Value::Integer(2)), ("a", Value::Integer(1))]);
    assert_eq!(ab, ba);
    let again = dict(vec![("a", Value::Integer(1)), ("b", Value::Integer(2))]);
    assert_ne!(
        Value::Dictionary(again.clone()).encode().unwrap(),
        Value::Dictionary(ba.clone()).encode().unwrap()
    );
    assert_eq!(Value::Dictionary(again), Value::Dictionary(ba));
    let nested_ab = Value::List(
        vec![Value::Dictionary(dict(vec![("x", Value::Null), ("y", Value::Boolean(true))]))],
    );
    let nested_ba = Value::List(
        vec![Value::Dictionary(dict(vec![("y", Value::Boolean(true)), ("x", Value::Null)]))],
    );
    assert_eq!(nested_ab, nested_ba);
    let n1 = Node::new(
        1,
        vec!["L".to_string()],
        dict(vec![("p", Value::Integer(1)), ("q", Value::Integer(2))]),
    );
    let n2 = Node::new(
        1,
        vec!["L".to_string()],
        dict(vec![("q", Value::Integer(2)), ("p", Value::Integer(1))]),
    );
    assert_eq!(Value::Node(n1), Value::Node(n2));
}

#[test]
fn dictionaries_that_bind_otherwise_differ() {
    let ab = dict(vec![("a", Value::Integer(1)), ("b", Value::Integer(2))]);
    assert_ne!(ab, dict(vec![("a", Value::Integer(1))]));
    assert_ne!(ab, dict(vec![("a", Value::Integer(1)), ("b", Value::Integer(3))]));
    assert_ne!(ab, dict(vec![("a", Value::Integer(1)), ("c", Value::Integer(2))]));
    assert_ne!(
        ab,
        dict(vec![("a", Value::Integer(1)), ("b", Value::Integer(2)), ("c", Value::Null)]),
    );
    assert_ne!(dict(vec![]), ab);
    assert_eq!(dict(vec![]), Dictionary::new());
}

#[test]
fn values_of_different_kinds_differ() {
    let values = vec![
        Value::Null,
        Value::Boolean(false),
        Value::Boolean(true),
        Value::Integer(0),
        Value::Integer(1),
        Value::Float(0),
        Value::Float(1),
        Value::Bytes(vec![]),
        Value::Bytes(vec![0]),
        Value::string(""),
        Value::string("0"),
        Value::List(vec![]),
        Value::List(vec![Value::Null]),
        Value::Dictionary(dict(vec![])),
        Value::Dictionary(dict(vec![("a", Value::Null)])),
        Value::Node(Node::new(0, vec![], dict(vec![]))),
        Value::Node(Node::new(0, vec!["L".to_string()], dict(vec![]))),
        Value::UnboundRelationship(UnboundRelationship::new(0, "".to_string(), dict(vec![]))),
        Value::Path(Path::new(vec![], vec![], vec![])),
        Value::Path(Path::new(vec![], vec![], vec![1])),
        Value::Date(Date::new(0)),
        Value::Date(Date::new(1)),
        Value::Time(Time::new(0, 0)),
        Value::Time(Time::new(0, 1)),
    ];
    for (i, a) in values.iter().enumerate() {
        for (j, b) in values.iter().enumerate() {
            assert_eq!(same_value(a, b), i == j, "{:?} and {:?}", a, b);
            assert_eq!(a == b, i == j);
        }
    }
}

#[test]
fn tags_tell_the_kinds_apart() {
    assert_eq!(value_tag(&Value::Null), 0);
    assert_eq!(value_tag(&Value::Dictionary(dict(vec![]))), 7);
    assert_eq!(value_tag(&Value::Date(Date::new(0))), 8 + 0x44);
    assert_eq!(value_tag(&Value::Node(Node::new(0, vec![], dict(vec![])))), 8 + 0x4E);
}

#[test]
fn runs_are_the_same_item_by_item() {
    assert!(same_bytes(&[], &[]));
    assert!(same_bytes(&[1, 2], &[1, 2]));
    assert!(!same_bytes(&[1, 2], &[1, 3]));
    assert!(!same_bytes(&[1, 2], &[1]));
    assert!(same_strings(&vec!["a".to_string()], &vec!["a".to_string()]));
    assert!(!same_strings(&vec!["a".to_string()], &vec!["b".to_string()]));
    assert!(!same_strings(&vec![], &vec!["b".to_string()]));
    assert!(same_integers(&vec![1, 2, 3], &vec![1, 2, 3]));
    assert!(!same_integers(&vec![1, 2, 3], &vec![1, 2, 4]));
}
