use bolt_proto::dictionary::same_text;
use bolt_proto::value::{Dictionary, Value};

#[test]
fn new_dictionary_is_empty() {
    let d = Dictionary::new();
    assert!(d.is_empty());
    assert_eq!(d.len(), 0);
    assert_eq!(d.get("a"), None);
    assert!(!d.contains_key("a"));
}

#[test]
fn insert_binds_and_replaces() {
    let mut d = Dictionary::new();
    assert_eq!(d.insert("a".to_string(), Value::Integer(1)), None);
    assert_eq!(d.insert("b".to_string(), Value::Integer(2)), None);
    assert_eq!(d.insert("a".to_string(), Value::Integer(3)), Some(Value::Integer(1)));
    assert_eq!(d.len(), 2);
    assert_eq!(d.get("a"), Some(&Value::Integer(3)));
    assert_eq!(d.get("b"), Some(&Value::Integer(2)));
    assert_eq!(d.entries[0].0, "a");
    assert_eq!(d.entries[1].0, "b");
    assert_eq!(d.position("a"), 0);
    assert_eq!(d.position("b"), 1);
    assert_eq!(d.position("c"), 2);
}

#[test]
fn remove_takes_the_binding_out() {
    let mut d = Dictionary::new();
    d.insert("a".to_string(), Value::Integer(1));
    d.insert("b".to_string(), Value::Integer(2));
    d.insert("c".to_string(), Value::Integer(3));
    assert_eq!(d.remove("b"), Some(Value::Integer(2)));
    assert_eq!(d.remove("b"), None);
    assert_eq!(d.len(), 2);
    assert_eq!(d.entries[0].0, "a");
    assert_eq!(d.entries[1].0, "c");
    assert!(d.contains_key("a") && d.contains_key("c") && !d.contains_key("b"));
}

#[test]
fn key_that_occurs_again_on_the_wire_replaces_the_value() {
    // {"a": 1, "b": 2, "a": 3}
    let bytes = [0xA3, 0x81, 0x61, 0x01, 0x81, 0x62, 0x02, 0x81, 0x61, 0x03];
    match Value::decode(&bytes).unwrap() {
        Value::Dictionary(d) => {
            assert_eq!(d.len(), 2);
            assert_eq!(d.get("a"), Some(&Value::Integer(3)));
            assert_eq!(d.get("b"), Some(&Value::Integer(2)));
            assert_eq!(d.entries[0].0, "a");
        }
        other => panic!("{:?}", other),
    }
}

#[test]
fn entries_are_written_in_the_order_given() {
    let d = Dictionary {
        entries: vec![("z".to_string(), Value::Integer(1)), ("a".to_string(), Value::Integer(2))],
    };
    assert_eq!(
        Value::Dictionary(d).encode().unwrap(),
        vec![0xA2, 0x81, 0x7A, 0x01, 0x81, 0x61, 0x02]
    );
}

#[test]
fn texts_are_the_same_where_their_bytes_are() {
    assert!(same_text("", ""));
    assert!(same_text("abc", "abc"));
    assert!(!same_text("abc", "abd"));
    assert!(!same_text("abc", "ab"));
    assert!(!same_text("", "a"));
    assert!(same_text("gr\u{00fc}n", "gr\u{00fc}n"));
    assert!(!same_text("gr\u{00fc}n", "grun"));
}

#[test]
fn copy_of_a_dictionary_has_the_same_entries() {
    let mut d = Dictionary::new();
    d.insert("k".to_string(), Value::List(vec![Value::Null]));
    let copy = d.clone();
    assert_eq!(copy, d);
}
