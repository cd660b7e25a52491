use bolt_proto::error::Error;
use bolt_proto::value::{Dictionary, Value};
use bolt_proto::wire::{write_size, Kind};

fn round_trip(v: &Value) -> Value {
    Value::decode(&v.encode().unwrap()).unwrap()
}

fn header(kind: Kind, n: usize) -> Vec<u8> {
    let mut out = Vec::new();
    write_size(kind, n, &mut out).unwrap();
    out
}

#[test]
fn string_headers_at_the_boundaries() {
    assert_eq!(header(Kind::String, 0), vec![0x80]);
    assert_eq!(header(Kind::String, 1), vec![0x81]);
    assert_eq!(header(Kind::String, 15), vec![0x8F]);
    assert_eq!(header(Kind::String, 16), vec![0xD0, 0x10]);
    assert_eq!(header(Kind::String, 255), vec![0xD0, 0xFF]);
    assert_eq!(header(Kind::String, 256), vec![0xD1, 0x01, 0x00]);
    assert_eq!(header(Kind::String, 65535), vec![0xD1, 0xFF, 0xFF]);
    assert_eq!(header(Kind::String, 65536), vec![0xD2, 0x00, 0x01, 0x00, 0x00]);
}

#[test]
fn bytes_headers_have_no_tiny_form() {
    assert_eq!(header(Kind::Bytes, 0), vec![0xCC, 0x00]);
    assert_eq!(header(Kind::Bytes, 1), vec![0xCC, 0x01]);
    assert_eq!(header(Kind::Bytes, 15), vec![0xCC, 0x0F]);
    assert_eq!(header(Kind::Bytes, 16), vec![0xCC, 0x10]);
    assert_eq!(header(Kind::Bytes, 255), vec![0xCC, 0xFF]);
    assert_eq!(header(Kind::Bytes, 256), vec![0xCD, 0x01, 0x00]);
    assert_eq!(header(Kind::Bytes, 65535), vec![0xCD, 0xFF, 0xFF]);
    assert_eq!(header(Kind::Bytes, 65536), vec![0xCE, 0x00, 0x01, 0x00, 0x00]);
}

#[test]
fn list_headers_at_the_boundaries() {
    assert_eq!(header(Kind::List, 0), vec![0x90]);
    assert_eq!(header(Kind::List, 1), vec![0x91]);
    assert_eq!(header(Kind::List, 15), vec![0x9F]);
    assert_eq!(header(Kind::List, 16), vec![0xD4, 0x10]);
    assert_eq!(header(Kind::List, 255), vec![0xD4, 0xFF]);
    assert_eq!(header(Kind::List, 256), vec![0xD5, 0x01, 0x00]);
    assert_eq!(header(Kind::List, 65535), vec![0xD5, 0xFF, 0xFF]);
    assert_eq!(header(Kind::List, 65536), vec![0xD6, 0x00, 0x01, 0x00, 0x00]);
}

#[test]
fn dictionary_headers_at_the_boundaries() {
    assert_eq!(header(Kind::Dictionary, 0), vec![0xA0]);
    assert_eq!(header(Kind::Dictionary, 1), vec![0xA1]);
    assert_eq!(header(Kind::Dictionary, 15), vec![0xAF]);
    assert_eq!(header(Kind::Dictionary, 16), vec![0xD8, 0x10]);
    assert_eq!(header(Kind::Dictionary, 255), vec![0xD8, 0xFF]);
    assert_eq!(header(Kind::Dictionary, 256), vec![0xD9, 0x01, 0x00]);
    assert_eq!(header(Kind::Dictionary, 65535), vec![0xD9, 0xFF, 0xFF]);
    assert_eq!(header(Kind::Dictionary, 65536), vec![0xDA, 0x00, 0x01, 0x00, 0x00]);
}

#[test]
fn structure_headers_for_no_field_and_for_fifteen() {
    assert_eq!(header(Kind::Structure, 0), vec![0xB0]);
    assert_eq!(header(Kind::Structure, 15), vec![0xBF]);
    assert_eq!(header(Kind::Structure, 16), vec![0xDC, 0x10]);
    assert_eq!(header(Kind::Structure, 255), vec![0xDC, 0xFF]);
    assert_eq!(header(Kind::Structure, 256), vec![0xDD, 0x01, 0x00]);
    assert_eq!(header(Kind::Structure, 65535), vec![0xDD, 0xFF, 0xFF]);
}

#[test]
fn lengths_beyond_the_widest_class_are_too_large() {
    let mut out = vec![1u8, 2, 3];
    assert_eq!(write_size(Kind::Structure, 65536, &mut out), Err(Error::ValueTooLarge));
    assert_eq!(out, vec![1u8, 2, 3]);
    if usize::BITS > 32 {
        let n: usize = (u32::MAX as usize) + 1;
        assert_eq!(write_size(Kind::List, n, &mut out), Err(Error::ValueTooLarge));
        assert_eq!(write_size(Kind::String, n, &mut out), Err(Error::ValueTooLarge));
        assert_eq!(write_size(Kind::Bytes, n, &mut out), Err(Error::ValueTooLarge));
        assert_eq!(write_size(Kind::Dictionary, n, &mut out), Err(Error::ValueTooLarge));
        assert_eq!(out, vec![1u8, 2, 3]);
    }
    assert_eq!(write_size(Kind::List, u32::MAX as usize, &mut out), Ok(()));
    assert_eq!(out, vec![1u8, 2, 3, 0xD6, 0xFF, 0xFF, 0xFF, 0xFF]);
}

#[test]
fn strings_of_boundary_lengths_read_back() {
    for n in [0usize, 1, 15, 16, 255, 256, 65535, 65536] {
        let text: String = "a".repeat(n);
        let v = Value::String(text.clone());
        let bytes = v.encode().unwrap();
        let head = header(Kind::String, n);
        assert_eq!(&bytes[..head.len()], &head[..]);
        assert_eq!(bytes.len(), head.len() + n);
        assert_eq!(round_trip(&v), Value::String(text));
    }
}

#[test]
fn bytes_of_boundary_lengths_read_back() {
    for n in [0usize, 1, 15, 16, 255, 256, 65535, 65536] {
        let data: Vec<u8> = (0..n).map(|i| (i % 251) as u8).collect();
        let v = Value::Bytes(data.clone());
        let bytes = v.encode().unwrap();
        let head = header(Kind::Bytes, n);
        assert_eq!(&bytes[..head.len()], &head[..]);
        assert_eq!(&bytes[head.len()..], &data[..]);
        assert_eq!(round_trip(&v), Value::Bytes(data));
    }
}

#[test]
fn lists_of_boundary_lengths_read_back() {
    for n in [0usize, 1, 15, 16, 255, 256, 65535, 65536] {
        let items: Vec<Value> = (0..n).map(|i| Value::Integer((i % 100) as i64)).collect();
        let v = Value::List(items);
        let bytes = v.encode().unwrap();
        let head = header(Kind::List, n);
        assert_eq!(&bytes[..head.len()], &head[..]);
        assert_eq!(bytes.len(), head.len() + n);
        assert_eq!(round_trip(&v), v);
    }
}

#[test]
fn dictionaries_of_boundary_lengths_read_back() {
    for n in [0usize, 1, 15, 16, 255, 256] {
        let entries: Vec<(String, Value)> =
            (0..n).map(|i| (format!("k{}", i), Value::Integer(i as i64))).collect();
        let v = Value::Dictionary(Dictionary { entries });
        let bytes = v.encode().unwrap();
        let head = header(Kind::Dictionary, n);
        assert_eq!(&bytes[..head.len()], &head[..]);
        assert_eq!(round_trip(&v), v);
    }
}

#[test]
fn lengths_in_wider_classes_than_needed_are_read() {
    // the string "a" behind a length of one, two and four bytes
    assert_eq!(Value::decode(&[0xD0, 0x01, 0x61]).unwrap(), Value::String("a".to_string()));
    assert_eq!(Value::decode(&[0xD1, 0x00, 0x01, 0x61]).unwrap(), Value::String("a".to_string()));
    assert_eq!(
        Value::decode(&[0xD2, 0x00, 0x00, 0x00, 0x01, 0x61]).unwrap(),
        Value::String("a".to_string())
    );
    // the integer 1 in every class
    assert_eq!(Value::decode(&[0xC8, 0x01]).unwrap(), Value::Integer(1));
    assert_eq!(Value::decode(&[0xC9, 0x00, 0x01]).unwrap(), Value::Integer(1));
    assert_eq!(Value::decode(&[0xCA, 0, 0, 0, 0x01]).unwrap(), Value::Integer(1));
    assert_eq!(Value::decode(&[0xCB, 0, 0, 0, 0, 0, 0, 0, 0x01]).unwrap(), Value::Integer(1));
    assert_eq!(
        Value::decode(&[0xCB, 0xFF, 0xFF, 0xFF, 0xFF, 0xFF, 0xFF, 0xFF, 0xFF]).unwrap(),
        Value::Integer(-1),
    );
    // and written back in the smallest
    assert_eq!(Value::decode(&[0xCA, 0, 0, 0, 0x01]).unwrap().encode().unwrap(), vec![0x01]);
}
