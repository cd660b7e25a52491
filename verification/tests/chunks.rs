use bolt_proto::chunk::{chunk_message, frame_chunks, reassemble, MAX_CHUNK_SIZE};
use bolt_proto::value::Value;

fn cut(message: &[u8], size: usize) -> Vec<Vec<u8>> {
    message.chunks(size).map(|c| c.to_vec()).collect()
}

#[test]
fn short_message_goes_in_one_chunk() {
    assert_eq!(chunk_message(&[1, 2, 3]), vec![0x00, 0x03, 1, 2, 3, 0x00, 0x00]);
}

#[test]
fn empty_message_is_only_the_end_marker() {
    assert_eq!(chunk_message(&[]), vec![0x00, 0x00]);
    assert_eq!(reassemble(&[0x00, 0x00]), Some((vec![], 2)));
    assert_eq!(frame_chunks(&vec![]), Some(vec![0x00, 0x00]));
}

#[test]
fn message_of_the_largest_chunk_size_goes_in_one_chunk() {
    let message = vec![7u8; MAX_CHUNK_SIZE];
    let framed = chunk_message(&message);
    assert_eq!(framed.len(), 2 + 65535 + 2);
    assert_eq!(&framed[..2], &[0xFF, 0xFF]);
    assert_eq!(&framed[framed.len() - 2..], &[0x00, 0x00]);
    assert_eq!(reassemble(&framed), Some((message, 65539)));
}

#[test]
fn longer_message_goes_in_several_chunks() {
    let message: Vec<u8> = (0..65536usize + 10).map(|i| (i % 253) as u8).collect();
    let framed = chunk_message(&message);
    assert_eq!(framed.len(), 2 + 65535 + 2 + 11 + 2);
    assert_eq!(&framed[..2], &[0xFF, 0xFF]);
    assert_eq!(&framed[2 + 65535..2 + 65535 + 2], &[0x00, 0x0B]);
    assert_eq!(reassemble(&framed), Some((message, 65552)));
}

#[test]
fn chunks_of_one_byte_are_put_together() {
    let message = Value::String("hello".to_string()).encode().unwrap();
    let framed = frame_chunks(&cut(&message, 1)).unwrap();
    assert_eq!(
        framed,
        vec![0, 1, 0x85, 0, 1, b'h', 0, 1, b'e', 0, 1, b'l', 0, 1, b'l', 0, 1, b'o', 0, 0]
    );
    assert_eq!(reassemble(&framed), Some((message, 20)));
}

#[test]
fn any_cut_yields_the_message() {
    let message = Value::List(vec![
        Value::Integer(200),
        Value::String("gr\u{00fc}n \u{1F600}".to_string()),
        Value::Bytes(vec![0, 0, 0, 0]),
    ])
    .encode()
    .unwrap();
    for size in 1..=message.len() {
        let framed = frame_chunks(&cut(&message, size)).unwrap();
        let (whole, used) = reassemble(&framed).unwrap();
        assert_eq!(whole, message);
        assert_eq!(used, framed.len());
        assert_eq!(Value::decode(&whole).unwrap().encode().unwrap(), message);
    }
}

#[test]
fn cut_at_a_marker_byte() {
    // the list [200, "a"]: the markers stand at 0, 1 and 4
    let message = vec![0x92, 0xC9, 0x00, 0xC8, 0x81, 0x61];
    for at in [1usize, 4] {
        let chunks = vec![message[..at].to_vec(), message[at..].to_vec()];
        let framed = frame_chunks(&chunks).unwrap();
        assert_eq!(reassemble(&framed), Some((message.clone(), message.len() + 6)));
    }
}

#[test]
fn cut_inside_a_utf8_sequence() {
    let message = Value::String("\u{00fc}".to_string()).encode().unwrap();
    assert_eq!(message, vec![0x82, 0xC3, 0xBC]);
    let framed = frame_chunks(&vec![vec![0x82, 0xC3], vec![0xBC]]).unwrap();
    assert_eq!(framed, vec![0, 2, 0x82, 0xC3, 0, 1, 0xBC, 0, 0]);
    let (whole, used) = reassemble(&framed).unwrap();
    assert_eq!(used, 9);
    assert_eq!(Value::decode(&whole).unwrap(), Value::String("\u{00fc}".to_string()));
}

#[test]
fn a_stream_that_ends_early_yields_nothing_yet() {
    let framed = chunk_message(&[1, 2, 3, 4]);
    for end in 0..framed.len() {
        assert_eq!(reassemble(&framed[..end]), None, "end at {}", end);
    }
    assert_eq!(reassemble(&framed), Some((vec![1, 2, 3, 4], 8)));
}

#[test]
fn only_the_first_message_of_a_stream_is_taken() {
    let mut stream = chunk_message(&[1, 2]);
    stream.extend(chunk_message(&[3]));
    let (first, used) = reassemble(&stream).unwrap();
    assert_eq!(first, vec![1, 2]);
    assert_eq!(used, 6);
    assert_eq!(reassemble(&stream[used..]), Some((vec![3], 5)));
}

#[test]
fn empty_and_oversized_chunks_are_not_framed() {
    assert_eq!(frame_chunks(&vec![vec![1], vec![]]), None);
    assert_eq!(frame_chunks(&vec![vec![0u8; 65536]]), None);
    assert!(frame_chunks(&vec![vec![0u8; 65535]]).is_some());
}
