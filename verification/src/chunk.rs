use crate::encode::append_bytes;
use crate::error::Error;
use crate::format::{encodable, encode_term, parse_message};
use crate::message::Message;
use crate::roundtrip::{holds_at, lemma_be16, lemma_holds_split, lemma_message_round_trip};
use crate::term::Term;
use crate::wire::{be16, from_be16, read_be16, write_be16};
use vstd::prelude::*;
use vstd::slice::slice_subrange;

verus! {

/// The largest number of bytes that one chunk can carry.
pub const MAX_CHUNK_SIZE: usize = 0xFFFF;

/// Every chunk carries at least one byte and at most `MAX_CHUNK_SIZE`.
pub open spec fn valid_chunks(chunks: Seq<Seq<u8>>) -> bool {
    forall|i: int| 0 <= i < chunks.len() ==> 1 <= (#[trigger] chunks[i]).len() <= MAX_CHUNK_SIZE
}

/// The bytes of the chunks, one after the other.
pub open spec fn flatten(chunks: Seq<Seq<u8>>) -> Seq<u8>
    decreases chunks.len(),
{
    if chunks.len() == 0 {
        Seq::empty()
    } else {
        chunks[0] + flatten(chunks.drop_first())
    }
}

/// A message on the wire: each chunk behind its length in two bytes, then a
/// chunk of length zero.
pub open spec fn frame(chunks: Seq<Seq<u8>>) -> Seq<u8>
    decreases chunks.len(),
{
    if chunks.len() == 0 {
        seq![0u8, 0u8]
    } else {
        be16(chunks[0].len() as int) + chunks[0] + frame(chunks.drop_first())
    }
}

/// The message cut into chunks of `size` bytes, the last one shorter where
/// the length is no multiple of `size`. An empty message has no chunk.
pub open spec fn split(message: Seq<u8>, size: int) -> Seq<Seq<u8>>
    decreases message.len(),
{
    if message.len() == 0 || size <= 0 {
        Seq::empty()
    } else if message.len() <= size {
        seq![message]
    } else {
        seq![message.take(size)] + split(message.skip(size), size)
    }
}

/// The message that ends with the first chunk of length zero at or after
/// `pos`, where `acc` holds what earlier chunks carried, and the position
/// behind that chunk. Nothing, where the bytes end before the message does.
pub open spec fn unframe(s: Seq<u8>, pos: int, acc: Seq<u8>) -> Option<(Seq<u8>, int)>
    decreases s.len() - pos,
{
    if pos < 0 || pos + 2 > s.len() {
        None
    } else if from_be16(s, pos) == 0 {
        Some((acc, pos + 2))
    } else if pos + 2 + from_be16(s, pos) > s.len() {
        None
    } else {
        unframe(
            s,
            pos + 2 + from_be16(s, pos),
            acc + s.subrange(pos + 2, pos + 2 + from_be16(s, pos)),
        )
    }
}

/// Cutting a message into chunks loses nothing and makes no chunk empty or too long.
pub proof fn lemma_split(message: Seq<u8>, size: int)
    requires
        1 <= size <= MAX_CHUNK_SIZE,
    ensures
        valid_chunks(split(message, size)),
        flatten(split(message, size)) == message,
    decreases message.len(),
{
    if message.len() == 0 {
        assert(flatten(split(message, size)) =~= message);
    } else if message.len() <= size {
        let chunks = seq![message];
        assert(chunks.drop_first() =~= Seq::<Seq<u8>>::empty());
        assert(flatten(chunks.drop_first()) =~= Seq::<u8>::empty());
        assert(flatten(chunks) =~= message);
    } else {
        let rest = split(message.skip(size), size);
        lemma_split(message.skip(size), size);
        let chunks = seq![message.take(size)] + rest;
        assert(chunks.drop_first() =~= rest);
        assert(flatten(chunks) =~= message.take(size) + message.skip(size));
        assert(message.take(size) + message.skip(size) =~= message);
        assert forall|i: int| 0 <= i < chunks.len() implies 1 <= (#[trigger] chunks[i]).len()
            <= MAX_CHUNK_SIZE by {
            if i > 0 {
                assert(chunks[i] == rest[i - 1]);
            }
        }
    }
}

/// Whatever the cut, the reader puts the message together again: where the
/// frame of any chunks, none empty and none too long, stands at `pos`, reading
/// from there yields `acc` followed by the bytes of the chunks, and ends
/// behind the frame.
pub proof fn lemma_unframe_frame(s: Seq<u8>, pos: int, chunks: Seq<Seq<u8>>, acc: Seq<u8>)
    requires
        valid_chunks(chunks),
        holds_at(s, pos, frame(chunks)),
    ensures
        unframe(s, pos, acc) == Some((acc + flatten(chunks), pos + frame(chunks).len())),
    decreases chunks.len(),
{
    if chunks.len() == 0 {
        lemma_be16(s, pos, 0);
        assert(seq![0u8, 0u8] =~= be16(0));
        assert(acc + flatten(chunks) =~= acc);
    } else {
        let first = chunks[0];
        let rest = chunks.drop_first();
        let n = first.len() as int;
        lemma_holds_split(s, pos, be16(n) + first, frame(rest));
        lemma_holds_split(s, pos, be16(n), first);
        lemma_be16(s, pos, n);
        assert forall|i: int| 0 <= i < rest.len() implies 1 <= (#[trigger] rest[i]).len()
            <= MAX_CHUNK_SIZE by {
            assert(rest[i] == chunks[i + 1]);
        }
        lemma_unframe_frame(s, pos + 2 + n, rest, acc + first);
        assert(acc + first + flatten(rest) =~= acc + flatten(chunks));
    }
}

/// Whatever the cut, the reader puts the message together again: for any
/// message and any chunks that carry it, none empty and none longer than
/// `MAX_CHUNK_SIZE`, reading the frame of the chunks yields exactly the
/// message, and uses the whole frame.
pub proof fn lemma_reassembly(message: Seq<u8>, chunks: Seq<Seq<u8>>)
    requires
        valid_chunks(chunks),
        flatten(chunks) == message,
    ensures
        unframe(frame(chunks), 0, Seq::empty()) == Some((message, frame(chunks).len() as int)),
{
    let framed = frame(chunks);
    assert(framed.subrange(0, framed.len() as int) =~= framed);
    lemma_unframe_frame(framed, 0, chunks, Seq::empty());
    assert(Seq::<u8>::empty() + flatten(chunks) =~= message);
}

/// What `chunk_message` writes is read back as the message.
pub proof fn lemma_chunked_reassembly(message: Seq<u8>)
    ensures
        unframe(frame(split(message, MAX_CHUNK_SIZE as int)), 0, Seq::empty()) == Some(
            (message, frame(split(message, MAX_CHUNK_SIZE as int)).len() as int),
        ),
{
    lemma_split(message, MAX_CHUNK_SIZE as int);
    lemma_reassembly(message, split(message, MAX_CHUNK_SIZE as int));
}

/// From one end of the wire to the other: where any chunks, none empty and
/// none too long, carry the bytes of a message whose dictionaries have
/// distinct keys, the reader puts the bytes together again and reads them as
/// the same message.
pub proof fn lemma_message_over_the_wire(m: Message, chunks: Seq<Seq<u8>>)
    requires
        m@.wf(),
        encodable(m@),
        valid_chunks(chunks),
        flatten(chunks) == encode_term(m@),
    ensures
        unframe(frame(chunks), 0, Seq::empty()) == Some(
            (encode_term(m@), frame(chunks).len() as int),
        ),
        parse_message(encode_term(m@), 0) == Ok::<(Term, int), Error>(
            (m@, encode_term(m@).len() as int),
        ),
{
    lemma_reassembly(encode_term(m@), chunks);
    lemma_message_round_trip(m);
}

/// A message in the largest chunks, then the chunk of length zero.
pub fn chunk_message(message: &[u8]) -> (framed: Vec<u8>)
    ensures
        framed@ == frame(split(message@, MAX_CHUNK_SIZE as int)),
{
    let mut out: Vec<u8> = Vec::new();
    let mut pos: usize = 0;
    assert(message@.skip(0) =~= message@);
    assert(Seq::<u8>::empty() + frame(split(message@, MAX_CHUNK_SIZE as int)) =~= frame(
        split(message@, MAX_CHUNK_SIZE as int),
    ));
    while pos < message.len()
        invariant
            pos <= message@.len(),
            frame(split(message@, MAX_CHUNK_SIZE as int)) == out@ + frame(
                split(message@.skip(pos as int), MAX_CHUNK_SIZE as int),
            ),
        decreases message@.len() - pos,
    {
        let left: usize = message.len() - pos;
        let n: usize = if left <= MAX_CHUNK_SIZE {
            left
        } else {
            MAX_CHUNK_SIZE
        };
        let ghost before = out@;
        let ghost rest = message@.skip(pos as int);
        write_be16(n as u16, &mut out);
        append_bytes(slice_subrange(message, pos, pos + n), &mut out);
        proof {
            let chunks = split(rest, MAX_CHUNK_SIZE as int);
            assert(message@.subrange(pos as int, pos + n) =~= rest.take(n as int));
            assert(rest.skip(n as int) =~= message@.skip(pos + n));
            if left <= MAX_CHUNK_SIZE {
                assert(rest.take(n as int) =~= rest);
                assert(chunks.drop_first() =~= Seq::<Seq<u8>>::empty());
                assert(split(rest.skip(n as int), MAX_CHUNK_SIZE as int) =~= Seq::<
                    Seq<u8>,
                >::empty());
            } else {
                assert(chunks.drop_first() =~= split(rest.skip(n as int), MAX_CHUNK_SIZE as int));
            }
            assert(chunks[0] == rest.take(n as int));
            assert(before + frame(chunks) =~= out@ + frame(
                split(message@.skip(pos + n), MAX_CHUNK_SIZE as int),
            ));
        }
        pos = pos + n;
    }
    out.push(0);
    out.push(0);
    proof {
        assert(split(message@.skip(pos as int), MAX_CHUNK_SIZE as int) =~= Seq::<Seq<u8>>::empty());
        assert(out@ =~= frame(split(message@, MAX_CHUNK_SIZE as int)));
    }
    out
}

/// The chunks as they are, each behind its length, then the chunk of length
/// zero. Nothing, where a chunk is empty or longer than `MAX_CHUNK_SIZE`.
pub fn frame_chunks(chunks: &Vec<Vec<u8>>) -> (framed: Option<Vec<u8>>)
    ensures
        match framed {
            Some(bytes) => valid_chunks(chunks.deep_view()) && bytes@ == frame(chunks.deep_view()),
            None => !valid_chunks(chunks.deep_view()),
        },
{
    let ghost all = chunks.deep_view();
    let mut out: Vec<u8> = Vec::new();
    let mut i: usize = 0;
    assert(all.skip(0) =~= all);
    assert(Seq::<u8>::empty() + frame(all) =~= frame(all));
    while i < chunks.len()
        invariant
            i <= chunks@.len(),
            all == chunks.deep_view(),
            all.len() == chunks@.len(),
            forall|j: int| 0 <= j < i ==> 1 <= (#[trigger] all[j]).len() <= MAX_CHUNK_SIZE,
            frame(all) == out@ + frame(all.skip(i as int)),
        decreases chunks@.len() - i,
    {
        let chunk = &chunks[i];
        assert(chunk@ == all[i as int]);
        if chunk.len() == 0 || chunk.len() > MAX_CHUNK_SIZE {
            return None;
        }
        let ghost before = out@;
        write_be16(chunk.len() as u16, &mut out);
        append_bytes(chunk.as_slice(), &mut out);
        proof {
            let rest = all.skip(i as int);
            assert(rest[0] == all[i as int]);
            assert(rest.drop_first() =~= all.skip(i + 1));
            assert(before + frame(rest) =~= out@ + frame(all.skip(i + 1)));
        }
        i += 1;
    }
    out.push(0);
    out.push(0);
    proof {
        assert(all.skip(i as int) =~= Seq::<Seq<u8>>::empty());
        assert(out@ =~= frame(all));
    }
    Some(out)
}

/// The first message of a stream, and the number of bytes it took on the
/// wire. Nothing, where the stream ends before the message does: more bytes
/// have to arrive.
pub fn reassemble(stream: &[u8]) -> (r: Option<(Vec<u8>, usize)>)
    ensures
        match unframe(stream@, 0, Seq::empty()) {
            Some((message, used)) => r matches Some((m, n)) && m@ == message && n == used && 2
                <= n <= stream@.len(),
            None => r is None,
        },
{
    let mut message: Vec<u8> = Vec::new();
    let mut pos: usize = 0;
    loop
        invariant
            pos <= stream@.len(),
            unframe(stream@, 0, Seq::empty()) == unframe(stream@, pos as int, message@),
        decreases stream@.len() - pos,
    {
        if stream.len() - pos < 2 {
            return None;
        }
        let n: usize = read_be16(stream, pos) as usize;
        if n == 0 {
            return Some((message, pos + 2));
        }
        if stream.len() - pos - 2 < n {
            return None;
        }
        append_bytes(slice_subrange(stream, pos + 2, pos + 2 + n), &mut message);
        pos = pos + 2 + n;
    }
}

} // verus!
