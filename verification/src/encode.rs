use crate::error::Error;
use crate::format::{
    encodable, encode_entries, encode_string, encode_term, encode_terms, max_length,
};
use crate::term::Term;
use crate::value::{
    entries_view, integers_view, nodes_view, strings_view, unbound_relationships_view, value_view,
    values_view, Dictionary, DateTimeZoneId, Duration, Node, Path, Point2D, Point3D, Relationship,
    UnboundRelationship, Value, SIGNATURE_DATE, SIGNATURE_DATE_TIME_OFFSET,
    SIGNATURE_DATE_TIME_ZONE_ID, SIGNATURE_DURATION, SIGNATURE_LOCAL_DATE_TIME,
    SIGNATURE_LOCAL_TIME, SIGNATURE_NODE, SIGNATURE_PATH, SIGNATURE_POINT_2D, SIGNATURE_POINT_3D,
    SIGNATURE_RELATIONSHIP, SIGNATURE_TIME, SIGNATURE_UNBOUND_RELATIONSHIP,
};
use crate::wire::{size_header, write_be64, write_integer, write_size, Kind};
use vstd::prelude::*;
use vstd::utf8::encode_utf8;

verus! {

/// The bytes of a run of terms end with the bytes of the last.
pub proof fn lemma_encode_terms_push(ts: Seq<Term>, t: Term)
    ensures
        encode_terms(ts.push(t)) == encode_terms(ts) + encode_term(t),
{
    assert(ts.push(t).drop_last() =~= ts);
}

/// The bytes of a run of entries end with the bytes of the last.
pub proof fn lemma_encode_entries_push(es: Seq<(Seq<char>, Term)>, key: Seq<char>, value: Term)
    ensures
        encode_entries(es.push((key, value))) == encode_entries(es) + encode_string(key)
            + encode_term(value),
{
    assert(es.push((key, value)).drop_last() =~= es);
}

/// Appends a string: its length in bytes in the smallest form, then its UTF-8.
pub fn encode_str(text: &str, out: &mut Vec<u8>) -> (r: Result<(), Error>)
    ensures
        match r {
            Ok(()) => encodable(Term::String(text@)) && final(out)@ == old(out)@ + encode_string(
                text@,
            ),
            Err(e) => e == Error::ValueTooLarge && !encodable(Term::String(text@)),
        },
{
    let bytes = text.as_bytes();
    match write_size(Kind::String, bytes.len(), out) {
        Err(e) => {
            return Err(e);
        },
        Ok(()) => {},
    }
    append_bytes(bytes, out);
    assert(out@ =~= old(out)@ + encode_string(text@));
    Ok(())
}

/// Appends bytes as they are.
pub fn append_bytes(bytes: &[u8], out: &mut Vec<u8>)
    ensures
        final(out)@ == old(out)@ + bytes@,
{
    let mut i: usize = 0;
    while i < bytes.len()
        invariant
            i <= bytes@.len(),
            out@ == old(out)@ + bytes@.take(i as int),
        decreases bytes@.len() - i,
    {
        out.push(bytes[i]);
        assert(bytes@.take(i + 1) =~= bytes@.take(i as int).push(bytes@[i as int]));
        i += 1;
    }
    assert(bytes@.take(i as int) =~= bytes@);
}

/// Appends a list of strings.
pub fn encode_strings(items: &Vec<String>, out: &mut Vec<u8>) -> (r: Result<(), Error>)
    ensures
        match r {
            Ok(()) => encodable(Term::List(strings_view(items@))) && final(out)@ == old(out)@
                + encode_term(Term::List(strings_view(items@))),
            Err(e) => e == Error::ValueTooLarge && !encodable(Term::List(strings_view(items@))),
        },
{
    let ghost terms = strings_view(items@);
    match write_size(Kind::List, items.len(), out) {
        Err(e) => {
            return Err(e);
        },
        Ok(()) => {},
    }
    let ghost start = out@;
    let mut i: usize = 0;
    while i < items.len()
        invariant
            i <= items.len(),
            terms == strings_view(items@),
            out@ == start + encode_terms(terms.take(i as int)),
            forall|j: int| 0 <= j < i ==> encodable(#[trigger] terms[j]),
        decreases items.len() - i,
    {
        match encode_str(items[i].as_str(), out) {
            Err(e) => {
                assert(!encodable(terms[i as int]));
                return Err(e);
            },
            Ok(()) => {},
        }
        proof {
            assert(terms.take(i + 1) =~= terms.take(i as int).push(terms[i as int]));
            lemma_encode_terms_push(terms.take(i as int), terms[i as int]);
            assert(out@ =~= start + encode_terms(terms.take(i + 1)));
        }
        i += 1;
    }
    proof {
        assert(terms.take(i as int) =~= terms);
        assert(out@ =~= old(out)@ + encode_term(Term::List(terms)));
    }
    Ok(())
}

/// Appends a list of integers.
pub fn encode_integers(items: &Vec<i64>, out: &mut Vec<u8>) -> (r: Result<(), Error>)
    ensures
        match r {
            Ok(()) => encodable(Term::List(integers_view(items@))) && final(out)@ == old(out)@
                + encode_term(Term::List(integers_view(items@))),
            Err(e) => e == Error::ValueTooLarge && !encodable(Term::List(integers_view(items@))),
        },
{
    let ghost terms = integers_view(items@);
    match write_size(Kind::List, items.len(), out) {
        Err(e) => {
            return Err(e);
        },
        Ok(()) => {},
    }
    let ghost start = out@;
    let mut i: usize = 0;
    while i < items.len()
        invariant
            i <= items.len(),
            terms == integers_view(items@),
            out@ == start + encode_terms(terms.take(i as int)),
        decreases items.len() - i,
    {
        write_integer(items[i], out);
        proof {
            assert(terms.take(i + 1) =~= terms.take(i as int).push(terms[i as int]));
            lemma_encode_terms_push(terms.take(i as int), terms[i as int]);
            assert(out@ =~= start + encode_terms(terms.take(i + 1)));
        }
        i += 1;
    }
    proof {
        assert(terms.take(i as int) =~= terms);
        assert(out@ =~= old(out)@ + encode_term(Term::List(terms)));
        assert forall|j: int| 0 <= j < terms.len() implies encodable(#[trigger] terms[j]) by {}
    }
    Ok(())
}

/// Appends a value: every integer and every length in its smallest form.
/// Fails where a length in the value exceeds what the format can write; what
/// was appended before the failure was found stays in `out`.
pub fn encode_value(v: &Value, out: &mut Vec<u8>) -> (r: Result<(), Error>)
    ensures
        match r {
            Ok(()) => encodable(v@) && final(out)@ == old(out)@ + encode_term(v@),
            Err(e) => e == Error::ValueTooLarge && !encodable(v@),
        },
    decreases v,
{
    match v {
        Value::Null => {
            out.push(0xC0);
            assert(out@ =~= old(out)@ + encode_term(v@));
            Ok(())
        },
        Value::Boolean(b) => {
            if *b {
                out.push(0xC3);
            } else {
                out.push(0xC2);
            }
            assert(out@ =~= old(out)@ + encode_term(v@));
            Ok(())
        },
        Value::Integer(i) => {
            write_integer(*i, out);
            Ok(())
        },
        Value::Float(f) => {
            encode_float(*f, out);
            Ok(())
        },
        Value::Bytes(b) => {
            match write_size(Kind::Bytes, b.len(), out) {
                Err(e) => {
                    return Err(e);
                },
                Ok(()) => {},
            }
            append_bytes(b.as_slice(), out);
            assert(out@ =~= old(out)@ + encode_term(v@));
            Ok(())
        },
        Value::String(s) => encode_str(s.as_str(), out),
        Value::List(items) => encode_values(items, out),
        Value::Dictionary(d) => encode_dictionary(d, out),
        Value::Node(n) => encode_node(n, out),
        Value::Relationship(r) => encode_relationship(r, out),
        Value::UnboundRelationship(r) => encode_unbound_relationship(r, out),
        Value::Path(p) => encode_path(p, out),
        Value::Date(d) => {
            encode_integers_1(SIGNATURE_DATE, d.days_since_epoch, out);
            Ok(())
        },
        Value::Time(t) => {
            encode_integers_2(SIGNATURE_TIME, t.nanos_since_midnight, t.zone_offset, out);
            Ok(())
        },
        Value::LocalTime(t) => {
            encode_integers_1(SIGNATURE_LOCAL_TIME, t.nanos_since_midnight, out);
            Ok(())
        },
        Value::DateTimeOffset(t) => {
            encode_integers_3(
                SIGNATURE_DATE_TIME_OFFSET,
                t.epoch_seconds,
                t.nanos,
                t.offset_seconds,
                out,
            );
            Ok(())
        },
        Value::DateTimeZoneId(t) => encode_zoned(t, out),
        Value::LocalDateTime(t) => {
            encode_integers_2(SIGNATURE_LOCAL_DATE_TIME, t.epoch_seconds, t.nanos, out);
            Ok(())
        },
        Value::Duration(d) => {
            encode_duration(d, out);
            Ok(())
        },
        Value::Point2D(p) => {
            encode_point_2d(p, out);
            Ok(())
        },
        Value::Point3D(p) => {
            encode_point_3d(p, out);
            Ok(())
        },
    }
}

/// Appends a structure of one integer field.
pub fn encode_integers_1(signature: u8, a: i64, out: &mut Vec<u8>)
    ensures
        encodable(Term::Structure(signature, seq![Term::Integer(a)])),
        final(out)@ == old(out)@ + encode_term(Term::Structure(signature, seq![Term::Integer(a)])),
{
    proof {
        lemma_structure_1(signature, Term::Integer(a));
    }
    out.push(0xB1);
    out.push(signature);
    write_integer(a, out);
    assert(out@ =~= old(out)@ + (seq![0xB1u8, signature] + encode_term(Term::Integer(a))));
}

/// Appends a structure of two integer fields.
pub fn encode_integers_2(signature: u8, a: i64, b: i64, out: &mut Vec<u8>)
    ensures
        encodable(Term::Structure(signature, seq![Term::Integer(a), Term::Integer(b)])),
        final(out)@ == old(out)@ + encode_term(
            Term::Structure(signature, seq![Term::Integer(a), Term::Integer(b)]),
        ),
{
    proof {
        lemma_structure_2(signature, Term::Integer(a), Term::Integer(b));
    }
    out.push(0xB2);
    out.push(signature);
    write_integer(a, out);
    write_integer(b, out);
    assert(out@ =~= old(out)@ + (seq![0xB2u8, signature] + (encode_term(Term::Integer(a))
        + encode_term(Term::Integer(b)))));
}

/// Appends a structure of three integer fields.
pub fn encode_integers_3(signature: u8, a: i64, b: i64, c: i64, out: &mut Vec<u8>)
    ensures
        encodable(
            Term::Structure(signature, seq![Term::Integer(a), Term::Integer(b), Term::Integer(c)]),
        ),
        final(out)@ == old(out)@ + encode_term(
            Term::Structure(signature, seq![Term::Integer(a), Term::Integer(b), Term::Integer(c)]),
        ),
{
    proof {
        lemma_structure_3(signature, Term::Integer(a), Term::Integer(b), Term::Integer(c));
    }
    out.push(0xB3);
    out.push(signature);
    write_integer(a, out);
    write_integer(b, out);
    write_integer(c, out);
    assert(out@ =~= old(out)@ + (seq![0xB3u8, signature] + (encode_term(Term::Integer(a))
        + encode_term(Term::Integer(b)) + encode_term(Term::Integer(c)))));
}

/// Appends a date and time with a named zone.
pub fn encode_zoned(t: &DateTimeZoneId, out: &mut Vec<u8>) -> (r: Result<(), Error>)
    ensures
        match r {
            Ok(()) => encodable(value_view(Value::DateTimeZoneId(*t))) && final(out)@ == old(out)@
                + encode_term(value_view(Value::DateTimeZoneId(*t))),
            Err(e) => e == Error::ValueTooLarge && !encodable(
                value_view(Value::DateTimeZoneId(*t)),
            ),
        },
{
    proof {
        lemma_structure_3(
            SIGNATURE_DATE_TIME_ZONE_ID,
            Term::Integer(t.epoch_seconds),
            Term::Integer(t.nanos),
            Term::String(t.zone_id@),
        );
    }
    out.push(0xB3);
    out.push(SIGNATURE_DATE_TIME_ZONE_ID);
    write_integer(t.epoch_seconds, out);
    write_integer(t.nanos, out);
    match encode_str(t.zone_id.as_str(), out) {
        Err(e) => {
            return Err(e);
        },
        Ok(()) => {},
    }
    assert(out@ =~= old(out)@ + (seq![0xB3u8, SIGNATURE_DATE_TIME_ZONE_ID] + (encode_term(
        Term::Integer(t.epoch_seconds),
    ) + encode_term(Term::Integer(t.nanos)) + encode_term(Term::String(t.zone_id@)))));
    Ok(())
}

/// Appends a duration.
pub fn encode_duration(d: &Duration, out: &mut Vec<u8>)
    ensures
        encodable(value_view(Value::Duration(*d))),
        final(out)@ == old(out)@ + encode_term(value_view(Value::Duration(*d))),
{
    proof {
        lemma_structure_4(
            SIGNATURE_DURATION,
            Term::Integer(d.months),
            Term::Integer(d.days),
            Term::Integer(d.seconds),
            Term::Integer(d.nanos),
        );
    }
    out.push(0xB4);
    out.push(SIGNATURE_DURATION);
    write_integer(d.months, out);
    write_integer(d.days, out);
    write_integer(d.seconds, out);
    write_integer(d.nanos, out);
    assert(out@ =~= old(out)@ + (seq![0xB4u8, SIGNATURE_DURATION] + (encode_term(
        Term::Integer(d.months),
    ) + encode_term(Term::Integer(d.days)) + encode_term(Term::Integer(d.seconds)) + encode_term(
        Term::Integer(d.nanos),
    ))));
}

/// Appends a float: its marker, then its eight bytes.
pub fn encode_float(bits: u64, out: &mut Vec<u8>)
    ensures
        final(out)@ == old(out)@ + encode_term(Term::Float(bits)),
{
    out.push(0xC1);
    write_be64(bits, out);
    assert(out@ =~= old(out)@ + encode_term(Term::Float(bits)));
}

/// Appends a point in the plane.
pub fn encode_point_2d(p: &Point2D, out: &mut Vec<u8>)
    ensures
        encodable(value_view(Value::Point2D(*p))),
        final(out)@ == old(out)@ + encode_term(value_view(Value::Point2D(*p))),
{
    proof {
        lemma_structure_3(
            SIGNATURE_POINT_2D,
            Term::Integer(p.srid),
            Term::Float(p.x),
            Term::Float(p.y),
        );
    }
    out.push(0xB3);
    out.push(SIGNATURE_POINT_2D);
    write_integer(p.srid, out);
    encode_float(p.x, out);
    encode_float(p.y, out);
    assert(out@ =~= old(out)@ + (seq![0xB3u8, SIGNATURE_POINT_2D] + (encode_term(
        Term::Integer(p.srid),
    ) + encode_term(Term::Float(p.x)) + encode_term(Term::Float(p.y)))));
}

/// Appends a point in space.
pub fn encode_point_3d(p: &Point3D, out: &mut Vec<u8>)
    ensures
        encodable(value_view(Value::Point3D(*p))),
        final(out)@ == old(out)@ + encode_term(value_view(Value::Point3D(*p))),
{
    proof {
        lemma_structure_4(
            SIGNATURE_POINT_3D,
            Term::Integer(p.srid),
            Term::Float(p.x),
            Term::Float(p.y),
            Term::Float(p.z),
        );
    }
    out.push(0xB4);
    out.push(SIGNATURE_POINT_3D);
    write_integer(p.srid, out);
    encode_float(p.x, out);
    encode_float(p.y, out);
    encode_float(p.z, out);
    assert(out@ =~= old(out)@ + (seq![0xB4u8, SIGNATURE_POINT_3D] + (encode_term(
        Term::Integer(p.srid),
    ) + encode_term(Term::Float(p.x)) + encode_term(Term::Float(p.y)) + encode_term(
        Term::Float(p.z),
    ))));
}

/// The bytes of a structure of one field, and when the format can write it.
pub proof fn lemma_structure_1(signature: u8, a: Term)
    ensures
        encode_terms(seq![a]) == encode_term(a),
        encode_term(Term::Structure(signature, seq![a])) == seq![0xB1u8, signature] + (
        encode_term(a)),
        encodable(Term::Structure(signature, seq![a])) == (encodable(a)),
{
    let f = seq![a];
    let bytes = encode_term(a);
    assert(f.drop_last() =~= Seq::<Term>::empty());
    assert(f.last() == a);
    assert(encode_terms(Seq::<Term>::empty()) =~= Seq::<u8>::empty());
    assert(encode_terms(f) =~= bytes);
    assert(size_header(Kind::Structure, 1) + seq![signature] =~= seq![0xB1u8, signature]);
    if encodable(a) {
        assert forall|i: int| 0 <= i < f.len() implies encodable(#[trigger] f[i]) by {
            if i == 0 {
            }
        }
    } else {
        assert(f[0] == a);
    }
}

/// The bytes of a structure of two fields, and when the format can write it.
pub proof fn lemma_structure_2(signature: u8, a: Term, b: Term)
    ensures
        encode_terms(seq![a, b]) == encode_term(a)
            + encode_term(b),
        encode_term(Term::Structure(signature, seq![a, b])) == seq![0xB2u8, signature] + (
        encode_term(a)
            + encode_term(b)),
        encodable(Term::Structure(signature, seq![a, b])) == (encodable(a)
            && encodable(b)),
{
    let f = seq![a, b];
    let bytes = encode_term(a) + encode_term(b);
    lemma_structure_1(signature, a);
    assert(f.drop_last() =~= seq![a]);
    assert(encode_terms(f) =~= bytes);
    assert(size_header(Kind::Structure, 2) + seq![signature] =~= seq![0xB2u8, signature]);
    if encodable(a) && encodable(b) {
        assert forall|i: int| 0 <= i < f.len() implies encodable(#[trigger] f[i]) by {
            if i == 0 {
            } else if i == 1 {
            }
        }
    } else {
        assert(f[0] == a);
        assert(f[1] == b);
    }
}

/// The bytes of a structure of three fields, and when the format can write it.
pub proof fn lemma_structure_3(signature: u8, a: Term, b: Term, c: Term)
    ensures
        encode_terms(seq![a, b, c]) == encode_term(a)
            + encode_term(b)
            + encode_term(c),
        encode_term(Term::Structure(signature, seq![a, b, c])) == seq![0xB3u8, signature] + (
        encode_term(a)
            + encode_term(b)
            + encode_term(c)),
        encodable(Term::Structure(signature, seq![a, b, c])) == (encodable(a)
            && encodable(b)
            && encodable(c)),
{
    let f = seq![a, b, c];
    let bytes = encode_term(a) + encode_term(b) + encode_term(c);
    lemma_structure_2(signature, a, b);
    assert(f.drop_last() =~= seq![a, b]);
    assert(encode_terms(f) =~= bytes);
    assert(size_header(Kind::Structure, 3) + seq![signature] =~= seq![0xB3u8, signature]);
    if encodable(a) && encodable(b) && encodable(c) {
        assert forall|i: int| 0 <= i < f.len() implies encodable(#[trigger] f[i]) by {
            if i == 0 {
            } else if i == 1 {
            } else if i == 2 {
            }
        }
    } else {
        assert(f[0] == a);
        assert(f[1] == b);
        assert(f[2] == c);
    }
}

/// The bytes of a structure of four fields, and when the format can write it.
pub proof fn lemma_structure_4(signature: u8, a: Term, b: Term, c: Term, d: Term)
    ensures
        encode_terms(seq![a, b, c, d]) == encode_term(a)
            + encode_term(b)
            + encode_term(c)
            + encode_term(d),
        encode_term(Term::Structure(signature, seq![a, b, c, d])) == seq![0xB4u8, signature] + (
        encode_term(a)
            + encode_term(b)
            + encode_term(c)
            + encode_term(d)),
        encodable(Term::Structure(signature, seq![a, b, c, d])) == (encodable(a)
            && encodable(b)
            && encodable(c)
            && encodable(d)),
{
    let f = seq![a, b, c, d];
    let bytes = encode_term(a) + encode_term(b) + encode_term(c) + encode_term(d);
    lemma_structure_3(signature, a, b, c);
    assert(f.drop_last() =~= seq![a, b, c]);
    assert(encode_terms(f) =~= bytes);
    assert(size_header(Kind::Structure, 4) + seq![signature] =~= seq![0xB4u8, signature]);
    if encodable(a) && encodable(b) && encodable(c) && encodable(d) {
        assert forall|i: int| 0 <= i < f.len() implies encodable(#[trigger] f[i]) by {
            if i == 0 {
            } else if i == 1 {
            } else if i == 2 {
            } else if i == 3 {
            }
        }
    } else {
        assert(f[0] == a);
        assert(f[1] == b);
        assert(f[2] == c);
        assert(f[3] == d);
    }
}

/// The bytes of a structure of five fields, and when the format can write it.
pub proof fn lemma_structure_5(signature: u8, a: Term, b: Term, c: Term, d: Term, e: Term)
    ensures
        encode_terms(seq![a, b, c, d, e]) == encode_term(a)
            + encode_term(b)
            + encode_term(c)
            + encode_term(d)
            + encode_term(e),
        encode_term(Term::Structure(signature, seq![a, b, c, d, e])) == seq![0xB5u8, signature] + (
        encode_term(a)
            + encode_term(b)
            + encode_term(c)
            + encode_term(d)
            + encode_term(e)),
        encodable(Term::Structure(signature, seq![a, b, c, d, e])) == (encodable(a)
            && encodable(b)
            && encodable(c)
            && encodable(d)
            && encodable(e)),
{
    let f = seq![a, b, c, d, e];
    let bytes = encode_term(a) + encode_term(b) + encode_term(c) + encode_term(d) + encode_term(e);
    lemma_structure_4(signature, a, b, c, d);
    assert(f.drop_last() =~= seq![a, b, c, d]);
    assert(encode_terms(f) =~= bytes);
    assert(size_header(Kind::Structure, 5) + seq![signature] =~= seq![0xB5u8, signature]);
    if encodable(a) && encodable(b) && encodable(c) && encodable(d) && encodable(e) {
        assert forall|i: int| 0 <= i < f.len() implies encodable(#[trigger] f[i]) by {
            if i == 0 {
            } else if i == 1 {
            } else if i == 2 {
            } else if i == 3 {
            } else if i == 4 {
            }
        }
    } else {
        assert(f[0] == a);
        assert(f[1] == b);
        assert(f[2] == c);
        assert(f[3] == d);
        assert(f[4] == e);
    }
}

/// Appends a list of values.
pub fn encode_values(items: &Vec<Value>, out: &mut Vec<u8>) -> (r: Result<(), Error>)
    ensures
        match r {
            Ok(()) => encodable(Term::List(values_view(items@))) && final(out)@ == old(out)@
                + encode_term(Term::List(values_view(items@))),
            Err(e) => e == Error::ValueTooLarge && !encodable(Term::List(values_view(items@))),
        },
    decreases items,
{
    let ghost terms = values_view(items@);
    match write_size(Kind::List, items.len(), out) {
        Err(e) => {
            return Err(e);
        },
        Ok(()) => {},
    }
    let ghost start = out@;
    let mut i: usize = 0;
    while i < items.len()
        invariant
            i <= items.len(),
            terms == values_view(items@),
            out@ == start + encode_terms(terms.take(i as int)),
            forall|j: int| 0 <= j < i ==> encodable(#[trigger] terms[j]),
        decreases items.len() - i,
    {
        match encode_value(&items[i], out) {
            Err(e) => {
                assert(!encodable(terms[i as int]));
                return Err(e);
            },
            Ok(()) => {},
        }
        proof {
            assert(terms.take(i + 1) =~= terms.take(i as int).push(terms[i as int]));
            lemma_encode_terms_push(terms.take(i as int), terms[i as int]);
            assert(out@ =~= start + encode_terms(terms.take(i + 1)));
        }
        i += 1;
    }
    proof {
        assert(terms.take(i as int) =~= terms);
        assert(out@ =~= old(out)@ + encode_term(Term::List(terms)));
    }
    Ok(())
}

/// Appends a dictionary: its entries in the order in which they stand.
pub fn encode_dictionary(d: &Dictionary, out: &mut Vec<u8>) -> (r: Result<(), Error>)
    ensures
        match r {
            Ok(()) => encodable(Term::Dictionary(d@)) && final(out)@ == old(out)@ + encode_term(
                Term::Dictionary(d@),
            ),
            Err(e) => e == Error::ValueTooLarge && !encodable(Term::Dictionary(d@)),
        },
    decreases d,
{
    let ghost es = entries_view(d.entries@);
    match write_size(Kind::Dictionary, d.entries.len(), out) {
        Err(e) => {
            return Err(e);
        },
        Ok(()) => {},
    }
    let ghost start = out@;
    let mut i: usize = 0;
    while i < d.entries.len()
        invariant
            i <= d.entries.len(),
            es == entries_view(d.entries@),
            out@ == start + encode_entries(es.take(i as int)),
            forall|j: int|
                0 <= j < i ==> encodable((#[trigger] es[j]).1) && encode_utf8(es[j].0).len()
                    <= max_length(),
        decreases d.entries.len() - i,
    {
        let entry = &d.entries[i];
        match encode_str(entry.0.as_str(), out) {
            Err(e) => {
                assert(encode_utf8(es[i as int].0).len() > max_length());
                return Err(e);
            },
            Ok(()) => {},
        }
        match encode_value(&entry.1, out) {
            Err(e) => {
                assert(!encodable(es[i as int].1));
                return Err(e);
            },
            Ok(()) => {},
        }
        proof {
            assert(es.take(i + 1) =~= es.take(i as int).push(es[i as int]));
            lemma_encode_entries_push(es.take(i as int), es[i as int].0, es[i as int].1);
            assert(out@ =~= start + encode_entries(es.take(i + 1)));
        }
        i += 1;
    }
    proof {
        assert(es.take(i as int) =~= es);
        assert(out@ =~= old(out)@ + encode_term(Term::Dictionary(es)));
    }
    Ok(())
}

/// Appends a node.
pub fn encode_node(n: &Node, out: &mut Vec<u8>) -> (r: Result<(), Error>)
    ensures
        match r {
            Ok(()) => encodable(n@) && final(out)@ == old(out)@ + encode_term(n@),
            Err(e) => e == Error::ValueTooLarge && !encodable(n@),
        },
    decreases n,
{
    proof {
        lemma_structure_3(
            SIGNATURE_NODE,
            Term::Integer(n.node_identity),
            Term::List(strings_view(n.labels@)),
            Term::Dictionary(n.properties@),
        );
    }
    out.push(0xB3);
    out.push(SIGNATURE_NODE);
    write_integer(n.node_identity, out);
    match encode_strings(&n.labels, out) {
        Err(e) => {
            return Err(e);
        },
        Ok(()) => {},
    }
    match encode_dictionary(&n.properties, out) {
        Err(e) => {
            return Err(e);
        },
        Ok(()) => {},
    }
    assert(out@ =~= old(out)@ + (seq![0xB3u8, SIGNATURE_NODE] + (
        encode_term(Term::Integer(n.node_identity))
        + encode_term(Term::List(strings_view(n.labels@)))
        + encode_term(Term::Dictionary(n.properties@))
    )));
    Ok(())
}

/// Appends a relationship.
pub fn encode_relationship(r: &Relationship, out: &mut Vec<u8>) -> (res: Result<(), Error>)
    ensures
        match res {
            Ok(()) => encodable(r@) && final(out)@ == old(out)@ + encode_term(r@),
            Err(e) => e == Error::ValueTooLarge && !encodable(r@),
        },
    decreases r,
{
    proof {
        lemma_structure_5(
            SIGNATURE_RELATIONSHIP,
            Term::Integer(r.rel_identity),
            Term::Integer(r.start_node_identity),
            Term::Integer(r.end_node_identity),
            Term::String(r.rel_type@),
            Term::Dictionary(r.properties@),
        );
    }
    out.push(0xB5);
    out.push(SIGNATURE_RELATIONSHIP);
    write_integer(r.rel_identity, out);
    write_integer(r.start_node_identity, out);
    write_integer(r.end_node_identity, out);
    match encode_str(r.rel_type.as_str(), out) {
        Err(e) => {
            return Err(e);
        },
        Ok(()) => {},
    }
    match encode_dictionary(&r.properties, out) {
        Err(e) => {
            return Err(e);
        },
        Ok(()) => {},
    }
    assert(out@ =~= old(out)@ + (seq![0xB5u8, SIGNATURE_RELATIONSHIP] + (
        encode_term(Term::Integer(r.rel_identity))
        + encode_term(Term::Integer(r.start_node_identity))
        + encode_term(Term::Integer(r.end_node_identity))
        + encode_term(Term::String(r.rel_type@))
        + encode_term(Term::Dictionary(r.properties@))
    )));
    Ok(())
}

/// Appends an unbound relationship.
pub fn encode_unbound_relationship(r: &UnboundRelationship, out: &mut Vec<u8>) -> (res: Result<
    (),
    Error,
>)
    ensures
        match res {
            Ok(()) => encodable(r@) && final(out)@ == old(out)@ + encode_term(r@),
            Err(e) => e == Error::ValueTooLarge && !encodable(r@),
        },
    decreases r,
{
    proof {
        lemma_structure_3(
            SIGNATURE_UNBOUND_RELATIONSHIP,
            Term::Integer(r.rel_identity),
            Term::String(r.rel_type@),
            Term::Dictionary(r.properties@),
        );
    }
    out.push(0xB3);
    out.push(SIGNATURE_UNBOUND_RELATIONSHIP);
    write_integer(r.rel_identity, out);
    match encode_str(r.rel_type.as_str(), out) {
        Err(e) => {
            return Err(e);
        },
        Ok(()) => {},
    }
    match encode_dictionary(&r.properties, out) {
        Err(e) => {
            return Err(e);
        },
        Ok(()) => {},
    }
    assert(out@ =~= old(out)@ + (seq![0xB3u8, SIGNATURE_UNBOUND_RELATIONSHIP] + (
        encode_term(Term::Integer(r.rel_identity))
        + encode_term(Term::String(r.rel_type@))
        + encode_term(Term::Dictionary(r.properties@))
    )));
    Ok(())
}

/// Appends a list of nodes.
pub fn encode_nodes(items: &Vec<Node>, out: &mut Vec<u8>) -> (r: Result<(), Error>)
    ensures
        match r {
            Ok(()) => encodable(Term::List(nodes_view(items@))) && final(out)@ == old(out)@
                + encode_term(Term::List(nodes_view(items@))),
            Err(e) => e == Error::ValueTooLarge && !encodable(Term::List(nodes_view(items@))),
        },
    decreases items,
{
    let ghost terms = nodes_view(items@);
    match write_size(Kind::List, items.len(), out) {
        Err(e) => {
            return Err(e);
        },
        Ok(()) => {},
    }
    let ghost start = out@;
    let mut i: usize = 0;
    while i < items.len()
        invariant
            i <= items.len(),
            terms == nodes_view(items@),
            out@ == start + encode_terms(terms.take(i as int)),
            forall|j: int| 0 <= j < i ==> encodable(#[trigger] terms[j]),
        decreases items.len() - i,
    {
        match encode_node(&items[i], out) {
            Err(e) => {
                assert(!encodable(terms[i as int]));
                return Err(e);
            },
            Ok(()) => {},
        }
        proof {
            assert(terms.take(i + 1) =~= terms.take(i as int).push(terms[i as int]));
            lemma_encode_terms_push(terms.take(i as int), terms[i as int]);
            assert(out@ =~= start + encode_terms(terms.take(i + 1)));
        }
        i += 1;
    }
    proof {
        assert(terms.take(i as int) =~= terms);
        assert(out@ =~= old(out)@ + encode_term(Term::List(terms)));
    }
    Ok(())
}

/// Appends a list of unbound relationships.
pub fn encode_unbound_relationships(items: &Vec<UnboundRelationship>, out: &mut Vec<u8>) -> (r:
    Result<(), Error>)
    ensures
        match r {
            Ok(()) => encodable(Term::List(unbound_relationships_view(items@))) && final(out)@
                == old(out)@ + encode_term(Term::List(unbound_relationships_view(items@))),
            Err(e) => e == Error::ValueTooLarge && !encodable(
                Term::List(unbound_relationships_view(items@)),
            ),
        },
    decreases items,
{
    let ghost terms = unbound_relationships_view(items@);
    match write_size(Kind::List, items.len(), out) {
        Err(e) => {
            return Err(e);
        },
        Ok(()) => {},
    }
    let ghost start = out@;
    let mut i: usize = 0;
    while i < items.len()
        invariant
            i <= items.len(),
            terms == unbound_relationships_view(items@),
            out@ == start + encode_terms(terms.take(i as int)),
            forall|j: int| 0 <= j < i ==> encodable(#[trigger] terms[j]),
        decreases items.len() - i,
    {
        match encode_unbound_relationship(&items[i], out) {
            Err(e) => {
                assert(!encodable(terms[i as int]));
                return Err(e);
            },
            Ok(()) => {},
        }
        proof {
            assert(terms.take(i + 1) =~= terms.take(i as int).push(terms[i as int]));
            lemma_encode_terms_push(terms.take(i as int), terms[i as int]);
            assert(out@ =~= start + encode_terms(terms.take(i + 1)));
        }
        i += 1;
    }
    proof {
        assert(terms.take(i as int) =~= terms);
        assert(out@ =~= old(out)@ + encode_term(Term::List(terms)));
    }
    Ok(())
}

/// Appends a path.
pub fn encode_path(p: &Path, out: &mut Vec<u8>) -> (r: Result<(), Error>)
    ensures
        match r {
            Ok(()) => encodable(p@) && final(out)@ == old(out)@ + encode_term(p@),
            Err(e) => e == Error::ValueTooLarge && !encodable(p@),
        },
    decreases p,
{
    proof {
        lemma_structure_3(
            SIGNATURE_PATH,
            Term::List(nodes_view(p.nodes@)),
            Term::List(unbound_relationships_view(p.relationships@)),
            Term::List(integers_view(p.sequence@)),
        );
    }
    out.push(0xB3);
    out.push(SIGNATURE_PATH);
    match encode_nodes(&p.nodes, out) {
        Err(e) => {
            return Err(e);
        },
        Ok(()) => {},
    }
    match encode_unbound_relationships(&p.relationships, out) {
        Err(e) => {
            return Err(e);
        },
        Ok(()) => {},
    }
    match encode_integers(&p.sequence, out) {
        Err(e) => {
            return Err(e);
        },
        Ok(()) => {},
    }
    assert(out@ =~= old(out)@ + (seq![0xB3u8, SIGNATURE_PATH] + (
        encode_term(Term::List(nodes_view(p.nodes@)))
        + encode_term(Term::List(unbound_relationships_view(p.relationships@)))
        + encode_term(Term::List(integers_view(p.sequence@)))
    )));
    Ok(())
}

} // verus!
