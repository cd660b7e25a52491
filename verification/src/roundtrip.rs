use crate::catalog::{
    all_integers, all_signed, all_strings, header_error, message_fields_conform,
    value_fields_conform, Catalog,
};
use crate::error::Error;
use crate::format::{
    encodable, encode_entries, encode_string, encode_term, encode_terms, max_length, parse_entries,
    parse_message, parse_value, parse_values,
};
use crate::message::Message;
use crate::term::{distinct_keys, lemma_insert_new, Entries, Term};
use crate::wire::{
    be16, be32, be64, classify, encode_integer, from_be16, from_be32, from_be64, max_size,
    read_size, size_header, to_unsigned, Kind, Marker,
};
use crate::value::{
    entries_view, integers_view, node_term, nodes_view, strings_view, unbound_relationship_term,
    unbound_relationships_view, value_view, values_view, Node, UnboundRelationship, Value,
    SIGNATURE_DATE, SIGNATURE_DATE_TIME_OFFSET, SIGNATURE_DATE_TIME_ZONE_ID, SIGNATURE_DURATION,
    SIGNATURE_LOCAL_DATE_TIME, SIGNATURE_LOCAL_TIME, SIGNATURE_NODE, SIGNATURE_PATH,
    SIGNATURE_POINT_2D, SIGNATURE_POINT_3D, SIGNATURE_RELATIONSHIP, SIGNATURE_TIME,
    SIGNATURE_UNBOUND_RELATIONSHIP,
};
use vstd::prelude::*;
use vstd::utf8::encode_utf8;

verus! {

/// `bytes` stand in `s` from `pos` on.
pub open spec fn holds_at(s: Seq<u8>, pos: int, bytes: Seq<u8>) -> bool {
    &&& 0 <= pos
    &&& pos + bytes.len() <= s.len()
    &&& s.subrange(pos, pos + bytes.len()) == bytes
}

/// Where two runs of bytes stand one after the other, each of them stands in its place.
pub proof fn lemma_holds_split(s: Seq<u8>, pos: int, a: Seq<u8>, b: Seq<u8>)
    requires
        holds_at(s, pos, a + b),
    ensures
        holds_at(s, pos, a),
        holds_at(s, pos + a.len(), b),
{
    let whole = s.subrange(pos, pos + (a + b).len());
    assert(s.subrange(pos, pos + a.len()) =~= whole.subrange(0, a.len() as int));
    assert(whole.subrange(0, a.len() as int) =~= a);
    assert(s.subrange(pos + a.len(), pos + a.len() + b.len()) =~= whole.subrange(
        a.len() as int,
        (a + b).len() as int,
    ));
    assert(whole.subrange(a.len() as int, (a + b).len() as int) =~= b);
}

/// The byte at `pos + i` is the `i`-th of the bytes that stand at `pos`.
pub proof fn lemma_holds_index(s: Seq<u8>, pos: int, bytes: Seq<u8>, i: int)
    requires
        holds_at(s, pos, bytes),
        0 <= i < bytes.len(),
    ensures
        s[pos + i] == bytes[i],
{
    assert(s.subrange(pos, pos + bytes.len())[i] == s[pos + i]);
}

/// Two bytes written most significant first are read back as the number they were written from.
pub proof fn lemma_be16(s: Seq<u8>, pos: int, x: int)
    requires
        0 <= x < 0x1_0000,
        holds_at(s, pos, be16(x)),
    ensures
        from_be16(s, pos) == x,
{
    lemma_holds_index(s, pos, be16(x), 0);
    lemma_holds_index(s, pos, be16(x), 1);
}

/// Four bytes written most significant first are read back as the number they were written from.
pub proof fn lemma_be32(s: Seq<u8>, pos: int, x: int)
    requires
        0 <= x < 0x1_0000_0000,
        holds_at(s, pos, be32(x)),
    ensures
        from_be32(s, pos) == x,
{
    lemma_holds_index(s, pos, be32(x), 0);
    lemma_holds_index(s, pos, be32(x), 1);
    lemma_holds_index(s, pos, be32(x), 2);
    lemma_holds_index(s, pos, be32(x), 3);
}

/// Eight bytes written most significant first are read back as the number they were written from.
pub proof fn lemma_be64(s: Seq<u8>, pos: int, x: int)
    requires
        0 <= x < 0x1_0000_0000_0000_0000,
        holds_at(s, pos, be64(x)),
    ensures
        from_be64(s, pos) == x,
{
    lemma_holds_split(s, pos, be32(x / 0x1_0000_0000), be32(x % 0x1_0000_0000));
    lemma_be32(s, pos, x / 0x1_0000_0000);
    lemma_be32(s, pos + 4, x % 0x1_0000_0000);
}

/// An integer in its smallest size class is read back as itself.
pub proof fn lemma_integer_round_trip(s: Seq<u8>, pos: int, i: i64)
    requires
        holds_at(s, pos, encode_integer(i)),
    ensures
        parse_value(s, pos) == Ok::<(Term, int), Error>(
            (Term::Integer(i), pos + encode_integer(i).len()),
        ),
{
    let bytes = encode_integer(i);
    lemma_holds_index(s, pos, bytes, 0);
    if -16 <= i <= 127 {
    } else if -128 <= i < -16 {
        lemma_holds_index(s, pos, bytes, 1);
    } else if -0x8000 <= i <= 0x7FFF {
        let u = to_unsigned(i as int, 0x1_0000);
        lemma_holds_split(s, pos, seq![0xC9u8], be16(u));
        lemma_be16(s, pos + 1, u);
    } else if -0x8000_0000 <= i <= 0x7FFF_FFFF {
        let u = to_unsigned(i as int, 0x1_0000_0000);
        lemma_holds_split(s, pos, seq![0xCAu8], be32(u));
        lemma_be32(s, pos + 1, u);
    } else {
        let u = to_unsigned(i as int, 0x1_0000_0000_0000_0000);
        lemma_holds_split(s, pos, seq![0xCBu8], be64(u));
        lemma_be64(s, pos + 1, u);
    }
}

/// The width in bytes of the length field in the smallest header for `n`: 0
/// where the marker holds the length.
pub open spec fn size_width(kind: Kind, n: int) -> u8 {
    if n <= 15 && !(kind is Bytes) {
        0
    } else if n <= 0xFF {
        1
    } else if n <= 0xFFFF {
        2
    } else {
        4
    }
}

/// The smallest header for a length is read back as that length.
pub proof fn lemma_size_header(s: Seq<u8>, pos: int, kind: Kind, n: int)
    requires
        0 <= n <= max_size(kind),
        holds_at(s, pos, size_header(kind, n)),
    ensures
        size_header(kind, n).len() == 1 + size_width(kind, n),
        classify(s[pos]) matches Marker::Sized(k, width, tiny) && k == kind && width == size_width(
            kind,
            n,
        ) && read_size(s, pos + 1, width, tiny) == Ok::<(int, int), Error>(
            (n, pos + 1 + size_width(kind, n)),
        ),
{
    let header = size_header(kind, n);
    lemma_holds_index(s, pos, header, 0);
    if n <= 15 && !(kind is Bytes) {
    } else if n <= 0xFF {
        lemma_holds_index(s, pos, header, 1);
    } else if n <= 0xFFFF {
        lemma_holds_split(s, pos, seq![(crate::wire::wide_base(kind) + 1) as u8], be16(n));
        lemma_be16(s, pos + 1, n);
    } else {
        lemma_holds_split(s, pos, seq![(crate::wire::wide_base(kind) + 2) as u8], be32(n));
        lemma_be32(s, pos + 1, n);
    }
}

/// Every term takes at least one byte.
pub proof fn lemma_encode_term_nonempty(t: Term)
    ensures
        encode_term(t).len() >= 1,
{
    match t {
        Term::Integer(i) => {},
        Term::Float(f) => {},
        Term::Bytes(b) => {},
        Term::String(s) => {},
        Term::List(items) => {},
        Term::Dictionary(entries) => {},
        Term::Structure(signature, fields) => {},
        _ => {},
    }
}

/// The bytes of a run of terms start with the bytes of the first.
pub proof fn lemma_encode_terms_front(ts: Seq<Term>)
    requires
        ts.len() > 0,
    ensures
        encode_terms(ts) == encode_term(ts[0]) + encode_terms(ts.drop_first()),
    decreases ts.len(),
{
    if ts.len() == 1 {
        assert(ts.drop_last() =~= Seq::<Term>::empty());
        assert(ts.drop_first() =~= Seq::<Term>::empty());
        assert(encode_terms(ts) =~= encode_term(ts[0]) + encode_terms(ts.drop_first()));
    } else {
        lemma_encode_terms_front(ts.drop_last());
        assert(ts.drop_last().drop_first() =~= ts.drop_first().drop_last());
        assert(ts.drop_last()[0] == ts[0]);
        assert(ts.drop_first().last() == ts.last());
        assert(encode_terms(ts) =~= encode_term(ts[0]) + encode_terms(ts.drop_first()));
    }
}

/// The bytes of a run of entries start with the bytes of the first.
pub proof fn lemma_encode_entries_front(es: Entries)
    requires
        es.len() > 0,
    ensures
        encode_entries(es) == encode_string(es[0].0) + encode_term(es[0].1) + encode_entries(
            es.drop_first(),
        ),
    decreases es.len(),
{
    if es.len() == 1 {
        assert(es.drop_last() =~= Seq::<(Seq<char>, Term)>::empty());
        assert(es.drop_first() =~= Seq::<(Seq<char>, Term)>::empty());
        assert(encode_entries(es) =~= encode_string(es[0].0) + encode_term(es[0].1)
            + encode_entries(es.drop_first()));
    } else {
        lemma_encode_entries_front(es.drop_last());
        assert(es.drop_last().drop_first() =~= es.drop_first().drop_last());
        assert(es.drop_last()[0] == es[0]);
        assert(es.drop_first().last() == es.last());
        assert(encode_entries(es) =~= encode_string(es[0].0) + encode_term(es[0].1)
            + encode_entries(es.drop_first()));
    }
}

/// A string in its smallest size class is read back as itself.
pub proof fn lemma_string_round_trip(s: Seq<u8>, pos: int, text: Seq<char>)
    requires
        encode_utf8(text).len() <= max_length(),
        holds_at(s, pos, encode_string(text)),
    ensures
        parse_value(s, pos) == Ok::<(Term, int), Error>(
            (Term::String(text), pos + encode_string(text).len()),
        ),
{
    let bytes = encode_utf8(text);
    let n = bytes.len() as int;
    lemma_holds_split(s, pos, size_header(Kind::String, n), bytes);
    lemma_size_header(s, pos, Kind::String, n);
    vstd::utf8::encode_utf8_valid_utf8(text);
    vstd::utf8::encode_utf8_decode_utf8(text);
}

/// What the format can write, it reads back: a term whose dictionaries have
/// distinct keys and whose structures are those of the catalog, written in the
/// smallest forms at `pos`, is read from there as the same term, and the
/// reading ends where the writing ended.
pub proof fn lemma_term_round_trip(s: Seq<u8>, pos: int, t: Term)
    requires
        t.wf(),
        t.typed(),
        encodable(t),
        holds_at(s, pos, encode_term(t)),
    ensures
        parse_value(s, pos) == Ok::<(Term, int), Error>((t, pos + encode_term(t).len())),
    decreases t,
{
    let bytes = encode_term(t);
    lemma_encode_term_nonempty(t);
    lemma_holds_index(s, pos, bytes, 0);
    match t {
        Term::Null => {},
        Term::Boolean(b) => {},
        Term::Integer(i) => {
            lemma_integer_round_trip(s, pos, i);
        },
        Term::Float(f) => {
            lemma_holds_split(s, pos, seq![0xC1u8], be64(f as int));
            lemma_be64(s, pos + 1, f as int);
        },
        Term::Bytes(b) => {
            let n = b.len() as int;
            lemma_holds_split(s, pos, size_header(Kind::Bytes, n), b);
            lemma_size_header(s, pos, Kind::Bytes, n);
        },
        Term::String(text) => {
            lemma_string_round_trip(s, pos, text);
        },
        Term::List(items) => {
            let n = items.len() as int;
            lemma_holds_split(s, pos, size_header(Kind::List, n), encode_terms(items));
            lemma_size_header(s, pos, Kind::List, n);
            let p = pos + size_header(Kind::List, n).len();
            lemma_terms_round_trip(s, p, items, Seq::empty());
            assert(Seq::<Term>::empty() + items =~= items);
        },
        Term::Dictionary(entries) => {
            let n = entries.len() as int;
            lemma_holds_split(s, pos, size_header(Kind::Dictionary, n), encode_entries(entries));
            lemma_size_header(s, pos, Kind::Dictionary, n);
            let p = pos + size_header(Kind::Dictionary, n).len();
            assert(Seq::<(Seq<char>, Term)>::empty() + entries =~= entries);
            lemma_entries_round_trip(s, p, entries, Seq::empty());
        },
        Term::Structure(signature, fields) => {
            let n = fields.len() as int;
            let header = size_header(Kind::Structure, n);
            lemma_holds_split(s, pos, header + seq![signature], encode_terms(fields));
            lemma_holds_split(s, pos, header, seq![signature]);
            lemma_size_header(s, pos, Kind::Structure, n);
            let p = pos + header.len();
            lemma_holds_index(s, p, seq![signature], 0);
            assert(header_error(Catalog::Values, signature, n) is None);
            lemma_terms_round_trip(s, p + 1, fields, Seq::empty());
            assert(Seq::<Term>::empty() + fields =~= fields);
        },
    }
}

/// A run of terms written one after the other is read back, after what was
/// read before, as the same terms.
pub proof fn lemma_terms_round_trip(s: Seq<u8>, pos: int, ts: Seq<Term>, acc: Seq<Term>)
    requires
        forall|i: int|
            0 <= i < ts.len() ==> (#[trigger] ts[i]).wf() && ts[i].typed() && encodable(ts[i]),
        holds_at(s, pos, encode_terms(ts)),
    ensures
        parse_values(s, pos, ts.len() as int, acc) == Ok::<(Seq<Term>, int), Error>(
            (acc + ts, pos + encode_terms(ts).len()),
        ),
    decreases ts,
{
    if ts.len() == 0 {
        assert(acc + ts =~= acc);
    } else {
        let first = ts[0];
        let rest = ts.drop_first();
        lemma_encode_terms_front(ts);
        lemma_holds_split(s, pos, encode_term(first), encode_terms(rest));
        lemma_encode_term_nonempty(first);
        lemma_term_round_trip(s, pos, first);
        let p = pos + encode_term(first).len();
        assert forall|i: int| 0 <= i < rest.len() implies (#[trigger] rest[i]).wf()
            && rest[i].typed() && encodable(rest[i]) by {
            assert(rest[i] == ts[i + 1]);
        }
        lemma_terms_round_trip(s, p, rest, acc.push(first));
        assert(acc.push(first) + rest =~= acc + ts);
    }
}

/// A run of entries with distinct keys written one after the other is read
/// back, after what was read before, as the same entries in the same order.
pub proof fn lemma_entries_round_trip(s: Seq<u8>, pos: int, es: Entries, acc: Entries)
    requires
        distinct_keys(acc + es),
        forall|i: int|
            0 <= i < es.len() ==> (#[trigger] es[i]).1.wf() && es[i].1.typed() && encodable(
                es[i].1,
            ) && encode_utf8(es[i].0).len() <= max_length(),
        holds_at(s, pos, encode_entries(es)),
    ensures
        parse_entries(s, pos, es.len() as int, acc) == Ok::<(Entries, int), Error>(
            (acc + es, pos + encode_entries(es).len()),
        ),
    decreases es,
{
    if es.len() == 0 {
        assert(acc + es =~= acc);
    } else {
        let key = es[0].0;
        let value = es[0].1;
        let rest = es.drop_first();
        lemma_encode_entries_front(es);
        lemma_holds_split(s, pos, encode_string(key) + encode_term(value), encode_entries(rest));
        lemma_holds_split(s, pos, encode_string(key), encode_term(value));
        lemma_string_round_trip(s, pos, key);
        let p = pos + encode_string(key).len();
        lemma_encode_term_nonempty(value);
        lemma_term_round_trip(s, p, value);
        let q = p + encode_term(value).len();
        assert forall|i: int| 0 <= i < acc.len() implies acc[i].0 != key by {
            assert((acc + es)[i] == acc[i]);
            assert((acc + es)[acc.len() as int] == es[0]);
        }
        lemma_insert_new(acc, key, value);
        assert(acc.push((key, value)) + rest =~= acc + es);
        assert forall|i: int| 0 <= i < rest.len() implies (#[trigger] rest[i]).1.wf()
            && rest[i].1.typed() && encodable(rest[i].1) && encode_utf8(rest[i].0).len()
            <= max_length() by {
            assert(rest[i] == es[i + 1]);
        }
        lemma_entries_round_trip(s, q, rest, acc.push((key, value)));
    }
}

/// A structure of the catalog is typed where those of its fields that are
/// lists or dictionaries are.
pub proof fn lemma_structure_typed(signature: u8, fields: Seq<Term>)
    requires
        value_fields_conform(signature, fields),
        forall|i: int|
            0 <= i < fields.len() && ((#[trigger] fields[i]) is List || fields[i] is Dictionary)
                ==> fields[i].typed(),
    ensures
        Term::Structure(signature, fields).typed(),
{
    reveal_with_fuel(Term::typed, 2);
    assert forall|i: int| 0 <= i < fields.len() implies (#[trigger] fields[i]).typed() by {
        if i == 0 {
        } else if i == 1 {
        } else if i == 2 {
        } else if i == 3 {
        } else if i == 4 {
        } else {
        }
    }
}

/// The view of every value is typed: its structures are those of the catalog.
pub proof fn lemma_value_typed(v: Value)
    ensures
        value_view(v).typed(),
    decreases v,
{
    match v {
        Value::List(items) => {
            lemma_values_typed(items@);
        },
        Value::Dictionary(d) => {
            lemma_entries_typed(d.entries@);
        },
        Value::Node(n) => {
            lemma_node_typed(n);
        },
        Value::Relationship(r) => {
            lemma_entries_typed(r.properties.entries@);
            let fields = seq![
                Term::Integer(r.rel_identity),
                Term::Integer(r.start_node_identity),
                Term::Integer(r.end_node_identity),
                Term::String(r.rel_type@),
                Term::Dictionary(entries_view(r.properties.entries@)),
            ];
            lemma_structure_typed(SIGNATURE_RELATIONSHIP, fields);
        },
        Value::UnboundRelationship(r) => {
            lemma_unbound_relationship_typed(r);
        },
        Value::Path(p) => {
            let nodes = nodes_view(p.nodes@);
            let rels = unbound_relationships_view(p.relationships@);
            let sequence = integers_view(p.sequence@);
            assert forall|i: int| 0 <= i < nodes.len() implies (#[trigger] nodes[i]).typed() by {
                lemma_node_typed(p.nodes@[i]);
            }
            assert forall|i: int| 0 <= i < rels.len() implies (#[trigger] rels[i]).typed() by {
                lemma_unbound_relationship_typed(p.relationships@[i]);
            }
            assert(all_signed(nodes, SIGNATURE_NODE));
            assert(all_signed(rels, SIGNATURE_UNBOUND_RELATIONSHIP));
            assert(all_integers(sequence));
            assert(Term::List(nodes).typed());
            assert(Term::List(rels).typed());
            assert(Term::List(sequence).typed()) by {
                reveal_with_fuel(Term::typed, 2);
                assert forall|i: int| 0 <= i < sequence.len() implies (
                #[trigger] sequence[i]).typed() by {}
            }
            let fields = seq![Term::List(nodes), Term::List(rels), Term::List(sequence)];
            assert forall|i: int|
                0 <= i < fields.len() && ((#[trigger] fields[i]) is List
                    || fields[i] is Dictionary) implies fields[i].typed() by {
                if i == 0 {
                } else if i == 1 {
                } else {
                }
            }
            lemma_structure_typed(SIGNATURE_PATH, fields);
        },
        Value::Date(d) => {
            lemma_structure_typed(SIGNATURE_DATE, seq![Term::Integer(d.days_since_epoch)]);
        },
        Value::Time(t) => {
            lemma_structure_typed(
                SIGNATURE_TIME,
                seq![Term::Integer(t.nanos_since_midnight), Term::Integer(t.zone_offset)],
            );
        },
        Value::LocalTime(t) => {
            lemma_structure_typed(
                SIGNATURE_LOCAL_TIME,
                seq![Term::Integer(t.nanos_since_midnight)],
            );
        },
        Value::DateTimeOffset(t) => {
            lemma_structure_typed(
                SIGNATURE_DATE_TIME_OFFSET,
                seq![
                    Term::Integer(t.epoch_seconds),
                    Term::Integer(t.nanos),
                    Term::Integer(t.offset_seconds),
                ],
            );
        },
        Value::DateTimeZoneId(t) => {
            lemma_structure_typed(
                SIGNATURE_DATE_TIME_ZONE_ID,
                seq![
                    Term::Integer(t.epoch_seconds),
                    Term::Integer(t.nanos),
                    Term::String(t.zone_id@),
                ],
            );
        },
        Value::LocalDateTime(t) => {
            lemma_structure_typed(
                SIGNATURE_LOCAL_DATE_TIME,
                seq![Term::Integer(t.epoch_seconds), Term::Integer(t.nanos)],
            );
        },
        Value::Duration(d) => {
            lemma_structure_typed(
                SIGNATURE_DURATION,
                seq![
                    Term::Integer(d.months),
                    Term::Integer(d.days),
                    Term::Integer(d.seconds),
                    Term::Integer(d.nanos),
                ],
            );
        },
        Value::Point2D(p) => {
            lemma_structure_typed(
                SIGNATURE_POINT_2D,
                seq![Term::Integer(p.srid), Term::Float(p.x), Term::Float(p.y)],
            );
        },
        Value::Point3D(p) => {
            lemma_structure_typed(
                SIGNATURE_POINT_3D,
                seq![Term::Integer(p.srid), Term::Float(p.x), Term::Float(p.y), Term::Float(p.z)],
            );
        },
        _ => {},
    }
}

/// The views of values are typed.
pub proof fn lemma_values_typed(items: Seq<Value>)
    ensures
        Term::List(values_view(items)).typed(),
    decreases items,
{
    let terms = values_view(items);
    assert forall|i: int| 0 <= i < terms.len() implies (#[trigger] terms[i]).typed() by {
        lemma_value_typed(items[i]);
    }
}

/// The values of entries have typed views.
pub proof fn lemma_entries_typed(es: Seq<(String, Value)>)
    ensures
        Term::Dictionary(entries_view(es)).typed(),
    decreases es,
{
    let entries = entries_view(es);
    assert forall|i: int| 0 <= i < entries.len() implies (#[trigger] entries[i]).1.typed() by {
        lemma_value_typed(es[i].1);
    }
}

/// The view of a node is typed.
pub proof fn lemma_node_typed(n: Node)
    ensures
        node_term(n).typed(),
    decreases n,
{
    lemma_entries_typed(n.properties.entries@);
    let labels = strings_view(n.labels@);
    assert(all_strings(labels));
    assert(Term::List(labels).typed()) by {
        reveal_with_fuel(Term::typed, 2);
        assert forall|i: int| 0 <= i < labels.len() implies (#[trigger] labels[i]).typed() by {}
    }
    let fields = seq![
        Term::Integer(n.node_identity),
        Term::List(labels),
        Term::Dictionary(entries_view(n.properties.entries@)),
    ];
    lemma_structure_typed(SIGNATURE_NODE, fields);
}

/// The view of an unbound relationship is typed.
pub proof fn lemma_unbound_relationship_typed(r: UnboundRelationship)
    ensures
        unbound_relationship_term(r).typed(),
    decreases r,
{
    lemma_entries_typed(r.properties.entries@);
    let fields = seq![
        Term::Integer(r.rel_identity),
        Term::String(r.rel_type@),
        Term::Dictionary(entries_view(r.properties.entries@)),
    ];
    lemma_structure_typed(SIGNATURE_UNBOUND_RELATIONSHIP, fields);
}

/// Reading gives back what was written: for every value whose dictionaries
/// have distinct keys and whose lengths the format can write, the bytes of the
/// value are read as the value itself, and the reading uses all of them.
pub proof fn lemma_value_round_trip(v: Value)
    requires
        v@.wf(),
        encodable(v@),
    ensures
        parse_value(encode_term(v@), 0) == Ok::<(Term, int), Error>(
            (v@, encode_term(v@).len() as int),
        ),
{
    let bytes = encode_term(v@);
    lemma_value_typed(v);
    assert(bytes.subrange(0, bytes.len() as int) =~= bytes);
    lemma_term_round_trip(bytes, 0, v@);
}

/// A message of the catalog, written in the smallest forms at `pos`, is read
/// from there as the same message.
pub proof fn lemma_message_term_round_trip(s: Seq<u8>, pos: int, signature: u8, fields: Seq<Term>)
    requires
        message_fields_conform(signature, fields),
        forall|i: int|
            0 <= i < fields.len() ==> (#[trigger] fields[i]).wf() && fields[i].typed()
                && encodable(fields[i]),
        holds_at(s, pos, encode_term(Term::Structure(signature, fields))),
    ensures
        parse_message(s, pos) == Ok::<(Term, int), Error>(
            (
                Term::Structure(signature, fields),
                pos + encode_term(Term::Structure(signature, fields)).len(),
            ),
        ),
{
    let n = fields.len() as int;
    let header = size_header(Kind::Structure, n);
    lemma_holds_split(s, pos, header + seq![signature], encode_terms(fields));
    lemma_holds_split(s, pos, header, seq![signature]);
    lemma_size_header(s, pos, Kind::Structure, n);
    let p = pos + header.len();
    lemma_holds_index(s, p, seq![signature], 0);
    assert(header_error(Catalog::Messages, signature, n) is None);
    lemma_terms_round_trip(s, p + 1, fields, Seq::empty());
    assert(Seq::<Term>::empty() + fields =~= fields);
}

/// The fields of a message are typed, and well formed where the message is.
pub proof fn lemma_message_fields(m: Message)
    ensures
        m@ matches Term::Structure(signature, fields) && message_fields_conform(signature, fields)
            && (forall|i: int| 0 <= i < fields.len() ==> (#[trigger] fields[i]).typed()) && (m@.wf()
            ==> forall|i: int| 0 <= i < fields.len() ==> (#[trigger] fields[i]).wf()) && (
        encodable(m@) ==> forall|i: int| 0 <= i < fields.len() ==> encodable(#[trigger] fields[i])),
{
    reveal_with_fuel(Term::typed, 2);
    match m {
        Message::Init(x) => {
            lemma_entries_typed(x.auth_token.entries@);
        },
        Message::Hello(x) => {
            lemma_entries_typed(x.metadata.entries@);
        },
        Message::Run(x) => {
            lemma_entries_typed(x.parameters.entries@);
        },
        Message::RunWithMetadata(x) => {
            lemma_entries_typed(x.parameters.entries@);
            lemma_entries_typed(x.metadata.entries@);
        },
        Message::Pull(x) => {
            lemma_entries_typed(x.metadata.entries@);
        },
        Message::Discard(x) => {
            lemma_entries_typed(x.metadata.entries@);
        },
        Message::Begin(x) => {
            lemma_entries_typed(x.metadata.entries@);
        },
        Message::Success(x) => {
            lemma_entries_typed(x.metadata.entries@);
        },
        Message::Failure(x) => {
            lemma_entries_typed(x.metadata.entries@);
        },
        Message::Record(x) => {
            lemma_values_typed(x.fields@);
        },
        _ => {},
    }
    let fields = m@->Structure_1;
    assert forall|i: int| 0 <= i < fields.len() implies (#[trigger] fields[i]).typed() by {
        if i == 0 {
        } else if i == 1 {
        } else if i == 2 {
        } else {
        }
    }
}

/// Reading gives back what was written: for every message whose dictionaries
/// have distinct keys and whose lengths the format can write, the bytes of the
/// message are read as the message itself, and the reading uses all of them.
pub proof fn lemma_message_round_trip(m: Message)
    requires
        m@.wf(),
        encodable(m@),
    ensures
        parse_message(encode_term(m@), 0) == Ok::<(Term, int), Error>(
            (m@, encode_term(m@).len() as int),
        ),
{
    let bytes = encode_term(m@);
    lemma_message_fields(m);
    assert(bytes.subrange(0, bytes.len() as int) =~= bytes);
    lemma_message_term_round_trip(bytes, 0, m@->Structure_0, m@->Structure_1);
}

} // verus!
