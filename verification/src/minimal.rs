use crate::catalog::Catalog;
use crate::format::{
    encode_entries, encode_term, encode_terms, parse_entries, parse_structure, parse_value,
    parse_values,
};
use crate::term::{dict_insert, first_key, lemma_first_key_exists, Entries, Term};
use crate::value::Value;
use crate::wire::{classify, encode_integer, read_size, size_header, Kind, Marker};
use vstd::prelude::*;
use vstd::utf8::encode_utf8;

verus! {

/// The number of bytes that the smallest size class for an integer takes,
/// marker included: one byte from -16 to 127, then two, three, five and nine
/// bytes for integers of 8, 16, 32 and 64 bits.
pub open spec fn integer_length(i: i64) -> nat {
    if -16 <= i <= 127 {
        1
    } else if -0x80 <= i <= 0x7F {
        2
    } else if -0x8000 <= i <= 0x7FFF {
        3
    } else if -0x8000_0000 <= i <= 0x7FFF_FFFF {
        5
    } else {
        9
    }
}

/// The number of bytes that the smallest form of a length takes, marker
/// included: one byte up to 15, except for bytes, then two, three and five
/// bytes for lengths of 8, 16 and 32 bits.
pub open spec fn header_length(kind: Kind, n: nat) -> nat {
    if n <= 15 && !(kind is Bytes) {
        1
    } else if n <= 0xFF {
        2
    } else if n <= 0xFFFF {
        3
    } else {
        5
    }
}

/// The number of bytes that a string takes in the smallest form.
pub open spec fn string_length(s: Seq<char>) -> nat {
    header_length(Kind::String, encode_utf8(s).len()) + encode_utf8(s).len()
}

/// The number of bytes that a term takes where every integer and every
/// length in it, at any depth, stands in its smallest form.
pub open spec fn minimal_length(t: Term) -> nat
    decreases t,
{
    match t {
        Term::Null => 1,
        Term::Boolean(_) => 1,
        Term::Integer(i) => integer_length(i),
        Term::Float(_) => 9,
        Term::Bytes(b) => header_length(Kind::Bytes, b.len()) + b.len(),
        Term::String(s) => string_length(s),
        Term::List(items) => header_length(Kind::List, items.len()) + minimal_lengths(items),
        Term::Dictionary(entries) => header_length(Kind::Dictionary, entries.len())
            + minimal_entry_lengths(entries),
        Term::Structure(_, fields) => header_length(Kind::Structure, fields.len()) + 1
            + minimal_lengths(fields),
    }
}

/// The sum of the minimal lengths of terms.
pub open spec fn minimal_lengths(ts: Seq<Term>) -> nat
    decreases ts,
{
    if ts.len() == 0 {
        0
    } else {
        minimal_lengths(ts.drop_last()) + minimal_length(ts.last())
    }
}

/// The sum of the minimal lengths of entries: of each key as a string and of each value.
pub open spec fn minimal_entry_lengths(es: Entries) -> nat
    decreases es,
{
    if es.len() == 0 {
        0
    } else {
        minimal_entry_lengths(es.drop_last()) + string_length(es.last().0) + minimal_length(
            es.last().1,
        )
    }
}

/// An integer is written in the smallest size class that holds it.
pub proof fn lemma_integer_is_minimal(i: i64)
    ensures
        encode_integer(i).len() == integer_length(i),
{
}

/// A length is written in the smallest form that holds it.
pub proof fn lemma_header_is_minimal(kind: Kind, n: nat)
    ensures
        size_header(kind, n as int).len() == header_length(kind, n),
{
}

/// Nothing is written in a larger size class than it needs: the bytes of a
/// term are as many as its minimal length.
pub proof fn lemma_encoding_is_minimal(t: Term)
    ensures
        encode_term(t).len() == minimal_length(t),
    decreases t,
{
    match t {
        Term::Integer(i) => {
            lemma_integer_is_minimal(i);
        },
        Term::Bytes(b) => {
            lemma_header_is_minimal(Kind::Bytes, b.len());
        },
        Term::String(s) => {
            lemma_header_is_minimal(Kind::String, encode_utf8(s).len());
        },
        Term::List(items) => {
            lemma_header_is_minimal(Kind::List, items.len());
            lemma_encodings_are_minimal(items);
        },
        Term::Dictionary(entries) => {
            lemma_header_is_minimal(Kind::Dictionary, entries.len());
            lemma_entry_encodings_are_minimal(entries);
        },
        Term::Structure(signature, fields) => {
            lemma_header_is_minimal(Kind::Structure, fields.len());
            lemma_encodings_are_minimal(fields);
        },
        _ => {},
    }
}

/// The bytes of a run of terms are as many as the sum of their minimal lengths.
pub proof fn lemma_encodings_are_minimal(ts: Seq<Term>)
    ensures
        encode_terms(ts).len() == minimal_lengths(ts),
    decreases ts,
{
    if ts.len() > 0 {
        lemma_encodings_are_minimal(ts.drop_last());
        lemma_encoding_is_minimal(ts.last());
    }
}

/// The bytes of a run of entries are as many as the sum of their minimal lengths.
pub proof fn lemma_entry_encodings_are_minimal(es: Entries)
    ensures
        encode_entries(es).len() == minimal_entry_lengths(es),
    decreases es,
{
    if es.len() > 0 {
        lemma_entry_encodings_are_minimal(es.drop_last());
        lemma_header_is_minimal(Kind::String, encode_utf8(es.last().0).len());
        lemma_encoding_is_minimal(es.last().1);
    }
}

/// The bytes of a value are as many as the minimal length of its term.
pub proof fn lemma_value_encoding_is_minimal(v: Value)
    ensures
        encode_term(v@).len() == minimal_length(v@),
{
    lemma_encoding_is_minimal(v@);
}

/// The smallest form of a length grows with the length.
pub proof fn lemma_header_length_grows(kind: Kind, m: nat, n: nat)
    requires
        m <= n,
    ensures
        header_length(kind, m) <= header_length(kind, n),
{
}

/// The sum of the minimal lengths of terms after one more term.
pub proof fn lemma_minimal_lengths_push(ts: Seq<Term>, t: Term)
    ensures
        minimal_lengths(ts.push(t)) == minimal_lengths(ts) + minimal_length(t),
{
    assert(ts.push(t).drop_last() =~= ts);
}

/// Replacing the value of an entry changes the sum of the minimal lengths by
/// the difference between the two values.
pub proof fn lemma_minimal_entry_lengths_update(es: Entries, p: int, value: Term)
    requires
        0 <= p < es.len(),
    ensures
        minimal_entry_lengths(es.update(p, (es[p].0, value))) + minimal_length(es[p].1)
            == minimal_entry_lengths(es) + minimal_length(value),
    decreases es.len(),
{
    let after = es.update(p, (es[p].0, value));
    if p == es.len() - 1 {
        assert(after.drop_last() =~= es.drop_last());
    } else {
        lemma_minimal_entry_lengths_update(es.drop_last(), p, value);
        assert(after.drop_last() =~= es.drop_last().update(p, (es[p].0, value)));
        assert(after.last() == es.last());
    }
}

/// Binding a key adds at most the minimal lengths of the key and the value,
/// and at most one entry.
pub proof fn lemma_insert_lengths(es: Entries, key: Seq<char>, value: Term)
    ensures
        minimal_entry_lengths(dict_insert(es, key, value)) <= minimal_entry_lengths(es)
            + string_length(key) + minimal_length(value),
        dict_insert(es, key, value).len() <= es.len() + 1,
{
    lemma_first_key_exists(es, key);
    let p = first_key(es, key);
    if p < es.len() {
        lemma_minimal_entry_lengths_update(es, p, value);
    } else {
        assert(es.push((key, value)).drop_last() =~= es);
    }
}

/// No bytes are read as a term that are fewer than its minimal length: a
/// term that stands at `pos` in any size classes takes at least as many
/// bytes there as it takes in the smallest.
pub proof fn lemma_parse_not_shorter(s: Seq<u8>, pos: int)
    ensures
        match parse_value(s, pos) {
            Ok((t, p)) => pos < p <= s.len() && p - pos >= minimal_length(t),
            Err(_) => true,
        },
    decreases s.len() - pos, 0int,
{
    if 0 <= pos < s.len() {
        match classify(s[pos]) {
            Marker::Sized(kind, width, tiny) => {
                match read_size(s, pos + 1, width, tiny) {
                    Ok((n, p)) => {
                        assert(0 <= n);
                        assert(header_length(kind, n as nat) <= 1 + width);
                        match kind {
                            Kind::String => {
                                if p + n <= s.len() && vstd::utf8::valid_utf8(
                                    s.subrange(p, p + n),
                                ) {
                                    vstd::utf8::decode_utf8_encode_utf8(s.subrange(p, p + n));
                                }
                            },
                            Kind::List => {
                                lemma_parse_values_not_shorter(s, p, n, Seq::empty());
                            },
                            Kind::Dictionary => {
                                lemma_parse_entries_not_shorter(s, p, n, Seq::empty());
                                match parse_entries(s, p, n, Seq::empty()) {
                                    Ok((entries, q)) => {
                                        lemma_header_length_grows(
                                            Kind::Dictionary,
                                            entries.len(),
                                            n as nat,
                                        );
                                    },
                                    Err(_) => {},
                                }
                            },
                            Kind::Structure => {
                                lemma_parse_structure_not_shorter(s, p, n, Catalog::Values);
                            },
                            Kind::Bytes => {},
                        }
                    },
                    Err(_) => {},
                }
            },
            _ => {},
        }
    }
}

/// A structure that stands at `pos` takes at least as many bytes there as its
/// signature and its fields take in the smallest size classes.
pub proof fn lemma_parse_structure_not_shorter(s: Seq<u8>, pos: int, n: int, catalog: Catalog)
    requires
        0 <= n,
    ensures
        match parse_structure(s, pos, n, catalog) {
            Ok((t, p)) => pos < p <= s.len() && (t matches Term::Structure(_, fields)
                && fields.len() == n && p - pos >= 1 + minimal_lengths(fields)),
            Err(_) => true,
        },
    decreases s.len() - pos, 0int,
{
    if 0 <= pos < s.len() {
        lemma_parse_values_not_shorter(s, pos + 1, n, Seq::empty());
    }
}

/// Values that stand one after the other take at least as many bytes as they
/// take in the smallest size classes.
pub proof fn lemma_parse_values_not_shorter(s: Seq<u8>, pos: int, n: int, acc: Seq<Term>)
    requires
        0 <= n,
        pos <= s.len(),
    ensures
        match parse_values(s, pos, n, acc) {
            Ok((ts, p)) => pos <= p <= s.len() && ts.len() == acc.len() + n && minimal_lengths(ts)
                <= minimal_lengths(acc) + (p - pos),
            Err(_) => true,
        },
    decreases s.len() - pos, 1int,
{
    if n > 0 {
        lemma_parse_not_shorter(s, pos);
        match parse_value(s, pos) {
            Ok((t, p)) => {
                lemma_minimal_lengths_push(acc, t);
                lemma_parse_values_not_shorter(s, p, n - 1, acc.push(t));
            },
            Err(_) => {},
        }
    }
}

/// Entries that stand one after the other take at least as many bytes as the
/// dictionary they make takes in the smallest size classes.
pub proof fn lemma_parse_entries_not_shorter(s: Seq<u8>, pos: int, n: int, acc: Entries)
    requires
        0 <= n,
        pos <= s.len(),
    ensures
        match parse_entries(s, pos, n, acc) {
            Ok((es, p)) => pos <= p <= s.len() && es.len() <= acc.len() + n
                && minimal_entry_lengths(es) <= minimal_entry_lengths(acc) + (p - pos),
            Err(_) => true,
        },
    decreases s.len() - pos, 1int,
{
    if n > 0 {
        lemma_parse_not_shorter(s, pos);
        match parse_value(s, pos) {
            Ok((k, p)) => {
                match k {
                    Term::String(key) => {
                        lemma_parse_not_shorter(s, p);
                        match parse_value(s, p) {
                            Ok((v, q)) => {
                                lemma_insert_lengths(acc, key, v);
                                lemma_parse_entries_not_shorter(
                                    s,
                                    q,
                                    n - 1,
                                    dict_insert(acc, key, v),
                                );
                            },
                            Err(_) => {},
                        }
                    },
                    _ => {},
                }
            },
            Err(_) => {},
        }
    }
}

/// The encoding is the shortest there is: whatever bytes are read as a term
/// are at least as many as the bytes that the term is written in.
pub proof fn lemma_no_shorter_encoding(s: Seq<u8>, t: Term)
    requires
        parse_value(s, 0) matches Ok((u, _)) && u == t,
    ensures
        encode_term(t).len() <= s.len(),
{
    lemma_parse_not_shorter(s, 0);
    lemma_encoding_is_minimal(t);
}

} // verus!
