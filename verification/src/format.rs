use crate::catalog::{fields_conform, header_error, Catalog};
use crate::error::Error;
use crate::term::{dict_insert, Entries, Term};
use crate::wire::{
    be64, classify, encode_integer, from_be64, read_integer, read_size, size_header, Kind, Marker,
};
use vstd::prelude::*;
use vstd::utf8::{decode_utf8, encode_utf8, valid_utf8};

verus! {

/// The largest length that a string, a list, a dictionary or a run of bytes can have on the wire.
pub open spec fn max_length() -> int {
    0xFFFF_FFFF
}

/// The largest number of fields that a structure can have on the wire.
pub open spec fn max_fields() -> int {
    0xFFFF
}

/// Whether the format can write a term: every length in it, at any depth, fits
/// the widest size class of its kind.
pub open spec fn encodable(t: Term) -> bool
    decreases t,
{
    match t {
        Term::Bytes(b) => b.len() <= max_length(),
        Term::String(s) => encode_utf8(s).len() <= max_length(),
        Term::List(items) => {
            &&& items.len() <= max_length()
            &&& forall|i: int| 0 <= i < items.len() ==> encodable(#[trigger] items[i])
        },
        Term::Dictionary(entries) => {
            &&& entries.len() <= max_length()
            &&& forall|i: int|
                0 <= i < entries.len() ==> {
                    &&& encode_utf8((#[trigger] entries[i]).0).len() <= max_length()
                    &&& encodable(entries[i].1)
                }
        },
        Term::Structure(_, fields) => {
            &&& fields.len() <= max_fields()
            &&& forall|i: int| 0 <= i < fields.len() ==> encodable(#[trigger] fields[i])
        },
        _ => true,
    }
}

/// The bytes of a string: its length in bytes in the smallest form, then its UTF-8.
pub open spec fn encode_string(s: Seq<char>) -> Seq<u8> {
    size_header(Kind::String, encode_utf8(s).len() as int) + encode_utf8(s)
}

/// The bytes of a term, every integer and every length in its smallest form.
pub open spec fn encode_term(t: Term) -> Seq<u8>
    decreases t,
{
    match t {
        Term::Null => seq![0xC0u8],
        Term::Boolean(b) => if b {
            seq![0xC3u8]
        } else {
            seq![0xC2u8]
        },
        Term::Integer(i) => encode_integer(i),
        Term::Float(f) => seq![0xC1u8] + be64(f as int),
        Term::Bytes(b) => size_header(Kind::Bytes, b.len() as int) + b,
        Term::String(s) => encode_string(s),
        Term::List(items) => size_header(Kind::List, items.len() as int) + encode_terms(items),
        Term::Dictionary(entries) => size_header(Kind::Dictionary, entries.len() as int)
            + encode_entries(entries),
        Term::Structure(signature, fields) => size_header(Kind::Structure, fields.len() as int)
            + seq![signature] + encode_terms(fields),
    }
}

/// The bytes of each term in turn.
pub open spec fn encode_terms(ts: Seq<Term>) -> Seq<u8>
    decreases ts,
{
    if ts.len() == 0 {
        Seq::empty()
    } else {
        encode_terms(ts.drop_last()) + encode_term(ts.last())
    }
}

/// The bytes of each entry in turn: the key as a string, then the value.
pub open spec fn encode_entries(es: Entries) -> Seq<u8>
    decreases es,
{
    if es.len() == 0 {
        Seq::empty()
    } else {
        encode_entries(es.drop_last()) + encode_string(es.last().0) + encode_term(es.last().1)
    }
}

/// The value that starts at `pos`, and the position behind it.
///
/// The first byte decides the class. An integer or a length may stand in any
/// size class that holds it. A structure must be a value structure of the
/// catalog, with the declared number and kinds of fields.
pub open spec fn parse_value(s: Seq<u8>, pos: int) -> Result<(Term, int), Error>
    decreases s.len() - pos, 0int,
{
    if pos < 0 || pos >= s.len() {
        Err(Error::Truncated)
    } else {
        match classify(s[pos]) {
            Marker::Tiny(i) => Ok((Term::Integer(i), pos + 1)),
            Marker::Null => Ok((Term::Null, pos + 1)),
            Marker::False => Ok((Term::Boolean(false), pos + 1)),
            Marker::True => Ok((Term::Boolean(true), pos + 1)),
            Marker::Float => if pos + 9 > s.len() {
                Err(Error::Truncated)
            } else {
                Ok((Term::Float(from_be64(s, pos + 1) as u64), pos + 9))
            },
            Marker::Integer(width) => match read_integer(s, pos + 1, width) {
                Ok((i, p)) => Ok((Term::Integer(i), p)),
                Err(e) => Err(e),
            },
            Marker::Sized(kind, width, tiny) => match read_size(s, pos + 1, width, tiny) {
                Err(e) => Err(e),
                Ok((n, p)) => match kind {
                    Kind::Bytes => if p + n > s.len() {
                        Err(Error::Truncated)
                    } else {
                        Ok((Term::Bytes(s.subrange(p, p + n)), p + n))
                    },
                    Kind::String => if p + n > s.len() {
                        Err(Error::Truncated)
                    } else if !valid_utf8(s.subrange(p, p + n)) {
                        Err(Error::InvalidUtf8)
                    } else {
                        Ok((Term::String(decode_utf8(s.subrange(p, p + n))), p + n))
                    },
                    Kind::List => match parse_values(s, p, n, Seq::empty()) {
                        Err(e) => Err(e),
                        Ok((items, q)) => Ok((Term::List(items), q)),
                    },
                    Kind::Dictionary => match parse_entries(s, p, n, Seq::empty()) {
                        Err(e) => Err(e),
                        Ok((entries, q)) => Ok((Term::Dictionary(entries), q)),
                    },
                    Kind::Structure => parse_structure(s, p, n, Catalog::Values),
                },
            },
            Marker::Invalid => Err(Error::InvalidMarker(s[pos])),
        }
    }
}

/// The structure whose signature stands at `pos`, after a header that announced
/// `n` fields, and the position behind it. The catalog is asked first whether it
/// lists the signature with `n` fields, then the fields are read, then their
/// kinds are held against the catalog.
pub open spec fn parse_structure(s: Seq<u8>, pos: int, n: int, catalog: Catalog) -> Result<
    (Term, int),
    Error,
>
    decreases s.len() - pos, 0int,
{
    if pos < 0 || pos >= s.len() {
        Err(Error::Truncated)
    } else {
        match header_error(catalog, s[pos], n) {
            Some(e) => Err(e),
            None => match parse_values(s, pos + 1, n, Seq::empty()) {
                Err(e) => Err(e),
                Ok((fields, q)) => if fields_conform(catalog, s[pos], fields) {
                    Ok((Term::Structure(s[pos], fields), q))
                } else {
                    Err(Error::InvalidStructure)
                },
            },
        }
    }
}

/// `acc` followed by the `n` values that start at `pos`, and the position behind them.
pub open spec fn parse_values(s: Seq<u8>, pos: int, n: int, acc: Seq<Term>) -> Result<
    (Seq<Term>, int),
    Error,
>
    decreases s.len() - pos, 1int,
{
    if n <= 0 {
        Ok((acc, pos))
    } else {
        match parse_value(s, pos) {
            Err(e) => Err(e),
            Ok((t, p)) => if pos < p <= s.len() {
                parse_values(s, p, n - 1, acc.push(t))
            } else {
                Err(Error::Truncated)
            },
        }
    }
}

/// `acc` with the `n` entries that start at `pos` inserted in turn, and the
/// position behind them. A key that is no string is refused; a key that occurs
/// again replaces the value it had.
pub open spec fn parse_entries(s: Seq<u8>, pos: int, n: int, acc: Entries) -> Result<
    (Entries, int),
    Error,
>
    decreases s.len() - pos, 1int,
{
    if n <= 0 {
        Ok((acc, pos))
    } else {
        match parse_value(s, pos) {
            Err(e) => Err(e),
            Ok((k, p)) => match k {
                Term::String(key) => if pos < p <= s.len() {
                    match parse_value(s, p) {
                        Err(e) => Err(e),
                        Ok((v, q)) => if p < q <= s.len() {
                            parse_entries(s, q, n - 1, dict_insert(acc, key, v))
                        } else {
                            Err(Error::Truncated)
                        },
                    }
                } else {
                    Err(Error::Truncated)
                },
                _ => Err(Error::InvalidStructure),
            },
        }
    }
}

/// The message that starts at `pos`, and the position behind it: a structure
/// of the message catalog.
pub open spec fn parse_message(s: Seq<u8>, pos: int) -> Result<(Term, int), Error> {
    if pos < 0 || pos >= s.len() {
        Err(Error::Truncated)
    } else {
        match classify(s[pos]) {
            Marker::Sized(Kind::Structure, width, tiny) => match read_size(
                s,
                pos + 1,
                width,
                tiny,
            ) {
                Err(e) => Err(e),
                Ok((n, p)) => parse_structure(s, p, n, Catalog::Messages),
            },
            _ => Err(Error::InvalidMarker(s[pos])),
        }
    }
}

} // verus!
