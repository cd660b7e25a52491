use crate::catalog::{check_header, Catalog};
use crate::error::Error;
use crate::format::{parse_entries, parse_structure, parse_value, parse_values};
use crate::structure::build_structure;
use crate::value::{values_view, Dictionary, Value};
use crate::wire::{
    classify_marker, read_be64, read_integer_at, read_size_at, Kind, Marker,
};
use vstd::prelude::*;
use vstd::slice::{slice_subrange, slice_to_vec};
use vstd::utf8::{decode_utf8, encode_utf8, valid_utf8};

verus! {

/// `String::from_utf8` of std. The contract claims what its documentation
/// says: the call succeeds exactly on well-formed UTF-8, and the string it
/// then returns holds the bytes it was given.
#[verifier::external_body]
fn string_from_utf8(bytes: Vec<u8>) -> (r: Option<String>)
    ensures
        match r {
            Some(text) => valid_utf8(bytes@) && encode_utf8(text@) == bytes@,
            None => !valid_utf8(bytes@),
        },
{
    match String::from_utf8(bytes) {
        Ok(text) => Some(text),
        Err(_) => None,
    }
}

/// The text that the bytes from `from` to `to` spell in UTF-8.
pub fn decode_text(s: &[u8], from: usize, to: usize) -> (r: Result<String, Error>)
    requires
        from <= to <= s@.len(),
    ensures
        valid_utf8(s@.subrange(from as int, to as int)) ==> (r matches Ok(text) && text@
            == decode_utf8(s@.subrange(from as int, to as int))),
        !valid_utf8(s@.subrange(from as int, to as int)) ==> (r matches Err(e) && e
            == Error::InvalidUtf8),
{
    let bytes = slice_to_vec(slice_subrange(s, from, to));
    match string_from_utf8(bytes) {
        Some(text) => {
            proof {
                vstd::utf8::encode_utf8_decode_utf8(text@);
            }
            Ok(text)
        },
        None => Err(Error::InvalidUtf8),
    }
}

/// Reads the value that starts at `pos`, and says where it ends.
pub fn decode_value(s: &[u8], pos: usize) -> (r: Result<(Value, usize), Error>)
    ensures
        match parse_value(s@, pos as int) {
            Ok((t, p)) => r matches Ok((v, q)) && v@ == t && q == p && pos < q <= s@.len(),
            Err(e) => r matches Err(f) && f == e,
        },
    decreases s@.len() - pos, 0int,
{
    if pos >= s.len() {
        return Err(Error::Truncated);
    }
    let m: u8 = s[pos];
    match classify_marker(m) {
        Marker::Tiny(i) => Ok((Value::Integer(i), pos + 1)),
        Marker::Null => Ok((Value::Null, pos + 1)),
        Marker::False => Ok((Value::Boolean(false), pos + 1)),
        Marker::True => Ok((Value::Boolean(true), pos + 1)),
        Marker::Float => {
            if s.len() - pos < 9 {
                Err(Error::Truncated)
            } else {
                let bits: u64 = read_be64(s, pos + 1);
                Ok((Value::Float(bits), pos + 9))
            }
        },
        Marker::Integer(width) => match read_integer_at(s, pos + 1, width) {
            Ok((i, p)) => Ok((Value::Integer(i), p)),
            Err(e) => Err(e),
        },
        Marker::Sized(kind, width, tiny) => {
            let (n, p): (usize, usize) = match read_size_at(s, pos + 1, width, tiny) {
                Ok(x) => x,
                Err(e) => {
                    return Err(e);
                },
            };
            match kind {
                Kind::Bytes => {
                    if s.len() - p < n {
                        Err(Error::Truncated)
                    } else {
                        let bytes = slice_to_vec(slice_subrange(s, p, p + n));
                        Ok((Value::Bytes(bytes), p + n))
                    }
                },
                Kind::String => {
                    if s.len() - p < n {
                        Err(Error::Truncated)
                    } else {
                        match decode_text(s, p, p + n) {
                            Ok(text) => Ok((Value::String(text), p + n)),
                            Err(e) => Err(e),
                        }
                    }
                },
                Kind::List => match decode_values(s, p, n) {
                    Ok((items, q)) => Ok((Value::List(items), q)),
                    Err(e) => Err(e),
                },
                Kind::Dictionary => match decode_entries(s, p, n) {
                    Ok((d, q)) => Ok((Value::Dictionary(d), q)),
                    Err(e) => Err(e),
                },
                Kind::Structure => decode_structure(s, p, n),
            }
        },
        Marker::Invalid => Err(Error::InvalidMarker(m)),
    }
}

/// Reads the value structure whose signature stands at `pos`, after a header
/// that announced `n` fields, and says where it ends.
pub fn decode_structure(s: &[u8], pos: usize, n: usize) -> (r: Result<(Value, usize), Error>)
    ensures
        match parse_structure(s@, pos as int, n as int, Catalog::Values) {
            Ok((t, p)) => r matches Ok((v, q)) && v@ == t && q == p && pos < q <= s@.len(),
            Err(e) => r matches Err(f) && f == e,
        },
    decreases s@.len() - pos, 0int,
{
    if pos >= s.len() {
        return Err(Error::Truncated);
    }
    let signature: u8 = s[pos];
    match check_header(Catalog::Values, signature, n) {
        Err(e) => {
            return Err(e);
        },
        Ok(()) => {},
    }
    let (fields, q): (Vec<Value>, usize) = match decode_values(s, pos + 1, n) {
        Ok(x) => x,
        Err(e) => {
            return Err(e);
        },
    };
    match build_structure(signature, fields) {
        Ok(v) => Ok((v, q)),
        Err(e) => Err(e),
    }
}

/// Reads the `n` values that start at `pos`, and says where they end.
pub fn decode_values(s: &[u8], pos: usize, n: usize) -> (r: Result<(Vec<Value>, usize), Error>)
    requires
        pos <= s@.len(),
    ensures
        match parse_values(s@, pos as int, n as int, Seq::empty()) {
            Ok((ts, p)) => r matches Ok((items, q)) && values_view(items@) == ts && q == p && pos
                <= q <= s@.len(),
            Err(e) => r matches Err(f) && f == e,
        },
    decreases s@.len() - pos, 1int,
{
    let mut items: Vec<Value> = Vec::new();
    let mut cur: usize = pos;
    let mut i: usize = 0;
    assert(values_view(items@) =~= Seq::empty());
    while i < n
        invariant
            pos <= cur <= s@.len(),
            i <= n,
            parse_values(s@, pos as int, n as int, Seq::empty()) == parse_values(
                s@,
                cur as int,
                n - i,
                values_view(items@),
            ),
        decreases n - i,
    {
        match decode_value(s, cur) {
            Err(e) => {
                return Err(e);
            },
            Ok((v, q)) => {
                proof {
                    assert(values_view(items@.push(v)) =~= values_view(items@).push(v@));
                }
                items.push(v);
                cur = q;
            },
        }
        i += 1;
    }
    Ok((items, cur))
}

/// Reads the `n` entries that start at `pos` into a dictionary, and says
/// where they end.
pub fn decode_entries(s: &[u8], pos: usize, n: usize) -> (r: Result<(Dictionary, usize), Error>)
    requires
        pos <= s@.len(),
    ensures
        match parse_entries(s@, pos as int, n as int, Seq::empty()) {
            Ok((es, p)) => r matches Ok((d, q)) && d@ == es && q == p && pos <= q <= s@.len(),
            Err(e) => r matches Err(f) && f == e,
        },
    decreases s@.len() - pos, 1int,
{
    let mut d = Dictionary::new();
    let mut cur: usize = pos;
    let mut i: usize = 0;
    while i < n
        invariant
            pos <= cur <= s@.len(),
            i <= n,
            parse_entries(s@, pos as int, n as int, Seq::empty()) == parse_entries(
                s@,
                cur as int,
                n - i,
                d@,
            ),
        decreases n - i,
    {
        let (k, p): (Value, usize) = match decode_value(s, cur) {
            Ok(x) => x,
            Err(e) => {
                return Err(e);
            },
        };
        let key: String = match k {
            Value::String(text) => text,
            _ => {
                return Err(Error::InvalidStructure);
            },
        };
        let (v, q): (Value, usize) = match decode_value(s, p) {
            Ok(x) => x,
            Err(e) => {
                return Err(e);
            },
        };
        d.insert(key, v);
        cur = q;
        i += 1;
    }
    Ok((d, cur))
}

} // verus!
