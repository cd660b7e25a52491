use crate::encode::{
    lemma_structure_1, lemma_structure_2, lemma_structure_3, lemma_structure_4, lemma_structure_5,
};
use crate::error::Error;
use crate::format::{encode_string, encode_term, encode_terms, max_length};
use crate::message::Message;
use crate::serialize::Serialize;
use crate::term::Term;
use crate::value::{
    integers_view, nodes_view, strings_view, unbound_relationships_view, Date, DateTimeOffset,
    DateTimeZoneId, Duration, LocalDateTime, LocalTime, Node, Path, Point2D, Point3D,
    Relationship, Time, UnboundRelationship, Value, SIGNATURE_DATE, SIGNATURE_DATE_TIME_OFFSET,
    SIGNATURE_DATE_TIME_ZONE_ID, SIGNATURE_DURATION, SIGNATURE_LOCAL_DATE_TIME,
    SIGNATURE_LOCAL_TIME, SIGNATURE_NODE, SIGNATURE_PATH, SIGNATURE_POINT_2D, SIGNATURE_POINT_3D,
    SIGNATURE_RELATIONSHIP, SIGNATURE_TIME, SIGNATURE_UNBOUND_RELATIONSHIP,
};
use crate::wire::{encode_integer, max_size, size_header, write_integer, write_size, Kind};
use vstd::prelude::*;
use vstd::utf8::encode_utf8;

verus! {

/// The marker under which a structure of up to 15 fields is written, added to
/// the number of its fields.
pub const MARKER_TINY_STRUCTURE: u8 = 0xB0;

/// The marker of a structure whose number of fields follows in one byte.
pub const MARKER_SMALL_STRUCTURE: u8 = 0xDC;

/// The marker of a structure whose number of fields follows in two bytes.
pub const MARKER_MEDIUM_STRUCTURE: u8 = 0xDD;

/// Whether the format can write the first byte of a term: whether the length
/// of the term itself, not of what it holds, fits the widest size class.
pub open spec fn has_marker(t: Term) -> bool {
    match t {
        Term::Bytes(b) => b.len() <= max_length(),
        Term::String(s) => encode_utf8(s).len() <= max_length(),
        Term::List(items) => items.len() <= max_length(),
        Term::Dictionary(entries) => entries.len() <= max_length(),
        Term::Structure(_, fields) => fields.len() <= max_size(Kind::Structure),
        _ => true,
    }
}

/// What tells its class by its first byte on the wire.
pub trait Marker: Serialize {
    /// The first byte that `self` is written with. Fails exactly where the
    /// length of `self` exceeds what the format can write.
    fn get_marker(&self) -> (r: Result<u8, Error>)
        ensures
            match r {
                Ok(m) => has_marker(self.wire()) && m == encode_term(self.wire())[0],
                Err(e) => e == Error::ValueTooLarge && !has_marker(self.wire()),
            },
    ;
}

/// The marker for a value of a kind and a length.
pub fn size_marker(kind: Kind, n: usize) -> (r: Result<u8, Error>)
    ensures
        match r {
            Ok(m) => n <= max_size(kind) && m == size_header(kind, n as int)[0],
            Err(e) => e == Error::ValueTooLarge && n > max_size(kind),
        },
{
    let mut header: Vec<u8> = Vec::new();
    match write_size(kind, n, &mut header) {
        Ok(()) => {
            assert(header@ =~= size_header(kind, n as int));
            Ok(header[0])
        },
        Err(e) => Err(e),
    }
}

/// The marker of an integer.
pub fn integer_marker(i: i64) -> (m: u8)
    ensures
        m == encode_integer(i)[0],
{
    let mut bytes: Vec<u8> = Vec::new();
    write_integer(i, &mut bytes);
    assert(bytes@ =~= encode_integer(i));
    bytes[0]
}

impl Marker for Value {
    fn get_marker(&self) -> (r: Result<u8, Error>) {
        match self {
            Value::Null => Ok(0xC0),
            Value::Boolean(b) => if *b {
                Ok(0xC3)
            } else {
                Ok(0xC2)
            },
            Value::Integer(i) => Ok(integer_marker(*i)),
            Value::Float(_) => Ok(0xC1),
            Value::Bytes(b) => size_marker(Kind::Bytes, b.len()),
            Value::String(s) => {
                let n: usize = s.as_str().as_bytes().len();
                assert(encode_term(self@) == encode_string(s@));
                size_marker(Kind::String, n)
            },
            Value::List(items) => size_marker(Kind::List, items.len()),
            Value::Dictionary(d) => size_marker(Kind::Dictionary, d.entries.len()),
            Value::Node(x) => x.get_marker(),
            Value::Relationship(x) => x.get_marker(),
            Value::UnboundRelationship(x) => x.get_marker(),
            Value::Path(x) => x.get_marker(),
            Value::Date(x) => x.get_marker(),
            Value::Time(x) => x.get_marker(),
            Value::LocalTime(x) => x.get_marker(),
            Value::DateTimeOffset(x) => x.get_marker(),
            Value::DateTimeZoneId(x) => x.get_marker(),
            Value::LocalDateTime(x) => x.get_marker(),
            Value::Duration(x) => x.get_marker(),
            Value::Point2D(x) => x.get_marker(),
            Value::Point3D(x) => x.get_marker(),
        }
    }
}

impl Marker for Message {
    fn get_marker(&self) -> (r: Result<u8, Error>) {
        let fields: usize = match self {
            Message::Init(_) | Message::Run(_) => 2,
            Message::RunWithMetadata(_) => 3,
            Message::Hello(_)
            | Message::Pull(_)
            | Message::Discard(_)
            | Message::Begin(_)
            | Message::Success(_)
            | Message::Failure(_)
            | Message::Record(_) => 1,
            _ => 0,
        };
        proof {
            let t = self@;
            let header = size_header(Kind::Structure, fields as int);
            assert(encode_term(t) == header + seq![t->Structure_0] + encode_terms(t->Structure_1));
            assert(encode_term(t)[0] == header[0]);
        }
        size_marker(Kind::Structure, fields)
    }
}

impl Marker for Node {
    fn get_marker(&self) -> (r: Result<u8, Error>) {
        proof {
            lemma_structure_3(
                SIGNATURE_NODE,
                Term::Integer(self.node_identity),
                Term::List(strings_view(self.labels@)),
                Term::Dictionary(self.properties@),
            );
        }
        Ok(MARKER_TINY_STRUCTURE + 3)
    }
}

impl Marker for Relationship {
    fn get_marker(&self) -> (r: Result<u8, Error>) {
        proof {
            lemma_structure_5(
                SIGNATURE_RELATIONSHIP,
                Term::Integer(self.rel_identity),
                Term::Integer(self.start_node_identity),
                Term::Integer(self.end_node_identity),
                Term::String(self.rel_type@),
                Term::Dictionary(self.properties@),
            );
        }
        Ok(MARKER_TINY_STRUCTURE + 5)
    }
}

impl Marker for UnboundRelationship {
    fn get_marker(&self) -> (r: Result<u8, Error>) {
        proof {
            lemma_structure_3(
                SIGNATURE_UNBOUND_RELATIONSHIP,
                Term::Integer(self.rel_identity),
                Term::String(self.rel_type@),
                Term::Dictionary(self.properties@),
            );
        }
        Ok(MARKER_TINY_STRUCTURE + 3)
    }
}

impl Marker for Path {
    fn get_marker(&self) -> (r: Result<u8, Error>) {
        proof {
            lemma_structure_3(
                SIGNATURE_PATH,
                Term::List(nodes_view(self.nodes@)),
                Term::List(unbound_relationships_view(self.relationships@)),
                Term::List(integers_view(self.sequence@)),
            );
        }
        Ok(MARKER_TINY_STRUCTURE + 3)
    }
}

impl Marker for Date {
    fn get_marker(&self) -> (r: Result<u8, Error>) {
        proof {
            lemma_structure_1(
                SIGNATURE_DATE,
                Term::Integer(self.days_since_epoch),
            );
        }
        Ok(MARKER_TINY_STRUCTURE + 1)
    }
}

impl Marker for Time {
    fn get_marker(&self) -> (r: Result<u8, Error>) {
        proof {
            lemma_structure_2(
                SIGNATURE_TIME,
                Term::Integer(self.nanos_since_midnight),
                Term::Integer(self.zone_offset),
            );
        }
        Ok(MARKER_TINY_STRUCTURE + 2)
    }
}

impl Marker for LocalTime {
    fn get_marker(&self) -> (r: Result<u8, Error>) {
        proof {
            lemma_structure_1(
                SIGNATURE_LOCAL_TIME,
                Term::Integer(self.nanos_since_midnight),
            );
        }
        Ok(MARKER_TINY_STRUCTURE + 1)
    }
}

impl Marker for DateTimeOffset {
    fn get_marker(&self) -> (r: Result<u8, Error>) {
        proof {
            lemma_structure_3(
                SIGNATURE_DATE_TIME_OFFSET,
                Term::Integer(self.epoch_seconds),
                Term::Integer(self.nanos),
                Term::Integer(self.offset_seconds),
            );
        }
        Ok(MARKER_TINY_STRUCTURE + 3)
    }
}

impl Marker for DateTimeZoneId {
    fn get_marker(&self) -> (r: Result<u8, Error>) {
        proof {
            lemma_structure_3(
                SIGNATURE_DATE_TIME_ZONE_ID,
                Term::Integer(self.epoch_seconds),
                Term::Integer(self.nanos),
                Term::String(self.zone_id@),
            );
        }
        Ok(MARKER_TINY_STRUCTURE + 3)
    }
}

impl Marker for LocalDateTime {
    fn get_marker(&self) -> (r: Result<u8, Error>) {
        proof {
            lemma_structure_2(
                SIGNATURE_LOCAL_DATE_TIME,
                Term::Integer(self.epoch_seconds),
                Term::Integer(self.nanos),
            );
        }
        Ok(MARKER_TINY_STRUCTURE + 2)
    }
}

impl Marker for Duration {
    fn get_marker(&self) -> (r: Result<u8, Error>) {
        proof {
            lemma_structure_4(
                SIGNATURE_DURATION,
                Term::Integer(self.months),
                Term::Integer(self.days),
                Term::Integer(self.seconds),
                Term::Integer(self.nanos),
            );
        }
        Ok(MARKER_TINY_STRUCTURE + 4)
    }
}

impl Marker for Point2D {
    fn get_marker(&self) -> (r: Result<u8, Error>) {
        proof {
            lemma_structure_3(
                SIGNATURE_POINT_2D,
                Term::Integer(self.srid),
                Term::Float(self.x),
                Term::Float(self.y),
            );
        }
        Ok(MARKER_TINY_STRUCTURE + 3)
    }
}

impl Marker for Point3D {
    fn get_marker(&self) -> (r: Result<u8, Error>) {
        proof {
            lemma_structure_4(
                SIGNATURE_POINT_3D,
                Term::Integer(self.srid),
                Term::Float(self.x),
                Term::Float(self.y),
                Term::Float(self.z),
            );
        }
        Ok(MARKER_TINY_STRUCTURE + 4)
    }
}

} // verus!
