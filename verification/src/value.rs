use crate::term::{Entries, Term};
use vstd::prelude::*;

verus! {

/// The signature of a node.
pub const SIGNATURE_NODE: u8 = 0x4E;

/// The signature of a relationship.
pub const SIGNATURE_RELATIONSHIP: u8 = 0x52;

/// The signature of an unbound relationship.
pub const SIGNATURE_UNBOUND_RELATIONSHIP: u8 = 0x72;

/// The signature of a path.
pub const SIGNATURE_PATH: u8 = 0x50;

/// The signature of a date.
pub const SIGNATURE_DATE: u8 = 0x44;

/// The signature of a time.
pub const SIGNATURE_TIME: u8 = 0x54;

/// The signature of a local time.
pub const SIGNATURE_LOCAL_TIME: u8 = 0x74;

/// The signature of a date and time with an offset.
pub const SIGNATURE_DATE_TIME_OFFSET: u8 = 0x46;

/// The signature of a date and time with a named zone.
pub const SIGNATURE_DATE_TIME_ZONE_ID: u8 = 0x66;

/// The signature of a local date and time.
pub const SIGNATURE_LOCAL_DATE_TIME: u8 = 0x64;

/// The signature of a duration.
pub const SIGNATURE_DURATION: u8 = 0x45;

/// The signature of a point in the plane.
pub const SIGNATURE_POINT_2D: u8 = 0x58;

/// The signature of a point in space.
pub const SIGNATURE_POINT_3D: u8 = 0x59;

/// A map from strings to values. The entries stand in the order in which their
/// keys were first inserted, and are written to the wire in that order;
/// `Dictionary::insert` never lets a key occur twice. Two dictionaries are
/// equal where they bind the same keys alike: the order does not count.
#[derive(Debug)]
pub struct Dictionary {
    pub entries: Vec<(String, Value)>,
}

/// A node of the graph.
#[derive(Debug, PartialEq)]
pub struct Node {
    pub node_identity: i64,
    pub labels: Vec<String>,
    pub properties: Dictionary,
}

/// A relationship together with the identities of the nodes it joins.
#[derive(Debug, PartialEq)]
pub struct Relationship {
    pub rel_identity: i64,
    pub start_node_identity: i64,
    pub end_node_identity: i64,
    pub rel_type: String,
    pub properties: Dictionary,
}

/// A relationship without its end points, as it occurs inside a path.
#[derive(Debug, PartialEq)]
pub struct UnboundRelationship {
    pub rel_identity: i64,
    pub rel_type: String,
    pub properties: Dictionary,
}

/// A walk through the graph: the nodes and relationships it touches, and the
/// sequence of indices into them that spells the walk.
#[derive(Debug, PartialEq)]
pub struct Path {
    pub nodes: Vec<Node>,
    pub relationships: Vec<UnboundRelationship>,
    pub sequence: Vec<i64>,
}

/// A date: the days since the first of January 1970.
#[derive(Debug, Clone, Copy, PartialEq, Eq, Structural)]
pub struct Date {
    pub days_since_epoch: i64,
}

/// A time of day in a zone: the nanoseconds since midnight and the offset of
/// the zone in seconds.
#[derive(Debug, Clone, Copy, PartialEq, Eq, Structural)]
pub struct Time {
    pub nanos_since_midnight: i64,
    pub zone_offset: i64,
}

/// A time of day without a zone: the nanoseconds since midnight.
#[derive(Debug, Clone, Copy, PartialEq, Eq, Structural)]
pub struct LocalTime {
    pub nanos_since_midnight: i64,
}

/// A date and time in a zone that is given by its offset in seconds.
#[derive(Debug, Clone, Copy, PartialEq, Eq, Structural)]
pub struct DateTimeOffset {
    pub epoch_seconds: i64,
    pub nanos: i64,
    pub offset_seconds: i64,
}

/// A date and time in a zone that is given by its name.
#[derive(Debug, PartialEq)]
pub struct DateTimeZoneId {
    pub epoch_seconds: i64,
    pub nanos: i64,
    pub zone_id: String,
}

/// A date and time without a zone.
#[derive(Debug, Clone, Copy, PartialEq, Eq, Structural)]
pub struct LocalDateTime {
    pub epoch_seconds: i64,
    pub nanos: i64,
}

/// A span of time in months, days, seconds and nanoseconds.
#[derive(Debug, Clone, Copy, PartialEq, Eq, Structural)]
pub struct Duration {
    pub months: i64,
    pub days: i64,
    pub seconds: i64,
    pub nanos: i64,
}

/// A point in the plane. Each coordinate is the IEEE 754 binary64 bit pattern of the number.
#[derive(Debug, Clone, Copy, PartialEq, Eq, Structural)]
pub struct Point2D {
    pub srid: i64,
    pub x: u64,
    pub y: u64,
}

/// A point in space. Each coordinate is the IEEE 754 binary64 bit pattern of the number.
#[derive(Debug, Clone, Copy, PartialEq, Eq, Structural)]
pub struct Point3D {
    pub srid: i64,
    pub x: u64,
    pub y: u64,
    pub z: u64,
}

/// A value that the protocol can carry.
#[derive(Debug)]
pub enum Value {
    Null,
    Boolean(bool),
    Integer(i64),
    /// A float, held as its IEEE 754 binary64 bit pattern.
    Float(u64),
    Bytes(Vec<u8>),
    String(String),
    List(Vec<Value>),
    Dictionary(Dictionary),
    Node(Node),
    Relationship(Relationship),
    UnboundRelationship(UnboundRelationship),
    Path(Path),
    Date(Date),
    Time(Time),
    LocalTime(LocalTime),
    DateTimeOffset(DateTimeOffset),
    DateTimeZoneId(DateTimeZoneId),
    LocalDateTime(LocalDateTime),
    Duration(Duration),
    Point2D(Point2D),
    Point3D(Point3D),
}

/// Each string as a term.
pub open spec fn strings_view(s: Seq<String>) -> Seq<Term> {
    Seq::new(s.len(), |i: int| Term::String(s[i]@))
}

/// Each integer as a term.
pub open spec fn integers_view(s: Seq<i64>) -> Seq<Term> {
    Seq::new(s.len(), |i: int| Term::Integer(s[i]))
}

/// Each value as a term.
pub open spec fn values_view(s: Seq<Value>) -> Seq<Term>
    decreases s,
{
    Seq::new(
        s.len(),
        |i: int|
            if 0 <= i < s.len() {
                value_view(s[i])
            } else {
                Term::Null
            },
    )
}

/// Each entry as a key and a term.
pub open spec fn entries_view(s: Seq<(String, Value)>) -> Entries
    decreases s,
{
    Seq::new(
        s.len(),
        |i: int|
            if 0 <= i < s.len() {
                (s[i].0@, value_view(s[i].1))
            } else {
                (Seq::empty(), Term::Null)
            },
    )
}

/// Each node as a term.
pub open spec fn nodes_view(s: Seq<Node>) -> Seq<Term>
    decreases s,
{
    Seq::new(
        s.len(),
        |i: int|
            if 0 <= i < s.len() {
                node_term(s[i])
            } else {
                Term::Null
            },
    )
}

/// Each relationship as a term.
pub open spec fn unbound_relationships_view(s: Seq<UnboundRelationship>) -> Seq<Term>
    decreases s,
{
    Seq::new(
        s.len(),
        |i: int|
            if 0 <= i < s.len() {
                unbound_relationship_term(s[i])
            } else {
                Term::Null
            },
    )
}

/// A node as the structure that the wire carries.
pub open spec fn node_term(n: Node) -> Term
    decreases n,
{
    Term::Structure(
        SIGNATURE_NODE,
        seq![
            Term::Integer(n.node_identity),
            Term::List(strings_view(n.labels@)),
            Term::Dictionary(entries_view(n.properties.entries@)),
        ],
    )
}

/// A relationship as the structure that the wire carries.
pub open spec fn relationship_term(r: Relationship) -> Term
    decreases r,
{
    Term::Structure(
        SIGNATURE_RELATIONSHIP,
        seq![
            Term::Integer(r.rel_identity),
            Term::Integer(r.start_node_identity),
            Term::Integer(r.end_node_identity),
            Term::String(r.rel_type@),
            Term::Dictionary(entries_view(r.properties.entries@)),
        ],
    )
}

/// An unbound relationship as the structure that the wire carries.
pub open spec fn unbound_relationship_term(r: UnboundRelationship) -> Term
    decreases r,
{
    Term::Structure(
        SIGNATURE_UNBOUND_RELATIONSHIP,
        seq![
            Term::Integer(r.rel_identity),
            Term::String(r.rel_type@),
            Term::Dictionary(entries_view(r.properties.entries@)),
        ],
    )
}

/// A path as the structure that the wire carries.
pub open spec fn path_term(p: Path) -> Term
    decreases p,
{
    Term::Structure(
        SIGNATURE_PATH,
        seq![
            Term::List(nodes_view(p.nodes@)),
            Term::List(unbound_relationships_view(p.relationships@)),
            Term::List(integers_view(p.sequence@)),
        ],
    )
}

/// A value as the term that the wire carries.
pub open spec fn value_view(v: Value) -> Term
    decreases v,
{
    match v {
        Value::Null => Term::Null,
        Value::Boolean(b) => Term::Boolean(b),
        Value::Integer(i) => Term::Integer(i),
        Value::Float(f) => Term::Float(f),
        Value::Bytes(b) => Term::Bytes(b@),
        Value::String(s) => Term::String(s@),
        Value::List(items) => Term::List(values_view(items@)),
        Value::Dictionary(d) => Term::Dictionary(entries_view(d.entries@)),
        Value::Node(n) => node_term(n),
        Value::Relationship(r) => relationship_term(r),
        Value::UnboundRelationship(r) => unbound_relationship_term(r),
        Value::Path(p) => path_term(p),
        Value::Date(d) => Term::Structure(SIGNATURE_DATE, seq![Term::Integer(d.days_since_epoch)]),
        Value::Time(t) => Term::Structure(
            SIGNATURE_TIME,
            seq![Term::Integer(t.nanos_since_midnight), Term::Integer(t.zone_offset)],
        ),
        Value::LocalTime(t) => Term::Structure(
            SIGNATURE_LOCAL_TIME,
            seq![Term::Integer(t.nanos_since_midnight)],
        ),
        Value::DateTimeOffset(t) => Term::Structure(
            SIGNATURE_DATE_TIME_OFFSET,
            seq![
                Term::Integer(t.epoch_seconds),
                Term::Integer(t.nanos),
                Term::Integer(t.offset_seconds),
            ],
        ),
        Value::DateTimeZoneId(t) => Term::Structure(
            SIGNATURE_DATE_TIME_ZONE_ID,
            seq![Term::Integer(t.epoch_seconds), Term::Integer(t.nanos), Term::String(t.zone_id@)],
        ),
        Value::LocalDateTime(t) => Term::Structure(
            SIGNATURE_LOCAL_DATE_TIME,
            seq![Term::Integer(t.epoch_seconds), Term::Integer(t.nanos)],
        ),
        Value::Duration(d) => Term::Structure(
            SIGNATURE_DURATION,
            seq![
                Term::Integer(d.months),
                Term::Integer(d.days),
                Term::Integer(d.seconds),
                Term::Integer(d.nanos),
            ],
        ),
        Value::Point2D(p) => Term::Structure(
            SIGNATURE_POINT_2D,
            seq![Term::Integer(p.srid), Term::Float(p.x), Term::Float(p.y)],
        ),
        Value::Point3D(p) => Term::Structure(
            SIGNATURE_POINT_3D,
            seq![Term::Integer(p.srid), Term::Float(p.x), Term::Float(p.y), Term::Float(p.z)],
        ),
    }
}

impl View for Value {
    type V = Term;

    open spec fn view(&self) -> Term {
        value_view(*self)
    }
}

impl View for Dictionary {
    type V = Entries;

    open spec fn view(&self) -> Entries {
        entries_view(self.entries@)
    }
}

impl View for Node {
    type V = Term;

    open spec fn view(&self) -> Term {
        node_term(*self)
    }
}

impl View for Relationship {
    type V = Term;

    open spec fn view(&self) -> Term {
        relationship_term(*self)
    }
}

impl View for UnboundRelationship {
    type V = Term;

    open spec fn view(&self) -> Term {
        unbound_relationship_term(*self)
    }
}

impl View for Path {
    type V = Term;

    open spec fn view(&self) -> Term {
        path_term(*self)
    }
}

} // verus!
