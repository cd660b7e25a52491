use crate::error::Error;
use crate::message::{
    Begin, Discard, Failure, Hello, Init, Message, Pull, Record, Run, RunWithMetadata, Success,
};
use crate::value::{
    Date, DateTimeOffset, DateTimeZoneId, Dictionary, Duration, LocalDateTime, LocalTime, Node,
    Path, Point2D, Point3D, Relationship, Time, UnboundRelationship, Value,
};
use crate::term::{lemma_insert_new, Term};
use vstd::prelude::*;
use vstd::string::StringExecFns;

verus! {

impl Node {
    /// A value with the given parts.
    pub fn new(node_identity: i64, labels: Vec<String>, properties: Dictionary) -> (made: Node)
        ensures
            made.node_identity == node_identity,
            made.labels == labels,
            made.properties == properties,
    {
        Node { node_identity, labels, properties }
    }

    /// The identity of the node.
    pub fn node_identity(&self) -> (r: i64)
        ensures
            r == self.node_identity,
    {
        self.node_identity
    }

    /// The labels of the node.
    pub fn labels(&self) -> (r: &[String])
        ensures
            r@ == self.labels@,
    {
        self.labels.as_slice()
    }

    /// The properties.
    pub fn properties(&self) -> (r: &Dictionary)
        ensures
            *r == self.properties,
    {
        &self.properties
    }

    /// The value, if it is of this kind.
    pub fn try_from(value: Value) -> (r: Result<Node, Error>)
        ensures
            match value {
                Value::Node(payload) => r matches Ok(given) && given == payload,
                _ => r matches Err(e) && e == Error::InvalidConversion,
            },
    {
        match value {
            Value::Node(payload) => Ok(payload),
            _ => Err(Error::InvalidConversion),
        }
    }
}

impl Relationship {
    /// A value with the given parts.
    pub fn new(
        rel_identity: i64,
        start_node_identity: i64,
        end_node_identity: i64,
        rel_type: String,
        properties: Dictionary,
    ) -> (made: Relationship)
        ensures
            made.rel_identity == rel_identity,
            made.start_node_identity == start_node_identity,
            made.end_node_identity == end_node_identity,
            made.rel_type == rel_type,
            made.properties == properties,
    {
        Relationship { rel_identity, start_node_identity, end_node_identity, rel_type, properties }
    }

    /// The identity of the relationship.
    pub fn rel_identity(&self) -> (r: i64)
        ensures
            r == self.rel_identity,
    {
        self.rel_identity
    }

    /// The identity of the node where the relationship starts.
    pub fn start_node_identity(&self) -> (r: i64)
        ensures
            r == self.start_node_identity,
    {
        self.start_node_identity
    }

    /// The identity of the node where the relationship ends.
    pub fn end_node_identity(&self) -> (r: i64)
        ensures
            r == self.end_node_identity,
    {
        self.end_node_identity
    }

    /// The type of the relationship.
    pub fn rel_type(&self) -> (r: &str)
        ensures
            r@ == self.rel_type@,
    {
        self.rel_type.as_str()
    }

    /// The properties.
    pub fn properties(&self) -> (r: &Dictionary)
        ensures
            *r == self.properties,
    {
        &self.properties
    }

    /// The value, if it is of this kind.
    pub fn try_from(value: Value) -> (r: Result<Relationship, Error>)
        ensures
            match value {
                Value::Relationship(payload) => r matches Ok(given) && given == payload,
                _ => r matches Err(e) && e == Error::InvalidConversion,
            },
    {
        match value {
            Value::Relationship(payload) => Ok(payload),
            _ => Err(Error::InvalidConversion),
        }
    }
}

impl UnboundRelationship {
    /// A value with the given parts.
    pub fn new(
        rel_identity: i64,
        rel_type: String,
        properties: Dictionary,
    ) -> (made: UnboundRelationship)
        ensures
            made.rel_identity == rel_identity,
            made.rel_type == rel_type,
            made.properties == properties,
    {
        UnboundRelationship { rel_identity, rel_type, properties }
    }

    /// The identity of the relationship.
    pub fn rel_identity(&self) -> (r: i64)
        ensures
            r == self.rel_identity,
    {
        self.rel_identity
    }

    /// The type of the relationship.
    pub fn rel_type(&self) -> (r: &str)
        ensures
            r@ == self.rel_type@,
    {
        self.rel_type.as_str()
    }

    /// The properties.
    pub fn properties(&self) -> (r: &Dictionary)
        ensures
            *r == self.properties,
    {
        &self.properties
    }

    /// The value, if it is of this kind.
    pub fn try_from(value: Value) -> (r: Result<UnboundRelationship, Error>)
        ensures
            match value {
                Value::UnboundRelationship(payload) => r matches Ok(given) && given == payload,
                _ => r matches Err(e) && e == Error::InvalidConversion,
            },
    {
        match value {
            Value::UnboundRelationship(payload) => Ok(payload),
            _ => Err(Error::InvalidConversion),
        }
    }
}

impl Path {
    /// A value with the given parts.
    pub fn new(
        nodes: Vec<Node>,
        relationships: Vec<UnboundRelationship>,
        sequence: Vec<i64>,
    ) -> (made: Path)
        ensures
            made.nodes == nodes,
            made.relationships == relationships,
            made.sequence == sequence,
    {
        Path { nodes, relationships, sequence }
    }

    /// The nodes that the path touches.
    pub fn nodes(&self) -> (r: &[Node])
        ensures
            r@ == self.nodes@,
    {
        self.nodes.as_slice()
    }

    /// The relationships that the path touches.
    pub fn relationships(&self) -> (r: &[UnboundRelationship])
        ensures
            r@ == self.relationships@,
    {
        self.relationships.as_slice()
    }

    /// The indices into nodes and relationships that spell the walk.
    pub fn sequence(&self) -> (r: &[i64])
        ensures
            r@ == self.sequence@,
    {
        self.sequence.as_slice()
    }

    /// The value, if it is of this kind.
    pub fn try_from(value: Value) -> (r: Result<Path, Error>)
        ensures
            match value {
                Value::Path(payload) => r matches Ok(given) && given == payload,
                _ => r matches Err(e) && e == Error::InvalidConversion,
            },
    {
        match value {
            Value::Path(payload) => Ok(payload),
            _ => Err(Error::InvalidConversion),
        }
    }
}

impl Date {
    /// A value with the given parts.
    pub fn new(days_since_epoch: i64) -> (made: Date)
        ensures
            made.days_since_epoch == days_since_epoch,
    {
        Date { days_since_epoch }
    }

    /// The days since the first of January 1970.
    pub fn days_since_epoch(&self) -> (r: i64)
        ensures
            r == self.days_since_epoch,
    {
        self.days_since_epoch
    }

    /// The value, if it is of this kind.
    pub fn try_from(value: Value) -> (r: Result<Date, Error>)
        ensures
            match value {
                Value::Date(payload) => r matches Ok(given) && given == payload,
                _ => r matches Err(e) && e == Error::InvalidConversion,
            },
    {
        match value {
            Value::Date(payload) => Ok(payload),
            _ => Err(Error::InvalidConversion),
        }
    }
}

impl Time {
    /// A value with the given parts.
    pub fn new(nanos_since_midnight: i64, zone_offset: i64) -> (made: Time)
        ensures
            made.nanos_since_midnight == nanos_since_midnight,
            made.zone_offset == zone_offset,
    {
        Time { nanos_since_midnight, zone_offset }
    }

    /// The nanoseconds since midnight.
    pub fn nanos_since_midnight(&self) -> (r: i64)
        ensures
            r == self.nanos_since_midnight,
    {
        self.nanos_since_midnight
    }

    /// The offset of the zone in seconds.
    pub fn zone_offset(&self) -> (r: i64)
        ensures
            r == self.zone_offset,
    {
        self.zone_offset
    }

    /// The value, if it is of this kind.
    pub fn try_from(value: Value) -> (r: Result<Time, Error>)
        ensures
            match value {
                Value::Time(payload) => r matches Ok(given) && given == payload,
                _ => r matches Err(e) && e == Error::InvalidConversion,
            },
    {
        match value {
            Value::Time(payload) => Ok(payload),
            _ => Err(Error::InvalidConversion),
        }
    }
}

impl LocalTime {
    /// A value with the given parts.
    pub fn new(nanos_since_midnight: i64) -> (made: LocalTime)
        ensures
            made.nanos_since_midnight == nanos_since_midnight,
    {
        LocalTime { nanos_since_midnight }
    }

    /// The nanoseconds since midnight.
    pub fn nanos_since_midnight(&self) -> (r: i64)
        ensures
            r == self.nanos_since_midnight,
    {
        self.nanos_since_midnight
    }

    /// The value, if it is of this kind.
    pub fn try_from(value: Value) -> (r: Result<LocalTime, Error>)
        ensures
            match value {
                Value::LocalTime(payload) => r matches Ok(given) && given == payload,
                _ => r matches Err(e) && e == Error::InvalidConversion,
            },
    {
        match value {
            Value::LocalTime(payload) => Ok(payload),
            _ => Err(Error::InvalidConversion),
        }
    }
}

impl DateTimeOffset {
    /// A value with the given parts.
    pub fn new(epoch_seconds: i64, nanos: i64, offset_seconds: i64) -> (made: DateTimeOffset)
        ensures
            made.epoch_seconds == epoch_seconds,
            made.nanos == nanos,
            made.offset_seconds == offset_seconds,
    {
        DateTimeOffset { epoch_seconds, nanos, offset_seconds }
    }

    /// The seconds since the start of 1970.
    pub fn epoch_seconds(&self) -> (r: i64)
        ensures
            r == self.epoch_seconds,
    {
        self.epoch_seconds
    }

    /// The nanoseconds beside the seconds.
    pub fn nanos(&self) -> (r: i64)
        ensures
            r == self.nanos,
    {
        self.nanos
    }

    /// The offset of the zone in seconds.
    pub fn offset_seconds(&self) -> (r: i64)
        ensures
            r == self.offset_seconds,
    {
        self.offset_seconds
    }

    /// The value, if it is of this kind.
    pub fn try_from(value: Value) -> (r: Result<DateTimeOffset, Error>)
        ensures
            match value {
                Value::DateTimeOffset(payload) => r matches Ok(given) && given == payload,
                _ => r matches Err(e) && e == Error::InvalidConversion,
            },
    {
        match value {
            Value::DateTimeOffset(payload) => Ok(payload),
            _ => Err(Error::InvalidConversion),
        }
    }
}

impl DateTimeZoneId {
    /// A value with the given parts.
    pub fn new(epoch_seconds: i64, nanos: i64, zone_id: String) -> (made: DateTimeZoneId)
        ensures
            made.epoch_seconds == epoch_seconds,
            made.nanos == nanos,
            made.zone_id == zone_id,
    {
        DateTimeZoneId { epoch_seconds, nanos, zone_id }
    }

    /// The seconds since the start of 1970.
    pub fn epoch_seconds(&self) -> (r: i64)
        ensures
            r == self.epoch_seconds,
    {
        self.epoch_seconds
    }

    /// The nanoseconds beside the seconds.
    pub fn nanos(&self) -> (r: i64)
        ensures
            r == self.nanos,
    {
        self.nanos
    }

    /// The name of the zone.
    pub fn zone_id(&self) -> (r: &str)
        ensures
            r@ == self.zone_id@,
    {
        self.zone_id.as_str()
    }

    /// The value, if it is of this kind.
    pub fn try_from(value: Value) -> (r: Result<DateTimeZoneId, Error>)
        ensures
            match value {
                Value::DateTimeZoneId(payload) => r matches Ok(given) && given == payload,
                _ => r matches Err(e) && e == Error::InvalidConversion,
            },
    {
        match value {
            Value::DateTimeZoneId(payload) => Ok(payload),
            _ => Err(Error::InvalidConversion),
        }
    }
}

impl LocalDateTime {
    /// A value with the given parts.
    pub fn new(epoch_seconds: i64, nanos: i64) -> (made: LocalDateTime)
        ensures
            made.epoch_seconds == epoch_seconds,
            made.nanos == nanos,
    {
        LocalDateTime { epoch_seconds, nanos }
    }

    /// The seconds since the start of 1970.
    pub fn epoch_seconds(&self) -> (r: i64)
        ensures
            r == self.epoch_seconds,
    {
        self.epoch_seconds
    }

    /// The nanoseconds beside the seconds.
    pub fn nanos(&self) -> (r: i64)
        ensures
            r == self.nanos,
    {
        self.nanos
    }

    /// The value, if it is of this kind.
    pub fn try_from(value: Value) -> (r: Result<LocalDateTime, Error>)
        ensures
            match value {
                Value::LocalDateTime(payload) => r matches Ok(given) && given == payload,
                _ => r matches Err(e) && e == Error::InvalidConversion,
            },
    {
        match value {
            Value::LocalDateTime(payload) => Ok(payload),
            _ => Err(Error::InvalidConversion),
        }
    }
}

impl Duration {
    /// A value with the given parts.
    pub fn new(months: i64, days: i64, seconds: i64, nanos: i64) -> (made: Duration)
        ensures
            made.months == months,
            made.days == days,
            made.seconds == seconds,
            made.nanos == nanos,
    {
        Duration { months, days, seconds, nanos }
    }

    /// The months.
    pub fn months(&self) -> (r: i64)
        ensures
            r == self.months,
    {
        self.months
    }

    /// The days.
    pub fn days(&self) -> (r: i64)
        ensures
            r == self.days,
    {
        self.days
    }

    /// The seconds.
    pub fn seconds(&self) -> (r: i64)
        ensures
            r == self.seconds,
    {
        self.seconds
    }

    /// The nanoseconds beside the seconds.
    pub fn nanos(&self) -> (r: i64)
        ensures
            r == self.nanos,
    {
        self.nanos
    }

    /// The value, if it is of this kind.
    pub fn try_from(value: Value) -> (r: Result<Duration, Error>)
        ensures
            match value {
                Value::Duration(payload) => r matches Ok(given) && given == payload,
                _ => r matches Err(e) && e == Error::InvalidConversion,
            },
    {
        match value {
            Value::Duration(payload) => Ok(payload),
            _ => Err(Error::InvalidConversion),
        }
    }
}

impl Point2D {
    /// A value with the given parts.
    pub fn new(srid: i64, x: u64, y: u64) -> (made: Point2D)
        ensures
            made.srid == srid,
            made.x == x,
            made.y == y,
    {
        Point2D { srid, x, y }
    }

    /// The number of the coordinate system.
    pub fn srid(&self) -> (r: i64)
        ensures
            r == self.srid,
    {
        self.srid
    }

    /// The bit pattern of the first coordinate.
    pub fn x(&self) -> (r: u64)
        ensures
            r == self.x,
    {
        self.x
    }

    /// The bit pattern of the second coordinate.
    pub fn y(&self) -> (r: u64)
        ensures
            r == self.y,
    {
        self.y
    }

    /// The value, if it is of this kind.
    pub fn try_from(value: Value) -> (r: Result<Point2D, Error>)
        ensures
            match value {
                Value::Point2D(payload) => r matches Ok(given) && given == payload,
                _ => r matches Err(e) && e == Error::InvalidConversion,
            },
    {
        match value {
            Value::Point2D(payload) => Ok(payload),
            _ => Err(Error::InvalidConversion),
        }
    }
}

impl Point3D {
    /// A value with the given parts.
    pub fn new(srid: i64, x: u64, y: u64, z: u64) -> (made: Point3D)
        ensures
            made.srid == srid,
            made.x == x,
            made.y == y,
            made.z == z,
    {
        Point3D { srid, x, y, z }
    }

    /// The number of the coordinate system.
    pub fn srid(&self) -> (r: i64)
        ensures
            r == self.srid,
    {
        self.srid
    }

    /// The bit pattern of the first coordinate.
    pub fn x(&self) -> (r: u64)
        ensures
            r == self.x,
    {
        self.x
    }

    /// The bit pattern of the second coordinate.
    pub fn y(&self) -> (r: u64)
        ensures
            r == self.y,
    {
        self.y
    }

    /// The bit pattern of the third coordinate.
    pub fn z(&self) -> (r: u64)
        ensures
            r == self.z,
    {
        self.z
    }

    /// The value, if it is of this kind.
    pub fn try_from(value: Value) -> (r: Result<Point3D, Error>)
        ensures
            match value {
                Value::Point3D(payload) => r matches Ok(given) && given == payload,
                _ => r matches Err(e) && e == Error::InvalidConversion,
            },
    {
        match value {
            Value::Point3D(payload) => Ok(payload),
            _ => Err(Error::InvalidConversion),
        }
    }
}

impl Init {
    /// A value with the given parts.
    pub fn new(client_name: String, auth_token: Dictionary) -> (made: Init)
        ensures
            made.client_name == client_name,
            made.auth_token == auth_token,
    {
        Init { client_name, auth_token }
    }

    /// The name of the client.
    pub fn client_name(&self) -> (r: &str)
        ensures
            r@ == self.client_name@,
    {
        self.client_name.as_str()
    }

    /// The credentials.
    pub fn auth_token(&self) -> (r: &Dictionary)
        ensures
            *r == self.auth_token,
    {
        &self.auth_token
    }

    /// The payload of the message, if the message is of this kind.
    pub fn try_from(message: Message) -> (r: Result<Init, Error>)
        ensures
            match message {
                Message::Init(payload) => r matches Ok(given) && given == payload,
                _ => r matches Err(e) && e == Error::InvalidConversion,
            },
    {
        match message {
            Message::Init(payload) => Ok(payload),
            _ => Err(Error::InvalidConversion),
        }
    }
}

impl Hello {
    /// A value with the given parts.
    pub fn new(metadata: Dictionary) -> (made: Hello)
        ensures
            made.metadata == metadata,
    {
        Hello { metadata }
    }

    /// The metadata.
    pub fn metadata(&self) -> (r: &Dictionary)
        ensures
            *r == self.metadata,
    {
        &self.metadata
    }

    /// The payload of the message, if the message is of this kind.
    pub fn try_from(message: Message) -> (r: Result<Hello, Error>)
        ensures
            match message {
                Message::Hello(payload) => r matches Ok(given) && given == payload,
                _ => r matches Err(e) && e == Error::InvalidConversion,
            },
    {
        match message {
            Message::Hello(payload) => Ok(payload),
            _ => Err(Error::InvalidConversion),
        }
    }
}

impl Run {
    /// A value with the given parts.
    pub fn new(statement: String, parameters: Dictionary) -> (made: Run)
        ensures
            made.statement == statement,
            made.parameters == parameters,
    {
        Run { statement, parameters }
    }

    /// The statement.
    pub fn statement(&self) -> (r: &str)
        ensures
            r@ == self.statement@,
    {
        self.statement.as_str()
    }

    /// The parameters of the statement.
    pub fn parameters(&self) -> (r: &Dictionary)
        ensures
            *r == self.parameters,
    {
        &self.parameters
    }

    /// The payload of the message, if the message is of this kind.
    pub fn try_from(message: Message) -> (r: Result<Run, Error>)
        ensures
            match message {
                Message::Run(payload) => r matches Ok(given) && given == payload,
                _ => r matches Err(e) && e == Error::InvalidConversion,
            },
    {
        match message {
            Message::Run(payload) => Ok(payload),
            _ => Err(Error::InvalidConversion),
        }
    }
}

impl RunWithMetadata {
    /// A value with the given parts.
    pub fn new(
        statement: String,
        parameters: Dictionary,
        metadata: Dictionary,
    ) -> (made: RunWithMetadata)
        ensures
            made.statement == statement,
            made.parameters == parameters,
            made.metadata == metadata,
    {
        RunWithMetadata { statement, parameters, metadata }
    }

    /// The statement.
    pub fn statement(&self) -> (r: &str)
        ensures
            r@ == self.statement@,
    {
        self.statement.as_str()
    }

    /// The parameters of the statement.
    pub fn parameters(&self) -> (r: &Dictionary)
        ensures
            *r == self.parameters,
    {
        &self.parameters
    }

    /// The metadata.
    pub fn metadata(&self) -> (r: &Dictionary)
        ensures
            *r == self.metadata,
    {
        &self.metadata
    }

    /// The payload of the message, if the message is of this kind.
    pub fn try_from(message: Message) -> (r: Result<RunWithMetadata, Error>)
        ensures
            match message {
                Message::RunWithMetadata(payload) => r matches Ok(given) && given == payload,
                _ => r matches Err(e) && e == Error::InvalidConversion,
            },
    {
        match message {
            Message::RunWithMetadata(payload) => Ok(payload),
            _ => Err(Error::InvalidConversion),
        }
    }
}

impl Pull {
    /// A value with the given parts.
    pub fn new(metadata: Dictionary) -> (made: Pull)
        ensures
            made.metadata == metadata,
    {
        Pull { metadata }
    }

    /// The metadata.
    pub fn metadata(&self) -> (r: &Dictionary)
        ensures
            *r == self.metadata,
    {
        &self.metadata
    }

    /// The payload of the message, if the message is of this kind.
    pub fn try_from(message: Message) -> (r: Result<Pull, Error>)
        ensures
            match message {
                Message::Pull(payload) => r matches Ok(given) && given == payload,
                _ => r matches Err(e) && e == Error::InvalidConversion,
            },
    {
        match message {
            Message::Pull(payload) => Ok(payload),
            _ => Err(Error::InvalidConversion),
        }
    }
}

impl Discard {
    /// A value with the given parts.
    pub fn new(metadata: Dictionary) -> (made: Discard)
        ensures
            made.metadata == metadata,
    {
        Discard { metadata }
    }

    /// The metadata.
    pub fn metadata(&self) -> (r: &Dictionary)
        ensures
            *r == self.metadata,
    {
        &self.metadata
    }

    /// The payload of the message, if the message is of this kind.
    pub fn try_from(message: Message) -> (r: Result<Discard, Error>)
        ensures
            match message {
                Message::Discard(payload) => r matches Ok(given) && given == payload,
                _ => r matches Err(e) && e == Error::InvalidConversion,
            },
    {
        match message {
            Message::Discard(payload) => Ok(payload),
            _ => Err(Error::InvalidConversion),
        }
    }
}

impl Begin {
    /// A value with the given parts.
    pub fn new(metadata: Dictionary) -> (made: Begin)
        ensures
            made.metadata == metadata,
    {
        Begin { metadata }
    }

    /// The metadata.
    pub fn metadata(&self) -> (r: &Dictionary)
        ensures
            *r == self.metadata,
    {
        &self.metadata
    }

    /// The payload of the message, if the message is of this kind.
    pub fn try_from(message: Message) -> (r: Result<Begin, Error>)
        ensures
            match message {
                Message::Begin(payload) => r matches Ok(given) && given == payload,
                _ => r matches Err(e) && e == Error::InvalidConversion,
            },
    {
        match message {
            Message::Begin(payload) => Ok(payload),
            _ => Err(Error::InvalidConversion),
        }
    }
}

impl Success {
    /// A value with the given parts.
    pub fn new(metadata: Dictionary) -> (made: Success)
        ensures
            made.metadata == metadata,
    {
        Success { metadata }
    }

    /// The metadata.
    pub fn metadata(&self) -> (r: &Dictionary)
        ensures
            *r == self.metadata,
    {
        &self.metadata
    }

    /// The payload of the message, if the message is of this kind.
    pub fn try_from(message: Message) -> (r: Result<Success, Error>)
        ensures
            match message {
                Message::Success(payload) => r matches Ok(given) && given == payload,
                _ => r matches Err(e) && e == Error::InvalidConversion,
            },
    {
        match message {
            Message::Success(payload) => Ok(payload),
            _ => Err(Error::InvalidConversion),
        }
    }
}

impl Failure {
    /// A value with the given parts.
    pub fn new(metadata: Dictionary) -> (made: Failure)
        ensures
            made.metadata == metadata,
    {
        Failure { metadata }
    }

    /// The metadata.
    pub fn metadata(&self) -> (r: &Dictionary)
        ensures
            *r == self.metadata,
    {
        &self.metadata
    }

    /// The payload of the message, if the message is of this kind.
    pub fn try_from(message: Message) -> (r: Result<Failure, Error>)
        ensures
            match message {
                Message::Failure(payload) => r matches Ok(given) && given == payload,
                _ => r matches Err(e) && e == Error::InvalidConversion,
            },
    {
        match message {
            Message::Failure(payload) => Ok(payload),
            _ => Err(Error::InvalidConversion),
        }
    }
}

impl Record {
    /// A value with the given parts.
    pub fn new(fields: Vec<Value>) -> (made: Record)
        ensures
            made.fields == fields,
    {
        Record { fields }
    }

    /// The fields of the record.
    pub fn fields(&self) -> (r: &[Value])
        ensures
            r@ == self.fields@,
    {
        self.fields.as_slice()
    }

    /// The payload of the message, if the message is of this kind.
    pub fn try_from(message: Message) -> (r: Result<Record, Error>)
        ensures
            match message {
                Message::Record(payload) => r matches Ok(given) && given == payload,
                _ => r matches Err(e) && e == Error::InvalidConversion,
            },
    {
        match message {
            Message::Record(payload) => Ok(payload),
            _ => Err(Error::InvalidConversion),
        }
    }
}

/// The metadata that ask for `n` records; -1 asks for all of them.
pub fn record_count(n: i64) -> (metadata: Dictionary)
    ensures
        metadata@ == seq![("n"@, Term::Integer(n))],
{
    let mut metadata = Dictionary::new();
    proof {
        lemma_insert_new(metadata@, "n"@, Term::Integer(n));
    }
    metadata.insert(String::from_str("n"), Value::Integer(n));
    assert(metadata@ =~= seq![("n"@, Term::Integer(n))]);
    metadata
}

impl Pull {
    /// A request for `n` records; -1 asks for all of them.
    pub fn records(n: i64) -> (made: Pull)
        ensures
            made.metadata@ == seq![("n"@, Term::Integer(n))],
    {
        Pull { metadata: record_count(n) }
    }
}

impl Discard {
    /// A request to drop `n` records; -1 drops all of them.
    pub fn records(n: i64) -> (made: Discard)
        ensures
            made.metadata@ == seq![("n"@, Term::Integer(n))],
    {
        Discard { metadata: record_count(n) }
    }
}

} // verus!
