use crate::message::{
    Begin, Discard, Failure, Hello, Init, Message, Pull, Record, Run, RunWithMetadata, Success,
};
use crate::value::{
    entries_view, nodes_view, strings_view, unbound_relationships_view, value_view, values_view,
    DateTimeZoneId, Dictionary, Node, Path, Relationship, UnboundRelationship, Value,
};
use vstd::prelude::*;
use vstd::slice::slice_to_vec;

verus! {

/// A copy of strings.
pub fn copy_strings(items: &Vec<String>) -> (copy: Vec<String>)
    ensures
        strings_view(copy@) == strings_view(items@),
{
    let mut copy: Vec<String> = Vec::new();
    let mut i: usize = 0;
    while i < items.len()
        invariant
            i <= items@.len(),
            copy@.len() == i,
            forall|j: int| 0 <= j < i ==> (#[trigger] copy@[j])@ == items@[j]@,
        decreases items@.len() - i,
    {
        copy.push(items[i].clone());
        i += 1;
    }
    assert(strings_view(copy@) =~= strings_view(items@));
    copy
}

/// A copy of a value.
pub fn copy_value(v: &Value) -> (copy: Value)
    ensures
        copy@ == v@,
    decreases v,
{
    match v {
        Value::Null => Value::Null,
        Value::Boolean(b) => Value::Boolean(*b),
        Value::Integer(i) => Value::Integer(*i),
        Value::Float(f) => Value::Float(*f),
        Value::Bytes(b) => Value::Bytes(slice_to_vec(b.as_slice())),
        Value::String(s) => Value::String(s.clone()),
        Value::List(items) => Value::List(copy_values(items)),
        Value::Dictionary(d) => Value::Dictionary(copy_dictionary(d)),
        Value::Node(n) => Value::Node(copy_node(n)),
        Value::Relationship(r) => Value::Relationship(copy_relationship(r)),
        Value::UnboundRelationship(r) => Value::UnboundRelationship(copy_unbound_relationship(r)),
        Value::Path(p) => Value::Path(copy_path(p)),
        Value::Date(d) => Value::Date(*d),
        Value::Time(t) => Value::Time(*t),
        Value::LocalTime(t) => Value::LocalTime(*t),
        Value::DateTimeOffset(t) => Value::DateTimeOffset(*t),
        Value::DateTimeZoneId(t) => Value::DateTimeZoneId(
            DateTimeZoneId {
                epoch_seconds: t.epoch_seconds,
                nanos: t.nanos,
                zone_id: t.zone_id.clone(),
            },
        ),
        Value::LocalDateTime(t) => Value::LocalDateTime(*t),
        Value::Duration(d) => Value::Duration(*d),
        Value::Point2D(p) => Value::Point2D(*p),
        Value::Point3D(p) => Value::Point3D(*p),
    }
}

/// A copy of values.
pub fn copy_values(items: &Vec<Value>) -> (copy: Vec<Value>)
    ensures
        values_view(copy@) == values_view(items@),
    decreases items,
{
    let mut copy: Vec<Value> = Vec::new();
    let mut i: usize = 0;
    while i < items.len()
        invariant
            i <= items@.len(),
            copy@.len() == i,
            forall|j: int| 0 <= j < i ==> value_view(#[trigger] copy@[j]) == value_view(items@[j]),
        decreases items@.len() - i,
    {
        copy.push(copy_value(&items[i]));
        i += 1;
    }
    assert(values_view(copy@) =~= values_view(items@));
    copy
}

/// A copy of a dictionary.
pub fn copy_dictionary(d: &Dictionary) -> (copy: Dictionary)
    ensures
        copy@ == d@,
    decreases d,
{
    let mut entries: Vec<(String, Value)> = Vec::new();
    let mut i: usize = 0;
    while i < d.entries.len()
        invariant
            i <= d.entries@.len(),
            entries@.len() == i,
            forall|j: int|
                0 <= j < i ==> (#[trigger] entries@[j]).0@ == d.entries@[j].0@ && value_view(
                    entries@[j].1,
                ) == value_view(d.entries@[j].1),
        decreases d.entries@.len() - i,
    {
        let entry = &d.entries[i];
        entries.push((entry.0.clone(), copy_value(&entry.1)));
        i += 1;
    }
    assert(entries_view(entries@) =~= entries_view(d.entries@));
    Dictionary { entries }
}

/// A copy of a node.
pub fn copy_node(n: &Node) -> (copy: Node)
    ensures
        copy@ == n@,
    decreases n,
{
    Node {
        node_identity: n.node_identity,
        labels: copy_strings(&n.labels),
        properties: copy_dictionary(&n.properties),
    }
}

/// A copy of a relationship.
pub fn copy_relationship(r: &Relationship) -> (copy: Relationship)
    ensures
        copy@ == r@,
    decreases r,
{
    Relationship {
        rel_identity: r.rel_identity,
        start_node_identity: r.start_node_identity,
        end_node_identity: r.end_node_identity,
        rel_type: r.rel_type.clone(),
        properties: copy_dictionary(&r.properties),
    }
}

/// A copy of an unbound relationship.
pub fn copy_unbound_relationship(r: &UnboundRelationship) -> (copy: UnboundRelationship)
    ensures
        copy@ == r@,
    decreases r,
{
    UnboundRelationship {
        rel_identity: r.rel_identity,
        rel_type: r.rel_type.clone(),
        properties: copy_dictionary(&r.properties),
    }
}

/// A copy of a path.
pub fn copy_path(p: &Path) -> (copy: Path)
    ensures
        copy@ == p@,
    decreases p,
{
    let mut nodes: Vec<Node> = Vec::new();
    let mut i: usize = 0;
    while i < p.nodes.len()
        invariant
            i <= p.nodes@.len(),
            nodes@.len() == i,
            forall|j: int| 0 <= j < i ==> (#[trigger] nodes@[j])@ == p.nodes@[j]@,
        decreases p.nodes@.len() - i,
    {
        nodes.push(copy_node(&p.nodes[i]));
        i += 1;
    }
    let mut relationships: Vec<UnboundRelationship> = Vec::new();
    let mut k: usize = 0;
    while k < p.relationships.len()
        invariant
            k <= p.relationships@.len(),
            relationships@.len() == k,
            forall|j: int|
                0 <= j < k ==> (#[trigger] relationships@[j])@ == p.relationships@[j]@,
        decreases p.relationships@.len() - k,
    {
        relationships.push(copy_unbound_relationship(&p.relationships[k]));
        k += 1;
    }
    assert(nodes_view(nodes@) =~= nodes_view(p.nodes@));
    assert(unbound_relationships_view(relationships@) =~= unbound_relationships_view(
        p.relationships@,
    ));
    Path { nodes, relationships, sequence: slice_to_vec(p.sequence.as_slice()) }
}

/// A copy of a message.
pub fn copy_message(m: &Message) -> (copy: Message)
    ensures
        copy@ == m@,
{
    match m {
        Message::Init(x) => Message::Init(
            Init { client_name: x.client_name.clone(), auth_token: copy_dictionary(&x.auth_token) },
        ),
        Message::Hello(x) => Message::Hello(Hello { metadata: copy_dictionary(&x.metadata) }),
        Message::Run(x) => Message::Run(
            Run { statement: x.statement.clone(), parameters: copy_dictionary(&x.parameters) },
        ),
        Message::RunWithMetadata(x) => Message::RunWithMetadata(
            RunWithMetadata {
                statement: x.statement.clone(),
                parameters: copy_dictionary(&x.parameters),
                metadata: copy_dictionary(&x.metadata),
            },
        ),
        Message::PullAll => Message::PullAll,
        Message::Pull(x) => Message::Pull(Pull { metadata: copy_dictionary(&x.metadata) }),
        Message::DiscardAll => Message::DiscardAll,
        Message::Discard(x) => Message::Discard(Discard { metadata: copy_dictionary(&x.metadata) }),
        Message::AckFailure => Message::AckFailure,
        Message::Reset => Message::Reset,
        Message::Goodbye => Message::Goodbye,
        Message::Begin(x) => Message::Begin(Begin { metadata: copy_dictionary(&x.metadata) }),
        Message::Commit => Message::Commit,
        Message::Rollback => Message::Rollback,
        Message::Success(x) => Message::Success(Success { metadata: copy_dictionary(&x.metadata) }),
        Message::Failure(x) => Message::Failure(Failure { metadata: copy_dictionary(&x.metadata) }),
        Message::Ignored => Message::Ignored,
        Message::Record(x) => Message::Record(Record { fields: copy_values(&x.fields) }),
    }
}

impl Clone for Value {
    fn clone(&self) -> (copy: Self)
        ensures
            copy@ == self@,
    {
        copy_value(self)
    }
}

impl Clone for Dictionary {
    fn clone(&self) -> (copy: Self)
        ensures
            copy@ == self@,
    {
        copy_dictionary(self)
    }
}

impl Clone for Node {
    fn clone(&self) -> (copy: Self)
        ensures
            copy@ == self@,
    {
        copy_node(self)
    }
}

impl Clone for UnboundRelationship {
    fn clone(&self) -> (copy: Self)
        ensures
            copy@ == self@,
    {
        copy_unbound_relationship(self)
    }
}

impl Clone for Path {
    fn clone(&self) -> (copy: Self)
        ensures
            copy@ == self@,
    {
        copy_path(self)
    }
}

impl Clone for Message {
    fn clone(&self) -> (copy: Self)
        ensures
            copy@ == self@,
    {
        copy_message(self)
    }
}

impl Clone for Relationship {
    fn clone(&self) -> (copy: Self)
        ensures
            copy@ == self@,
    {
        copy_relationship(self)
    }
}

impl Clone for DateTimeZoneId {
    fn clone(&self) -> (copy: Self)
        ensures
            copy.epoch_seconds == self.epoch_seconds,
            copy.nanos == self.nanos,
            copy.zone_id@ == self.zone_id@,
    {
        DateTimeZoneId {
            epoch_seconds: self.epoch_seconds,
            nanos: self.nanos,
            zone_id: self.zone_id.clone(),
        }
    }
}

impl Clone for Success {
    fn clone(&self) -> (copy: Self)
        ensures
            copy.metadata@ == self.metadata@,
    {
        Success { metadata: copy_dictionary(&self.metadata) }
    }
}

impl Clone for Failure {
    fn clone(&self) -> (copy: Self)
        ensures
            copy.metadata@ == self.metadata@,
    {
        Failure { metadata: copy_dictionary(&self.metadata) }
    }
}

impl Clone for Record {
    fn clone(&self) -> (copy: Self)
        ensures
            values_view(copy.fields@) == values_view(self.fields@),
    {
        Record { fields: copy_values(&self.fields) }
    }
}

} // verus!
