use crate::catalog::value_fields_conform;
use crate::fields::{
    integers_from, into_dictionary, into_float, into_integer, into_list, into_string, nodes_from,
    strings_from, take_value, unbound_relationships_from,
};
use crate::error::Error;
use crate::term::Term;
use crate::value::{
    integers_view, nodes_view, strings_view, unbound_relationships_view, values_view, Date,
    DateTimeOffset, DateTimeZoneId, Dictionary, Duration, LocalDateTime, LocalTime, Node, Path,
    Point2D, Point3D, Relationship, Time, UnboundRelationship, Value, SIGNATURE_DATE,
    SIGNATURE_DATE_TIME_OFFSET, SIGNATURE_DATE_TIME_ZONE_ID, SIGNATURE_DURATION,
    SIGNATURE_LOCAL_DATE_TIME, SIGNATURE_LOCAL_TIME, SIGNATURE_NODE, SIGNATURE_PATH,
    SIGNATURE_POINT_2D, SIGNATURE_POINT_3D, SIGNATURE_RELATIONSHIP, SIGNATURE_TIME,
    SIGNATURE_UNBOUND_RELATIONSHIP,
};
use vstd::prelude::*;

verus! {

/// A node from the fields of its structure. The fields are refused where
/// their number or their kinds are not those that the catalog declares.
pub fn build_node(fields: Vec<Value>) -> (r: Result<Value, Error>)
    ensures
        value_fields_conform(SIGNATURE_NODE, values_view(fields@)) ==> (r matches Ok(v) && v@
            == Term::Structure(SIGNATURE_NODE, values_view(fields@))),
        !value_fields_conform(SIGNATURE_NODE, values_view(fields@)) ==> (r matches Err(e) && e
            == Error::InvalidStructure),
{
    let ghost terms = values_view(fields@);
    let mut rest = fields;
    if rest.len() != 3 {
        return Err(Error::InvalidStructure);
    }
    let f0 = take_value(&mut rest, 0);
    let f1 = take_value(&mut rest, 1);
    let f2 = take_value(&mut rest, 2);
    proof {
        assert(f0@ == terms[0]);
        assert(f1@ == terms[1]);
        assert(f2@ == terms[2]);
    }
    let node_identity: i64 = match into_integer(f0) {
        Some(x) => x,
        None => {
            return Err(Error::InvalidStructure);
        },
    };
    let list1: Vec<Value> = match into_list(f1) {
        Some(x) => x,
        None => {
            return Err(Error::InvalidStructure);
        },
    };
    let labels: Vec<String> = match strings_from(list1) {
        Some(x) => x,
        None => {
            return Err(Error::InvalidStructure);
        },
    };
    let properties: Dictionary = match into_dictionary(f2) {
        Some(x) => x,
        None => {
            return Err(Error::InvalidStructure);
        },
    };
    let v = Value::Node(Node { node_identity, labels, properties });
    assert(seq![
        Term::Integer(node_identity),
        Term::List(strings_view(labels@)),
        Term::Dictionary(properties@),
    ] =~= terms);
    Ok(v)
}

/// A relationship from the fields of its structure. The fields are refused where
/// their number or their kinds are not those that the catalog declares.
pub fn build_relationship(fields: Vec<Value>) -> (r: Result<Value, Error>)
    ensures
        value_fields_conform(SIGNATURE_RELATIONSHIP, values_view(fields@))
            ==> (r matches Ok(v) && v@
            == Term::Structure(SIGNATURE_RELATIONSHIP, values_view(fields@))),
        !value_fields_conform(SIGNATURE_RELATIONSHIP, values_view(fields@))
            ==> (r matches Err(e) && e
            == Error::InvalidStructure),
{
    let ghost terms = values_view(fields@);
    let mut rest = fields;
    if rest.len() != 5 {
        return Err(Error::InvalidStructure);
    }
    let f0 = take_value(&mut rest, 0);
    let f1 = take_value(&mut rest, 1);
    let f2 = take_value(&mut rest, 2);
    let f3 = take_value(&mut rest, 3);
    let f4 = take_value(&mut rest, 4);
    proof {
        assert(f0@ == terms[0]);
        assert(f1@ == terms[1]);
        assert(f2@ == terms[2]);
        assert(f3@ == terms[3]);
        assert(f4@ == terms[4]);
    }
    let rel_identity: i64 = match into_integer(f0) {
        Some(x) => x,
        None => {
            return Err(Error::InvalidStructure);
        },
    };
    let start_node_identity: i64 = match into_integer(f1) {
        Some(x) => x,
        None => {
            return Err(Error::InvalidStructure);
        },
    };
    let end_node_identity: i64 = match into_integer(f2) {
        Some(x) => x,
        None => {
            return Err(Error::InvalidStructure);
        },
    };
    let rel_type: String = match into_string(f3) {
        Some(x) => x,
        None => {
            return Err(Error::InvalidStructure);
        },
    };
    let properties: Dictionary = match into_dictionary(f4) {
        Some(x) => x,
        None => {
            return Err(Error::InvalidStructure);
        },
    };
    let v = Value::Relationship(Relationship {
        rel_identity,
        start_node_identity,
        end_node_identity,
        rel_type,
        properties,
    });
    assert(seq![
        Term::Integer(rel_identity),
        Term::Integer(start_node_identity),
        Term::Integer(end_node_identity),
        Term::String(rel_type@),
        Term::Dictionary(properties@),
    ] =~= terms);
    Ok(v)
}

/// An unbound relationship from the fields of its structure. The fields are refused where
/// their number or their kinds are not those that the catalog declares.
pub fn build_unbound_relationship(fields: Vec<Value>) -> (r: Result<Value, Error>)
    ensures
        value_fields_conform(SIGNATURE_UNBOUND_RELATIONSHIP, values_view(fields@))
            ==> (r matches Ok(v) && v@
            == Term::Structure(SIGNATURE_UNBOUND_RELATIONSHIP, values_view(fields@))),
        !value_fields_conform(SIGNATURE_UNBOUND_RELATIONSHIP, values_view(fields@))
            ==> (r matches Err(e) && e
            == Error::InvalidStructure),
{
    let ghost terms = values_view(fields@);
    let mut rest = fields;
    if rest.len() != 3 {
        return Err(Error::InvalidStructure);
    }
    let f0 = take_value(&mut rest, 0);
    let f1 = take_value(&mut rest, 1);
    let f2 = take_value(&mut rest, 2);
    proof {
        assert(f0@ == terms[0]);
        assert(f1@ == terms[1]);
        assert(f2@ == terms[2]);
    }
    let rel_identity: i64 = match into_integer(f0) {
        Some(x) => x,
        None => {
            return Err(Error::InvalidStructure);
        },
    };
    let rel_type: String = match into_string(f1) {
        Some(x) => x,
        None => {
            return Err(Error::InvalidStructure);
        },
    };
    let properties: Dictionary = match into_dictionary(f2) {
        Some(x) => x,
        None => {
            return Err(Error::InvalidStructure);
        },
    };
    let v = Value::UnboundRelationship(UnboundRelationship { rel_identity, rel_type, properties });
    assert(seq![
        Term::Integer(rel_identity),
        Term::String(rel_type@),
        Term::Dictionary(properties@),
    ] =~= terms);
    Ok(v)
}

/// A path from the fields of its structure. The fields are refused where
/// their number or their kinds are not those that the catalog declares.
pub fn build_path(fields: Vec<Value>) -> (r: Result<Value, Error>)
    ensures
        value_fields_conform(SIGNATURE_PATH, values_view(fields@)) ==> (r matches Ok(v) && v@
            == Term::Structure(SIGNATURE_PATH, values_view(fields@))),
        !value_fields_conform(SIGNATURE_PATH, values_view(fields@)) ==> (r matches Err(e) && e
            == Error::InvalidStructure),
{
    let ghost terms = values_view(fields@);
    let mut rest = fields;
    if rest.len() != 3 {
        return Err(Error::InvalidStructure);
    }
    let f0 = take_value(&mut rest, 0);
    let f1 = take_value(&mut rest, 1);
    let f2 = take_value(&mut rest, 2);
    proof {
        assert(f0@ == terms[0]);
        assert(f1@ == terms[1]);
        assert(f2@ == terms[2]);
    }
    let list0: Vec<Value> = match into_list(f0) {
        Some(x) => x,
        None => {
            return Err(Error::InvalidStructure);
        },
    };
    let nodes: Vec<Node> = match nodes_from(list0) {
        Some(x) => x,
        None => {
            return Err(Error::InvalidStructure);
        },
    };
    let list1: Vec<Value> = match into_list(f1) {
        Some(x) => x,
        None => {
            return Err(Error::InvalidStructure);
        },
    };
    let relationships: Vec<UnboundRelationship> = match unbound_relationships_from(list1) {
        Some(x) => x,
        None => {
            return Err(Error::InvalidStructure);
        },
    };
    let list2: Vec<Value> = match into_list(f2) {
        Some(x) => x,
        None => {
            return Err(Error::InvalidStructure);
        },
    };
    let sequence: Vec<i64> = match integers_from(list2) {
        Some(x) => x,
        None => {
            return Err(Error::InvalidStructure);
        },
    };
    let v = Value::Path(Path { nodes, relationships, sequence });
    assert(seq![
        Term::List(nodes_view(nodes@)),
        Term::List(unbound_relationships_view(relationships@)),
        Term::List(integers_view(sequence@)),
    ] =~= terms);
    Ok(v)
}

/// A date from the fields of its structure. The fields are refused where
/// their number or their kinds are not those that the catalog declares.
pub fn build_date(fields: Vec<Value>) -> (r: Result<Value, Error>)
    ensures
        value_fields_conform(SIGNATURE_DATE, values_view(fields@)) ==> (r matches Ok(v) && v@
            == Term::Structure(SIGNATURE_DATE, values_view(fields@))),
        !value_fields_conform(SIGNATURE_DATE, values_view(fields@)) ==> (r matches Err(e) && e
            == Error::InvalidStructure),
{
    let ghost terms = values_view(fields@);
    let mut rest = fields;
    if rest.len() != 1 {
        return Err(Error::InvalidStructure);
    }
    let f0 = take_value(&mut rest, 0);
    proof {
        assert(f0@ == terms[0]);
    }
    let days_since_epoch: i64 = match into_integer(f0) {
        Some(x) => x,
        None => {
            return Err(Error::InvalidStructure);
        },
    };
    let v = Value::Date(Date { days_since_epoch });
    assert(seq![Term::Integer(days_since_epoch)] =~= terms);
    Ok(v)
}

/// A time of day with its zone offset from the fields of its structure. The fields are refused
/// where
/// their number or their kinds are not those that the catalog declares.
pub fn build_time(fields: Vec<Value>) -> (r: Result<Value, Error>)
    ensures
        value_fields_conform(SIGNATURE_TIME, values_view(fields@)) ==> (r matches Ok(v) && v@
            == Term::Structure(SIGNATURE_TIME, values_view(fields@))),
        !value_fields_conform(SIGNATURE_TIME, values_view(fields@)) ==> (r matches Err(e) && e
            == Error::InvalidStructure),
{
    let ghost terms = values_view(fields@);
    let mut rest = fields;
    if rest.len() != 2 {
        return Err(Error::InvalidStructure);
    }
    let f0 = take_value(&mut rest, 0);
    let f1 = take_value(&mut rest, 1);
    proof {
        assert(f0@ == terms[0]);
        assert(f1@ == terms[1]);
    }
    let nanos_since_midnight: i64 = match into_integer(f0) {
        Some(x) => x,
        None => {
            return Err(Error::InvalidStructure);
        },
    };
    let zone_offset: i64 = match into_integer(f1) {
        Some(x) => x,
        None => {
            return Err(Error::InvalidStructure);
        },
    };
    let v = Value::Time(Time { nanos_since_midnight, zone_offset });
    assert(seq![Term::Integer(nanos_since_midnight), Term::Integer(zone_offset)] =~= terms);
    Ok(v)
}

/// A time of day from the fields of its structure. The fields are refused where
/// their number or their kinds are not those that the catalog declares.
pub fn build_local_time(fields: Vec<Value>) -> (r: Result<Value, Error>)
    ensures
        value_fields_conform(SIGNATURE_LOCAL_TIME, values_view(fields@)) ==> (r matches Ok(v) && v@
            == Term::Structure(SIGNATURE_LOCAL_TIME, values_view(fields@))),
        !value_fields_conform(SIGNATURE_LOCAL_TIME, values_view(fields@)) ==> (r matches Err(e) && e
            == Error::InvalidStructure),
{
    let ghost terms = values_view(fields@);
    let mut rest = fields;
    if rest.len() != 1 {
        return Err(Error::InvalidStructure);
    }
    let f0 = take_value(&mut rest, 0);
    proof {
        assert(f0@ == terms[0]);
    }
    let nanos_since_midnight: i64 = match into_integer(f0) {
        Some(x) => x,
        None => {
            return Err(Error::InvalidStructure);
        },
    };
    let v = Value::LocalTime(LocalTime { nanos_since_midnight });
    assert(seq![Term::Integer(nanos_since_midnight)] =~= terms);
    Ok(v)
}

/// A date and time with a zone offset from the fields of its structure. The fields are refused
/// where
/// their number or their kinds are not those that the catalog declares.
pub fn build_date_time_offset(fields: Vec<Value>) -> (r: Result<Value, Error>)
    ensures
        value_fields_conform(SIGNATURE_DATE_TIME_OFFSET, values_view(fields@))
            ==> (r matches Ok(v) && v@
            == Term::Structure(SIGNATURE_DATE_TIME_OFFSET, values_view(fields@))),
        !value_fields_conform(SIGNATURE_DATE_TIME_OFFSET, values_view(fields@))
            ==> (r matches Err(e) && e
            == Error::InvalidStructure),
{
    let ghost terms = values_view(fields@);
    let mut rest = fields;
    if rest.len() != 3 {
        return Err(Error::InvalidStructure);
    }
    let f0 = take_value(&mut rest, 0);
    let f1 = take_value(&mut rest, 1);
    let f2 = take_value(&mut rest, 2);
    proof {
        assert(f0@ == terms[0]);
        assert(f1@ == terms[1]);
        assert(f2@ == terms[2]);
    }
    let epoch_seconds: i64 = match into_integer(f0) {
        Some(x) => x,
        None => {
            return Err(Error::InvalidStructure);
        },
    };
    let nanos: i64 = match into_integer(f1) {
        Some(x) => x,
        None => {
            return Err(Error::InvalidStructure);
        },
    };
    let offset_seconds: i64 = match into_integer(f2) {
        Some(x) => x,
        None => {
            return Err(Error::InvalidStructure);
        },
    };
    let v = Value::DateTimeOffset(DateTimeOffset { epoch_seconds, nanos, offset_seconds });
    assert(seq![
        Term::Integer(epoch_seconds),
        Term::Integer(nanos),
        Term::Integer(offset_seconds),
    ] =~= terms);
    Ok(v)
}

/// A date and time with a named zone from the fields of its structure. The fields are refused where
/// their number or their kinds are not those that the catalog declares.
pub fn build_date_time_zone_id(fields: Vec<Value>) -> (r: Result<Value, Error>)
    ensures
        value_fields_conform(SIGNATURE_DATE_TIME_ZONE_ID, values_view(fields@))
            ==> (r matches Ok(v) && v@
            == Term::Structure(SIGNATURE_DATE_TIME_ZONE_ID, values_view(fields@))),
        !value_fields_conform(SIGNATURE_DATE_TIME_ZONE_ID, values_view(fields@))
            ==> (r matches Err(e) && e
            == Error::InvalidStructure),
{
    let ghost terms = values_view(fields@);
    let mut rest = fields;
    if rest.len() != 3 {
        return Err(Error::InvalidStructure);
    }
    let f0 = take_value(&mut rest, 0);
    let f1 = take_value(&mut rest, 1);
    let f2 = take_value(&mut rest, 2);
    proof {
        assert(f0@ == terms[0]);
        assert(f1@ == terms[1]);
        assert(f2@ == terms[2]);
    }
    let epoch_seconds: i64 = match into_integer(f0) {
        Some(x) => x,
        None => {
            return Err(Error::InvalidStructure);
        },
    };
    let nanos: i64 = match into_integer(f1) {
        Some(x) => x,
        None => {
            return Err(Error::InvalidStructure);
        },
    };
    let zone_id: String = match into_string(f2) {
        Some(x) => x,
        None => {
            return Err(Error::InvalidStructure);
        },
    };
    let v = Value::DateTimeZoneId(DateTimeZoneId { epoch_seconds, nanos, zone_id });
    assert(seq![
        Term::Integer(epoch_seconds),
        Term::Integer(nanos),
        Term::String(zone_id@),
    ] =~= terms);
    Ok(v)
}

/// A date and time from the fields of its structure. The fields are refused where
/// their number or their kinds are not those that the catalog declares.
pub fn build_local_date_time(fields: Vec<Value>) -> (r: Result<Value, Error>)
    ensures
        value_fields_conform(SIGNATURE_LOCAL_DATE_TIME, values_view(fields@))
            ==> (r matches Ok(v) && v@
            == Term::Structure(SIGNATURE_LOCAL_DATE_TIME, values_view(fields@))),
        !value_fields_conform(SIGNATURE_LOCAL_DATE_TIME, values_view(fields@))
            ==> (r matches Err(e) && e
            == Error::InvalidStructure),
{
    let ghost terms = values_view(fields@);
    let mut rest = fields;
    if rest.len() != 2 {
        return Err(Error::InvalidStructure);
    }
    let f0 = take_value(&mut rest, 0);
    let f1 = take_value(&mut rest, 1);
    proof {
        assert(f0@ == terms[0]);
        assert(f1@ == terms[1]);
    }
    let epoch_seconds: i64 = match into_integer(f0) {
        Some(x) => x,
        None => {
            return Err(Error::InvalidStructure);
        },
    };
    let nanos: i64 = match into_integer(f1) {
        Some(x) => x,
        None => {
            return Err(Error::InvalidStructure);
        },
    };
    let v = Value::LocalDateTime(LocalDateTime { epoch_seconds, nanos });
    assert(seq![Term::Integer(epoch_seconds), Term::Integer(nanos)] =~= terms);
    Ok(v)
}

/// A duration from the fields of its structure. The fields are refused where
/// their number or their kinds are not those that the catalog declares.
pub fn build_duration(fields: Vec<Value>) -> (r: Result<Value, Error>)
    ensures
        value_fields_conform(SIGNATURE_DURATION, values_view(fields@)) ==> (r matches Ok(v) && v@
            == Term::Structure(SIGNATURE_DURATION, values_view(fields@))),
        !value_fields_conform(SIGNATURE_DURATION, values_view(fields@)) ==> (r matches Err(e) && e
            == Error::InvalidStructure),
{
    let ghost terms = values_view(fields@);
    let mut rest = fields;
    if rest.len() != 4 {
        return Err(Error::InvalidStructure);
    }
    let f0 = take_value(&mut rest, 0);
    let f1 = take_value(&mut rest, 1);
    let f2 = take_value(&mut rest, 2);
    let f3 = take_value(&mut rest, 3);
    proof {
        assert(f0@ == terms[0]);
        assert(f1@ == terms[1]);
        assert(f2@ == terms[2]);
        assert(f3@ == terms[3]);
    }
    let months: i64 = match into_integer(f0) {
        Some(x) => x,
        None => {
            return Err(Error::InvalidStructure);
        },
    };
    let days: i64 = match into_integer(f1) {
        Some(x) => x,
        None => {
            return Err(Error::InvalidStructure);
        },
    };
    let seconds: i64 = match into_integer(f2) {
        Some(x) => x,
        None => {
            return Err(Error::InvalidStructure);
        },
    };
    let nanos: i64 = match into_integer(f3) {
        Some(x) => x,
        None => {
            return Err(Error::InvalidStructure);
        },
    };
    let v = Value::Duration(Duration { months, days, seconds, nanos });
    assert(seq![
        Term::Integer(months),
        Term::Integer(days),
        Term::Integer(seconds),
        Term::Integer(nanos),
    ] =~= terms);
    Ok(v)
}

/// A point in the plane from the fields of its structure. The fields are refused where
/// their number or their kinds are not those that the catalog declares.
pub fn build_point_2d(fields: Vec<Value>) -> (r: Result<Value, Error>)
    ensures
        value_fields_conform(SIGNATURE_POINT_2D, values_view(fields@)) ==> (r matches Ok(v) && v@
            == Term::Structure(SIGNATURE_POINT_2D, values_view(fields@))),
        !value_fields_conform(SIGNATURE_POINT_2D, values_view(fields@)) ==> (r matches Err(e) && e
            == Error::InvalidStructure),
{
    let ghost terms = values_view(fields@);
    let mut rest = fields;
    if rest.len() != 3 {
        return Err(Error::InvalidStructure);
    }
    let f0 = take_value(&mut rest, 0);
    let f1 = take_value(&mut rest, 1);
    let f2 = take_value(&mut rest, 2);
    proof {
        assert(f0@ == terms[0]);
        assert(f1@ == terms[1]);
        assert(f2@ == terms[2]);
    }
    let srid: i64 = match into_integer(f0) {
        Some(x) => x,
        None => {
            return Err(Error::InvalidStructure);
        },
    };
    let x: u64 = match into_float(f1) {
        Some(x) => x,
        None => {
            return Err(Error::InvalidStructure);
        },
    };
    let y: u64 = match into_float(f2) {
        Some(x) => x,
        None => {
            return Err(Error::InvalidStructure);
        },
    };
    let v = Value::Point2D(Point2D { srid, x, y });
    assert(seq![Term::Integer(srid), Term::Float(x), Term::Float(y)] =~= terms);
    Ok(v)
}

/// A point in space from the fields of its structure. The fields are refused where
/// their number or their kinds are not those that the catalog declares.
pub fn build_point_3d(fields: Vec<Value>) -> (r: Result<Value, Error>)
    ensures
        value_fields_conform(SIGNATURE_POINT_3D, values_view(fields@)) ==> (r matches Ok(v) && v@
            == Term::Structure(SIGNATURE_POINT_3D, values_view(fields@))),
        !value_fields_conform(SIGNATURE_POINT_3D, values_view(fields@)) ==> (r matches Err(e) && e
            == Error::InvalidStructure),
{
    let ghost terms = values_view(fields@);
    let mut rest = fields;
    if rest.len() != 4 {
        return Err(Error::InvalidStructure);
    }
    let f0 = take_value(&mut rest, 0);
    let f1 = take_value(&mut rest, 1);
    let f2 = take_value(&mut rest, 2);
    let f3 = take_value(&mut rest, 3);
    proof {
        assert(f0@ == terms[0]);
        assert(f1@ == terms[1]);
        assert(f2@ == terms[2]);
        assert(f3@ == terms[3]);
    }
    let srid: i64 = match into_integer(f0) {
        Some(x) => x,
        None => {
            return Err(Error::InvalidStructure);
        },
    };
    let x: u64 = match into_float(f1) {
        Some(x) => x,
        None => {
            return Err(Error::InvalidStructure);
        },
    };
    let y: u64 = match into_float(f2) {
        Some(x) => x,
        None => {
            return Err(Error::InvalidStructure);
        },
    };
    let z: u64 = match into_float(f3) {
        Some(x) => x,
        None => {
            return Err(Error::InvalidStructure);
        },
    };
    let v = Value::Point3D(Point3D { srid, x, y, z });
    assert(seq![Term::Integer(srid), Term::Float(x), Term::Float(y), Term::Float(z)] =~= terms);
    Ok(v)
}

/// The value that a structure with this signature and these fields is.
/// Refused where the fields are not those that the catalog declares for the
/// signature, or where the catalog does not list it.
pub fn build_structure(signature: u8, fields: Vec<Value>) -> (r: Result<Value, Error>)
    ensures
        value_fields_conform(signature, values_view(fields@)) ==> (r matches Ok(v) && v@
            == Term::Structure(signature, values_view(fields@))),
        !value_fields_conform(signature, values_view(fields@)) ==> (r matches Err(e) && e
            == Error::InvalidStructure),
{
    match signature {
        SIGNATURE_NODE => build_node(fields),
        SIGNATURE_RELATIONSHIP => build_relationship(fields),
        SIGNATURE_UNBOUND_RELATIONSHIP => build_unbound_relationship(fields),
        SIGNATURE_PATH => build_path(fields),
        SIGNATURE_DATE => build_date(fields),
        SIGNATURE_TIME => build_time(fields),
        SIGNATURE_LOCAL_TIME => build_local_time(fields),
        SIGNATURE_DATE_TIME_OFFSET => build_date_time_offset(fields),
        SIGNATURE_DATE_TIME_ZONE_ID => build_date_time_zone_id(fields),
        SIGNATURE_LOCAL_DATE_TIME => build_local_date_time(fields),
        SIGNATURE_DURATION => build_duration(fields),
        SIGNATURE_POINT_2D => build_point_2d(fields),
        SIGNATURE_POINT_3D => build_point_3d(fields),
        _ => Err(Error::InvalidStructure),
    }
}

} // verus!
