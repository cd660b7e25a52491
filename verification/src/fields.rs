use crate::catalog::{all_integers, all_signed, all_strings};
use crate::term::Term;
use crate::value::{
    integers_view, node_term, nodes_view, strings_view, unbound_relationship_term,
    unbound_relationships_view, value_view, values_view, Dictionary, Node, UnboundRelationship,
    Value, SIGNATURE_NODE, SIGNATURE_UNBOUND_RELATIONSHIP,
};
use vstd::pervasive::VecAdditionalExecFns;
use vstd::prelude::*;

verus! {

/// Takes the value at `i` out of `items` and leaves `Null` in its place.
pub fn take_value(items: &mut Vec<Value>, i: usize) -> (v: Value)
    requires
        i < old(items)@.len(),
    ensures
        v == old(items)@[i as int],
        final(items)@ == old(items)@.update(i as int, Value::Null),
{
    let mut taken = Value::Null;
    items.set_and_swap(i, &mut taken);
    taken
}

/// The integer that a value is, if it is one.
pub fn into_integer(v: Value) -> (r: Option<i64>)
    ensures
        match v@ {
            Term::Integer(i) => r == Some(i),
            _ => r is None,
        },
{
    match v {
        Value::Integer(i) => Some(i),
        _ => None,
    }
}

/// The bit pattern of the float that a value is, if it is one.
pub fn into_float(v: Value) -> (r: Option<u64>)
    ensures
        match v@ {
            Term::Float(f) => r == Some(f),
            _ => r is None,
        },
{
    match v {
        Value::Float(f) => Some(f),
        _ => None,
    }
}

/// The string that a value is, if it is one.
pub fn into_string(v: Value) -> (r: Option<String>)
    ensures
        match v@ {
            Term::String(s) => r matches Some(text) && text@ == s,
            _ => r is None,
        },
{
    match v {
        Value::String(s) => Some(s),
        _ => None,
    }
}

/// The dictionary that a value is, if it is one.
pub fn into_dictionary(v: Value) -> (r: Option<Dictionary>)
    ensures
        match v@ {
            Term::Dictionary(entries) => r matches Some(d) && d@ == entries,
            _ => r is None,
        },
{
    match v {
        Value::Dictionary(d) => Some(d),
        _ => None,
    }
}

/// The items of the list that a value is, if it is one.
pub fn into_list(v: Value) -> (r: Option<Vec<Value>>)
    ensures
        match v@ {
            Term::List(items) => r matches Some(list) && values_view(list@) == items,
            _ => r is None,
        },
{
    match v {
        Value::List(items) => Some(items),
        _ => None,
    }
}

/// The node that a value is, if it is one.
pub fn into_node(v: Value) -> (r: Option<Node>)
    ensures
        match v@ {
            Term::Structure(signature, _) => if signature == SIGNATURE_NODE {
                r matches Some(n) && n@ == v@
            } else {
                r is None
            },
            _ => r is None,
        },
{
    match v {
        Value::Node(n) => Some(n),
        _ => None,
    }
}

/// The unbound relationship that a value is, if it is one.
pub fn into_unbound_relationship(v: Value) -> (r: Option<UnboundRelationship>)
    ensures
        match v@ {
            Term::Structure(signature, _) => if signature == SIGNATURE_UNBOUND_RELATIONSHIP {
                r matches Some(rel) && rel@ == v@
            } else {
                r is None
            },
            _ => r is None,
        },
{
    match v {
        Value::UnboundRelationship(rel) => Some(rel),
        _ => None,
    }
}

/// The strings that the values are, if each of them is one.
pub fn strings_from(items: Vec<Value>) -> (r: Option<Vec<String>>)
    ensures
        all_strings(values_view(items@)) ==> (r matches Some(list) && strings_view(list@)
            == values_view(items@)),
        !all_strings(values_view(items@)) ==> r is None,
{
    let ghost terms = values_view(items@);
    let mut rest = items;
    let mut list: Vec<String> = Vec::new();
    let mut i: usize = 0;
    while i < rest.len()
        invariant
            terms == values_view(items@),
            i <= rest@.len(),
            rest@.len() == terms.len(),
            list@.len() == i,
            forall|j: int| i <= j < rest@.len() ==> value_view(#[trigger] rest@[j]) == terms[j],
            forall|j: int| 0 <= j < i ==> Term::String((#[trigger] list@[j])@) == terms[j],
        decreases rest@.len() - i,
    {
        let v = take_value(&mut rest, i);
        match into_string(v) {
            None => {
                assert(!(terms[i as int] is String));
                return None;
            },
            Some(text) => {
                list.push(text);
            },
        }
        i += 1;
    }
    assert(strings_view(list@) =~= terms);
    Some(list)
}

/// The integers that the values are, if each of them is one.
pub fn integers_from(items: Vec<Value>) -> (r: Option<Vec<i64>>)
    ensures
        all_integers(values_view(items@)) ==> (r matches Some(list) && integers_view(list@)
            == values_view(items@)),
        !all_integers(values_view(items@)) ==> r is None,
{
    let ghost terms = values_view(items@);
    let mut rest = items;
    let mut list: Vec<i64> = Vec::new();
    let mut i: usize = 0;
    while i < rest.len()
        invariant
            terms == values_view(items@),
            i <= rest@.len(),
            rest@.len() == terms.len(),
            list@.len() == i,
            forall|j: int| i <= j < rest@.len() ==> value_view(#[trigger] rest@[j]) == terms[j],
            forall|j: int| 0 <= j < i ==> Term::Integer(#[trigger] list@[j]) == terms[j],
        decreases rest@.len() - i,
    {
        let v = take_value(&mut rest, i);
        match into_integer(v) {
            None => {
                assert(!(terms[i as int] is Integer));
                return None;
            },
            Some(n) => {
                list.push(n);
            },
        }
        i += 1;
    }
    assert(integers_view(list@) =~= terms);
    Some(list)
}

/// The nodes that the values are, if each of them is one.
pub fn nodes_from(items: Vec<Value>) -> (r: Option<Vec<Node>>)
    ensures
        all_signed(values_view(items@), SIGNATURE_NODE) ==> (r matches Some(list) && nodes_view(
            list@,
        ) == values_view(items@)),
        !all_signed(values_view(items@), SIGNATURE_NODE) ==> r is None,
{
    let ghost terms = values_view(items@);
    let mut rest = items;
    let mut list: Vec<Node> = Vec::new();
    let mut i: usize = 0;
    while i < rest.len()
        invariant
            terms == values_view(items@),
            i <= rest@.len(),
            rest@.len() == terms.len(),
            list@.len() == i,
            forall|j: int| i <= j < rest@.len() ==> value_view(#[trigger] rest@[j]) == terms[j],
            forall|j: int|
                0 <= j < i ==> node_term(#[trigger] list@[j]) == terms[j] && (
                terms[j] matches Term::Structure(s, _) && s == SIGNATURE_NODE),
        decreases rest@.len() - i,
    {
        let v = take_value(&mut rest, i);
        match into_node(v) {
            None => {
                assert(!(terms[i as int] matches Term::Structure(s, _) && s == SIGNATURE_NODE));
                return None;
            },
            Some(n) => {
                list.push(n);
            },
        }
        i += 1;
    }
    assert(nodes_view(list@) =~= terms);
    Some(list)
}

/// The unbound relationships that the values are, if each of them is one.
pub fn unbound_relationships_from(items: Vec<Value>) -> (r: Option<Vec<UnboundRelationship>>)
    ensures
        all_signed(values_view(items@), SIGNATURE_UNBOUND_RELATIONSHIP) ==> (r matches Some(list)
            && unbound_relationships_view(list@) == values_view(items@)),
        !all_signed(values_view(items@), SIGNATURE_UNBOUND_RELATIONSHIP) ==> r is None,
{
    let ghost terms = values_view(items@);
    let mut rest = items;
    let mut list: Vec<UnboundRelationship> = Vec::new();
    let mut i: usize = 0;
    while i < rest.len()
        invariant
            terms == values_view(items@),
            i <= rest@.len(),
            rest@.len() == terms.len(),
            list@.len() == i,
            forall|j: int| i <= j < rest@.len() ==> value_view(#[trigger] rest@[j]) == terms[j],
            forall|j: int|
                0 <= j < i ==> unbound_relationship_term(#[trigger] list@[j]) == terms[j] && (
                terms[j] matches Term::Structure(s, _) && s == SIGNATURE_UNBOUND_RELATIONSHIP),
        decreases rest@.len() - i,
    {
        let v = take_value(&mut rest, i);
        match into_unbound_relationship(v) {
            None => {
                assert(!(terms[i as int] matches Term::Structure(s, _) && s
                    == SIGNATURE_UNBOUND_RELATIONSHIP));
                return None;
            },
            Some(rel) => {
                list.push(rel);
            },
        }
        i += 1;
    }
    assert(unbound_relationships_view(list@) =~= terms);
    Some(list)
}

} // verus!
