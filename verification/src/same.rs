use crate::dictionary::same_text;
use crate::term::{first_key, has_key, lemma_first_key, Entries, Term};
use crate::value::{
    entries_view, integers_view, nodes_view, strings_view, unbound_relationships_view, value_view,
    values_view, Date, DateTimeOffset, DateTimeZoneId, Dictionary, Duration, LocalDateTime,
    LocalTime, Node, Path, Point2D, Point3D, Relationship, Time, UnboundRelationship, Value,
    SIGNATURE_DATE, SIGNATURE_DATE_TIME_OFFSET, SIGNATURE_DATE_TIME_ZONE_ID, SIGNATURE_DURATION,
    SIGNATURE_LOCAL_DATE_TIME, SIGNATURE_LOCAL_TIME, SIGNATURE_NODE, SIGNATURE_PATH,
    SIGNATURE_POINT_2D, SIGNATURE_POINT_3D, SIGNATURE_RELATIONSHIP, SIGNATURE_TIME,
    SIGNATURE_UNBOUND_RELATIONSHIP,
};
use vstd::prelude::*;

verus! {

/// Whether two terms are the same value. Two dictionaries are the same where
/// they have as many entries and bind every key alike: the order of the
/// entries does not count. Everything else is the same where its parts are,
/// one by one.
pub open spec fn same_term(a: Term, b: Term) -> bool
    decreases a,
{
    match a {
        Term::Null => b is Null,
        Term::Boolean(x) => b == a,
        Term::Integer(x) => b == a,
        Term::Float(x) => b == a,
        Term::Bytes(x) => b == a,
        Term::String(x) => b == a,
        Term::List(x) => b is List && same_terms(x, b->List_0),
        Term::Dictionary(x) => b is Dictionary && same_entries(x, b->Dictionary_0),
        Term::Structure(s, f) => b is Structure && s == b->Structure_0 && same_terms(
            f,
            b->Structure_1,
        ),
    }
}

/// Whether two runs of terms are the same: as long, and the same one by one.
pub open spec fn same_terms(x: Seq<Term>, y: Seq<Term>) -> bool
    decreases x,
{
    &&& x.len() == y.len()
    &&& forall|i: int| 0 <= i < x.len() ==> same_term(#[trigger] x[i], y[i])
}

/// Whether the entries `y` bind the key of `e` to the same value as `e` does.
pub open spec fn bound_alike(e: (Seq<char>, Term), y: Entries) -> bool
    decreases e,
{
    has_key(y, e.0) && same_term(e.1, y[first_key(y, e.0)].1)
}

/// Whether two dictionaries are the same: as many entries, and every entry
/// of the first bound alike in the second.
pub open spec fn same_entries(x: Entries, y: Entries) -> bool
    decreases x,
{
    &&& x.len() == y.len()
    &&& forall|i: int| 0 <= i < x.len() ==> bound_alike(#[trigger] x[i], y)
}

/// A number that tells the variants of a term apart, and structures by their signature.
pub open spec fn term_tag(t: Term) -> int {
    match t {
        Term::Null => 0,
        Term::Boolean(_) => 1,
        Term::Integer(_) => 2,
        Term::Float(_) => 3,
        Term::Bytes(_) => 4,
        Term::String(_) => 5,
        Term::List(_) => 6,
        Term::Dictionary(_) => 7,
        Term::Structure(signature, _) => 8 + signature,
    }
}

/// Terms that are the same have the same tag.
pub proof fn lemma_same_tag(a: Term, b: Term)
    requires
        same_term(a, b),
    ensures
        term_tag(a) == term_tag(b),
{
}

/// A term whose dictionaries have distinct keys is the same as itself.
pub proof fn lemma_same_reflexive(t: Term)
    requires
        t.wf(),
    ensures
        same_term(t, t),
    decreases t,
{
    match t {
        Term::List(x) => {
            assert forall|i: int| 0 <= i < x.len() implies same_term(#[trigger] x[i], x[i]) by {
                assert(t->List_0[i].wf());
                lemma_same_reflexive(x[i]);
            }
        },
        Term::Dictionary(x) => {
            assert forall|i: int| 0 <= i < x.len() implies bound_alike(#[trigger] x[i], x) by {
                assert(t->Dictionary_0[i].1.wf());
                assert forall|j: int| 0 <= j < i implies x[j].0 != x[i].0 by {}
                lemma_first_key(x, x[i].0, i);
                lemma_same_reflexive(x[i].1);
            }
        },
        Term::Structure(s, f) => {
            assert forall|i: int| 0 <= i < f.len() implies same_term(#[trigger] f[i], f[i]) by {
                assert(t->Structure_1[i].wf());
                lemma_same_reflexive(f[i]);
            }
        },
        _ => {},
    }
}

/// Two structures of one field are the same where their signatures and their fields are.
pub proof fn lemma_same_structure_1(s: u8, a1: Term, t: u8, a2: Term)
    ensures
        same_term(Term::Structure(s, seq![a1]), Term::Structure(t, seq![a2])) == (s == t
            && same_term(a1, a2)),
{
    let x = seq![a1];
    let y = seq![a2];
    if same_term(a1, a2) {
        assert forall|i: int| 0 <= i < x.len() implies same_term(#[trigger] x[i], y[i]) by {
            if i == 0 {
            }
        }
    } else {
        assert(x[0] == a1 && y[0] == a2);
    }
}

/// Two structures of two fields are the same where their signatures and their fields are.
pub proof fn lemma_same_structure_2(s: u8, a1: Term, b1: Term, t: u8, a2: Term, b2: Term)
    ensures
        same_term(Term::Structure(s, seq![a1, b1]), Term::Structure(t, seq![a2, b2])) == (s == t
            && same_term(a1, a2)
            && same_term(b1, b2)),
{
    let x = seq![a1, b1];
    let y = seq![a2, b2];
    if same_term(a1, a2) && same_term(b1, b2) {
        assert forall|i: int| 0 <= i < x.len() implies same_term(#[trigger] x[i], y[i]) by {
            if i == 0 {
            } else if i == 1 {
            }
        }
    } else {
        assert(x[0] == a1 && y[0] == a2);
        assert(x[1] == b1 && y[1] == b2);
    }
}

/// Two structures of three fields are the same where their signatures and their fields are.
pub proof fn lemma_same_structure_3(s: u8, a1: Term, b1: Term, c1: Term, t: u8, a2: Term, b2: Term, c2: Term)
    ensures
        same_term(Term::Structure(s, seq![a1, b1, c1]), Term::Structure(t, seq![a2, b2, c2])) == (s == t
            && same_term(a1, a2)
            && same_term(b1, b2)
            && same_term(c1, c2)),
{
    let x = seq![a1, b1, c1];
    let y = seq![a2, b2, c2];
    if same_term(a1, a2) && same_term(b1, b2) && same_term(c1, c2) {
        assert forall|i: int| 0 <= i < x.len() implies same_term(#[trigger] x[i], y[i]) by {
            if i == 0 {
            } else if i == 1 {
            } else if i == 2 {
            }
        }
    } else {
        assert(x[0] == a1 && y[0] == a2);
        assert(x[1] == b1 && y[1] == b2);
        assert(x[2] == c1 && y[2] == c2);
    }
}

/// Two structures of four fields are the same where their signatures and their fields are.
pub proof fn lemma_same_structure_4(s: u8, a1: Term, b1: Term, c1: Term, d1: Term, t: u8, a2: Term, b2: Term, c2: Term, d2: Term)
    ensures
        same_term(Term::Structure(s, seq![a1, b1, c1, d1]), Term::Structure(t, seq![a2, b2, c2, d2])) == (s == t
            && same_term(a1, a2)
            && same_term(b1, b2)
            && same_term(c1, c2)
            && same_term(d1, d2)),
{
    let x = seq![a1, b1, c1, d1];
    let y = seq![a2, b2, c2, d2];
    if same_term(a1, a2) && same_term(b1, b2) && same_term(c1, c2) && same_term(d1, d2) {
        assert forall|i: int| 0 <= i < x.len() implies same_term(#[trigger] x[i], y[i]) by {
            if i == 0 {
            } else if i == 1 {
            } else if i == 2 {
            } else if i == 3 {
            }
        }
    } else {
        assert(x[0] == a1 && y[0] == a2);
        assert(x[1] == b1 && y[1] == b2);
        assert(x[2] == c1 && y[2] == c2);
        assert(x[3] == d1 && y[3] == d2);
    }
}

/// Two structures of five fields are the same where their signatures and their fields are.
pub proof fn lemma_same_structure_5(s: u8, a1: Term, b1: Term, c1: Term, d1: Term, e1: Term, t: u8, a2: Term, b2: Term, c2: Term, d2: Term, e2: Term)
    ensures
        same_term(Term::Structure(s, seq![a1, b1, c1, d1, e1]), Term::Structure(t, seq![a2, b2, c2, d2, e2])) == (s == t
            && same_term(a1, a2)
            && same_term(b1, b2)
            && same_term(c1, c2)
            && same_term(d1, d2)
            && same_term(e1, e2)),
{
    let x = seq![a1, b1, c1, d1, e1];
    let y = seq![a2, b2, c2, d2, e2];
    if same_term(a1, a2) && same_term(b1, b2) && same_term(c1, c2) && same_term(d1, d2) && same_term(e1, e2) {
        assert forall|i: int| 0 <= i < x.len() implies same_term(#[trigger] x[i], y[i]) by {
            if i == 0 {
            } else if i == 1 {
            } else if i == 2 {
            } else if i == 3 {
            } else if i == 4 {
            }
        }
    } else {
        assert(x[0] == a1 && y[0] == a2);
        assert(x[1] == b1 && y[1] == b2);
        assert(x[2] == c1 && y[2] == c2);
        assert(x[3] == d1 && y[3] == d2);
        assert(x[4] == e1 && y[4] == e2);
    }
}

/// Decides whether two runs of bytes are the same.
pub fn same_bytes(x: &[u8], y: &[u8]) -> (same: bool)
    ensures
        same == (x@ == y@),
{
    if x.len() != y.len() {
        return false;
    }
    let mut i: usize = 0;
    while i < x.len()
        invariant
            i <= x@.len(),
            x@.len() == y@.len(),
            forall|j: int| 0 <= j < i ==> x@[j] == y@[j],
        decreases x@.len() - i,
    {
        if x[i] != y[i] {
            return false;
        }
        i += 1;
    }
    assert(x@ =~= y@);
    true
}

/// Decides whether two lists of strings are the same.
pub fn same_strings(x: &Vec<String>, y: &Vec<String>) -> (same: bool)
    ensures
        same == same_term(Term::List(strings_view(x@)), Term::List(strings_view(y@))),
{
    let ghost xs = strings_view(x@);
    let ghost ys = strings_view(y@);
    if x.len() != y.len() {
        return false;
    }
    let mut i: usize = 0;
    while i < x.len()
        invariant
            i <= x@.len(),
            x@.len() == y@.len(),
            xs == strings_view(x@),
            ys == strings_view(y@),
            forall|j: int| 0 <= j < i ==> same_term(#[trigger] xs[j], ys[j]),
        decreases x@.len() - i,
    {
        if !same_text(x[i].as_str(), y[i].as_str()) {
            assert(!same_term(xs[i as int], ys[i as int]));
            return false;
        }
        i += 1;
    }
    true
}

/// Decides whether two lists of integers are the same.
pub fn same_integers(x: &Vec<i64>, y: &Vec<i64>) -> (same: bool)
    ensures
        same == same_term(Term::List(integers_view(x@)), Term::List(integers_view(y@))),
{
    let ghost xs = integers_view(x@);
    let ghost ys = integers_view(y@);
    if x.len() != y.len() {
        return false;
    }
    let mut i: usize = 0;
    while i < x.len()
        invariant
            i <= x@.len(),
            x@.len() == y@.len(),
            xs == integers_view(x@),
            ys == integers_view(y@),
            forall|j: int| 0 <= j < i ==> same_term(#[trigger] xs[j], ys[j]),
        decreases x@.len() - i,
    {
        if x[i] != y[i] {
            assert(!same_term(xs[i as int], ys[i as int]));
            return false;
        }
        i += 1;
    }
    true
}

/// The tag of the term that a value is.
pub fn value_tag(v: &Value) -> (tag: u16)
    ensures
        tag == term_tag(v@),
{
    match v {
        Value::Null => 0,
        Value::Boolean(_) => 1,
        Value::Integer(_) => 2,
        Value::Float(_) => 3,
        Value::Bytes(_) => 4,
        Value::String(_) => 5,
        Value::List(_) => 6,
        Value::Dictionary(_) => 7,
        Value::Node(_) => 8 + SIGNATURE_NODE as u16,
        Value::Relationship(_) => 8 + SIGNATURE_RELATIONSHIP as u16,
        Value::UnboundRelationship(_) => 8 + SIGNATURE_UNBOUND_RELATIONSHIP as u16,
        Value::Path(_) => 8 + SIGNATURE_PATH as u16,
        Value::Date(_) => 8 + SIGNATURE_DATE as u16,
        Value::Time(_) => 8 + SIGNATURE_TIME as u16,
        Value::LocalTime(_) => 8 + SIGNATURE_LOCAL_TIME as u16,
        Value::DateTimeOffset(_) => 8 + SIGNATURE_DATE_TIME_OFFSET as u16,
        Value::DateTimeZoneId(_) => 8 + SIGNATURE_DATE_TIME_ZONE_ID as u16,
        Value::LocalDateTime(_) => 8 + SIGNATURE_LOCAL_DATE_TIME as u16,
        Value::Duration(_) => 8 + SIGNATURE_DURATION as u16,
        Value::Point2D(_) => 8 + SIGNATURE_POINT_2D as u16,
        Value::Point3D(_) => 8 + SIGNATURE_POINT_3D as u16,
    }
}

/// Decides whether two values are the same. The order of the entries of a
/// dictionary does not count.
pub fn same_value(a: &Value, b: &Value) -> (same: bool)
    ensures
        same == same_term(a@, b@),
    decreases a,
{
    if value_tag(a) != value_tag(b) {
        proof {
            if same_term(a@, b@) {
                lemma_same_tag(a@, b@);
            }
        }
        return false;
    }
    match a {
        Value::Null => true,
        Value::Boolean(x) => match b {
            Value::Boolean(y) => *x == *y,
            _ => false,
        },
        Value::Integer(x) => match b {
            Value::Integer(y) => *x == *y,
            _ => false,
        },
        Value::Float(x) => match b {
            Value::Float(y) => *x == *y,
            _ => false,
        },
        Value::Bytes(x) => match b {
            Value::Bytes(y) => same_bytes(x.as_slice(), y.as_slice()),
            _ => false,
        },
        Value::String(x) => match b {
            Value::String(y) => same_text(x.as_str(), y.as_str()),
            _ => false,
        },
        Value::List(x) => match b {
            Value::List(y) => same_values(x, y),
            _ => false,
        },
        Value::Dictionary(x) => match b {
            Value::Dictionary(y) => same_dictionary(x, y),
            _ => false,
        },
        Value::Node(x) => match b {
            Value::Node(y) => same_node(x, y),
            _ => false,
        },
        Value::Relationship(x) => match b {
            Value::Relationship(y) => same_relationship(x, y),
            _ => false,
        },
        Value::UnboundRelationship(x) => match b {
            Value::UnboundRelationship(y) => same_unbound_relationship(x, y),
            _ => false,
        },
        Value::Path(x) => match b {
            Value::Path(y) => same_path(x, y),
            _ => false,
        },
        Value::Date(x) => match b {
            Value::Date(y) => same_date(x, y),
            _ => false,
        },
        Value::Time(x) => match b {
            Value::Time(y) => same_time(x, y),
            _ => false,
        },
        Value::LocalTime(x) => match b {
            Value::LocalTime(y) => same_local_time(x, y),
            _ => false,
        },
        Value::DateTimeOffset(x) => match b {
            Value::DateTimeOffset(y) => same_date_time_offset(x, y),
            _ => false,
        },
        Value::DateTimeZoneId(x) => match b {
            Value::DateTimeZoneId(y) => same_date_time_zone_id(x, y),
            _ => false,
        },
        Value::LocalDateTime(x) => match b {
            Value::LocalDateTime(y) => same_local_date_time(x, y),
            _ => false,
        },
        Value::Duration(x) => match b {
            Value::Duration(y) => same_duration(x, y),
            _ => false,
        },
        Value::Point2D(x) => match b {
            Value::Point2D(y) => same_point_2d(x, y),
            _ => false,
        },
        Value::Point3D(x) => match b {
            Value::Point3D(y) => same_point_3d(x, y),
            _ => false,
        },
    }
}

/// Decides whether two lists of values are the same.
pub fn same_values(x: &Vec<Value>, y: &Vec<Value>) -> (same: bool)
    ensures
        same == same_term(Term::List(values_view(x@)), Term::List(values_view(y@))),
    decreases x,
{
    let ghost xs = values_view(x@);
    let ghost ys = values_view(y@);
    if x.len() != y.len() {
        return false;
    }
    let mut i: usize = 0;
    while i < x.len()
        invariant
            i <= x@.len(),
            x@.len() == y@.len(),
            xs == values_view(x@),
            ys == values_view(y@),
            forall|j: int| 0 <= j < i ==> same_term(#[trigger] xs[j], ys[j]),
        decreases x@.len() - i,
    {
        assert(xs[i as int] == value_view(x@[i as int]));
        assert(ys[i as int] == value_view(y@[i as int]));
        if !same_value(&x[i], &y[i]) {
            assert(!same_term(xs[i as int], ys[i as int]));
            return false;
        }
        i += 1;
    }
    true
}

/// Decides whether two dictionaries are the same: whether they have as many
/// entries and the second binds every key of the first alike.
pub fn same_dictionary(x: &Dictionary, y: &Dictionary) -> (same: bool)
    ensures
        same == same_term(Term::Dictionary(x@), Term::Dictionary(y@)),
    decreases x,
{
    let ghost xs = entries_view(x.entries@);
    let ghost ys = entries_view(y.entries@);
    if x.entries.len() != y.entries.len() {
        return false;
    }
    let mut i: usize = 0;
    while i < x.entries.len()
        invariant
            i <= x.entries@.len(),
            x.entries@.len() == y.entries@.len(),
            xs == entries_view(x.entries@),
            ys == entries_view(y.entries@),
            ys == y@,
            forall|j: int| 0 <= j < i ==> bound_alike(#[trigger] xs[j], ys),
        decreases x.entries@.len() - i,
    {
        assert(xs[i as int] == (x.entries@[i as int].0@, value_view(x.entries@[i as int].1)));
        let p: usize = y.position(x.entries[i].0.as_str());
        if p >= y.entries.len() {
            assert(!bound_alike(xs[i as int], ys));
            return false;
        }
        assert(ys[p as int].1 == value_view(y.entries@[p as int].1));
        if !same_value(&x.entries[i].1, &y.entries[p].1) {
            assert(!bound_alike(xs[i as int], ys));
            return false;
        }
        i += 1;
    }
    true
}

/// Decides whether two lists of nodes are the same.
pub fn same_nodes(x: &Vec<Node>, y: &Vec<Node>) -> (same: bool)
    ensures
        same == same_term(Term::List(nodes_view(x@)), Term::List(nodes_view(y@))),
    decreases x,
{
    let ghost xs = nodes_view(x@);
    let ghost ys = nodes_view(y@);
    if x.len() != y.len() {
        return false;
    }
    let mut i: usize = 0;
    while i < x.len()
        invariant
            i <= x@.len(),
            x@.len() == y@.len(),
            xs == nodes_view(x@),
            ys == nodes_view(y@),
            forall|j: int| 0 <= j < i ==> same_term(#[trigger] xs[j], ys[j]),
        decreases x@.len() - i,
    {
        assert(xs[i as int] == x@[i as int]@);
        assert(ys[i as int] == y@[i as int]@);
        if !same_node(&x[i], &y[i]) {
            assert(!same_term(xs[i as int], ys[i as int]));
            return false;
        }
        i += 1;
    }
    true
}

/// Decides whether two lists of unbound relationships are the same.
pub fn same_unbound_relationships(x: &Vec<UnboundRelationship>, y: &Vec<UnboundRelationship>) -> (same:
    bool)
    ensures
        same == same_term(
            Term::List(unbound_relationships_view(x@)),
            Term::List(unbound_relationships_view(y@)),
        ),
    decreases x,
{
    let ghost xs = unbound_relationships_view(x@);
    let ghost ys = unbound_relationships_view(y@);
    if x.len() != y.len() {
        return false;
    }
    let mut i: usize = 0;
    while i < x.len()
        invariant
            i <= x@.len(),
            x@.len() == y@.len(),
            xs == unbound_relationships_view(x@),
            ys == unbound_relationships_view(y@),
            forall|j: int| 0 <= j < i ==> same_term(#[trigger] xs[j], ys[j]),
        decreases x@.len() - i,
    {
        assert(xs[i as int] == x@[i as int]@);
        assert(ys[i as int] == y@[i as int]@);
        if !same_unbound_relationship(&x[i], &y[i]) {
            assert(!same_term(xs[i as int], ys[i as int]));
            return false;
        }
        i += 1;
    }
    true
}

/// Decides whether two values of this kind are the same.
pub fn same_node(x: &Node, y: &Node) -> (same: bool)
    ensures
        same == same_term(value_view(Value::Node(*x)), value_view(Value::Node(*y))),
    decreases x,
{
    proof {
        lemma_same_structure_3(
            SIGNATURE_NODE,
            Term::Integer(x.node_identity),
            Term::List(strings_view(x.labels@)),
            Term::Dictionary(x.properties@),
            SIGNATURE_NODE,
            Term::Integer(y.node_identity),
            Term::List(strings_view(y.labels@)),
            Term::Dictionary(y.properties@),
        );
    }
    if !(x.node_identity == y.node_identity) {
        return false;
    }
    if !(same_strings(&x.labels, &y.labels)) {
        return false;
    }
    if !(same_dictionary(&x.properties, &y.properties)) {
        return false;
    }
    true
}

/// Decides whether two values of this kind are the same.
pub fn same_relationship(x: &Relationship, y: &Relationship) -> (same: bool)
    ensures
        same == same_term(value_view(Value::Relationship(*x)), value_view(Value::Relationship(*y))),
    decreases x,
{
    proof {
        lemma_same_structure_5(
            SIGNATURE_RELATIONSHIP,
            Term::Integer(x.rel_identity),
            Term::Integer(x.start_node_identity),
            Term::Integer(x.end_node_identity),
            Term::String(x.rel_type@),
            Term::Dictionary(x.properties@),
            SIGNATURE_RELATIONSHIP,
            Term::Integer(y.rel_identity),
            Term::Integer(y.start_node_identity),
            Term::Integer(y.end_node_identity),
            Term::String(y.rel_type@),
            Term::Dictionary(y.properties@),
        );
    }
    if !(x.rel_identity == y.rel_identity) {
        return false;
    }
    if !(x.start_node_identity == y.start_node_identity) {
        return false;
    }
    if !(x.end_node_identity == y.end_node_identity) {
        return false;
    }
    if !(same_text(x.rel_type.as_str(), y.rel_type.as_str())) {
        return false;
    }
    if !(same_dictionary(&x.properties, &y.properties)) {
        return false;
    }
    true
}

/// Decides whether two values of this kind are the same.
pub fn same_unbound_relationship(x: &UnboundRelationship, y: &UnboundRelationship) -> (same: bool)
    ensures
        same == same_term(value_view(Value::UnboundRelationship(*x)), value_view(Value::UnboundRelationship(*y))),
    decreases x,
{
    proof {
        lemma_same_structure_3(
            SIGNATURE_UNBOUND_RELATIONSHIP,
            Term::Integer(x.rel_identity),
            Term::String(x.rel_type@),
            Term::Dictionary(x.properties@),
            SIGNATURE_UNBOUND_RELATIONSHIP,
            Term::Integer(y.rel_identity),
            Term::String(y.rel_type@),
            Term::Dictionary(y.properties@),
        );
    }
    if !(x.rel_identity == y.rel_identity) {
        return false;
    }
    if !(same_text(x.rel_type.as_str(), y.rel_type.as_str())) {
        return false;
    }
    if !(same_dictionary(&x.properties, &y.properties)) {
        return false;
    }
    true
}

/// Decides whether two values of this kind are the same.
pub fn same_path(x: &Path, y: &Path) -> (same: bool)
    ensures
        same == same_term(value_view(Value::Path(*x)), value_view(Value::Path(*y))),
    decreases x,
{
    proof {
        lemma_same_structure_3(
            SIGNATURE_PATH,
            Term::List(nodes_view(x.nodes@)),
            Term::List(unbound_relationships_view(x.relationships@)),
            Term::List(integers_view(x.sequence@)),
            SIGNATURE_PATH,
            Term::List(nodes_view(y.nodes@)),
            Term::List(unbound_relationships_view(y.relationships@)),
            Term::List(integers_view(y.sequence@)),
        );
    }
    if !(same_nodes(&x.nodes, &y.nodes)) {
        return false;
    }
    if !(same_unbound_relationships(&x.relationships, &y.relationships)) {
        return false;
    }
    if !(same_integers(&x.sequence, &y.sequence)) {
        return false;
    }
    true
}

/// Decides whether two values of this kind are the same.
pub fn same_date(x: &Date, y: &Date) -> (same: bool)
    ensures
        same == same_term(value_view(Value::Date(*x)), value_view(Value::Date(*y))),
{
    proof {
        lemma_same_structure_1(
            SIGNATURE_DATE,
            Term::Integer(x.days_since_epoch),
            SIGNATURE_DATE,
            Term::Integer(y.days_since_epoch),
        );
    }
    if !(x.days_since_epoch == y.days_since_epoch) {
        return false;
    }
    true
}

/// Decides whether two values of this kind are the same.
pub fn same_time(x: &Time, y: &Time) -> (same: bool)
    ensures
        same == same_term(value_view(Value::Time(*x)), value_view(Value::Time(*y))),
{
    proof {
        lemma_same_structure_2(
            SIGNATURE_TIME,
            Term::Integer(x.nanos_since_midnight),
            Term::Integer(x.zone_offset),
            SIGNATURE_TIME,
            Term::Integer(y.nanos_since_midnight),
            Term::Integer(y.zone_offset),
        );
    }
    if !(x.nanos_since_midnight == y.nanos_since_midnight) {
        return false;
    }
    if !(x.zone_offset == y.zone_offset) {
        return false;
    }
    true
}

/// Decides whether two values of this kind are the same.
pub fn same_local_time(x: &LocalTime, y: &LocalTime) -> (same: bool)
    ensures
        same == same_term(value_view(Value::LocalTime(*x)), value_view(Value::LocalTime(*y))),
{
    proof {
        lemma_same_structure_1(
            SIGNATURE_LOCAL_TIME,
            Term::Integer(x.nanos_since_midnight),
            SIGNATURE_LOCAL_TIME,
            Term::Integer(y.nanos_since_midnight),
        );
    }
    if !(x.nanos_since_midnight == y.nanos_since_midnight) {
        return false;
    }
    true
}

/// Decides whether two values of this kind are the same.
pub fn same_date_time_offset(x: &DateTimeOffset, y: &DateTimeOffset) -> (same: bool)
    ensures
        same == same_term(value_view(Value::DateTimeOffset(*x)), value_view(Value::DateTimeOffset(*y))),
{
    proof {
        lemma_same_structure_3(
            SIGNATURE_DATE_TIME_OFFSET,
            Term::Integer(x.epoch_seconds),
            Term::Integer(x.nanos),
            Term::Integer(x.offset_seconds),
            SIGNATURE_DATE_TIME_OFFSET,
            Term::Integer(y.epoch_seconds),
            Term::Integer(y.nanos),
            Term::Integer(y.offset_seconds),
        );
    }
    if !(x.epoch_seconds == y.epoch_seconds) {
        return false;
    }
    if !(x.nanos == y.nanos) {
        return false;
    }
    if !(x.offset_seconds == y.offset_seconds) {
        return false;
    }
    true
}

/// Decides whether two values of this kind are the same.
pub fn same_date_time_zone_id(x: &DateTimeZoneId, y: &DateTimeZoneId) -> (same: bool)
    ensures
        same == same_term(value_view(Value::DateTimeZoneId(*x)), value_view(Value::DateTimeZoneId(*y))),
{
    proof {
        lemma_same_structure_3(
            SIGNATURE_DATE_TIME_ZONE_ID,
            Term::Integer(x.epoch_seconds),
            Term::Integer(x.nanos),
            Term::String(x.zone_id@),
            SIGNATURE_DATE_TIME_ZONE_ID,
            Term::Integer(y.epoch_seconds),
            Term::Integer(y.nanos),
            Term::String(y.zone_id@),
        );
    }
    if !(x.epoch_seconds == y.epoch_seconds) {
        return false;
    }
    if !(x.nanos == y.nanos) {
        return false;
    }
    if !(same_text(x.zone_id.as_str(), y.zone_id.as_str())) {
        return false;
    }
    true
}

/// Decides whether two values of this kind are the same.
pub fn same_local_date_time(x: &LocalDateTime, y: &LocalDateTime) -> (same: bool)
    ensures
        same == same_term(value_view(Value::LocalDateTime(*x)), value_view(Value::LocalDateTime(*y))),
{
    proof {
        lemma_same_structure_2(
            SIGNATURE_LOCAL_DATE_TIME,
            Term::Integer(x.epoch_seconds),
            Term::Integer(x.nanos),
            SIGNATURE_LOCAL_DATE_TIME,
            Term::Integer(y.epoch_seconds),
            Term::Integer(y.nanos),
        );
    }
    if !(x.epoch_seconds == y.epoch_seconds) {
        return false;
    }
    if !(x.nanos == y.nanos) {
        return false;
    }
    true
}

/// Decides whether two values of this kind are the same.
pub fn same_duration(x: &Duration, y: &Duration) -> (same: bool)
    ensures
        same == same_term(value_view(Value::Duration(*x)), value_view(Value::Duration(*y))),
{
    proof {
        lemma_same_structure_4(
            SIGNATURE_DURATION,
            Term::Integer(x.months),
            Term::Integer(x.days),
            Term::Integer(x.seconds),
            Term::Integer(x.nanos),
            SIGNATURE_DURATION,
            Term::Integer(y.months),
            Term::Integer(y.days),
            Term::Integer(y.seconds),
            Term::Integer(y.nanos),
        );
    }
    if !(x.months == y.months) {
        return false;
    }
    if !(x.days == y.days) {
        return false;
    }
    if !(x.seconds == y.seconds) {
        return false;
    }
    if !(x.nanos == y.nanos) {
        return false;
    }
    true
}

/// Decides whether two values of this kind are the same.
pub fn same_point_2d(x: &Point2D, y: &Point2D) -> (same: bool)
    ensures
        same == same_term(value_view(Value::Point2D(*x)), value_view(Value::Point2D(*y))),
{
    proof {
        lemma_same_structure_3(
            SIGNATURE_POINT_2D,
            Term::Integer(x.srid),
            Term::Float(x.x),
            Term::Float(x.y),
            SIGNATURE_POINT_2D,
            Term::Integer(y.srid),
            Term::Float(y.x),
            Term::Float(y.y),
        );
    }
    if !(x.srid == y.srid) {
        return false;
    }
    if !(x.x == y.x) {
        return false;
    }
    if !(x.y == y.y) {
        return false;
    }
    true
}

/// Decides whether two values of this kind are the same.
pub fn same_point_3d(x: &Point3D, y: &Point3D) -> (same: bool)
    ensures
        same == same_term(value_view(Value::Point3D(*x)), value_view(Value::Point3D(*y))),
{
    proof {
        lemma_same_structure_4(
            SIGNATURE_POINT_3D,
            Term::Integer(x.srid),
            Term::Float(x.x),
            Term::Float(x.y),
            Term::Float(x.z),
            SIGNATURE_POINT_3D,
            Term::Integer(y.srid),
            Term::Float(y.x),
            Term::Float(y.y),
            Term::Float(y.z),
        );
    }
    if !(x.srid == y.srid) {
        return false;
    }
    if !(x.x == y.x) {
        return false;
    }
    if !(x.y == y.y) {
        return false;
    }
    if !(x.z == y.z) {
        return false;
    }
    true
}

} // verus!
