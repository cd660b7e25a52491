use crate::catalog::Catalog;
use crate::dictionary::same_text;
use crate::format::{parse_entries, parse_message, parse_structure, parse_value, parse_values};
use crate::term::{
    dict_insert, distinct_keys, first_key, lemma_first_key_exists, lemma_insert_distinct, Entries,
    Term,
};
use crate::value::{
    entries_view, integers_view, node_term, nodes_view, path_term, relationship_term,
    strings_view, unbound_relationship_term, unbound_relationships_view, value_view, values_view,
    Dictionary, Node, Path, Relationship, UnboundRelationship, Value, SIGNATURE_NODE,
    SIGNATURE_PATH, SIGNATURE_RELATIONSHIP, SIGNATURE_UNBOUND_RELATIONSHIP,
};
use crate::wire::{classify, read_size, Kind, Marker};
use vstd::prelude::*;

verus! {


/// The keys are distinct, and every value is well formed and typed.
pub open spec fn sound_entries(es: Entries) -> bool {
    &&& distinct_keys(es)
    &&& forall|i: int| 0 <= i < es.len() ==> (#[trigger] es[i]).1.wf() && es[i].1.typed()
}

/// Every term is well formed and typed.
pub open spec fn sound_terms(ts: Seq<Term>) -> bool {
    forall|i: int| 0 <= i < ts.len() ==> (#[trigger] ts[i]).wf() && ts[i].typed()
}

/// Binding a key to a sound value keeps entries sound.
pub proof fn lemma_insert_sound(es: Entries, key: Seq<char>, value: Term)
    requires
        sound_entries(es),
        value.wf(),
        value.typed(),
    ensures
        sound_entries(dict_insert(es, key, value)),
{
    lemma_insert_distinct(es, key, value);
    lemma_first_key_exists(es, key);
    let after = dict_insert(es, key, value);
    let p = first_key(es, key);
    assert forall|i: int| 0 <= i < after.len() implies (#[trigger] after[i]).1.wf()
        && after[i].1.typed() by {
        if p < es.len() {
            if i != p {
                assert(after[i] == es[i]);
            }
        } else {
            if i < es.len() {
                assert(after[i] == es[i]);
            }
        }
    }
}

/// Whatever is read as a value is sound: its dictionaries have distinct keys
/// and its structures are those of the catalog, at any depth.
pub proof fn lemma_parse_sound(s: Seq<u8>, pos: int)
    ensures
        match parse_value(s, pos) {
            Ok((t, p)) => t.wf() && t.typed(),
            Err(_) => true,
        },
    decreases s.len() - pos, 0int,
{
    if 0 <= pos < s.len() {
        match classify(s[pos]) {
            Marker::Sized(kind, width, tiny) => {
                match read_size(s, pos + 1, width, tiny) {
                    Ok((n, p)) => {
                        match kind {
                            Kind::List => {
                                lemma_parse_values_sound(s, p, n, Seq::empty());
                            },
                            Kind::Dictionary => {
                                lemma_parse_entries_sound(s, p, n, Seq::empty());
                            },
                            Kind::Structure => {
                                lemma_parse_structure_sound(s, p, n, Catalog::Values);
                            },
                            _ => {},
                        }
                    },
                    Err(_) => {},
                }
            },
            _ => {},
        }
    }
}

/// The fields of whatever is read as a structure are sound; a value
/// structure is sound as a whole.
pub proof fn lemma_parse_structure_sound(s: Seq<u8>, pos: int, n: int, catalog: Catalog)
    ensures
        match parse_structure(s, pos, n, catalog) {
            Ok((t, p)) => t.wf() && (t matches Term::Structure(_, fields) && sound_terms(fields))
                && (catalog is Values ==> t.typed()),
            Err(_) => true,
        },
    decreases s.len() - pos, 0int,
{
    if 0 <= pos < s.len() {
        lemma_parse_values_sound(s, pos + 1, n, Seq::empty());
    }
}

/// Whatever is read as a run of values is sound, after sound values.
pub proof fn lemma_parse_values_sound(s: Seq<u8>, pos: int, n: int, acc: Seq<Term>)
    requires
        sound_terms(acc),
    ensures
        match parse_values(s, pos, n, acc) {
            Ok((ts, p)) => sound_terms(ts),
            Err(_) => true,
        },
    decreases s.len() - pos, 1int,
{
    if n > 0 {
        lemma_parse_sound(s, pos);
        match parse_value(s, pos) {
            Ok((t, p)) => {
                if pos < p <= s.len() {
                    let next = acc.push(t);
                    assert forall|i: int| 0 <= i < next.len() implies (#[trigger] next[i]).wf()
                        && next[i].typed() by {
                        if i < acc.len() {
                            assert(next[i] == acc[i]);
                        }
                    }
                    lemma_parse_values_sound(s, p, n - 1, next);
                }
            },
            Err(_) => {},
        }
    }
}

/// Whatever is read as a run of entries is sound, after sound entries.
pub proof fn lemma_parse_entries_sound(s: Seq<u8>, pos: int, n: int, acc: Entries)
    requires
        sound_entries(acc),
    ensures
        match parse_entries(s, pos, n, acc) {
            Ok((es, p)) => sound_entries(es),
            Err(_) => true,
        },
    decreases s.len() - pos, 1int,
{
    if n > 0 {
        lemma_parse_sound(s, pos);
        match parse_value(s, pos) {
            Ok((k, p)) => {
                match k {
                    Term::String(key) => {
                        if pos < p <= s.len() {
                            lemma_parse_sound(s, p);
                            match parse_value(s, p) {
                                Ok((v, q)) => {
                                    if p < q <= s.len() {
                                        lemma_insert_sound(acc, key, v);
                                        lemma_parse_entries_sound(
                                            s,
                                            q,
                                            n - 1,
                                            dict_insert(acc, key, v),
                                        );
                                    }
                                },
                                Err(_) => {},
                            }
                        }
                    },
                    _ => {},
                }
            },
            Err(_) => {},
        }
    }
}

/// Whatever is read as a message is well formed: its dictionaries have
/// distinct keys at any depth.
pub proof fn lemma_parse_message_sound(s: Seq<u8>, pos: int)
    ensures
        match parse_message(s, pos) {
            Ok((t, p)) => t.wf(),
            Err(_) => true,
        },
{
    if 0 <= pos < s.len() {
        match classify(s[pos]) {
            Marker::Sized(Kind::Structure, width, tiny) => {
                match read_size(s, pos + 1, width, tiny) {
                    Ok((n, p)) => {
                        lemma_parse_structure_sound(s, p, n, Catalog::Messages);
                    },
                    Err(_) => {},
                }
            },
            _ => {},
        }
    }
}


/// A structure is well formed where those of its fields that are lists,
/// dictionaries or structures are.
pub proof fn lemma_structure_wf(signature: u8, fields: Seq<Term>)
    ensures
        Term::Structure(signature, fields).wf() == (forall|i: int|
            0 <= i < fields.len() && ((#[trigger] fields[i]) is List || fields[i] is Dictionary
                || fields[i] is Structure) ==> fields[i].wf()),
{
    reveal_with_fuel(Term::wf, 2);
    if forall|i: int|
        0 <= i < fields.len() && ((#[trigger] fields[i]) is List || fields[i] is Dictionary
            || fields[i] is Structure) ==> fields[i].wf() {
        assert forall|i: int| 0 <= i < fields.len() implies (#[trigger] fields[i]).wf() by {
            match fields[i] {
                Term::List(_) => {},
                Term::Dictionary(_) => {},
                Term::Structure(_, _) => {},
                _ => {},
            }
        }
        assert(Term::Structure(signature, fields).wf());
    } else {
        let whole = Term::Structure(signature, fields);
        if whole.wf() {
            assert forall|i: int| 0 <= i < fields.len() implies (#[trigger] fields[i]).wf() by {
                assert(whole->Structure_1[i].wf());
            }
        }
    }
}

/// The items of a well-formed list are well formed.
pub proof fn lemma_list_wf(items: Seq<Term>)
    ensures
        Term::List(items).wf() == (forall|i: int|
            0 <= i < items.len() ==> (#[trigger] items[i]).wf()),
{
    let whole = Term::List(items);
    if whole.wf() {
        assert forall|i: int| 0 <= i < items.len() implies (#[trigger] items[i]).wf() by {
            assert(whole->List_0[i].wf());
        }
    }
}

/// The values of a well-formed dictionary are well formed, and its keys are distinct.
pub proof fn lemma_dictionary_wf(entries: Entries)
    ensures
        Term::Dictionary(entries).wf() == (distinct_keys(entries) && forall|i: int|
            0 <= i < entries.len() ==> (#[trigger] entries[i]).1.wf()),
{
    let whole = Term::Dictionary(entries);
    if whole.wf() {
        assert forall|i: int| 0 <= i < entries.len() implies (#[trigger] entries[i]).1.wf() by {
            assert(whole->Dictionary_0[i].1.wf());
        }
    }
}

/// A list of strings is well formed.
pub proof fn lemma_strings_wf(items: Seq<String>)
    ensures
        Term::List(strings_view(items)).wf(),
{
    reveal_with_fuel(Term::wf, 2);
    let terms = strings_view(items);
    assert forall|i: int| 0 <= i < terms.len() implies (#[trigger] terms[i]).wf() by {}
}

/// A list of integers is well formed.
pub proof fn lemma_integers_wf(items: Seq<i64>)
    ensures
        Term::List(integers_view(items)).wf(),
{
    reveal_with_fuel(Term::wf, 2);
    let terms = integers_view(items);
    assert forall|i: int| 0 <= i < terms.len() implies (#[trigger] terms[i]).wf() by {}
}

/// A node is well formed where its properties are.
pub proof fn lemma_node_wf(n: Node)
    ensures
        node_term(n).wf() == Term::Dictionary(n.properties@).wf(),
{
    let fields = seq![
        Term::Integer(n.node_identity),
        Term::List(strings_view(n.labels@)),
        Term::Dictionary(n.properties@),
    ];
    lemma_structure_wf(SIGNATURE_NODE, fields);
    lemma_strings_wf(n.labels@);
    assert(fields[1] == Term::List(strings_view(n.labels@)));
    assert(fields[2] == Term::Dictionary(n.properties@));
    if Term::Dictionary(n.properties@).wf() {
        assert forall|i: int|
            0 <= i < fields.len() && ((#[trigger] fields[i]) is List || fields[i] is Dictionary
                || fields[i] is Structure) implies fields[i].wf() by {
            if i == 1 {
            } else if i == 2 {
            } else {
            }
        }
    }
}

/// A relationship is well formed where its properties are.
pub proof fn lemma_relationship_wf(r: Relationship)
    ensures
        relationship_term(r).wf() == Term::Dictionary(r.properties@).wf(),
{
    let fields = seq![
        Term::Integer(r.rel_identity),
        Term::Integer(r.start_node_identity),
        Term::Integer(r.end_node_identity),
        Term::String(r.rel_type@),
        Term::Dictionary(r.properties@),
    ];
    lemma_structure_wf(SIGNATURE_RELATIONSHIP, fields);
    assert(fields[4] == Term::Dictionary(r.properties@));
    if Term::Dictionary(r.properties@).wf() {
        assert forall|i: int|
            0 <= i < fields.len() && ((#[trigger] fields[i]) is List || fields[i] is Dictionary
                || fields[i] is Structure) implies fields[i].wf() by {
            if i == 4 {
            } else if i == 3 {
            } else if i == 2 {
            } else if i == 1 {
            } else {
            }
        }
    }
}

/// An unbound relationship is well formed where its properties are.
pub proof fn lemma_unbound_relationship_wf(r: UnboundRelationship)
    ensures
        unbound_relationship_term(r).wf() == Term::Dictionary(r.properties@).wf(),
{
    let fields = seq![
        Term::Integer(r.rel_identity),
        Term::String(r.rel_type@),
        Term::Dictionary(r.properties@),
    ];
    lemma_structure_wf(SIGNATURE_UNBOUND_RELATIONSHIP, fields);
    assert(fields[2] == Term::Dictionary(r.properties@));
    if Term::Dictionary(r.properties@).wf() {
        assert forall|i: int|
            0 <= i < fields.len() && ((#[trigger] fields[i]) is List || fields[i] is Dictionary
                || fields[i] is Structure) implies fields[i].wf() by {
            if i == 2 {
            } else if i == 1 {
            } else {
            }
        }
    }
}

/// A path is well formed where its nodes and its relationships are.
pub proof fn lemma_path_wf(p: Path)
    ensures
        path_term(p).wf() == (Term::List(nodes_view(p.nodes@)).wf() && Term::List(
            unbound_relationships_view(p.relationships@),
        ).wf()),
{
    let fields = seq![
        Term::List(nodes_view(p.nodes@)),
        Term::List(unbound_relationships_view(p.relationships@)),
        Term::List(integers_view(p.sequence@)),
    ];
    lemma_structure_wf(SIGNATURE_PATH, fields);
    lemma_integers_wf(p.sequence@);
    assert(fields[0] == Term::List(nodes_view(p.nodes@)));
    assert(fields[1] == Term::List(unbound_relationships_view(p.relationships@)));
    assert(fields[2] == Term::List(integers_view(p.sequence@)));
    if fields[0].wf() && fields[1].wf() {
        assert forall|i: int|
            0 <= i < fields.len() && ((#[trigger] fields[i]) is List || fields[i] is Dictionary
                || fields[i] is Structure) implies fields[i].wf() by {
            if i == 0 {
            } else if i == 1 {
            } else {
            }
        }
    }
}

/// Decides whether no key of a dictionary occurs twice.
pub fn has_distinct_keys(d: &Dictionary) -> (distinct: bool)
    ensures
        distinct == distinct_keys(d@),
{
    let n: usize = d.entries.len();
    let mut i: usize = 0;
    while i < n
        invariant
            n == d.entries@.len(),
            i <= n,
            forall|a: int, b: int| 0 <= a < b < n && a < i ==> d@[a].0 != d@[b].0,
        decreases n - i,
    {
        let mut j: usize = i + 1;
        while j < n
            invariant
                n == d.entries@.len(),
                i < j <= n,
                forall|b: int| i < b < j ==> d@[i as int].0 != d@[b].0,
            decreases n - j,
        {
            if same_text(d.entries[i].0.as_str(), d.entries[j].0.as_str()) {
                assert(d@[i as int].0 == d@[j as int].0);
                return false;
            }
            j += 1;
        }
        i += 1;
    }
    true
}

/// Decides whether a value is well formed: whether no dictionary in it, at
/// any depth, has a key twice.
pub fn well_formed(v: &Value) -> (sound: bool)
    ensures
        sound == v@.wf(),
    decreases v,
{
    match v {
        Value::List(items) => well_formed_values(items),
        Value::Dictionary(d) => well_formed_dictionary(d),
        Value::Node(n) => {
            proof {
                lemma_node_wf(*n);
            }
            well_formed_dictionary(&n.properties)
        },
        Value::Relationship(r) => {
            proof {
                lemma_relationship_wf(*r);
            }
            well_formed_dictionary(&r.properties)
        },
        Value::UnboundRelationship(r) => {
            proof {
                lemma_unbound_relationship_wf(*r);
            }
            well_formed_dictionary(&r.properties)
        },
        Value::Path(p) => well_formed_path(p),
        _ => {
            proof {
                let t = value_view(*v);
                if t is Structure {
                    let signature = t->Structure_0;
                    let fields = t->Structure_1;
                    lemma_structure_wf(signature, fields);
                    assert forall|i: int|
                        0 <= i < fields.len() && ((#[trigger] fields[i]) is List
                            || fields[i] is Dictionary || fields[i] is Structure)
                            implies fields[i].wf() by {
                        if i == 0 {
                        } else if i == 1 {
                        } else if i == 2 {
                        } else {
                        }
                    }
                }
            }
            true
        },
    }
}

/// Decides whether each of the values is well formed.
pub fn well_formed_values(items: &Vec<Value>) -> (sound: bool)
    ensures
        sound == Term::List(values_view(items@)).wf(),
    decreases items,
{
    let ghost terms = values_view(items@);
    let mut i: usize = 0;
    while i < items.len()
        invariant
            i <= items@.len(),
            terms == values_view(items@),
            forall|j: int| 0 <= j < i ==> (#[trigger] terms[j]).wf(),
        decreases items@.len() - i,
    {
        assert(terms[i as int] == value_view(items@[i as int]));
        if !well_formed(&items[i]) {
            proof {
                lemma_list_wf(terms);
            }
            return false;
        }
        i += 1;
    }
    proof {
        lemma_list_wf(terms);
    }
    true
}

/// Decides whether a dictionary is well formed: whether no key occurs twice
/// and each value is well formed.
pub fn well_formed_dictionary(d: &Dictionary) -> (sound: bool)
    ensures
        sound == Term::Dictionary(d@).wf(),
    decreases d,
{
    if !has_distinct_keys(d) {
        return false;
    }
    let ghost es = entries_view(d.entries@);
    let mut i: usize = 0;
    while i < d.entries.len()
        invariant
            i <= d.entries@.len(),
            es == entries_view(d.entries@),
            distinct_keys(es),
            forall|j: int| 0 <= j < i ==> (#[trigger] es[j]).1.wf(),
        decreases d.entries@.len() - i,
    {
        assert(es[i as int].1 == value_view(d.entries@[i as int].1));
        if !well_formed(&d.entries[i].1) {
            proof {
                lemma_dictionary_wf(es);
            }
            return false;
        }
        i += 1;
    }
    proof {
        lemma_dictionary_wf(es);
    }
    true
}

/// Decides whether a path is well formed: whether its nodes and its relationships are.
pub fn well_formed_path(p: &Path) -> (sound: bool)
    ensures
        sound == path_term(*p).wf(),
    decreases p,
{
    proof {
        lemma_path_wf(*p);
    }
    let ghost nodes = nodes_view(p.nodes@);
    let ghost rels = unbound_relationships_view(p.relationships@);
    let mut i: usize = 0;
    while i < p.nodes.len()
        invariant
            i <= p.nodes@.len(),
            nodes == nodes_view(p.nodes@),
            path_term(*p).wf() == (Term::List(nodes).wf() && Term::List(rels).wf()),
            forall|j: int| 0 <= j < i ==> (#[trigger] nodes[j]).wf(),
        decreases p.nodes@.len() - i,
    {
        proof {
            lemma_node_wf(p.nodes@[i as int]);
        }
        assert(nodes[i as int] == node_term(p.nodes@[i as int]));
        if !well_formed_dictionary(&p.nodes[i].properties) {
            proof {
                lemma_list_wf(nodes);
            }
            return false;
        }
        i += 1;
    }
    proof {
        lemma_list_wf(nodes);
    }
    let mut k: usize = 0;
    while k < p.relationships.len()
        invariant
            k <= p.relationships@.len(),
            rels == unbound_relationships_view(p.relationships@),
            path_term(*p).wf() == (Term::List(nodes).wf() && Term::List(rels).wf()),
            Term::List(nodes).wf(),
            forall|j: int| 0 <= j < k ==> (#[trigger] rels[j]).wf(),
        decreases p.relationships@.len() - k,
    {
        proof {
            lemma_unbound_relationship_wf(p.relationships@[k as int]);
        }
        assert(rels[k as int] == unbound_relationship_term(p.relationships@[k as int]));
        if !well_formed_dictionary(&p.relationships[k].properties) {
            proof {
                lemma_list_wf(rels);
            }
            return false;
        }
        k += 1;
    }
    proof {
        lemma_list_wf(rels);
    }
    true
}

} // verus!
