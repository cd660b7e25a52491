use vstd::prelude::*;

verus! {

/// The mathematical content of a value: what the wire format carries.
///
/// Every executable value and message has a `Term` as its view. A domain value
/// such as a node is the structure with its signature and its fields in
/// declaration order. A float is held by its IEEE 754 binary64 bit pattern.
pub enum Term {
    Null,
    Boolean(bool),
    Integer(i64),
    Float(u64),
    Bytes(Seq<u8>),
    String(Seq<char>),
    List(Seq<Term>),
    Dictionary(Seq<(Seq<char>, Term)>),
    Structure(u8, Seq<Term>),
}

/// The entries of a dictionary, in the order in which they were inserted.
pub type Entries = Seq<(Seq<char>, Term)>;

/// No key occurs twice.
pub open spec fn distinct_keys(entries: Entries) -> bool {
    forall|i: int, j: int| 0 <= i < j < entries.len() ==> entries[i].0 != entries[j].0
}

/// `p` is where `key` first occurs in `entries`, or their length if it does not occur.
pub open spec fn is_first_key(entries: Entries, key: Seq<char>, p: int) -> bool {
    &&& 0 <= p <= entries.len()
    &&& forall|i: int| 0 <= i < p ==> entries[i].0 != key
    &&& p < entries.len() ==> entries[p].0 == key
}

/// Where `key` first occurs in `entries`, or their length if it does not occur.
pub open spec fn first_key(entries: Entries, key: Seq<char>) -> int {
    choose|p: int| is_first_key(entries, key, p)
}

/// Whether `key` occurs in `entries`.
pub open spec fn has_key(entries: Entries, key: Seq<char>) -> bool {
    first_key(entries, key) < entries.len()
}

/// The entries after `key` has been bound to `value`: an earlier binding of the
/// key is replaced where it stands, a new key goes to the end.
pub open spec fn dict_insert(entries: Entries, key: Seq<char>, value: Term) -> Entries {
    let p = first_key(entries, key);
    if p < entries.len() {
        entries.update(p, (key, value))
    } else {
        entries.push((key, value))
    }
}

/// The entries without the first binding of `key`.
pub open spec fn dict_remove(entries: Entries, key: Seq<char>) -> Entries {
    let p = first_key(entries, key);
    if p < entries.len() {
        entries.remove(p)
    } else {
        entries
    }
}

/// Any position that meets `is_first_key` is the one that `first_key` names.
pub proof fn lemma_first_key(entries: Entries, key: Seq<char>, p: int)
    requires
        is_first_key(entries, key, p),
    ensures
        first_key(entries, key) == p,
{
    let q = first_key(entries, key);
    assert(is_first_key(entries, key, q));
    if q < p {
        assert(entries[q].0 != key);
    }
    if p < q {
        assert(entries[p].0 != key);
    }
}

/// A first position exists for every key.
pub proof fn lemma_first_key_exists(entries: Entries, key: Seq<char>)
    ensures
        is_first_key(entries, key, first_key(entries, key)),
    decreases entries.len(),
{
    if entries.len() == 0 {
        assert(is_first_key(entries, key, 0));
    } else {
        let front = entries.drop_last();
        lemma_first_key_exists(front, key);
        let p = first_key(front, key);
        assert forall|i: int| 0 <= i < p implies entries[i].0 != key by {
            assert(front[i].0 != key);
        }
        if p < front.len() {
            assert(front[p] == entries[p]);
            assert(is_first_key(entries, key, p));
        } else if entries.last().0 == key {
            assert(is_first_key(entries, key, entries.len() - 1));
        } else {
            assert(is_first_key(entries, key, entries.len() as int));
        }
    }
}

/// Inserting keeps the keys distinct.
pub proof fn lemma_insert_distinct(entries: Entries, key: Seq<char>, value: Term)
    requires
        distinct_keys(entries),
    ensures
        distinct_keys(dict_insert(entries, key, value)),
{
    lemma_first_key_exists(entries, key);
    let p = first_key(entries, key);
    let after = dict_insert(entries, key, value);
    assert forall|i: int, j: int| 0 <= i < j < after.len() implies after[i].0 != after[j].0 by {
        if p < entries.len() {
            if i == p {
                assert(entries[j].0 != entries[p].0);
            } else if j == p {
                assert(entries[i].0 != entries[p].0);
            } else {
                assert(entries[i].0 != entries[j].0);
            }
        } else {
            if j == entries.len() {
                assert(entries[i].0 != key);
            } else {
                assert(entries[i].0 != entries[j].0);
            }
        }
    }
}

/// Inserting a key that does not occur yet appends the entry.
pub proof fn lemma_insert_new(entries: Entries, key: Seq<char>, value: Term)
    requires
        forall|i: int| 0 <= i < entries.len() ==> entries[i].0 != key,
    ensures
        dict_insert(entries, key, value) == entries.push((key, value)),
{
    lemma_first_key(entries, key, entries.len() as int);
}

impl Term {
    /// Every dictionary in the term, at any depth, has distinct keys.
    pub open spec fn wf(self) -> bool
        decreases self,
    {
        match self {
            Term::List(items) => forall|i: int| 0 <= i < items.len() ==> (#[trigger] items[i]).wf(),
            Term::Dictionary(entries) => {
                &&& distinct_keys(entries)
                &&& forall|i: int| 0 <= i < entries.len() ==> (#[trigger] entries[i]).1.wf()
            },
            Term::Structure(_, fields) => forall|i: int|
                0 <= i < fields.len() ==> (#[trigger] fields[i]).wf(),
            _ => true,
        }
    }
}

} // verus!
