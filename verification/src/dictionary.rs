use crate::term::{
    dict_insert, dict_remove, distinct_keys, first_key, has_key, is_first_key, lemma_first_key,
};
use crate::value::{Dictionary, Value};
use vstd::pervasive::VecAdditionalExecFns;
use vstd::prelude::*;
use vstd::utf8::encode_utf8;

verus! {

/// Whether two strings hold the same text.
pub fn same_text(a: &str, b: &str) -> (same: bool)
    ensures
        same == (a@ == b@),
{
    let x = a.as_bytes();
    let y = b.as_bytes();
    proof {
        vstd::utf8::encode_utf8_decode_utf8(a@);
        vstd::utf8::encode_utf8_decode_utf8(b@);
    }
    if x.len() != y.len() {
        return false;
    }
    let mut i: usize = 0;
    while i < x.len()
        invariant
            i <= x@.len(),
            x@.len() == y@.len(),
            x@ == encode_utf8(a@),
            y@ == encode_utf8(b@),
            forall|j: int| 0 <= j < i ==> x@[j] == y@[j],
        decreases x@.len() - i,
    {
        if x[i] != y[i] {
            return false;
        }
        i += 1;
    }
    assert(x@ =~= y@);
    true
}

impl Dictionary {
    /// No key occurs twice.
    pub open spec fn wf(&self) -> bool {
        distinct_keys(self@)
    }

    /// A dictionary without entries.
    pub fn new() -> (d: Dictionary)
        ensures
            d@ == Seq::<(Seq<char>, crate::term::Term)>::empty(),
            d.wf(),
    {
        let d = Dictionary { entries: Vec::new() };
        assert(d@ =~= Seq::empty());
        d
    }

    /// The number of entries.
    pub fn len(&self) -> (n: usize)
        ensures
            n == self@.len(),
    {
        self.entries.len()
    }

    /// Whether there is no entry.
    pub fn is_empty(&self) -> (empty: bool)
        ensures
            empty == (self@.len() == 0),
    {
        self.entries.len() == 0
    }

    /// Where `key` first occurs, or the number of entries if it does not occur.
    pub fn position(&self, key: &str) -> (p: usize)
        ensures
            p == first_key(self@, key@),
            is_first_key(self@, key@, p as int),
    {
        let mut i: usize = 0;
        while i < self.entries.len()
            invariant
                i <= self.entries@.len(),
                forall|j: int| 0 <= j < i ==> (#[trigger] self@[j]).0 != key@,
            decreases self.entries@.len() - i,
        {
            if same_text(self.entries[i].0.as_str(), key) {
                proof {
                    assert(self@[i as int].0 == key@);
                    lemma_first_key(self@, key@, i as int);
                }
                return i;
            }
            i += 1;
        }
        proof {
            lemma_first_key(self@, key@, i as int);
        }
        i
    }

    /// Whether `key` is bound.
    pub fn contains_key(&self, key: &str) -> (found: bool)
        ensures
            found == has_key(self@, key@),
    {
        self.position(key) < self.entries.len()
    }

    /// The value that `key` is bound to.
    pub fn get(&self, key: &str) -> (r: Option<&Value>)
        ensures
            match r {
                Some(v) => has_key(self@, key@) && v@ == self@[first_key(self@, key@)].1,
                None => !has_key(self@, key@),
            },
    {
        let p = self.position(key);
        if p < self.entries.len() {
            Some(&self.entries[p].1)
        } else {
            None
        }
    }

    /// Binds `key` to `value`. An earlier binding of the key is replaced where
    /// it stands, and the value it had is returned; a new key goes to the end.
    pub fn insert(&mut self, key: String, value: Value) -> (previous: Option<Value>)
        ensures
            final(self)@ == dict_insert(old(self)@, key@, value@),
            match previous {
                Some(v) => has_key(old(self)@, key@) && v@ == old(self)@[first_key(
                    old(self)@,
                    key@,
                )].1,
                None => !has_key(old(self)@, key@),
            },
    {
        let p = self.position(key.as_str());
        if p < self.entries.len() {
            let mut slot = (key, value);
            self.entries.set_and_swap(p, &mut slot);
            assert(self@ =~= dict_insert(old(self)@, key@, value@));
            Some(slot.1)
        } else {
            self.entries.push((key, value));
            assert(self@ =~= dict_insert(old(self)@, key@, value@));
            None
        }
    }

    /// Removes the binding of `key` and returns the value it had.
    pub fn remove(&mut self, key: &str) -> (removed: Option<Value>)
        ensures
            final(self)@ == dict_remove(old(self)@, key@),
            match removed {
                Some(v) => has_key(old(self)@, key@) && v@ == old(self)@[first_key(
                    old(self)@,
                    key@,
                )].1,
                None => !has_key(old(self)@, key@),
            },
    {
        let p = self.position(key);
        if p < self.entries.len() {
            let entry = self.entries.remove(p);
            assert(self@ =~= dict_remove(old(self)@, key@));
            Some(entry.1)
        } else {
            None
        }
    }
}

} // verus!
