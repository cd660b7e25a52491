use crate::same::{same_dictionary, same_term, same_value};
use crate::term::Term;
use crate::value::{Dictionary, Value};
use vstd::prelude::*;
use vstd::std_specs::cmp::PartialEqSpecImpl;

verus! {

impl PartialEq for Value {
    /// Whether two values are the same. The order of the entries of a
    /// dictionary does not count.
    fn eq(&self, other: &Value) -> (same: bool) {
        same_value(self, other)
    }
}

impl PartialEqSpecImpl for Value {
    open spec fn obeys_eq_spec() -> bool {
        true
    }

    open spec fn eq_spec(&self, other: &Value) -> bool {
        same_term(self@, other@)
    }
}

impl PartialEq for Dictionary {
    /// Whether two dictionaries have as many entries and bind every key
    /// alike. The order of the entries does not count.
    fn eq(&self, other: &Dictionary) -> (same: bool) {
        same_dictionary(self, other)
    }
}

impl PartialEqSpecImpl for Dictionary {
    open spec fn obeys_eq_spec() -> bool {
        true
    }

    open spec fn eq_spec(&self, other: &Dictionary) -> bool {
        same_term(Term::Dictionary(self@), Term::Dictionary(other@))
    }
}

} // verus!
