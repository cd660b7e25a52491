use crate::error::Error;
use crate::term::Term;
use crate::value::{
    SIGNATURE_DATE, SIGNATURE_DATE_TIME_OFFSET, SIGNATURE_DATE_TIME_ZONE_ID, SIGNATURE_DURATION,
    SIGNATURE_LOCAL_DATE_TIME, SIGNATURE_LOCAL_TIME, SIGNATURE_NODE, SIGNATURE_PATH,
    SIGNATURE_POINT_2D, SIGNATURE_POINT_3D, SIGNATURE_RELATIONSHIP, SIGNATURE_TIME,
    SIGNATURE_UNBOUND_RELATIONSHIP,
};
use vstd::prelude::*;

verus! {

/// The signature of `Init`.
pub const SIGNATURE_INIT: u8 = 0x01;

/// The signature of `Hello`.
pub const SIGNATURE_HELLO: u8 = 0x01;

/// The signature of `Goodbye`.
pub const SIGNATURE_GOODBYE: u8 = 0x02;

/// The signature of `AckFailure`.
pub const SIGNATURE_ACK_FAILURE: u8 = 0x0E;

/// The signature of `Reset`.
pub const SIGNATURE_RESET: u8 = 0x0F;

/// The signature of `Run` in both its forms.
pub const SIGNATURE_RUN: u8 = 0x10;

/// The signature of `Begin`.
pub const SIGNATURE_BEGIN: u8 = 0x11;

/// The signature of `Commit`.
pub const SIGNATURE_COMMIT: u8 = 0x12;

/// The signature of `Rollback`.
pub const SIGNATURE_ROLLBACK: u8 = 0x13;

/// The signature of `DiscardAll` and `Discard`.
pub const SIGNATURE_DISCARD: u8 = 0x2F;

/// The signature of `PullAll` and `Pull`.
pub const SIGNATURE_PULL: u8 = 0x3F;

/// The signature of `Success`.
pub const SIGNATURE_SUCCESS: u8 = 0x70;

/// The signature of `Record`.
pub const SIGNATURE_RECORD: u8 = 0x71;

/// The signature of `Ignored`.
pub const SIGNATURE_IGNORED: u8 = 0x7E;

/// The signature of `Failure`.
pub const SIGNATURE_FAILURE: u8 = 0x7F;

/// The two tables of signatures: the structures that are values, and the
/// structures that are messages.
#[derive(Debug, Clone, Copy, PartialEq, Eq, Structural)]
pub enum Catalog {
    Values,
    Messages,
}

/// The number of fields that a value structure with this signature has.
pub open spec fn value_arity(signature: u8) -> Option<int> {
    if signature == SIGNATURE_NODE {
        Some(3)
    } else if signature == SIGNATURE_RELATIONSHIP {
        Some(5)
    } else if signature == SIGNATURE_UNBOUND_RELATIONSHIP {
        Some(3)
    } else if signature == SIGNATURE_PATH {
        Some(3)
    } else if signature == SIGNATURE_DATE {
        Some(1)
    } else if signature == SIGNATURE_TIME {
        Some(2)
    } else if signature == SIGNATURE_LOCAL_TIME {
        Some(1)
    } else if signature == SIGNATURE_DATE_TIME_OFFSET {
        Some(3)
    } else if signature == SIGNATURE_DATE_TIME_ZONE_ID {
        Some(3)
    } else if signature == SIGNATURE_LOCAL_DATE_TIME {
        Some(2)
    } else if signature == SIGNATURE_DURATION {
        Some(4)
    } else if signature == SIGNATURE_POINT_2D {
        Some(3)
    } else if signature == SIGNATURE_POINT_3D {
        Some(4)
    } else {
        None
    }
}

/// Whether a message with this signature exists.
pub open spec fn is_message_signature(signature: u8) -> bool {
    signature == SIGNATURE_INIT || signature == SIGNATURE_GOODBYE || signature
        == SIGNATURE_ACK_FAILURE || signature == SIGNATURE_RESET || signature == SIGNATURE_RUN
        || signature == SIGNATURE_BEGIN || signature == SIGNATURE_COMMIT || signature
        == SIGNATURE_ROLLBACK || signature == SIGNATURE_DISCARD || signature == SIGNATURE_PULL
        || signature == SIGNATURE_SUCCESS || signature == SIGNATURE_RECORD || signature
        == SIGNATURE_IGNORED || signature == SIGNATURE_FAILURE
}

/// Whether a message with this signature and this many fields exists. The
/// signatures of Init and Hello, of the two forms of Run, of PullAll and Pull
/// and of DiscardAll and Discard coincide: the field count tells them apart.
pub open spec fn is_message_arity(signature: u8, count: int) -> bool {
    if signature == SIGNATURE_INIT {
        count == 1 || count == 2
    } else if signature == SIGNATURE_RUN {
        count == 2 || count == 3
    } else if signature == SIGNATURE_PULL || signature == SIGNATURE_DISCARD {
        count == 0 || count == 1
    } else if signature == SIGNATURE_BEGIN || signature == SIGNATURE_SUCCESS || signature
        == SIGNATURE_FAILURE || signature == SIGNATURE_RECORD {
        count == 1
    } else {
        count == 0
    }
}

/// What the catalog says of a structure header: nothing, where the signature is
/// listed with this field count, else the error that the header is refused with.
pub open spec fn header_error(catalog: Catalog, signature: u8, count: int) -> Option<Error> {
    match catalog {
        Catalog::Values => match value_arity(signature) {
            None => Some(Error::InvalidSignature(signature)),
            Some(a) => if a == count {
                None
            } else {
                Some(Error::InvalidStructure)
            },
        },
        Catalog::Messages => if !is_message_signature(signature) {
            Some(Error::InvalidSignature(signature))
        } else if is_message_arity(signature, count) {
            None
        } else {
            Some(Error::InvalidStructure)
        },
    }
}

/// Every item is a string.
pub open spec fn all_strings(items: Seq<Term>) -> bool {
    forall|i: int| 0 <= i < items.len() ==> (#[trigger] items[i]) is String
}

/// Every item is an integer.
pub open spec fn all_integers(items: Seq<Term>) -> bool {
    forall|i: int| 0 <= i < items.len() ==> (#[trigger] items[i]) is Integer
}

/// Every item is a structure with this signature.
pub open spec fn all_signed(items: Seq<Term>, signature: u8) -> bool {
    forall|i: int|
        0 <= i < items.len() ==> ((#[trigger] items[i]) matches Term::Structure(s, _) && s
            == signature)
}

/// Whether the fields of a value structure are of the kinds that the catalog
/// declares for its signature.
pub open spec fn value_fields_conform(signature: u8, f: Seq<Term>) -> bool {
    if signature == SIGNATURE_NODE {
        &&& f.len() == 3
        &&& f[0] is Integer
        &&& f[1] matches Term::List(labels) && all_strings(labels)
        &&& f[2] is Dictionary
    } else if signature == SIGNATURE_RELATIONSHIP {
        &&& f.len() == 5
        &&& f[0] is Integer
        &&& f[1] is Integer
        &&& f[2] is Integer
        &&& f[3] is String
        &&& f[4] is Dictionary
    } else if signature == SIGNATURE_UNBOUND_RELATIONSHIP {
        &&& f.len() == 3
        &&& f[0] is Integer
        &&& f[1] is String
        &&& f[2] is Dictionary
    } else if signature == SIGNATURE_PATH {
        &&& f.len() == 3
        &&& f[0] matches Term::List(nodes) && all_signed(nodes, SIGNATURE_NODE)
        &&& f[1] matches Term::List(rels) && all_signed(rels, SIGNATURE_UNBOUND_RELATIONSHIP)
        &&& f[2] matches Term::List(sequence) && all_integers(sequence)
    } else if signature == SIGNATURE_DATE || signature == SIGNATURE_LOCAL_TIME {
        &&& f.len() == 1
        &&& f[0] is Integer
    } else if signature == SIGNATURE_TIME || signature == SIGNATURE_LOCAL_DATE_TIME {
        &&& f.len() == 2
        &&& f[0] is Integer
        &&& f[1] is Integer
    } else if signature == SIGNATURE_DATE_TIME_OFFSET {
        &&& f.len() == 3
        &&& f[0] is Integer
        &&& f[1] is Integer
        &&& f[2] is Integer
    } else if signature == SIGNATURE_DATE_TIME_ZONE_ID {
        &&& f.len() == 3
        &&& f[0] is Integer
        &&& f[1] is Integer
        &&& f[2] is String
    } else if signature == SIGNATURE_DURATION {
        &&& f.len() == 4
        &&& f[0] is Integer
        &&& f[1] is Integer
        &&& f[2] is Integer
        &&& f[3] is Integer
    } else if signature == SIGNATURE_POINT_2D {
        &&& f.len() == 3
        &&& f[0] is Integer
        &&& f[1] is Float
        &&& f[2] is Float
    } else if signature == SIGNATURE_POINT_3D {
        &&& f.len() == 4
        &&& f[0] is Integer
        &&& f[1] is Float
        &&& f[2] is Float
        &&& f[3] is Float
    } else {
        false
    }
}

/// Whether the fields of a message are of the kinds that the catalog declares
/// for its signature and field count.
pub open spec fn message_fields_conform(signature: u8, f: Seq<Term>) -> bool {
    if signature == SIGNATURE_INIT {
        ||| f.len() == 1 && f[0] is Dictionary
        ||| f.len() == 2 && f[0] is String && f[1] is Dictionary
    } else if signature == SIGNATURE_RUN {
        ||| f.len() == 2 && f[0] is String && f[1] is Dictionary
        ||| f.len() == 3 && f[0] is String && f[1] is Dictionary && f[2] is Dictionary
    } else if signature == SIGNATURE_PULL || signature == SIGNATURE_DISCARD {
        ||| f.len() == 0
        ||| f.len() == 1 && f[0] is Dictionary
    } else if signature == SIGNATURE_BEGIN || signature == SIGNATURE_SUCCESS || signature
        == SIGNATURE_FAILURE {
        f.len() == 1 && f[0] is Dictionary
    } else if signature == SIGNATURE_RECORD {
        f.len() == 1 && f[0] is List
    } else {
        is_message_signature(signature) && f.len() == 0
    }
}

/// Whether the fields of a structure are of the kinds that the catalog declares.
pub open spec fn fields_conform(catalog: Catalog, signature: u8, f: Seq<Term>) -> bool {
    match catalog {
        Catalog::Values => value_fields_conform(signature, f),
        Catalog::Messages => message_fields_conform(signature, f),
    }
}

impl Term {
    /// Every structure in the term, at any depth, is a value structure of the
    /// catalog with fields of the declared kinds.
    pub open spec fn typed(self) -> bool
        decreases self,
    {
        match self {
            Term::List(items) => forall|i: int|
                0 <= i < items.len() ==> (#[trigger] items[i]).typed(),
            Term::Dictionary(entries) => forall|i: int|
                0 <= i < entries.len() ==> (#[trigger] entries[i]).1.typed(),
            Term::Structure(signature, fields) => {
                &&& value_fields_conform(signature, fields)
                &&& forall|i: int| 0 <= i < fields.len() ==> (#[trigger] fields[i]).typed()
            },
            _ => true,
        }
    }
}

/// Looks a structure header up in a catalog.
pub fn check_header(catalog: Catalog, signature: u8, count: usize) -> (r: Result<(), Error>)
    ensures
        match header_error(catalog, signature, count as int) {
            None => r is Ok,
            Some(e) => r == Err::<(), Error>(e),
        },
{
    match catalog {
        Catalog::Values => {
            let arity: usize = match signature {
                SIGNATURE_NODE => 3,
                SIGNATURE_RELATIONSHIP => 5,
                SIGNATURE_UNBOUND_RELATIONSHIP => 3,
                SIGNATURE_PATH => 3,
                SIGNATURE_DATE => 1,
                SIGNATURE_TIME => 2,
                SIGNATURE_LOCAL_TIME => 1,
                SIGNATURE_DATE_TIME_OFFSET => 3,
                SIGNATURE_DATE_TIME_ZONE_ID => 3,
                SIGNATURE_LOCAL_DATE_TIME => 2,
                SIGNATURE_DURATION => 4,
                SIGNATURE_POINT_2D => 3,
                SIGNATURE_POINT_3D => 4,
                _ => {
                    return Err(Error::InvalidSignature(signature));
                },
            };
            if arity == count {
                Ok(())
            } else {
                Err(Error::InvalidStructure)
            }
        },
        Catalog::Messages => {
            let listed: bool = match signature {
                SIGNATURE_INIT => count == 1 || count == 2,
                SIGNATURE_RUN => count == 2 || count == 3,
                SIGNATURE_PULL | SIGNATURE_DISCARD => count == 0 || count == 1,
                SIGNATURE_BEGIN | SIGNATURE_SUCCESS | SIGNATURE_FAILURE | SIGNATURE_RECORD => count
                    == 1,
                SIGNATURE_GOODBYE
                | SIGNATURE_ACK_FAILURE
                | SIGNATURE_RESET
                | SIGNATURE_COMMIT
                | SIGNATURE_ROLLBACK
                | SIGNATURE_IGNORED => count == 0,
                _ => {
                    return Err(Error::InvalidSignature(signature));
                },
            };
            if listed {
                Ok(())
            } else {
                Err(Error::InvalidStructure)
            }
        },
    }
}

} // verus!
