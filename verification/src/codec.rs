use crate::decode::decode_value;
use crate::encode::encode_value;
use crate::error::Error;
use crate::format::{encodable, encode_term, parse_value};
use crate::value::Value;
use vstd::prelude::*;

verus! {

impl Value {
    /// Every dictionary in the value, at any depth, has distinct keys.
    pub open spec fn wf(&self) -> bool {
        self@.wf()
    }

    /// The bytes of the value, every integer and every length in its smallest
    /// form. Fails exactly where a length in the value exceeds what the format
    /// can write.
    pub fn encode(&self) -> (r: Result<Vec<u8>, Error>)
        ensures
            match r {
                Ok(bytes) => encodable(self@) && bytes@ == encode_term(self@),
                Err(e) => e == Error::ValueTooLarge && !encodable(self@),
            },
    {
        let mut out: Vec<u8> = Vec::new();
        match encode_value(self, &mut out) {
            Ok(()) => {
                assert(out@ =~= encode_term(self@));
                Ok(out)
            },
            Err(e) => Err(e),
        }
    }

    /// The value that stands at the start of `bytes`. What follows it is not
    /// read. The dictionaries of the value have distinct keys.
    pub fn decode(bytes: &[u8]) -> (r: Result<Value, Error>)
        ensures
            match parse_value(bytes@, 0) {
                Ok((t, _)) => r matches Ok(v) && v@ == t && v.wf(),
                Err(e) => r matches Err(f) && f == e,
            },
    {
        proof {
            crate::wellformed::lemma_parse_sound(bytes@, 0);
        }
        match decode_value(bytes, 0) {
            Ok((v, _)) => Ok(v),
            Err(e) => Err(e),
        }
    }
}

} // verus!
