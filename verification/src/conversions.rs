use crate::error::Error;
use crate::term::Term;
use crate::value::{Dictionary, Value};
use vstd::prelude::*;
use vstd::std_specs::convert::FromSpecImpl;
use vstd::string::StringExecFns;

verus! {

impl From<bool> for Value {
    fn from(value: bool) -> (v: Value) {
        Value::Boolean(value)
    }
}

impl FromSpecImpl<bool> for Value {
    open spec fn obeys_from_spec() -> bool {
        true
    }

    open spec fn from_spec(value: bool) -> Value {
        Value::Boolean(value)
    }
}

impl From<i8> for Value {
    fn from(value: i8) -> (v: Value) {
        Value::Integer(value as i64)
    }
}

impl FromSpecImpl<i8> for Value {
    open spec fn obeys_from_spec() -> bool {
        true
    }

    open spec fn from_spec(value: i8) -> Value {
        Value::Integer(value as i64)
    }
}

impl From<i16> for Value {
    fn from(value: i16) -> (v: Value) {
        Value::Integer(value as i64)
    }
}

impl FromSpecImpl<i16> for Value {
    open spec fn obeys_from_spec() -> bool {
        true
    }

    open spec fn from_spec(value: i16) -> Value {
        Value::Integer(value as i64)
    }
}

impl From<i32> for Value {
    fn from(value: i32) -> (v: Value) {
        Value::Integer(value as i64)
    }
}

impl FromSpecImpl<i32> for Value {
    open spec fn obeys_from_spec() -> bool {
        true
    }

    open spec fn from_spec(value: i32) -> Value {
        Value::Integer(value as i64)
    }
}

impl From<i64> for Value {
    fn from(value: i64) -> (v: Value) {
        Value::Integer(value)
    }
}

impl FromSpecImpl<i64> for Value {
    open spec fn obeys_from_spec() -> bool {
        true
    }

    open spec fn from_spec(value: i64) -> Value {
        Value::Integer(value)
    }
}

impl From<String> for Value {
    fn from(value: String) -> (v: Value) {
        Value::String(value)
    }
}

impl FromSpecImpl<String> for Value {
    open spec fn obeys_from_spec() -> bool {
        true
    }

    open spec fn from_spec(value: String) -> Value {
        Value::String(value)
    }
}

impl From<Vec<Value>> for Value {
    fn from(value: Vec<Value>) -> (v: Value) {
        Value::List(value)
    }
}

impl FromSpecImpl<Vec<Value>> for Value {
    open spec fn obeys_from_spec() -> bool {
        true
    }

    open spec fn from_spec(value: Vec<Value>) -> Value {
        Value::List(value)
    }
}

impl From<Dictionary> for Value {
    fn from(value: Dictionary) -> (v: Value) {
        Value::Dictionary(value)
    }
}

impl FromSpecImpl<Dictionary> for Value {
    open spec fn obeys_from_spec() -> bool {
        true
    }

    open spec fn from_spec(value: Dictionary) -> Value {
        Value::Dictionary(value)
    }
}

/// The integer, if it fits eight bits.
pub fn narrow_to_i8(i: i64) -> (r: Result<i8, Error>)
    ensures
        match r {
            Ok(n) => n == i,
            Err(e) => e == Error::IntegerOverflow && !(-0x80 <= i <= 0x7F),
        },
{
    if -0x80 <= i && i <= 0x7F {
        Ok(i as i8)
    } else {
        Err(Error::IntegerOverflow)
    }
}

/// The integer, if it fits sixteen bits.
pub fn narrow_to_i16(i: i64) -> (r: Result<i16, Error>)
    ensures
        match r {
            Ok(n) => n == i,
            Err(e) => e == Error::IntegerOverflow && !(-0x8000 <= i <= 0x7FFF),
        },
{
    if -0x8000 <= i && i <= 0x7FFF {
        Ok(i as i16)
    } else {
        Err(Error::IntegerOverflow)
    }
}

/// The integer, if it fits thirty-two bits.
pub fn narrow_to_i32(i: i64) -> (r: Result<i32, Error>)
    ensures
        match r {
            Ok(n) => n == i,
            Err(e) => e == Error::IntegerOverflow && !(-0x8000_0000 <= i <= 0x7FFF_FFFF),
        },
{
    if -0x8000_0000 <= i && i <= 0x7FFF_FFFF {
        Ok(i as i32)
    } else {
        Err(Error::IntegerOverflow)
    }
}

impl Value {
    /// The string value with this text.
    pub fn string(text: &str) -> (v: Value)
        ensures
            v@ == Term::String(text@),
    {
        Value::String(String::from_str(text))
    }

    /// The float value of a bit pattern.
    pub fn float(bits: u64) -> (v: Value)
        ensures
            v == Value::Float(bits),
    {
        Value::Float(bits)
    }

    /// The boolean that the value is. Any other value is refused.
    pub fn try_into_bool(self) -> (r: Result<bool, Error>)
        ensures
            match self {
                Value::Boolean(b) => r == Ok::<bool, Error>(b),
                _ => r == Err::<bool, Error>(Error::InvalidConversion),
            },
    {
        match self {
            Value::Boolean(b) => Ok(b),
            _ => Err(Error::InvalidConversion),
        }
    }

    /// The integer that the value is. Any other value is refused.
    pub fn try_into_i64(self) -> (r: Result<i64, Error>)
        ensures
            match self {
                Value::Integer(i) => r == Ok::<i64, Error>(i),
                _ => r == Err::<i64, Error>(Error::InvalidConversion),
            },
    {
        match self {
            Value::Integer(i) => Ok(i),
            _ => Err(Error::InvalidConversion),
        }
    }

    /// The integer that the value is, in thirty-two bits. An integer that
    /// does not fit overflows; a value that is no integer is refused.
    pub fn try_into_i32(self) -> (r: Result<i32, Error>)
        ensures
            match self {
                Value::Integer(i) => if -0x8000_0000 <= i <= 0x7FFF_FFFF {
                    r matches Ok(n) && n == i
                } else {
                    r == Err::<i32, Error>(Error::IntegerOverflow)
                },
                _ => r == Err::<i32, Error>(Error::InvalidConversion),
            },
    {
        match self {
            Value::Integer(i) => narrow_to_i32(i),
            _ => Err(Error::InvalidConversion),
        }
    }

    /// The integer that the value is, in sixteen bits. An integer that does
    /// not fit overflows; a value that is no integer is refused.
    pub fn try_into_i16(self) -> (r: Result<i16, Error>)
        ensures
            match self {
                Value::Integer(i) => if -0x8000 <= i <= 0x7FFF {
                    r matches Ok(n) && n == i
                } else {
                    r == Err::<i16, Error>(Error::IntegerOverflow)
                },
                _ => r == Err::<i16, Error>(Error::InvalidConversion),
            },
    {
        match self {
            Value::Integer(i) => narrow_to_i16(i),
            _ => Err(Error::InvalidConversion),
        }
    }

    /// The integer that the value is, in eight bits. An integer that does
    /// not fit overflows; a value that is no integer is refused.
    pub fn try_into_i8(self) -> (r: Result<i8, Error>)
        ensures
            match self {
                Value::Integer(i) => if -0x80 <= i <= 0x7F {
                    r matches Ok(n) && n == i
                } else {
                    r == Err::<i8, Error>(Error::IntegerOverflow)
                },
                _ => r == Err::<i8, Error>(Error::InvalidConversion),
            },
    {
        match self {
            Value::Integer(i) => narrow_to_i8(i),
            _ => Err(Error::InvalidConversion),
        }
    }

    /// The bit pattern of the float that the value is. Any other value is refused.
    pub fn try_into_float(self) -> (r: Result<u64, Error>)
        ensures
            match self {
                Value::Float(bits) => r == Ok::<u64, Error>(bits),
                _ => r == Err::<u64, Error>(Error::InvalidConversion),
            },
    {
        match self {
            Value::Float(bits) => Ok(bits),
            _ => Err(Error::InvalidConversion),
        }
    }

    /// The string that the value is. Any other value is refused.
    pub fn try_into_string(self) -> (r: Result<String, Error>)
        ensures
            match self {
                Value::String(s) => r matches Ok(text) && text == s,
                _ => r matches Err(e) && e == Error::InvalidConversion,
            },
    {
        match self {
            Value::String(s) => Ok(s),
            _ => Err(Error::InvalidConversion),
        }
    }

    /// The bytes that the value is. Any other value is refused.
    pub fn try_into_bytes_vec(self) -> (r: Result<Vec<u8>, Error>)
        ensures
            match self {
                Value::Bytes(b) => r matches Ok(bytes) && bytes == b,
                _ => r matches Err(e) && e == Error::InvalidConversion,
            },
    {
        match self {
            Value::Bytes(b) => Ok(b),
            _ => Err(Error::InvalidConversion),
        }
    }

    /// The items of the list that the value is. Any other value is refused.
    pub fn try_into_list(self) -> (r: Result<Vec<Value>, Error>)
        ensures
            match self {
                Value::List(items) => r matches Ok(list) && list == items,
                _ => r matches Err(e) && e == Error::InvalidConversion,
            },
    {
        match self {
            Value::List(items) => Ok(items),
            _ => Err(Error::InvalidConversion),
        }
    }

    /// The dictionary that the value is. Any other value is refused.
    pub fn try_into_dictionary(self) -> (r: Result<Dictionary, Error>)
        ensures
            match self {
                Value::Dictionary(d) => r matches Ok(given) && given == d,
                _ => r matches Err(e) && e == Error::InvalidConversion,
            },
    {
        match self {
            Value::Dictionary(d) => Ok(d),
            _ => Err(Error::InvalidConversion),
        }
    }
}

} // verus!
