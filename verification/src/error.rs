use crate::version::{format_hex, hex_digits};
use vstd::prelude::*;
use vstd::string::StringExecFns;

verus! {

/// What can go wrong while a value or a message is turned into bytes or read back from them.
#[derive(Debug, Clone, Copy, PartialEq, Eq, Structural)]
pub enum Error {
    /// The first byte of a value belongs to no class of the format.
    InvalidMarker(u8),
    /// A structure carries a signature byte that the catalog does not list.
    InvalidSignature(u8),
    /// A structure's field count or field kinds disagree with the catalog,
    /// or a dictionary key is not a string.
    InvalidStructure,
    /// The input ends before the value is complete.
    Truncated,
    /// The bytes of a string are not UTF-8.
    InvalidUtf8,
    /// An integer does not fit the narrower type that was asked for.
    IntegerOverflow,
    /// A length exceeds what the widest size class of its kind can carry.
    ValueTooLarge,
    /// A value or a message is not of the kind that was asked for.
    InvalidConversion,
}

/// What an error says.
pub open spec fn error_text(e: Error) -> Seq<char> {
    match e {
        Error::InvalidMarker(b) => "invalid marker byte: "@ + ("0x"@ + hex_digits(b as nat)),
        Error::InvalidSignature(b) => "invalid signature byte: "@ + ("0x"@ + hex_digits(b as nat)),
        Error::InvalidStructure => "invalid structure"@,
        Error::Truncated => "input ends before the value does"@,
        Error::InvalidUtf8 => "string is not UTF-8"@,
        Error::IntegerOverflow => "integer does not fit the type asked for"@,
        Error::ValueTooLarge => "value too large"@,
        Error::InvalidConversion => "invalid conversion"@,
    }
}

impl Error {
    /// What the error says.
    pub fn message(&self) -> (text: String)
        ensures
            text@ == error_text(*self),
    {
        match self {
            Error::InvalidMarker(b) => {
                let mut text = String::from_str("invalid marker byte: ");
                let shown = format_hex(*b as u32);
                text.append(shown.as_str());
                text
            },
            Error::InvalidSignature(b) => {
                let mut text = String::from_str("invalid signature byte: ");
                let shown = format_hex(*b as u32);
                text.append(shown.as_str());
                text
            },
            Error::InvalidStructure => String::from_str("invalid structure"),
            Error::Truncated => String::from_str("input ends before the value does"),
            Error::InvalidUtf8 => String::from_str("string is not UTF-8"),
            Error::IntegerOverflow => String::from_str("integer does not fit the type asked for"),
            Error::ValueTooLarge => String::from_str("value too large"),
            Error::InvalidConversion => String::from_str("invalid conversion"),
        }
    }
}

} // verus!
