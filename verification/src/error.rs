//! Why a response could not be decoded.
use vstd::prelude::*;
use vstd::string::StringExecFns;

verus! {

/// The first thing found wrong with a response. Decoding stops there: no
/// record is ever built from a part of its fields.
#[derive(Debug, PartialEq, Eq)]
pub enum DecodeError {
    /// The body is not a JSON document.
    Malformed,
    /// A count or identifier is neither an unsigned 64-bit number nor the
    /// decimal text of one.
    ExpectedInteger,
    /// A number was read, but it does not fit in 16 bits.
    ExpectedU16,
    /// A time is not a whole number of seconds that names a calendar instant.
    ExpectedTimestamp,
    /// A value that must be a string is not one.
    ExpectedString,
    /// A value that must be a plain unsigned number is not one.
    ExpectedUnsigned,
    /// A value that must be an array is not one.
    ExpectedArray,
    /// An array that must hold exactly one element holds none or several.
    ExpectedUnitArray,
    /// A value that must be an object is not one.
    ExpectedObject,
    /// An uploader's status is a string, but none of the known ones.
    UnknownStatus,
    /// An object lacks the named member.
    MissingField(&'static str),
    /// The element of a one-element array was refused, for the reason inside.
    Element(Box<DecodeError>),
}

/// The text of an error, as `DecodeError::message` gives it.
pub open spec fn message_text(e: DecodeError) -> Seq<char>
    decreases e,
{
    match e {
        DecodeError::Malformed => "expected a JSON document"@,
        DecodeError::ExpectedInteger => "expected a u64 or a string"@,
        DecodeError::ExpectedU16 => "expected a u16"@,
        DecodeError::ExpectedTimestamp => "expected a timestamp in seconds"@,
        DecodeError::ExpectedString => "expected a string"@,
        DecodeError::ExpectedUnsigned => "expected a u64"@,
        DecodeError::ExpectedArray => "expected an array"@,
        DecodeError::ExpectedUnitArray => "expected an array of length 1"@,
        DecodeError::ExpectedObject => "expected an object"@,
        DecodeError::UnknownStatus => "unknown user status"@,
        DecodeError::MissingField(name) => "missing field `"@ + name@ + "`"@,
        DecodeError::Element(inner) => "failed to deserialize: "@ + message_text(*inner),
    }
}

impl DecodeError {
    /// A description of the shape that was expected.
    pub fn message(&self) -> (r: String)
        ensures
            r@ == message_text(*self),
        decreases *self,
    {
        match self {
            DecodeError::Malformed => String::from_str("expected a JSON document"),
            DecodeError::ExpectedInteger => String::from_str("expected a u64 or a string"),
            DecodeError::ExpectedU16 => String::from_str("expected a u16"),
            DecodeError::ExpectedTimestamp => String::from_str("expected a timestamp in seconds"),
            DecodeError::ExpectedString => String::from_str("expected a string"),
            DecodeError::ExpectedUnsigned => String::from_str("expected a u64"),
            DecodeError::ExpectedArray => String::from_str("expected an array"),
            DecodeError::ExpectedUnitArray => String::from_str("expected an array of length 1"),
            DecodeError::ExpectedObject => String::from_str("expected an object"),
            DecodeError::UnknownStatus => String::from_str("unknown user status"),
            DecodeError::MissingField(name) => {
                let mut text = String::from_str("missing field `");
                text.append(name);
                text.append("`");
                text
            },
            DecodeError::Element(inner) => {
                let mut text = String::from_str("failed to deserialize: ");
                let rest = inner.message();
                text.append(rest.as_str());
                text
            },
        }
    }
}

} // verus!
