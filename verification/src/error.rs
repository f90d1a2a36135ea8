//! Why a decode call gave no image, and the diagnostic text that says so.

use vstd::prelude::*;
use vstd::string::*;
use vstd::utf8::encode_utf8;
use crate::text::c_string;

verus! {

/// Why a decode call gave no image.
#[derive(PartialEq, Eq, Debug)]
pub enum DecodeError {
    /// No buffer was given, or an empty one.
    EmptyInput,
    /// No decoder knows the format; the text is the decoder lookup's own.
    NoDecoderFound(String),
    /// A decoder knew the format and gave no image; the text is its own.
    DecodeFailed(String),
    /// The decoder broke off in a way it does not report.
    InternalFault,
}

impl DecodeError {
    /// The diagnostic text of this error.
    pub open spec fn message_text(&self) -> Seq<char> {
        match self {
            DecodeError::EmptyInput => "Empty buffer provided"@,
            DecodeError::NoDecoderFound(detail) => "Failed to get decoder: "@ + detail@,
            DecodeError::DecodeFailed(detail) => "Failed to decode raw image: "@ + detail@,
            DecodeError::InternalFault => "an internal failure occurred during decoding"@,
        }
    }

    /// The diagnostic text of this error.
    pub fn message(&self) -> (text: String)
        ensures
            text@ == self.message_text(),
    {
        match self {
            DecodeError::EmptyInput => String::from_str("Empty buffer provided"),
            DecodeError::NoDecoderFound(detail) => String::from_str(
                "Failed to get decoder: ",
            ).concat(detail.as_str()),
            DecodeError::DecodeFailed(detail) => String::from_str(
                "Failed to decode raw image: ",
            ).concat(detail.as_str()),
            DecodeError::InternalFault => String::from_str(
                "an internal failure occurred during decoding",
            ),
        }
    }
}

/// The diagnostic text of every error holds at least one character.
pub proof fn message_is_not_empty(error: DecodeError)
    ensures
        error.message_text().len() > 0,
{
    reveal_strlit("Empty buffer provided");
    reveal_strlit("Failed to get decoder: ");
    reveal_strlit("Failed to decode raw image: ");
    reveal_strlit("an internal failure occurred during decoding");
}

/// The diagnostic of every error whose text holds no NUL is a C string that
/// is not empty: at least one byte stands in front of the terminator.
pub proof fn diagnostic_is_not_empty(error: DecodeError)
    requires
        !encode_utf8(error.message_text()).contains(0u8),
    ensures
        c_string(error.message_text()).len() >= 2,
        c_string(error.message_text()).last() == 0,
        c_string(error.message_text()).first() != 0,
{
    message_is_not_empty(error);
    let text = error.message_text();
    let bytes = encode_utf8(text);
    assert(bytes.len() >= 1);
    assert(bytes.contains(bytes[0]));
}

} // verus!
