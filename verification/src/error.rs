//! What can go wrong when a table is read or written.

use vstd::prelude::*;

verus! {

/// Why a conversion failed.
#[derive(Clone, Copy, Debug, PartialEq, Eq, Structural)]
pub enum CodecError {
    /// The buffer is shorter than the header and the records that it announces.
    MalformedInput,
    /// A pointer leads to a string that starts or ends outside the buffer.
    OutOfBounds,
    /// No pattern of the catalog matches the file name.
    UnrecognizedFormat,
    /// The document does not have the shape that its format declares, or holds more than
    /// the format's count, size and pointer fields can express.
    TextParseError,
}

impl CodecError {
    /// A short description for messages.
    pub fn message(&self) -> (text: &'static str)
        ensures
            text@ == (match *self {
                CodecError::MalformedInput => "malformed input"@,
                CodecError::OutOfBounds => "pointer out of bounds"@,
                CodecError::UnrecognizedFormat => "unrecognized format"@,
                CodecError::TextParseError => "document does not match its format"@,
            }),
    {
        match self {
            CodecError::MalformedInput => "malformed input",
            CodecError::OutOfBounds => "pointer out of bounds",
            CodecError::UnrecognizedFormat => "unrecognized format",
            CodecError::TextParseError => "document does not match its format",
        }
    }
}

} // verus!
