//! The failures of the codec.

use vstd::prelude::*;

verus! {

/// Why a document could not be read as a message.
#[derive(Clone, Copy, Debug, PartialEq, Eq)]
pub enum DecodeError {
    /// The text is not a JSON document.
    Syntax,
    /// A field that the message needs is not in the document, or the place
    /// where it is looked for is not an object.
    MissingField,
    /// A field holds a JSON value of another type than the message needs.
    WrongType,
    /// An enumerated field holds a string outside its closed set.
    UnknownTag,
    /// The `type` field names the other of the two message kinds.
    KindMismatch,
    /// The `content` field is not base64 text.
    BadContent,
    /// The `timestamp` field is not the display form of an instant.
    BadTimestamp,
}

/// Why a message could not be written as a document.
#[derive(Clone, Copy, Debug, PartialEq, Eq)]
pub enum EncodeError {
    /// The message carries the tag of the other message kind.
    KindMismatch,
    /// The timestamp lies outside the instants that have a display form.
    TimestampOutOfRange,
}

} // verus!
