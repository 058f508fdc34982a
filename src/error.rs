use vstd::prelude::*;

verus! {

/// Why an encode or a decode failed.
#[derive(Debug, PartialEq, Eq, Clone, Copy, Structural)]
pub enum Error {
    /// The buffer ended where a tag byte was due.
    MissingFieldType,
    /// Fewer than two bytes were left for a length prefix.
    MissingFieldLen,
    /// Fewer bytes were left than a record's length prefix declares, or a fixed-size payload
    /// had the wrong size.
    TruncatedPayload,
    /// The tag is unknown or is not the kind asked for, or a discriminant byte is out of range.
    InvalidFieldType,
    /// A text payload is not well-formed UTF-8.
    EncodingError,
    /// A payload is longer than a length prefix can hold.
    LengthOverflow,
}

} // verus!
