//! The error taxonomy shared by the builders and the wire codec.

use vstd::prelude::*;

verus! {

/// An error returned by a validating builder, an encoder, or a decoder.
///
/// Builders fail fast on the first violated rule; decoders return exactly one
/// error per failed decode.  All variants are recoverable values, never
/// aborts.
#[derive(Debug, PartialEq, Eq)]
pub enum CodecError {
    /// A field that the builder or the wire shape requires was never set.
    MissingRequiredField(&'static str),
    /// A numeric field lies outside its permitted inclusive bounds.
    InvalidFieldRange(&'static str, i64, i64),
    /// A value of the wrong shape was supplied; carries the expected and the
    /// actual shape names.
    TypeMismatch(&'static str, &'static str),
    /// A tagged payload carried a discriminant outside the recognized table.
    UnknownDiscriminant(u64),
    /// A discriminant whose variant requires a payload arrived without one.
    PayloadMissingForVariant(u8),
    /// A payload of a recognized variant failed to decode; carries the
    /// underlying decode error.
    PayloadMalformed(Box<CodecError>),
    /// A string value exceeds the maximum length the wire permits; carries
    /// the field and the maximum.
    ValueTooLong(&'static str, usize),
}

} // verus!
