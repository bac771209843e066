//! The error taxonomy of the decoders.

use vstd::prelude::*;

verus! {

/// Why a decode failed. Every failure aborts the whole decode and surfaces
/// as exactly one of these; there is no partial result.
#[derive(Clone, Copy, Debug, PartialEq, Eq, Structural)]
pub enum DecodeError {
    /// The input text is not well-formed JSON.
    Syntax,
    /// A required field (`content`, `category`, `type`, `properties`) is
    /// absent from the input object.
    MissingField,
    /// A field is present but has the wrong JSON shape.
    TypeMismatch,
    /// The scalar coercion routine was handed an empty array.
    EmptySequence,
}

} // verus!
