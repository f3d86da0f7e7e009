//! Errors of the combining pipeline.

use vstd::prelude::*;

verus! {

/// The ways in which combining two images can fail.
#[derive(Clone, Copy, Debug, PartialEq, Eq, Structural)]
pub enum ImageDataErrors {
    /// The two inputs were encoded in different formats.
    DifferentImageFormats,
    /// The combined buffer exceeds the capacity reserved for the output.
    BufferTooSmall,
    /// The bytes are not an image that the codec can decode.
    DecodeFailed,
}

} // verus!
