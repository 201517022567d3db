use vstd::prelude::*;

use crate::format::InputFormat;

verus! {

/// The ways a compression call can fail.
#[derive(Debug, Clone, PartialEq, Eq)]
pub enum CompressorError {
    /// The requested format name is not one this library knows.
    UnsupportedFormat(String),
    /// The input bytes are not a readable image.
    DecodeError(String),
    /// The encoder refused the pixels or its parameters.
    EncodeError(String),
    /// The requested output codec is not part of this build.
    FeatureNotEnabled(InputFormat),
    /// Orientation metadata could not be read; callers fall back to identity.
    ExifError(String),
}

} // verus!
