use vstd::prelude::*;

use crate::errors::CompressorError;
use crate::format::InputFormat;

verus! {

/// WebP output. This build carries no WebP encoder, so the call always reports the
/// missing capability, leaving the caller free to use an encoder of its own.
pub fn compress_webp(_data: &[u8], _quality: u8) -> (r: Result<Vec<u8>, CompressorError>)
    ensures
        r == Err::<Vec<u8>, CompressorError>(CompressorError::FeatureNotEnabled(InputFormat::Webp)),
{
    Err(CompressorError::FeatureNotEnabled(InputFormat::Webp))
}

} // verus!
