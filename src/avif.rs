use vstd::prelude::*;

use crate::errors::CompressorError;
use crate::format::InputFormat;

verus! {

/// AVIF output. This build carries no AVIF encoder, so the call always reports the
/// missing capability, leaving the caller free to use an encoder of its own.
pub fn compress_avif(_data: &[u8], _quality: u8) -> (r: Result<Vec<u8>, CompressorError>)
    ensures
        r == Err::<Vec<u8>, CompressorError>(CompressorError::FeatureNotEnabled(InputFormat::Avif)),
{
    Err(CompressorError::FeatureNotEnabled(InputFormat::Avif))
}

} // verus!
