//! Base64 text to bytes, by the `base64` crate.

use vstd::prelude::*;
use crate::error::PipelineError;

verus! {

/// The decoder's error; only its presence is read.
#[verifier::external_type_specification]
#[verifier::external_body]
pub struct ExDecodeError(base64::DecodeError);

/// The bytes that `base64::decode` yields for `text`, read in the standard
/// alphabet, or `None` where it reports an error.
pub uninterp spec fn base64_decoded(text: Seq<char>) -> Option<Seq<u8>>;

/// Calls `base64::decode` on the text. Trusted: the outcome depends on the
/// text alone, so it is the one that `base64_decoded` names. The decoder
/// sizes its buffer with checked arithmetic that cannot fail on the length
/// of a string in memory.
#[verifier::external_body]
fn decode_standard(text: &str) -> (r: Result<Vec<u8>, base64::DecodeError>)
    ensures
        match r {
            Ok(bytes) => base64_decoded(text@) == Some(bytes@),
            Err(_) => base64_decoded(text@) is None,
        },
{
    base64::decode(text)
}

/// Decodes base64 text. Succeeds exactly on the texts the decoder accepts,
/// with the decoder's bytes, unaltered.
pub fn decode(text: &str) -> (r: Result<Vec<u8>, PipelineError>)
    ensures
        match r {
            Ok(bytes) => base64_decoded(text@) == Some(bytes@),
            Err(e) => base64_decoded(text@) is None && e == PipelineError::InitSegmentDecode,
        },
{
    match decode_standard(text) {
        Ok(bytes) => Ok(bytes),
        Err(_) => Err(PipelineError::InitSegmentDecode),
    }
}

} // verus!
