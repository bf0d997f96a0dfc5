//! Decoding the configured key.

use base64::Engine;
use vstd::prelude::*;

verus! {

/// The error of the `base64` crate's decoders. Nothing is known of what one
/// holds.
#[verifier::external_type_specification]
#[verifier::external_body]
pub struct ExDecodeError(base64::DecodeError);

/// What the `base64` crate's `STANDARD` engine (the standard alphabet, with
/// canonical padding required) decodes `encoded` to, or `None` where it
/// refuses `encoded`.
pub uninterp spec fn base64_standard_decoding(encoded: Seq<u8>) -> Option<Seq<u8>>;

/// Calls `base64::engine::general_purpose::STANDARD.decode`.
///
/// Taken on trust: the result depends on the bytes of `encoded` alone, so
/// that it has a name, `base64_standard_decoding`; the call returns `Ok`
/// with the decoded bytes or `Err` where the engine refuses the input.
#[verifier::external_body]
pub(crate) fn decode_standard(encoded: &[u8]) -> (decoded: Result<Vec<u8>, base64::DecodeError>)
    ensures
        match decoded {
            Ok(bytes) => base64_standard_decoding(encoded@) == Some(bytes@),
            Err(_) => base64_standard_decoding(encoded@) is None,
        },
{
    base64::engine::general_purpose::STANDARD.decode(encoded)
}

} // verus!
