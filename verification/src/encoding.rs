//! Audio arrives from the user interface as base64 text; decoding it is left
//! to the `base64` crate.

use vstd::prelude::*;

verus! {

#[verifier::external_type_specification]
#[verifier::external_body]
pub struct ExBase64DecodeError(base64::DecodeError);

/// The bytes that the standard base64 engine of the `base64` crate decodes
/// from `text`, or `None` where it reports an error.
pub uninterp spec fn base64_decoded(text: Seq<char>) -> Option<Seq<u8>>;

/// Calls `Engine::decode` on `base64::engine::general_purpose::STANDARD`.
/// Trusted: the call succeeds exactly on the texts for which
/// [`base64_decoded`] is `Some`, and then returns those bytes.
#[verifier::external_body]
pub(crate) fn decode_base64(text: &str) -> (res: Result<Vec<u8>, base64::DecodeError>)
    ensures
        res is Ok <==> base64_decoded(text@) is Some,
        res matches Ok(bytes) ==> base64_decoded(text@) == Some(bytes@),
{
    base64::Engine::decode(&base64::engine::general_purpose::STANDARD, text)
}

/// Decodes base64 text into bytes; `None` where the text is no base64.
pub fn decode_audio(text: &str) -> (res: Option<Vec<u8>>)
    ensures
        match res {
            Some(bytes) => base64_decoded(text@) == Some(bytes@),
            None => base64_decoded(text@) is None,
        },
{
    match decode_base64(text) {
        Ok(bytes) => Some(bytes),
        Err(_) => None,
    }
}

} // verus!
