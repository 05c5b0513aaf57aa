//! The trusted boundary to the base64 crate.  Images are encoded for the
//! vision-model request bodies; blueprint uploads are decoded from the API.

use vstd::prelude::*;

verus! {

/// The standard-alphabet, padded base64 text of a byte sequence.  The
/// result depends on the bytes alone.
pub uninterp spec fn b64_of(b: Seq<u8>) -> Seq<char>;

/// What the standard-alphabet, padded base64 decoder makes of a text:
/// the decoded bytes, or nothing when the text is not valid base64.  The
/// outcome depends on the text alone.
pub uninterp spec fn b64_decode_of(s: Seq<char>) -> Option<Seq<u8>>;

/// Relies on base64's STANDARD engine encode: four output characters for
/// every three input bytes, padded.
#[verifier::external_body]
pub(crate) fn b64_encode(b: &[u8]) -> (r: String)
    requires
        b@.len() <= usize::MAX as nat / 4,
    ensures
        r@ == b64_of(b@),
        r@.len() == 4 * ((b@.len() + 2) / 3),
{
    base64::Engine::encode(&base64::engine::general_purpose::STANDARD, b)
}

/// Relies on base64's STANDARD engine decode: rejects text that is not
/// valid padded base64.
#[verifier::external_body]
pub(crate) fn b64_decode(s: &str) -> (r: Option<Vec<u8>>)
    ensures
        r is Some <==> b64_decode_of(s@) is Some,
        r matches Some(v) ==> b64_decode_of(s@) == Some(v@),
{
    match base64::Engine::decode(&base64::engine::general_purpose::STANDARD, s) {
        Ok(v) => Some(v),
        Err(_) => None,
    }
}

} // verus!
