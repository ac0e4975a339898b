//! Base64 transcoding adapters around the standard-alphabet engine.

use vstd::prelude::*;

use crate::error::DocError;

verus! {

/// The standard-alphabet, padded base64 text for `bytes`. A function of the
/// bytes alone.
pub uninterp spec fn base64_of(bytes: Seq<u8>) -> Seq<char>;

/// The bytes the standard-alphabet engine decodes `text` to, or `None` when
/// the text is not well-formed base64. A function of the text alone.
pub uninterp spec fn base64_decoded(text: Seq<char>) -> Option<Seq<u8>>;

/// Relies on base64's `Engine::encode` with the `STANDARD` engine (standard
/// alphabet, padded): encoding is a pure function of the bytes, the padded
/// output holds four characters for every three input bytes, and decoding
/// with the same engine restores the input exactly.
#[verifier::external_body]
pub fn buffer_to_base64(buffer: &Vec<u8>) -> (r: String)
    ensures
        r@ == base64_of(buffer@),
        r@.len() == 4 * ((buffer@.len() + 2) / 3),
        base64_decoded(r@) == Some(buffer@),
{
    base64::Engine::encode(&base64::engine::general_purpose::STANDARD, buffer.as_slice())
}

/// Relies on base64's `Engine::decode` with the `STANDARD` engine: decoding
/// is a pure function of the text and fails exactly on malformed input.
#[verifier::external_body]
fn base64_decode_raw(text: &str) -> (r: Result<Vec<u8>, String>)
    ensures
        r is Ok <==> base64_decoded(text@) is Some,
        r is Ok ==> Some(r->Ok_0@) == base64_decoded(text@),
{
    match base64::Engine::decode(&base64::engine::general_purpose::STANDARD, text) {
        Ok(v) => Ok(v),
        Err(e) => Err(format!("Failed to decode Base64: {e}")),
    }
}

/// Decode a base64 string to its bytes; malformed input is rejected as
/// `InvalidInput`.
pub fn base64_to_buffer(base64: &str) -> (r: Result<Vec<u8>, DocError>)
    ensures
        r is Ok <==> base64_decoded(base64@) is Some,
        r is Ok ==> Some(r->Ok_0@) == base64_decoded(base64@),
        r is Err ==> r->Err_0 is InvalidInput,
{
    match base64_decode_raw(base64) {
        Ok(v) => Ok(v),
        Err(m) => Err(DocError::InvalidInput(m)),
    }
}

} // verus!
