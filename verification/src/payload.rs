//! The stored form of a transaction payload: standard base64 text.

use vstd::prelude::*;

verus! {

/// `base64::DecodeError`, carried from the decoder to the code that maps it.
#[verifier::external_type_specification]
#[verifier::external_body]
pub struct ExDecodeError(base64::DecodeError);

/// The text that the `base64` crate's `STANDARD` engine (standard alphabet,
/// with padding) encodes `bytes` to.
pub uninterp spec fn base64_text(bytes: Seq<u8>) -> Seq<char>;

/// The bytes that the `base64` crate's `STANDARD` engine decodes `text` to,
/// `None` where it refuses the text.
pub uninterp spec fn base64_bytes(text: Seq<char>) -> Option<Seq<u8>>;

/// The longest input whose base64 text has a length that fits `usize`.
pub open spec fn encodable_len(len: nat) -> bool {
    len <= (usize::MAX / 4) * 3
}

/// Calls `Engine::encode` on `base64::engine::general_purpose::STANDARD`.
/// The result is named, not described. The call panics where the length of
/// the text, four characters for every three bytes begun, overflows
/// `usize`: those inputs are left out.
#[verifier::external_body]
fn standard_encode(bytes: &[u8]) -> (text: String)
    requires
        encodable_len(bytes@.len()),
    ensures
        text@ == base64_text(bytes@),
{
    base64::Engine::encode(&base64::engine::general_purpose::STANDARD, bytes)
}

/// Calls `Engine::decode` on `base64::engine::general_purpose::STANDARD`.
/// The result is named, not described: the bytes where the engine accepts
/// the text, its error where it refuses it.
#[verifier::external_body]
fn standard_decode(text: &str) -> (result: Result<Vec<u8>, base64::DecodeError>)
    ensures
        match result {
            Ok(bytes) => base64_bytes(text@) == Some(bytes@),
            Err(_) => base64_bytes(text@) is None,
        },
{
    base64::Engine::decode(&base64::engine::general_purpose::STANDARD, text)
}

/// The stored form of a payload. `None` exactly when the payload is too
/// long for its text to be addressed.
pub fn encode_payload(bytes: &[u8]) -> (text: Option<String>)
    ensures
        match text {
            Some(t) => encodable_len(bytes@.len()) && t@ == base64_text(bytes@),
            None => !encodable_len(bytes@.len()),
        },
{
    if bytes.len() <= (usize::MAX / 4) * 3 {
        Some(standard_encode(bytes))
    } else {
        None
    }
}

/// The payload that a stored form stands for. `None` exactly when the text
/// is not the base64 form of any payload.
pub fn decode_payload(text: &str) -> (bytes: Option<Vec<u8>>)
    ensures
        match bytes {
            Some(b) => base64_bytes(text@) == Some(b@),
            None => base64_bytes(text@) is None,
        },
{
    match standard_decode(text) {
        Ok(bytes) => Some(bytes),
        Err(_) => None,
    }
}

} // verus!
