//! Base64 in the standard alphabet with padding.

use vstd::prelude::*;

verus! {

/// Why the decoder of `base64` refuses a text. Opaque here.
#[verifier::external_type_specification]
#[verifier::external_body]
pub struct ExBase64DecodeError(base64::DecodeError);

/// What the standard base64 engine writes for `data`.
pub uninterp spec fn base64_text(data: Seq<u8>) -> Seq<char>;

/// What the standard base64 engine reads from `text`: the bytes it stands
/// for, or `None` where `text` is not canonical padded base64.
pub uninterp spec fn base64_bytes(text: Seq<char>) -> Option<Seq<u8>>;

/// The longest input that the encoder is asked to take: above three quarters
/// of the address space the length of its output cannot be computed.
pub open spec fn encodable_len(len: nat) -> bool {
    len <= usize::MAX / 2
}

/// Encodes bytes as base64.
///
/// Trusted: calls `Engine::encode` on `base64::prelude::BASE64_STANDARD`,
/// which panics only where the output length overflows `usize`. The contract
/// claims that the output uses the standard alphabet and `=`, so it holds no
/// `.`, and that the same engine decodes it to the input.
#[verifier::external_body]
pub(crate) fn base64_encode(data: &[u8]) -> (r: String)
    requires
        encodable_len(data@.len()),
    ensures
        r@ == base64_text(data@),
        base64_bytes(r@) == Some(data@),
        !r@.contains('.'),
{
    base64::Engine::encode(&base64::prelude::BASE64_STANDARD, data)
}

/// Decodes base64.
///
/// Trusted: calls `Engine::decode` on `base64::prelude::BASE64_STANDARD`.
/// The contract only names the result.
#[verifier::external_body]
pub(crate) fn base64_decode(text: &str) -> (r: Result<Vec<u8>, base64::DecodeError>)
    ensures
        match r {
            Ok(data) => base64_bytes(text@) == Some(data@),
            Err(_) => base64_bytes(text@) is None,
        },
{
    base64::Engine::decode(&base64::prelude::BASE64_STANDARD, text)
}

/// The base64 text of `data`, or `None` where `data` is too long for the
/// encoder.
pub fn encode_bytes(data: &Vec<u8>) -> (r: Option<String>)
    ensures
        r is Some <==> encodable_len(data@.len()),
        r matches Some(text) ==> {
            &&& text@ == base64_text(data@)
            &&& base64_bytes(text@) == Some(data@)
            &&& !text@.contains('.')
        },
{
    if data.len() <= usize::MAX / 2 {
        Some(base64_encode(data.as_slice()))
    } else {
        None
    }
}

/// The bytes that the base64 `text` stands for, or `None` where it is not
/// well formed.
pub fn decode_text(text: &str) -> (r: Option<Vec<u8>>)
    ensures
        r.deep_view() == base64_bytes(text@),
        r matches Some(data) ==> base64_bytes(text@) == Some(data@),
        r is None ==> base64_bytes(text@) is None,
{
    match base64_decode(text) {
        Ok(data) => Some(data),
        Err(_) => None,
    }
}

} // verus!
