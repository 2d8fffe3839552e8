//! Printable encoding of binary fields: standard base64 with padding.

use base64::Engine;
use vstd::prelude::*;

verus! {

/// The error of `Engine::decode`.
#[verifier::external_type_specification]
#[verifier::external_body]
pub struct ExDecodeError(base64::DecodeError);

/// The standard base64 text of a byte string.
pub uninterp spec fn base64_text(bytes: Seq<u8>) -> Seq<char>;

/// The bytes that a text stands for in standard base64, or `None` where the
/// text is not valid base64.
pub uninterp spec fn base64_bytes(text: Seq<char>) -> Option<Seq<u8>>;

/// Whether the base64 text of `len` bytes, four characters for every three
/// bytes begun, fits in a buffer.
pub open spec fn encodable_len(len: nat) -> bool {
    (len / 3) * 4 + 4 <= isize::MAX
}

/// `Engine::encode` of the `STANDARD` engine.
///
/// It returns the base64 text of the bytes, and decoding that text gives the
/// bytes back. The call panics where the text is too long for a buffer,
/// which the precondition leaves out.
#[verifier::external_body]
pub(crate) fn encode(bytes: &[u8]) -> (r: String)
    requires
        encodable_len(bytes@.len()),
    ensures
        r@ == base64_text(bytes@),
        base64_bytes(r@) == Some(bytes@),
{
    base64::engine::general_purpose::STANDARD.encode(bytes)
}

/// `Engine::decode` of the `STANDARD` engine.
///
/// It returns the bytes that the text stands for, and fails where the text
/// is not valid base64; which of the two is a function of the text.
#[verifier::external_body]
pub(crate) fn decode(text: &str) -> (r: Result<Vec<u8>, base64::DecodeError>)
    ensures
        r matches Ok(bytes) ==> base64_bytes(text@) == Some(bytes@),
        r is Err ==> base64_bytes(text@) is None,
{
    base64::engine::general_purpose::STANDARD.decode(text)
}

} // verus!
