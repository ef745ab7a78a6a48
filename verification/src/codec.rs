//! The base64 text form of a payload, as the `base64` crate computes it.
//!
//! Nothing in this file is proved: each item states what is taken on trust
//! from that crate's standard engine (standard alphabet, canonical padding).

use base64::prelude::BASE64_STANDARD;
use base64::Engine;
use vstd::prelude::*;

verus! {

/// `base64::DecodeError`, the reason the standard engine gives for refusing a
/// text. It is carried through as it is; nothing is read from it here.
#[verifier::external_type_specification]
#[verifier::external_body]
pub struct ExDecodeError(base64::DecodeError);

/// The text that `Engine::encode` of `base64::prelude::BASE64_STANDARD`
/// returns for `bytes`: their padded base64 form in the standard alphabet.
pub uninterp spec fn base64_standard(bytes: Seq<u8>) -> Seq<char>;

/// The number of characters in the padded base64 form of `n` bytes: four for
/// every started group of three.
pub open spec fn encoded_len(n: nat) -> nat {
    4 * ((n + 2) / 3)
}

/// Relates a text to the outcome of decoding it: the outcome is `Some(bytes)`
/// exactly when the text is the standard base64 form of `bytes`.
pub open spec fn decodes_to(text: Seq<char>, outcome: Option<Seq<u8>>) -> bool {
    &&& outcome matches Some(bytes) ==> base64_standard(bytes) == text
    &&& forall|bytes: Seq<u8>| #[trigger] base64_standard(bytes) == text ==> outcome == Some(bytes)
}

/// Calls `Engine::encode` on `BASE64_STANDARD`.
///
/// Trusted: the result is the crate's standard encoding of `bytes`, and it is
/// as long as the crate's `encoded_len` says for padded output. The call
/// panics when that length cannot be allocated, which `requires` leaves out.
#[verifier::external_body]
pub(crate) fn encode_standard(bytes: &Vec<u8>) -> (text: String)
    requires
        encoded_len(bytes@.len()) <= isize::MAX,
    ensures
        text@ == base64_standard(bytes@),
        text@.len() == encoded_len(bytes@.len()),
{
    BASE64_STANDARD.encode(bytes)
}

/// Calls `Engine::decode` on `BASE64_STANDARD`.
///
/// Trusted: the engine accepts canonical encodings only (padding required, no
/// stray bits, no foreign characters), so it returns `Ok(bytes)` exactly when
/// `text` is the standard encoding of `bytes`, and an error for any other text.
#[verifier::external_body]
pub(crate) fn decode_standard(text: &str) -> (r: Result<Vec<u8>, base64::DecodeError>)
    ensures
        decodes_to(
            text@,
            match r {
                Ok(bytes) => Some(bytes@),
                Err(_) => None,
            },
        ),
{
    BASE64_STANDARD.decode(text)
}

} // verus!
