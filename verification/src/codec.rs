//! The byte encodings the client uses: Base64 and UTF-8.
use vstd::prelude::*;

use base64::Engine;

use crate::text::opt_seq;

verus! {

/// The bytes that Base64 text decodes to in the standard alphabet with
/// padding, when it is valid there.
pub uninterp spec fn base64_standard_decoded(text: Seq<char>) -> Option<Seq<u8>>;

/// The same for the standard alphabet without padding.
pub uninterp spec fn base64_standard_no_pad_decoded(text: Seq<char>) -> Option<Seq<u8>>;

/// The same for the URL-safe alphabet with padding.
pub uninterp spec fn base64_url_safe_decoded(text: Seq<char>) -> Option<Seq<u8>>;

/// The same for the URL-safe alphabet without padding.
pub uninterp spec fn base64_url_safe_no_pad_decoded(text: Seq<char>) -> Option<Seq<u8>>;

/// The view of optional bytes.
pub open spec fn opt_bytes(o: Option<Vec<u8>>) -> Option<Seq<u8>> {
    match o {
        Some(b) => Some(b@),
        None => None,
    }
}

/// `base64::engine::general_purpose::STANDARD.decode` (`Engine::decode`).
/// Claimed: the result is `base64_standard_decoded` of the text; `None`
/// stands for the decoder's error.
#[verifier::external_body]
pub(crate) fn decode_standard(input: &str) -> (r: Option<Vec<u8>>)
    ensures
        opt_bytes(r) == base64_standard_decoded(input@),
{
    base64::engine::general_purpose::STANDARD.decode(input).ok()
}

/// `base64::engine::general_purpose::STANDARD_NO_PAD.decode`.  Claimed: the
/// result is `base64_standard_no_pad_decoded` of the text.
#[verifier::external_body]
pub(crate) fn decode_standard_no_pad(input: &str) -> (r: Option<Vec<u8>>)
    ensures
        opt_bytes(r) == base64_standard_no_pad_decoded(input@),
{
    base64::engine::general_purpose::STANDARD_NO_PAD.decode(input).ok()
}

/// `base64::engine::general_purpose::URL_SAFE.decode`.  Claimed: the result
/// is `base64_url_safe_decoded` of the text.
#[verifier::external_body]
pub(crate) fn decode_url_safe(input: &str) -> (r: Option<Vec<u8>>)
    ensures
        opt_bytes(r) == base64_url_safe_decoded(input@),
{
    base64::engine::general_purpose::URL_SAFE.decode(input).ok()
}

/// `base64::engine::general_purpose::URL_SAFE_NO_PAD.decode`.  Claimed: the
/// result is `base64_url_safe_no_pad_decoded` of the text.
#[verifier::external_body]
pub(crate) fn decode_url_safe_no_pad(input: &str) -> (r: Option<Vec<u8>>)
    ensures
        opt_bytes(r) == base64_url_safe_no_pad_decoded(input@),
{
    base64::engine::general_purpose::URL_SAFE_NO_PAD.decode(input).ok()
}

/// The text that `bytes` encode in UTF-8, when they are valid UTF-8.
pub open spec fn utf8_text(bytes: Seq<u8>) -> Option<Seq<char>> {
    if vstd::utf8::valid_utf8(bytes) {
        Some(vstd::utf8::decode_utf8(bytes))
    } else {
        None
    }
}

/// `String::from_utf8`: the text the bytes encode, or `None` when they
/// are not valid UTF-8 (as std documents it).
#[verifier::external_body]
pub(crate) fn string_from_utf8(bytes: Vec<u8>) -> (r: Option<String>)
    ensures
        opt_seq(r) == utf8_text(bytes@),
{
    String::from_utf8(bytes).ok()
}

/// The standard Base64 text of `bytes`, with padding.
pub uninterp spec fn base64_standard_encoded(bytes: Seq<u8>) -> Seq<char>;

/// A character of the standard Base64 alphabet, or its padding `=`.
pub open spec fn is_base64_standard_char(c: char) -> bool {
    ('A' <= c && c <= 'Z') || ('a' <= c && c <= 'z') || ('0' <= c && c <= '9') || c == '+' || c
        == '/' || c == '='
}

/// `base64::engine::general_purpose::STANDARD.encode` (`Engine::encode`).
/// Claimed: the result is `base64_standard_encoded` of the bytes; it is
/// made of the standard alphabet and `=` only; and the same engine
/// decodes it back to the bytes (the encoder writes canonical padding,
/// which is what this engine's decoder asks for).
#[verifier::external_body]
pub(crate) fn encode_base64_standard(bytes: &Vec<u8>) -> (r: String)
    ensures
        r@ == base64_standard_encoded(bytes@),
        forall|i: int| 0 <= i < r@.len() ==> is_base64_standard_char(#[trigger] r@[i]),
        base64_standard_decoded(r@) == Some(bytes@),
{
    base64::engine::general_purpose::STANDARD.encode(bytes)
}

} // verus!
