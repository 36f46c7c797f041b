//! Text encodings that the decoder relies on from outside crates.
use vstd::prelude::*;
use vstd::utf8::{decode_utf8, valid_utf8};
use base64::Engine;

verus! {

/// The base-58 text (Bitcoin alphabet) of a byte string.
pub uninterp spec fn base58_of(b: Seq<u8>) -> Seq<char>;

/// The bytes that a standard, padded base-64 text decodes to, if it is one.
pub uninterp spec fn base64_decoded(t: Seq<u8>) -> Option<Seq<u8>>;

/// Relies on `bs58::encode(..).into_string()`: the base-58 text of `b`, which
/// depends on the bytes alone.
#[verifier::external_body]
pub(crate) fn base58(b: &[u8]) -> (r: String)
    ensures
        r@ == base58_of(b@),
{
    bs58::encode(b).into_string()
}

/// Relies on `base64::engine::general_purpose::STANDARD.decode`: the decoded
/// bytes when `t` is valid standard base-64, and nothing otherwise.
#[verifier::external_body]
pub(crate) fn base64_decode(t: &[u8]) -> (r: Option<Vec<u8>>)
    ensures
        r is Some <==> base64_decoded(t@) is Some,
        r is Some ==> r->0@ == base64_decoded(t@)->0,
{
    base64::engine::general_purpose::STANDARD.decode(t).ok()
}

/// Relies on `std::str::from_utf8`: it accepts exactly the well-formed UTF-8
/// byte strings, and the text it gives holds the characters they encode.
#[verifier::external_body]
pub(crate) fn utf8_text(b: &[u8]) -> (r: Option<&str>)
    ensures
        r is Some <==> valid_utf8(b@),
        r is Some ==> r->0@ == decode_utf8(b@),
{
    std::str::from_utf8(b).ok()
}

} // verus!
