use vstd::prelude::*;

verus! {

/// The URL-safe, unpadded base64 encoding of a byte sequence, as the
/// `URL_SAFE_NO_PAD` engine of the base64 crate produces it.
pub uninterp spec fn b64url_of(bytes: Seq<u8>) -> Seq<char>;

/// What the `URL_SAFE_NO_PAD` engine of the base64 crate decodes a string
/// to; `None` where it rejects the input.
pub uninterp spec fn b64url_decoded(s: Seq<char>) -> Option<Seq<u8>>;

/// The length of the unpadded base64 encoding of `n` bytes: four characters
/// for every three bytes, and two or three for a one- or two-byte remainder.
pub open spec fn b64url_len(n: nat) -> nat {
    (n / 3) * 4 + if n % 3 == 0 { 0 } else { n % 3 + 1 }
}

/// A character of the URL-safe base64 alphabet: letters, digits, `-` and
/// `_`. The padding sign is not one of them.
pub open spec fn is_b64url_char(c: char) -> bool {
    ('A' <= c && c <= 'Z') || ('a' <= c && c <= 'z') || ('0' <= c && c <= '9') || c == '-' || c
        == '_'
}

/// Relies on base64's `Engine::encode` with the `URL_SAFE_NO_PAD` engine:
/// the encoding is a function of the bytes alone, it is unpadded and four
/// characters per three bytes long, every character comes from the
/// `URL_SAFE` alphabet, and decoding with the same engine gives the bytes
/// back.
#[verifier::external_body]
pub(crate) fn b64url_encode(bytes: &[u8]) -> (r: String)
    ensures
        r@ == b64url_of(bytes@),
        r@.len() == b64url_len(bytes@.len()),
        forall|i: int| 0 <= i < r@.len() ==> is_b64url_char(#[trigger] r@[i]),
        b64url_decoded(r@) == Some(bytes@),
{
    base64::Engine::encode(&base64::engine::general_purpose::URL_SAFE_NO_PAD, bytes)
}

/// Relies on base64's `Engine::decode` with the `URL_SAFE_NO_PAD` engine:
/// the outcome is a function of the input string alone.
#[verifier::external_body]
pub(crate) fn b64url_decode(s: &str) -> (r: Option<Vec<u8>>)
    ensures
        r is Some <==> b64url_decoded(s@) is Some,
        r matches Some(b) ==> b64url_decoded(s@) == Some(b@),
{
    base64::Engine::decode(&base64::engine::general_purpose::URL_SAFE_NO_PAD, s).ok()
}

} // verus!
