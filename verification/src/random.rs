use vstd::prelude::*;

use crate::b64::{b64url_decoded, b64url_encode, b64url_len, b64url_of, is_b64url_char};

verus! {

/// Relies on rand::random, which draws a uniform value from the
/// thread-local cryptographically secure generator. Nothing can be promised
/// of the value.
#[verifier::external_body]
fn random_byte() -> u8 {
    rand::random()
}

/// A source of opaque random tokens: `state`, `nonce` and the PKCE code
/// verifier are all drawn from one of these. Every token is the URL-safe,
/// unpadded base64 encoding of exactly `size` fresh bytes, so it decodes
/// back to that many bytes.
pub trait RandomStringGenerator {
    fn generate(&self, size: usize) -> (r: String)
        ensures
            r@.len() == b64url_len(size as nat),
            forall|i: int| 0 <= i < r@.len() ==> is_b64url_char(#[trigger] r@[i]),
            exists|b: Seq<u8>|
                b.len() == size && r@ == b64url_of(b) && b64url_decoded(r@) == Some(b),
    ;
}

/// The default token source, backed by the process's secure generator.
pub struct RandomString {}

impl RandomString {
    pub fn new() -> (r: Self) {
        RandomString {}
    }
}

impl RandomStringGenerator for RandomString {
    fn generate(&self, size: usize) -> (r: String) {
        let mut bytes: Vec<u8> = Vec::new();
        while bytes.len() < size
            invariant
                bytes@.len() <= size,
            decreases size - bytes.len(),
        {
            bytes.push(random_byte());
        }
        let r = b64url_encode(bytes.as_slice());
        assert(bytes@.len() == size && r@ == b64url_of(bytes@) && b64url_decoded(r@) == Some(
            bytes@,
        ));
        r
    }
}

/// Every generated token decodes, under the same URL-safe unpadded engine,
/// to exactly the number of bytes it was drawn from.
pub proof fn lemma_token_decodes_to_size(r: Seq<char>, size: nat)
    requires
        exists|b: Seq<u8>| b.len() == size && r == b64url_of(b) && b64url_decoded(r) == Some(b),
    ensures
        b64url_decoded(r) is Some,
        b64url_decoded(r)->Some_0.len() == size,
{
    let b = choose|b: Seq<u8>|
        b.len() == size && r == b64url_of(b) && b64url_decoded(r) == Some(b);
    assert(b64url_decoded(r) == Some(b));
}

} // verus!
