use vstd::prelude::*;

use crate::b64::{b64url_decoded, b64url_encode, b64url_len, b64url_of};
use crate::random::{RandomString, RandomStringGenerator};

verus! {

/// The SHA-256 digest of the UTF-8 bytes of a string, as sha2 computes it.
pub uninterp spec fn sha256_utf8_of(s: Seq<char>) -> Seq<u8>;

/// Relies on sha2's Sha256::digest over the UTF-8 bytes of `s`: a 32-byte
/// digest that depends on the characters alone.
#[verifier::external_body]
fn sha256_utf8(s: &str) -> (r: Vec<u8>)
    ensures
        r@ == sha256_utf8_of(s@),
        r@.len() == 32,
{
    <sha2::Sha256 as sha2::Digest>::digest(s.as_bytes()).to_vec()
}

/// The challenge that belongs to a verifier: the URL-safe, unpadded base64
/// encoding of the SHA-256 digest of the verifier's bytes.
pub open spec fn challenge_of(verifier: Seq<char>) -> Seq<char> {
    b64url_of(sha256_utf8_of(verifier))
}

/// A per-attempt proof-key pair: the verifier is kept secret by the caller,
/// only the challenge travels to the provider.
pub struct Pkce {
    pub code_verifier: String,
    pub code_challenge: String,
}

/// Derives a verifier/challenge pair from an injected token source.
pub struct PkceGenerator<R: RandomStringGenerator> {
    pub rsg: R,
}

impl Default for PkceGenerator<RandomString> {
    fn default() -> (r: Self)
        ensures
            r == (PkceGenerator { rsg: RandomString {} }),
    {
        PkceGenerator { rsg: RandomString {} }
    }
}

impl<R: RandomStringGenerator> PkceGenerator<R> {
    /// The challenge is determined by the verifier alone, so a caller that
    /// fixes the verifier through `rsg` fixes the whole pair.
    pub fn generate(&self, size: usize) -> (p: Pkce)
        ensures
            p.code_challenge@ == challenge_of(p.code_verifier@),
            p.code_challenge@.len() == b64url_len(32),
            p.code_verifier@.len() == b64url_len(size as nat),
            exists|b: Seq<u8>|
                b.len() == size && p.code_verifier@ == b64url_of(b) && b64url_decoded(
                    p.code_verifier@,
                ) == Some(b),
    {
        let verifier = self.generate_verifier(size);
        let challenge = self.generate_challenge(verifier.as_str());
        Pkce { code_verifier: verifier, code_challenge: challenge }
    }

    fn generate_verifier(&self, size: usize) -> (r: String)
        ensures
            r@.len() == b64url_len(size as nat),
            exists|b: Seq<u8>|
                b.len() == size && r@ == b64url_of(b) && b64url_decoded(r@) == Some(b),
    {
        self.rsg.generate(size)
    }

    fn generate_challenge(&self, verifier: &str) -> (r: String)
        ensures
            r@ == challenge_of(verifier@),
            r@.len() == b64url_len(32),
    {
        let digest = sha256_utf8(verifier);
        b64url_encode(digest.as_slice())
    }
}

} // verus!
