use base64::Engine;
use webauthexp::pkce::PkceGenerator;
use webauthexp::random::{RandomString, RandomStringGenerator};

struct DummyRSG {}

impl RandomStringGenerator for DummyRSG {
    fn generate(&self, size: usize) -> String {
        let bytes: Vec<u8> = (0..size).map(|n| n as u8).collect();
        base64::engine::general_purpose::URL_SAFE_NO_PAD.encode(bytes)
    }
}

#[test]
fn test_pkce_generator() {
    let generator = PkceGenerator { rsg: DummyRSG {} };
    let pkce = generator.generate(16);
    assert_eq!("AAECAwQFBgcICQoLDA0ODw", pkce.code_verifier);
    assert_eq!("XSYR1aTdK0Cyd9_bXs9bSYGRUNfVxi9O75YMsMJNsgw", pkce.code_challenge);
}

#[test]
fn test_pkce_default_generator_challenge_matches_verifier() {
    let generator: PkceGenerator<RandomString> = PkceGenerator::default();
    let pkce = generator.generate(32);
    let digest = <sha2::Sha256 as sha2::Digest>::digest(pkce.code_verifier.as_bytes());
    let expected = base64::engine::general_purpose::URL_SAFE_NO_PAD.encode(digest);
    assert_eq!(expected, pkce.code_challenge);
    assert_eq!(43, pkce.code_verifier.len());
}

#[test]
fn test_pkce_distinct_verifiers_distinct_challenges() {
    let generator: PkceGenerator<RandomString> = PkceGenerator::default();
    let a = generator.generate(32);
    let b = generator.generate(32);
    assert_ne!(a.code_verifier, b.code_verifier);
    assert_ne!(a.code_challenge, b.code_challenge);
}
