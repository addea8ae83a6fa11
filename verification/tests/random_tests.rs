use base64::Engine;
use std::collections::HashSet;
use webauthexp::random::{RandomString, RandomStringGenerator};

#[test]
fn test_generate_decodes_to_requested_size() {
    for size in [16usize, 24, 32, 48, 64] {
        let token = RandomString::new().generate(size);
        let decoded = base64::engine::general_purpose::URL_SAFE_NO_PAD
            .decode(token.as_bytes())
            .expect("token must be valid url-safe base64");
        assert_eq!(size, decoded.len());
    }
}

#[test]
fn test_generate_empty_size() {
    let token = RandomString::new().generate(0);
    assert_eq!("", token);
}

#[test]
fn test_generate_uses_url_safe_alphabet() {
    let token = RandomString::new().generate(33);
    assert!(token
        .chars()
        .all(|c| c.is_ascii_alphanumeric() || c == '-' || c == '_'));
    assert!(!token.contains('='));
}

#[test]
fn test_generate_does_not_collide() {
    let generator = RandomString::new();
    let mut seen: HashSet<String> = HashSet::new();
    for _ in 0..10_000 {
        let token = generator.generate(16);
        assert!(seen.insert(token), "two generated tokens collided");
    }
}
