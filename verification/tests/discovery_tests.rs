use webauthexp::discovery::{JsonWebKey, Jwks, JwksDiscovery, OpenIdConfigurationDiscovery};

fn key(kid: &str, n: &str, e: &str) -> JsonWebKey {
    JsonWebKey {
        alg: "RS256".to_owned(),
        key_use: "sig".to_owned(),
        kid: kid.to_owned(),
        e: e.to_owned(),
        kty: "RSA".to_owned(),
        n: n.to_owned(),
    }
}

#[test]
fn test_find_by_kid() {
    let jwk1 = JsonWebKey {
        alg: "RS256".to_owned(),
        key_use: "sig".to_owned(),
        kid: "key-01".to_owned(),
        e: "xxxxxx".to_owned(),
        kty: "RSA".to_owned(),
        n: "yyyyyy".to_owned(),
    };
    let jwk2 = JsonWebKey {
        alg: "RS256".to_owned(),
        key_use: "sig".to_owned(),
        kid: "key-02".to_owned(),
        e: "aaaaa".to_owned(),
        kty: "RSA".to_owned(),
        n: "bbbbb".to_owned(),
    };
    let jwks = Jwks { keys: vec![jwk1.to_owned(), jwk2.to_owned()] };

    let result = jwks.find_by_kid("key-02");
    assert_eq!(Some(&jwk2), result);

    let result = jwks.find_by_kid("no-such-key");
    assert_eq!(None, result);
}

#[test]
fn test_find_by_kid_duplicate_takes_first() {
    let first = key("dup", "n-first", "e-first");
    let second = key("dup", "n-second", "e-second");
    let jwks = Jwks { keys: vec![first.clone(), second] };
    let result = jwks.find_by_kid("dup");
    assert_eq!(Some(&first), result);
}

#[test]
fn test_find_by_kid_empty_set() {
    let jwks = Jwks { keys: vec![] };
    assert_eq!(None, jwks.find_by_kid("anything"));
}

#[test]
fn test_openid_configuration_endpoint() {
    let discovery = OpenIdConfigurationDiscovery::new("https://accounts.example.com");
    assert_eq!(
        "https://accounts.example.com/.well-known/openid-configuration",
        discovery.endpoint()
    );
}

#[test]
fn test_jwks_discovery_endpoint() {
    let discovery = JwksDiscovery::new("https://accounts.example.com/jwks");
    assert_eq!("https://accounts.example.com/jwks", discovery.endpoint());
}
