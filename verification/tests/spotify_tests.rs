use base64::Engine;
use webauthexp::config::SpotifyConfig;
use webauthexp::spotify::{
    AccessToken, AuthResponse, RequestAttributes, SpotifyAuthorization, SpotifySignin,
    SpotifySigninError, TokenRequest, User, UserRequest,
};

fn config() -> SpotifyConfig {
    SpotifyConfig {
        client_id: "sp-client".to_owned(),
        redirect_uri: "https://rp.example.com/spotify/callback".to_owned(),
        scope: "user-read-email".to_owned(),
    }
}

#[test]
fn test_start_uri_carries_challenge_not_verifier() {
    let config = config();
    let request = SpotifyAuthorization::new(&config).start().unwrap();
    let uri = &request.request_uri;
    assert!(uri.starts_with("https://accounts.spotify.com/authorize?"));
    assert!(uri.contains("code_challenge_method=S256"));
    assert!(uri.contains(&format!("state={}", request.attributes.state)));

    let digest =
        <sha2::Sha256 as sha2::Digest>::digest(request.attributes.code_verifier.as_bytes());
    let challenge = base64::engine::general_purpose::URL_SAFE_NO_PAD.encode(digest);
    assert!(uri.contains(&format!("code_challenge={}", challenge)));
    assert!(!uri.contains(&request.attributes.code_verifier));
}

#[test]
fn test_spotify_attributes_missing() {
    let config = config();
    let response = AuthResponse { state: "A".to_owned(), code: "c".to_owned() };
    let saved: Option<RequestAttributes> = None;
    let err = SpotifySignin::new(&config, &response, &saved).verify_callback().unwrap_err();
    assert!(matches!(err, SpotifySigninError::RequestAttributesMissing));
}

#[test]
fn test_spotify_state_mismatch() {
    let config = config();
    let response = AuthResponse { state: "A".to_owned(), code: "c".to_owned() };
    let saved = Some(RequestAttributes {
        state: "B".to_owned(),
        code_verifier: "v".to_owned(),
    });
    let err = SpotifySignin::new(&config, &response, &saved).verify_callback().unwrap_err();
    assert!(matches!(err, SpotifySigninError::StateMismatch));
}

#[test]
fn test_spotify_state_match() {
    let config = config();
    let response = AuthResponse { state: "A".to_owned(), code: "c".to_owned() };
    let saved = Some(RequestAttributes {
        state: "A".to_owned(),
        code_verifier: "v".to_owned(),
    });
    let signin = SpotifySignin::new(&config, &response, &saved);
    let attrs = signin.verify_callback().unwrap();
    assert_eq!("v", attrs.code_verifier);
}

#[test]
fn test_pkce_mismatched_state_never_reaches_token_endpoint() {
    let config = config();
    let response = AuthResponse { state: "A".to_owned(), code: "c".to_owned() };
    let saved = Some(RequestAttributes {
        state: "B".to_owned(),
        code_verifier: "v".to_owned(),
    });
    let mut token_calls = 0u32;
    if let Ok(request) = SpotifySignin::new(&config, &response, &saved).begin() {
        token_calls += 1;
        let _ = request;
    }
    assert_eq!(0, token_calls);
}

#[test]
fn test_begin_sends_saved_verifier() {
    let config = config();
    let response = AuthResponse { state: "A".to_owned(), code: "the-code".to_owned() };
    let saved = Some(RequestAttributes {
        state: "A".to_owned(),
        code_verifier: "the-verifier".to_owned(),
    });
    let request = SpotifySignin::new(&config, &response, &saved).begin().unwrap();
    assert_eq!("https://accounts.spotify.com/api/token", request.url);
    assert_eq!(
        vec![
            ("grant_type".to_owned(), "authorization_code".to_owned()),
            ("client_id".to_owned(), "sp-client".to_owned()),
            ("code".to_owned(), "the-code".to_owned()),
            ("redirect_uri".to_owned(), "https://rp.example.com/spotify/callback".to_owned()),
            ("code_verifier".to_owned(), "the-verifier".to_owned()),
        ],
        request.params
    );
}

#[test]
fn test_spotify_token_outcome() {
    let config = config();
    let request = TokenRequest::new(&config, "c", "v");
    let parsed = AccessToken {
        access_token: "at".to_owned(),
        token_type: "Bearer".to_owned(),
        scope: "user-read-email".to_owned(),
        expires_in: 3600,
        refresh_token: "rt".to_owned(),
    };
    let token = request.outcome(200, Some(parsed), String::new()).unwrap();
    assert_eq!("at", token.access_token);

    let err = request.outcome(500, None, "oops".to_owned()).unwrap_err();
    assert!(matches!(err, SpotifySigninError::TokenRequestFailed { status: 500, .. }));
}

#[test]
fn test_spotify_user_request_and_outcome() {
    let request = UserRequest::new("tok").request();
    assert_eq!("https://api.spotify.com/v1/me", request.url);
    assert!(request
        .headers
        .contains(&("Authorization".to_owned(), "Bearer tok".to_owned())));

    let user = User {
        id: "sp-user".to_owned(),
        display_name: "Spot".to_owned(),
        email: "spot@example.com".to_owned(),
    };
    let got = UserRequest::new("tok").outcome(200, Some(user)).unwrap();
    assert_eq!("sp-user", got.id);

    let err = UserRequest::new("tok").outcome(403, None).unwrap_err();
    assert!(matches!(err, SpotifySigninError::ProfileFetchFailed { status: 403 }));
}

#[test]
fn test_resolve_maps_fields_unchanged() {
    let config = config();
    let response = AuthResponse { state: "A".to_owned(), code: "c".to_owned() };
    let saved = Some(RequestAttributes {
        state: "A".to_owned(),
        code_verifier: "v".to_owned(),
    });
    let signin = SpotifySignin::new(&config, &response, &saved);
    let user = User {
        id: "sp-user".to_owned(),
        display_name: "Spot".to_owned(),
        email: "spot@example.com".to_owned(),
    };
    let token = AccessToken {
        access_token: "at".to_owned(),
        token_type: "Bearer".to_owned(),
        scope: "user-read-email".to_owned(),
        expires_in: 3600,
        refresh_token: "rt".to_owned(),
    };
    let result = signin.resolve(&user, &token);
    assert_eq!("sp-user", result.id);
    assert_eq!("Spot", result.display_name);
    assert_eq!("spot@example.com", result.email);
    assert_eq!("at", result.access_token);
}
