use webauthexp::config::GithubConfig;
use webauthexp::github::{
    AccessTokenRequest, AccessTokenResponse, GithubAuthorizationResponse,
    GithubAutorizationRequest, GithubSignin, GithubSigninError, GithubUser, GithubUserRequest,
};

fn config() -> GithubConfig {
    GithubConfig {
        client_id: "gh-client".to_owned(),
        client_secret: "SECRET-REDACTED".to_owned(),
        redirect_uri: "https://rp.example.com/github/callback".to_owned(),
        scope: "read:user".to_owned(),
    }
}

#[test]
fn test_authorization_request_uri() {
    let config = config();
    let request = GithubAutorizationRequest::new(&config);
    let uri = request.request_uri().unwrap();
    assert!(uri.starts_with("https://github.com/login/oauth/authorize?"));
    assert!(uri.contains("client_id=gh-client"));
    assert!(uri.contains(&format!("state={}", request.state)));
    assert!(uri.contains("scope=read%3Auser"));
}

#[test]
fn test_authorization_request_fresh_state() {
    let config = config();
    let first = GithubAutorizationRequest::new(&config);
    let second = GithubAutorizationRequest::new(&config);
    assert_ne!(first.state, second.state);
    assert_eq!(43, first.state.len());
}

#[test]
fn test_github_state_missing() {
    let config = config();
    let auth = GithubAuthorizationResponse { code: "c".to_owned(), state: "A".to_owned() };
    let err = GithubSignin::new(&config).verify_callback(&auth, None).unwrap_err();
    assert!(matches!(err, GithubSigninError::StateNotFound));
}

#[test]
fn test_github_state_mismatch() {
    let config = config();
    let auth = GithubAuthorizationResponse { code: "c".to_owned(), state: "A".to_owned() };
    let err = GithubSignin::new(&config)
        .verify_callback(&auth, Some("B".to_owned()))
        .unwrap_err();
    assert!(matches!(err, GithubSigninError::StateMismatch));
}

#[test]
fn test_github_state_match() {
    let config = config();
    let auth = GithubAuthorizationResponse { code: "c".to_owned(), state: "A".to_owned() };
    let state = GithubSignin::new(&config)
        .verify_callback(&auth, Some("A".to_owned()))
        .unwrap();
    assert_eq!("A", state);
}

#[test]
fn test_mismatched_state_never_reaches_token_endpoint() {
    // A mock transport that counts how often the engine asks it to POST:
    // with a mismatched state the engine must fail before naming the token
    // endpoint at all.
    let config = config();
    let auth = GithubAuthorizationResponse { code: "c".to_owned(), state: "A".to_owned() };
    let mut token_calls = 0u32;
    let result = GithubSignin::new(&config).begin(&auth, Some("B".to_owned()));
    if let Ok(request) = result {
        token_calls += 1;
        let _ = request;
    }
    assert_eq!(0, token_calls);

    let result = GithubSignin::new(&config).begin(&auth, Some("A".to_owned()));
    if let Ok(request) = result {
        token_calls += 1;
        assert_eq!("https://github.com/login/oauth/access_token", request.url);
    }
    assert_eq!(1, token_calls);
}

#[test]
fn test_token_request_body() {
    let config = config();
    let request = AccessTokenRequest::new(&config).request("the-code");
    assert_eq!("https://github.com/login/oauth/access_token", request.url);
    assert_eq!(
        vec![
            ("grant_type".to_owned(), "authorization_code".to_owned()),
            ("client_id".to_owned(), "gh-client".to_owned()),
            ("client_secret".to_owned(), "SECRET-REDACTED".to_owned()),
            ("code".to_owned(), "the-code".to_owned()),
            ("redirect_uri".to_owned(), "https://rp.example.com/github/callback".to_owned()),
        ],
        request.params
    );
}

#[test]
fn test_token_outcome() {
    let config = config();
    let request = AccessTokenRequest::new(&config);
    let parsed = AccessTokenResponse {
        access_token: "at".to_owned(),
        scope: "read:user".to_owned(),
        token_type: "bearer".to_owned(),
    };
    let token = request.outcome(200, Some(parsed), String::new()).unwrap();
    assert_eq!("at", token.access_token);

    let err = request.outcome(401, None, "denied".to_owned()).unwrap_err();
    match err {
        GithubSigninError::TokenRequestFailed { status, body } => {
            assert_eq!(401, status);
            assert_eq!("denied", body);
        }
        other => panic!("unexpected error {:?}", other),
    }
}

#[test]
fn test_user_request_headers() {
    let request = GithubUserRequest::new().request("abc123");
    assert_eq!("https://api.github.com/user", request.url);
    assert!(request
        .headers
        .contains(&("Authorization".to_owned(), "token abc123".to_owned())));
    assert!(request
        .headers
        .contains(&("User-Agent".to_owned(), "Webauthexp".to_owned())));
}

#[test]
fn test_user_outcome() {
    let user = GithubUser { id: 7, login: "octo".to_owned(), name: "Octo Cat".to_owned() };
    let got = GithubUserRequest::new().outcome(200, Some(user.clone())).unwrap();
    assert_eq!(user, got);

    let err = GithubUserRequest::new().outcome(404, None).unwrap_err();
    assert!(matches!(err, GithubSigninError::ProfileFetchFailed { status: 404 }));
}
