use webauthexp::config::{
    AppConfig, GithubConfig, GoogleConfig, ServerConfig, SpotifyConfig,
};

fn app_config() -> AppConfig {
    AppConfig {
        server: ServerConfig { bind: "127.0.0.1".to_owned(), port: 8080 },
        github: GithubConfig {
            client_id: "gh".to_owned(),
            client_secret: "SECRET-REDACTED".to_owned(),
            redirect_uri: "https://rp.example.com/github/callback".to_owned(),
            scope: "read:user".to_owned(),
        },
        google: GoogleConfig {
            client_id: "go".to_owned(),
            client_secret: "SECRET-REDACTED".to_owned(),
            redirect_uri: "https://rp.example.com/google/callback".to_owned(),
            scope: "openid email".to_owned(),
        },
        spotify: SpotifyConfig {
            client_id: "sp".to_owned(),
            redirect_uri: "https://rp.example.com/spotify/callback".to_owned(),
            scope: "user-read-email".to_owned(),
        },
    }
}

#[test]
fn test_bind_address() {
    let config = app_config();
    let (bind, port) = config.bind_address();
    assert_eq!("127.0.0.1", bind);
    assert_eq!(8080, port);
}

#[test]
fn test_google_issuer_is_fixed() {
    let config = app_config();
    assert_eq!("https://accounts.google.com", config.google.issuer());
}
