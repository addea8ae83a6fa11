use vstd::prelude::*;

use vstd::string::StringExecFns;

verus! {

/// Where the caller's HTTP server should listen.
#[derive(Clone, Debug)]
pub struct ServerConfig {
    pub bind: String,
    pub port: u16,
}

/// Registered-client settings for the plain OAuth2 provider.
#[derive(Clone, Debug)]
pub struct GithubConfig {
    pub client_id: String,
    pub client_secret: String,
    pub redirect_uri: String,
    pub scope: String,
}

/// Registered-client settings for the OpenID Connect provider.
#[derive(Clone, Debug)]
pub struct GoogleConfig {
    pub client_id: String,
    pub client_secret: String,
    pub redirect_uri: String,
    pub scope: String,
}

impl GoogleConfig {
    /// The fixed issuer whose discovery document and keys verify this
    /// provider's ID tokens.
    pub fn issuer(&self) -> (r: String)
        ensures
            r@ == "https://accounts.google.com"@,
    {
        String::from_str("https://accounts.google.com")
    }
}

/// Registered-client settings for the PKCE provider; a public client, so
/// it carries no secret.
#[derive(Clone, Debug)]
pub struct SpotifyConfig {
    pub client_id: String,
    pub redirect_uri: String,
    pub scope: String,
}

/// The whole process configuration, loaded once and shared read-only.
#[derive(Clone, Debug)]
pub struct AppConfig {
    pub server: ServerConfig,
    pub github: GithubConfig,
    pub google: GoogleConfig,
    pub spotify: SpotifyConfig,
}

impl AppConfig {
    pub fn bind_address(&self) -> (r: (String, u16))
        ensures
            r.0@ == self.server.bind@,
            r.1 == self.server.port,
    {
        (self.server.bind.clone(), self.server.port)
    }
}

} // verus!
