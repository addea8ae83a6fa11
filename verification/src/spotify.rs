use vstd::prelude::*;

use crate::b64::{b64url_decoded, b64url_len, b64url_of};
use crate::config::SpotifyConfig;
use crate::http::{pair, spec_status_success, status_success, FormPostRequest, GetRequest};
use crate::pkce::{challenge_of, PkceGenerator};
use crate::random::{RandomString, RandomStringGenerator};
use crate::urlq::{url_with_params, url_with_params_of};
use vstd::string::StringExecFns;

verus! {

/// How a PKCE sign-in attempt fails. Transport-level variants are filled
/// in by the caller's HTTP layer; the engine only decides with them.
#[derive(Clone, Debug)]
pub enum SpotifySigninError {
    RequestAttributesMissing,
    StateMismatch,
    InvalidEndpointUrl,
    TokenRequestFailed { status: u16, body: String },
    ProfileFetchFailed { status: u16 },
    NetworkError { message: String },
}

/// The per-attempt correlation values the caller stores between redirect
/// and callback: the verifier never travels with the redirect.
#[derive(Clone, Debug)]
pub struct RequestAttributes {
    pub state: String,
    pub code_verifier: String,
}

/// The redirect the caller sends the user to, with the attributes to
/// persist for the callback.
pub struct AuthRequest {
    pub request_uri: String,
    pub attributes: RequestAttributes,
}

/// The provider redirect parameters handed back on the callback.
#[derive(Clone, Debug)]
pub struct AuthResponse {
    pub state: String,
    pub code: String,
}

/// Builds the provider authorization URL with one fresh state and one
/// fresh proof-key pair.
pub struct SpotifyAuthorization<'a> {
    pub config: &'a SpotifyConfig,
}

impl<'a> SpotifyAuthorization<'a> {
    pub fn new(config: &'a SpotifyConfig) -> (r: Self)
        ensures
            r.config == config,
    {
        SpotifyAuthorization { config }
    }

    /// The authorization redirect: the URI carries the challenge derived
    /// from the verifier that is handed back for the caller to persist,
    /// never the verifier itself.
    pub fn start(&self) -> (r: Result<AuthRequest, SpotifySigninError>)
        ensures
            r matches Ok(req) ==> ({
                &&& req.attributes.state@.len() == b64url_len(32)
                &&& exists|b: Seq<u8>|
                    b.len() == 32 && req.attributes.state@ == b64url_of(b) && b64url_decoded(
                        req.attributes.state@,
                    ) == Some(b)
                &&& req.attributes.code_verifier@.len() == b64url_len(32)
                &&& exists|b: Seq<u8>|
                    b.len() == 32 && req.attributes.code_verifier@ == b64url_of(b)
                        && b64url_decoded(req.attributes.code_verifier@) == Some(b)
                &&& Some(req.request_uri@) == url_with_params_of(
                    "https://accounts.spotify.com/authorize"@,
                    seq![
                        ("response_type"@, "code"@),
                        ("client_id"@, self.config.client_id@),
                        ("redirect_uri"@, self.config.redirect_uri@),
                        ("scope"@, self.config.scope@),
                        ("state"@, req.attributes.state@),
                        ("code_challenge_method"@, "S256"@),
                        ("code_challenge"@, challenge_of(req.attributes.code_verifier@)),
                    ],
                )
            }),
            r matches Err(e) ==> e is InvalidEndpointUrl && (exists|
                st: Seq<char>,
                ver: Seq<char>,
            |
                st.len() == b64url_len(32) && ver.len() == b64url_len(32) && url_with_params_of(
                    "https://accounts.spotify.com/authorize"@,
                    seq![
                        ("response_type"@, "code"@),
                        ("client_id"@, self.config.client_id@),
                        ("redirect_uri"@, self.config.redirect_uri@),
                        ("scope"@, self.config.scope@),
                        ("state"@, st),
                        ("code_challenge_method"@, "S256"@),
                        ("code_challenge"@, challenge_of(ver)),
                    ],
                ) is None),
    {
        let generator: PkceGenerator<RandomString> = PkceGenerator::default();
        let pkce = generator.generate(32);
        let state = self.generate_state();
        let mut params: Vec<(String, String)> = Vec::new();
        params.push(pair("response_type", "code"));
        params.push(pair("client_id", self.config.client_id.as_str()));
        params.push(pair("redirect_uri", self.config.redirect_uri.as_str()));
        params.push(pair("scope", self.config.scope.as_str()));
        params.push(pair("state", state.as_str()));
        params.push(pair("code_challenge_method", "S256"));
        params.push(pair("code_challenge", pkce.code_challenge.as_str()));
        proof {
            assert(params.deep_view() =~= seq![
                ("response_type"@, "code"@),
                ("client_id"@, self.config.client_id@),
                ("redirect_uri"@, self.config.redirect_uri@),
                ("scope"@, self.config.scope@),
                ("state"@, state@),
                ("code_challenge_method"@, "S256"@),
                ("code_challenge"@, challenge_of(pkce.code_verifier@)),
            ]);
        }
        match url_with_params("https://accounts.spotify.com/authorize", &params) {
            Some(u) => Ok(
                AuthRequest {
                    request_uri: u,
                    attributes: RequestAttributes { state, code_verifier: pkce.code_verifier },
                },
            ),
            None => {
                proof {
                    let st = state@;
                    let ver = pkce.code_verifier@;
                    assert(st.len() == b64url_len(32) && ver.len() == b64url_len(32)
                        && url_with_params_of(
                        "https://accounts.spotify.com/authorize"@,
                        seq![
                            ("response_type"@, "code"@),
                            ("client_id"@, self.config.client_id@),
                            ("redirect_uri"@, self.config.redirect_uri@),
                            ("scope"@, self.config.scope@),
                            ("state"@, st),
                            ("code_challenge_method"@, "S256"@),
                            ("code_challenge"@, challenge_of(ver)),
                        ],
                    ) is None);
                }
                Err(SpotifySigninError::InvalidEndpointUrl)
            },
        }
    }

    fn generate_state(&self) -> (r: String)
        ensures
            r@.len() == b64url_len(32),
            exists|b: Seq<u8>|
                b.len() == 32 && r@ == b64url_of(b) && b64url_decoded(r@) == Some(b),
    {
        RandomString::new().generate(32)
    }
}

/// The members of the provider's token response that the engine reads.
#[derive(Clone, Debug)]
pub struct AccessToken {
    pub access_token: String,
    pub token_type: String,
    pub scope: String,
    pub expires_in: u64,
    pub refresh_token: String,
}

/// The profile record the provider returns for the signed-in user.
#[derive(Clone, Debug)]
pub struct User {
    pub id: String,
    pub display_name: String,
    pub email: String,
}

/// What the caller receives after the whole attempt succeeded.
#[derive(Clone, Debug)]
pub struct SigninResult {
    pub id: String,
    pub display_name: String,
    pub email: String,
    pub access_token: String,
}

/// Builds the token-endpoint request for an authorization code and the
/// saved verifier, and judges what came back.
pub struct TokenRequest<'a> {
    pub config: &'a SpotifyConfig,
    pub code: &'a str,
    pub code_verifier: &'a str,
}

impl<'a> TokenRequest<'a> {
    pub fn new(config: &'a SpotifyConfig, code: &'a str, code_verifier: &'a str) -> (r: Self)
        ensures
            r.config == config,
            r.code@ == code@,
            r.code_verifier@ == code_verifier@,
    {
        TokenRequest { config, code, code_verifier }
    }

    /// The exact form body the token endpoint receives: the saved verifier
    /// takes the place of a client secret.
    pub fn request(&self) -> (r: FormPostRequest)
        ensures
            r.url@ == "https://accounts.spotify.com/api/token"@,
            r.headers.deep_view() =~= seq![("Accept"@, "application/json"@)],
            r.params.deep_view() =~= seq![
                ("grant_type"@, "authorization_code"@),
                ("client_id"@, self.config.client_id@),
                ("code"@, self.code@),
                ("redirect_uri"@, self.config.redirect_uri@),
                ("code_verifier"@, self.code_verifier@),
            ],
    {
        let mut headers: Vec<(String, String)> = Vec::new();
        headers.push(pair("Accept", "application/json"));
        let mut params: Vec<(String, String)> = Vec::new();
        params.push(pair("grant_type", "authorization_code"));
        params.push(pair("client_id", self.config.client_id.as_str()));
        params.push(pair("code", self.code));
        params.push(pair("redirect_uri", self.config.redirect_uri.as_str()));
        params.push(pair("code_verifier", self.code_verifier));
        FormPostRequest {
            url: String::from_str("https://accounts.spotify.com/api/token"),
            headers,
            params,
        }
    }

    /// Judges the token-endpoint response: success is owed exactly when
    /// the status is successful and the body decoded.
    pub fn outcome(&self, status: u16, parsed: Option<AccessToken>, body: String) -> (r: Result<
        AccessToken,
        SpotifySigninError,
    >)
        ensures
            r is Ok <==> spec_status_success(status) && parsed is Some,
            r matches Ok(t) ==> parsed matches Some(p) && t.access_token@ == p.access_token@
                && t.token_type@ == p.token_type@ && t.scope@ == p.scope@ && t.expires_in
                == p.expires_in && t.refresh_token@ == p.refresh_token@,
            r matches Err(e) ==> e matches SpotifySigninError::TokenRequestFailed {
                status: st,
                body: b,
            } && st == status && b@ == body@,
    {
        if !status_success(status) {
            return Err(SpotifySigninError::TokenRequestFailed { status, body });
        }
        match parsed {
            Some(t) => Ok(t),
            None => Err(SpotifySigninError::TokenRequestFailed { status, body }),
        }
    }
}

/// Builds the profile request for an access token and judges what came
/// back.
pub struct UserRequest<'a> {
    pub access_token: &'a str,
}

impl<'a> UserRequest<'a> {
    pub fn new(access_token: &'a str) -> (r: Self)
        ensures
            r.access_token@ == access_token@,
    {
        UserRequest { access_token }
    }

    /// The exact profile request, with the access token as a bearer
    /// credential.
    pub fn request(&self) -> (r: GetRequest)
        ensures
            r.url@ == "https://api.spotify.com/v1/me"@,
            r.headers.deep_view() =~= seq![
                ("Accept"@, "application/json"@),
                ("Authorization"@, "Bearer "@ + self.access_token@),
            ],
    {
        let mut headers: Vec<(String, String)> = Vec::new();
        headers.push(pair("Accept", "application/json"));
        headers.push(
            (
                String::from_str("Authorization"),
                String::from_str("Bearer ").concat(self.access_token),
            ),
        );
        GetRequest { url: String::from_str("https://api.spotify.com/v1/me"), headers }
    }

    /// Judges the profile response: the user is returned exactly when the
    /// status is successful and the body decoded.
    pub fn outcome(&self, status: u16, parsed: Option<User>) -> (r: Result<
        User,
        SpotifySigninError,
    >)
        ensures
            r is Ok <==> spec_status_success(status) && parsed is Some,
            r matches Ok(u) ==> parsed matches Some(p) && u.id@ == p.id@ && u.display_name@
                == p.display_name@ && u.email@ == p.email@,
            r matches Err(e) ==> e matches SpotifySigninError::ProfileFetchFailed { status: st }
                && st == status,
    {
        if !status_success(status) {
            return Err(SpotifySigninError::ProfileFetchFailed { status });
        }
        match parsed {
            Some(u) => Ok(u),
            None => Err(SpotifySigninError::ProfileFetchFailed { status }),
        }
    }
}

/// Drives one callback through the PKCE checks; the transport layer only
/// performs the requests this type hands it.
pub struct SpotifySignin<'a> {
    pub config: &'a SpotifyConfig,
    pub response: &'a AuthResponse,
    pub attributes: &'a Option<RequestAttributes>,
}

impl<'a> SpotifySignin<'a> {
    pub fn new(
        config: &'a SpotifyConfig,
        response: &'a AuthResponse,
        attributes: &'a Option<RequestAttributes>,
    ) -> (r: Self)
        ensures
            r.config == config,
            r.response == response,
            r.attributes == attributes,
    {
        SpotifySignin { config, response, attributes }
    }

    /// The correlation check: the saved attributes must exist and their
    /// state must equal the one the provider returned, or the attempt ends
    /// here.
    pub fn verify_callback(&self) -> (r: Result<&RequestAttributes, SpotifySigninError>)
        ensures
            match r {
                Ok(attrs) => (*self.attributes) matches Some(a) && *attrs == a && a.state@
                    == self.response.state@,
                Err(e) => match e {
                    SpotifySigninError::RequestAttributesMissing => (*self.attributes) is None,
                    SpotifySigninError::StateMismatch => (*self.attributes) matches Some(a)
                        && a.state@ != self.response.state@,
                    _ => false,
                },
            },
    {
        let attrs = match self.attributes {
            Some(a) => a,
            None => {
                return Err(SpotifySigninError::RequestAttributesMissing);
            },
        };
        if self.response.state == attrs.state {
            Ok(attrs)
        } else {
            Err(SpotifySigninError::StateMismatch)
        }
    }

    /// A token request exists only for a callback whose state matched, and
    /// it carries the verifier saved for this very attempt: on any
    /// mismatch the attempt fails before the token endpoint is named.
    pub fn begin(&self) -> (r: Result<FormPostRequest, SpotifySigninError>)
        ensures
            r is Ok <==> ((*self.attributes) matches Some(a) && a.state@ == self.response.state@),
            r matches Ok(req) ==> (*self.attributes) matches Some(a) && req.url@
                == "https://accounts.spotify.com/api/token"@ && req.params.deep_view() =~= seq![
                ("grant_type"@, "authorization_code"@),
                ("client_id"@, self.config.client_id@),
                ("code"@, self.response.code@),
                ("redirect_uri"@, self.config.redirect_uri@),
                ("code_verifier"@, a.code_verifier@),
            ],
            r matches Err(e) ==> (e matches SpotifySigninError::RequestAttributesMissing && (
            *self.attributes) is None) || (e matches SpotifySigninError::StateMismatch && (
            *self.attributes) matches Some(a) && a.state@ != self.response.state@),
    {
        let attrs = match self.verify_callback() {
            Ok(a) => a,
            Err(e) => {
                return Err(e);
            },
        };
        Ok(
            TokenRequest::new(
                self.config,
                self.response.code.as_str(),
                attrs.code_verifier.as_str(),
            ).request(),
        )
    }

    /// Maps a fetched profile and token into the caller's result; nothing
    /// is altered on the way.
    pub fn resolve(&self, user: &User, token: &AccessToken) -> (r: SigninResult)
        ensures
            r.id@ == user.id@,
            r.display_name@ == user.display_name@,
            r.email@ == user.email@,
            r.access_token@ == token.access_token@,
    {
        SigninResult {
            id: user.id.clone(),
            display_name: user.display_name.clone(),
            email: user.email.clone(),
            access_token: token.access_token.clone(),
        }
    }
}

} // verus!
