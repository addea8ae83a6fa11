use vstd::prelude::*;

use crate::b64::{b64url_decoded, b64url_len, b64url_of};
use crate::config::GithubConfig;
use crate::http::{pair, spec_status_success, status_success, FormPostRequest, GetRequest};
use crate::random::{RandomString, RandomStringGenerator};
use crate::urlq::{url_with_params, url_with_params_of};
use vstd::string::StringExecFns;

verus! {

/// How a plain OAuth2 sign-in attempt fails. Transport-level variants are
/// filled in by the caller's HTTP layer; the engine only decides with them.
#[derive(Clone, Debug)]
pub enum GithubSigninError {
    StateNotFound,
    StateMismatch,
    InvalidEndpointUrl,
    TokenRequestFailed { status: u16, body: String },
    ProfileFetchFailed { status: u16 },
    NetworkError { message: String },
}

/// The provider redirect parameters handed back on the callback.
#[derive(Clone, Debug)]
pub struct GithubAuthorizationResponse {
    pub code: String,
    pub state: String,
}

/// An authorization redirect in the making: the client settings plus one
/// fresh `state` token.
pub struct GithubAutorizationRequest {
    pub client_id: String,
    pub redirect_uri: String,
    pub scope: String,
    pub state: String,
}

impl GithubAutorizationRequest {
    pub fn new(config: &GithubConfig) -> (r: Self)
        ensures
            r.client_id@ == config.client_id@,
            r.redirect_uri@ == config.redirect_uri@,
            r.scope@ == config.scope@,
            r.state@.len() == b64url_len(32),
            exists|b: Seq<u8>|
                b.len() == 32 && r.state@ == b64url_of(b) && b64url_decoded(r.state@) == Some(b),
    {
        let state = RandomString::new().generate(32);
        GithubAutorizationRequest {
            client_id: config.client_id.clone(),
            redirect_uri: config.redirect_uri.clone(),
            scope: config.scope.clone(),
            state,
        }
    }

    /// The provider authorization URL carrying exactly the client settings
    /// and the fresh state.
    pub fn request_uri(&self) -> (r: Result<String, GithubSigninError>)
        ensures
            ({
                let ps = seq![
                    ("client_id"@, self.client_id@),
                    ("redirect_uri"@, self.redirect_uri@),
                    ("scope"@, self.scope@),
                    ("state"@, self.state@),
                ];
                &&& r is Ok <==> url_with_params_of(
                    "https://github.com/login/oauth/authorize"@,
                    ps,
                ) is Some
                &&& r matches Ok(u) ==> Some(u@) == url_with_params_of(
                    "https://github.com/login/oauth/authorize"@,
                    ps,
                )
                &&& r matches Err(e) ==> e is InvalidEndpointUrl
            }),
    {
        let mut params: Vec<(String, String)> = Vec::new();
        params.push(pair("client_id", self.client_id.as_str()));
        params.push(pair("redirect_uri", self.redirect_uri.as_str()));
        params.push(pair("scope", self.scope.as_str()));
        params.push(pair("state", self.state.as_str()));
        proof {
            assert(params.deep_view() =~= seq![
                ("client_id"@, self.client_id@),
                ("redirect_uri"@, self.redirect_uri@),
                ("scope"@, self.scope@),
                ("state"@, self.state@),
            ]);
        }
        match url_with_params("https://github.com/login/oauth/authorize", &params) {
            Some(u) => Ok(u),
            None => Err(GithubSigninError::InvalidEndpointUrl),
        }
    }
}

/// The profile record the provider returns for the signed-in user.
#[derive(Clone, Debug, PartialEq, Eq)]
pub struct GithubUser {
    pub id: u64,
    pub login: String,
    pub name: String,
}

/// Builds the token-endpoint request for an authorization code and judges
/// what came back.
pub struct AccessTokenRequest<'a> {
    pub config: &'a GithubConfig,
}

/// The fields of the provider's token response that the engine reads.
#[derive(Clone, Debug)]
pub struct AccessTokenResponse {
    pub access_token: String,
    pub scope: String,
    pub token_type: String,
}

impl<'a> AccessTokenRequest<'a> {
    pub fn new(config: &'a GithubConfig) -> (r: Self)
        ensures
            r.config == config,
    {
        AccessTokenRequest { config }
    }

    /// The exact form body the token endpoint receives: the code grant and
    /// the client's credentials, nothing else.
    pub fn request(&self, code: &str) -> (r: FormPostRequest)
        ensures
            r.url@ == "https://github.com/login/oauth/access_token"@,
            r.headers.deep_view() =~= seq![("Accept"@, "application/json"@)],
            r.params.deep_view() =~= seq![
                ("grant_type"@, "authorization_code"@),
                ("client_id"@, self.config.client_id@),
                ("client_secret"@, self.config.client_secret@),
                ("code"@, code@),
                ("redirect_uri"@, self.config.redirect_uri@),
            ],
    {
        let mut headers: Vec<(String, String)> = Vec::new();
        headers.push(pair("Accept", "application/json"));
        let mut params: Vec<(String, String)> = Vec::new();
        params.push(pair("grant_type", "authorization_code"));
        params.push(pair("client_id", self.config.client_id.as_str()));
        params.push(pair("client_secret", self.config.client_secret.as_str()));
        params.push(pair("code", code));
        params.push(pair("redirect_uri", self.config.redirect_uri.as_str()));
        FormPostRequest {
            url: String::from_str("https://github.com/login/oauth/access_token"),
            headers,
            params,
        }
    }

    /// Judges the token-endpoint response: success is owed exactly when the
    /// status is successful and the body decoded.
    pub fn outcome(&self, status: u16, parsed: Option<AccessTokenResponse>, body: String) -> (r:
        Result<AccessTokenResponse, GithubSigninError>)
        ensures
            r is Ok <==> spec_status_success(status) && parsed is Some,
            r matches Ok(t) ==> parsed matches Some(p) && t.access_token@ == p.access_token@
                && t.scope@ == p.scope@ && t.token_type@ == p.token_type@,
            r matches Err(e) ==> e matches GithubSigninError::TokenRequestFailed {
                status: st,
                body: b,
            } && st == status && b@ == body@,
    {
        if !status_success(status) {
            return Err(GithubSigninError::TokenRequestFailed { status, body });
        }
        match parsed {
            Some(t) => Ok(t),
            None => Err(GithubSigninError::TokenRequestFailed { status, body }),
        }
    }
}

/// Builds the profile request for an access token and judges what came
/// back.
pub struct GithubUserRequest {}

impl GithubUserRequest {
    pub fn new() -> (r: Self) {
        GithubUserRequest {  }
    }

    /// The exact profile request, with the access token in the
    /// authorization header.
    pub fn request(&self, access_token: &str) -> (r: GetRequest)
        ensures
            r.url@ == "https://api.github.com/user"@,
            r.headers.deep_view() =~= seq![
                ("Accept"@, "application/vnd.github.v3+json"@),
                ("Authorization"@, "token "@ + access_token@),
                ("User-Agent"@, "Webauthexp"@),
            ],
    {
        let mut headers: Vec<(String, String)> = Vec::new();
        headers.push(pair("Accept", "application/vnd.github.v3+json"));
        headers.push(
            (String::from_str("Authorization"), String::from_str("token ").concat(access_token)),
        );
        headers.push(pair("User-Agent", "Webauthexp"));
        GetRequest { url: String::from_str("https://api.github.com/user"), headers }
    }

    /// Judges the profile response: the user is returned exactly when the
    /// status is successful and the body decoded.
    pub fn outcome(&self, status: u16, parsed: Option<GithubUser>) -> (r: Result<
        GithubUser,
        GithubSigninError,
    >)
        ensures
            r is Ok <==> spec_status_success(status) && parsed is Some,
            r matches Ok(u) ==> parsed matches Some(p) && u == p,
            r matches Err(e) ==> e matches GithubSigninError::ProfileFetchFailed { status: st }
                && st == status,
    {
        if !status_success(status) {
            return Err(GithubSigninError::ProfileFetchFailed { status });
        }
        match parsed {
            Some(u) => Ok(u),
            None => Err(GithubSigninError::ProfileFetchFailed { status }),
        }
    }
}

/// Drives one callback through the plain OAuth2 checks; the transport layer
/// only performs the requests this type hands it.
pub struct GithubSignin<'a> {
    pub config: &'a GithubConfig,
}

impl<'a> GithubSignin<'a> {
    pub fn new(config: &'a GithubConfig) -> (r: Self)
        ensures
            r.config == config,
    {
        GithubSignin { config }
    }

    /// The correlation check: the saved state must exist and equal the one
    /// the provider returned, or the attempt ends here.
    pub fn verify_callback(
        &self,
        auth: &GithubAuthorizationResponse,
        saved_state: Option<String>,
    ) -> (r: Result<String, GithubSigninError>)
        ensures
            match r {
                Ok(st) => saved_state matches Some(s) && s@ == auth.state@ && st@ == s@,
                Err(e) => match e {
                    GithubSigninError::StateNotFound => saved_state is None,
                    GithubSigninError::StateMismatch => saved_state matches Some(s) && s@
                        != auth.state@,
                    _ => false,
                },
            },
    {
        let state = match saved_state {
            Some(s) => s,
            None => {
                return Err(GithubSigninError::StateNotFound);
            },
        };
        if state == auth.state {
            Ok(state)
        } else {
            Err(GithubSigninError::StateMismatch)
        }
    }

    /// A token request exists only for a callback whose state matched: on
    /// any mismatch the attempt fails before the token endpoint is named.
    pub fn begin(&self, auth: &GithubAuthorizationResponse, saved_state: Option<String>) -> (r:
        Result<FormPostRequest, GithubSigninError>)
        ensures
            r is Ok <==> (saved_state matches Some(s) && s@ == auth.state@),
            r matches Ok(req) ==> req.url@ == "https://github.com/login/oauth/access_token"@
                && req.params.deep_view() =~= seq![
                ("grant_type"@, "authorization_code"@),
                ("client_id"@, self.config.client_id@),
                ("client_secret"@, self.config.client_secret@),
                ("code"@, auth.code@),
                ("redirect_uri"@, self.config.redirect_uri@),
            ],
            r matches Err(e) ==> (e matches GithubSigninError::StateNotFound && saved_state
                is None) || (e matches GithubSigninError::StateMismatch
                && saved_state matches Some(s) && s@ != auth.state@),
    {
        match self.verify_callback(auth, saved_state) {
            Ok(s) => {},
            Err(e) => {
                return Err(e);
            },
        }
        Ok(AccessTokenRequest::new(self.config).request(auth.code.as_str()))
    }
}

} // verus!
