use vstd::prelude::*;

use crate::b64::{b64url_decode, b64url_decoded, b64url_len, b64url_of};
use crate::config::GoogleConfig;
use crate::discovery::{DiscoveryError, JsonWebKey, Jwks, OpenIdConfiguration};
use crate::http::{pair, spec_status_success, status_success, FormPostRequest};
use crate::json::{json_get_str, json_get_u64, json_obj_ok, json_obj_strs, json_obj_u64s,
    parse_json_object};
use crate::jwt::{split3, split_token};
use crate::random::{RandomString, RandomStringGenerator};
use crate::urlq::{url_with_params, url_with_params_of};
use vstd::string::StringExecFns;
use vstd::utf8::encode_utf8;

verus! {

/// How an OpenID Connect sign-in attempt fails. Transport-level variants
/// are filled in by the caller's HTTP layer; the engine only decides with
/// them.
#[derive(Clone, Debug)]
pub enum GoogleSigninError {
    RequestAttributesMissing,
    StateMismatch,
    NonceMismatch,
    MalformedToken,
    UnsupportedAlgorithm,
    SigningKeyNotFound,
    SignatureInvalid,
    InvalidIssuer,
    InvalidAudience,
    IdTokenExpired,
    InvalidEndpointUrl,
    DiscoveryFailed(DiscoveryError),
    TokenRequestFailed { status: u16, body: String },
    NetworkError { message: String },
}

/// Whether `sig` (base64url) is a valid RS256 signature over `message`
/// under the RSA public key with base64url components `n` and `e`, as
/// jsonwebtoken judges it.
pub uninterp spec fn rs256_valid(
    message: Seq<u8>,
    sig: Seq<char>,
    n: Seq<char>,
    e: Seq<char>,
) -> bool;

/// Relies on jsonwebtoken's DecodingKey::from_rsa_components and
/// crypto::verify with the RS256 algorithm: the verdict is a function of
/// the message, the signature and the key components alone; any library
/// error counts as an invalid signature.
#[verifier::external_body]
fn rs256_verify(message: &[u8], sig: &str, n: &str, e: &str) -> (r: bool)
    ensures
        r == rs256_valid(message@, sig@, n@, e@),
{
    match jsonwebtoken::DecodingKey::from_rsa_components(n, e) {
        Ok(key) => jsonwebtoken::crypto::verify(
            sig,
            message,
            &key,
            jsonwebtoken::Algorithm::RS256,
        ).unwrap_or(false),
        Err(_) => false,
    }
}

/// An OpenID token header that names its algorithm and signing key.
pub open spec fn google_header_ok(b: Seq<u8>) -> bool {
    &&& json_obj_ok(b)
    &&& json_obj_strs(b).contains_key("alg"@)
    &&& json_obj_strs(b).contains_key("kid"@)
}

/// An OpenID claims object with every member this engine judges.
pub open spec fn google_claims_ok(b: Seq<u8>) -> bool {
    &&& json_obj_ok(b)
    &&& json_obj_strs(b).contains_key("aud"@)
    &&& json_obj_u64s(b).contains_key("exp"@)
    &&& json_obj_strs(b).contains_key("iss"@)
    &&& json_obj_strs(b).contains_key("sub"@)
    &&& json_obj_strs(b).contains_key("email"@)
    &&& json_obj_strs(b).contains_key("nonce"@)
}

/// The decoded bytes of a token's first segment.
pub open spec fn header_bytes(s: Seq<char>) -> Option<Seq<u8>> {
    match split3(s) {
        Some(hpg) => b64url_decoded(hpg.0),
        None => None,
    }
}

/// The decoded bytes of a token's second segment.
pub open spec fn payload_bytes(s: Seq<char>) -> Option<Seq<u8>> {
    match split3(s) {
        Some(hpg) => b64url_decoded(hpg.1),
        None => None,
    }
}

/// Whether a token's third segment is a base64url string.
pub open spec fn sig_chars_ok(s: Seq<char>) -> bool {
    match split3(s) {
        Some(hpg) => b64url_decoded(hpg.2) is Some,
        None => false,
    }
}

/// The structural demands on a token before any of its content is judged:
/// three segments that decode, and a header naming `alg` and `kid`.
pub open spec fn token_shape_ok(s: Seq<char>) -> bool {
    &&& header_bytes(s) matches Some(hb) && google_header_ok(hb)
    &&& payload_bytes(s) is Some
    &&& sig_chars_ok(s)
}

/// The algorithm a shaped token names.
pub open spec fn token_alg(s: Seq<char>) -> Seq<char> {
    json_obj_strs(header_bytes(s)->Some_0)["alg"@]
}

/// The signing-key id a shaped token names.
pub open spec fn token_kid(s: Seq<char>) -> Seq<char> {
    json_obj_strs(header_bytes(s)->Some_0)["kid"@]
}

/// The first key in the set bearing this id; ties on a duplicated id go to
/// document order.
pub open spec fn first_key_with_kid(keys: Seq<JsonWebKey>, kid: Seq<char>, k: JsonWebKey) -> bool {
    exists|i: int|
        #![auto]
        0 <= i < keys.len() && keys[i] == k && k.kid@ == kid && (forall|j: int|
            0 <= j < i ==> keys[j].kid@ != kid)
}

/// Whether any key in the set bears this id.
pub open spec fn has_key_with_kid(keys: Seq<JsonWebKey>, kid: Seq<char>) -> bool {
    exists|i: int| 0 <= i < keys.len() && keys[i].kid@ == kid
}

/// The RS256 signing input of a token: the UTF-8 bytes of its first two
/// segments joined by a dot.
pub open spec fn signing_input(s: Seq<char>) -> Seq<u8> {
    encode_utf8(split3(s)->Some_0.0 + seq!['.'] + split3(s)->Some_0.1)
}

/// Whether the token's signature verifies under the given key.
pub open spec fn token_sig_valid(s: Seq<char>, k: JsonWebKey) -> bool {
    rs256_valid(signing_input(s), split3(s)->Some_0.2, k.n@, k.e@)
}

/// The first four steps all passed: the token is shaped, names RS256, and
/// the first key bearing its kid validates its signature.
pub open spec fn token_signed_ok(s: Seq<char>, keys: Seq<JsonWebKey>) -> bool {
    &&& token_shape_ok(s)
    &&& token_alg(s) == "RS256"@
    &&& exists|k: JsonWebKey| #[trigger] first_key_with_kid(keys, token_kid(s), k)
        && token_sig_valid(s, k)
}

/// Whether the token's claims object has every member the engine judges.
pub open spec fn token_claims_ok(s: Seq<char>) -> bool {
    google_claims_ok(payload_bytes(s)->Some_0)
}

/// A string-valued claim of a shaped token.
pub open spec fn claim_str(s: Seq<char>, name: Seq<char>) -> Seq<char> {
    json_obj_strs(payload_bytes(s)->Some_0)[name]
}

/// The expiry claim of a shaped token.
pub open spec fn claim_exp(s: Seq<char>) -> u64 {
    json_obj_u64s(payload_bytes(s)->Some_0)["exp"@]
}

/// The per-attempt correlation values the caller stores between redirect
/// and callback.
#[derive(Clone, Debug)]
pub struct RequestAttributes {
    pub state: String,
    pub nonce: String,
}

/// The redirect the caller sends the user to, with the attributes to
/// persist for the callback.
pub struct GoogleAuthRequest {
    pub request_uri: String,
    pub attributes: RequestAttributes,
}

/// The provider redirect parameters handed back on the callback.
#[derive(Clone, Debug)]
pub struct GoogleAuthorizationResponse {
    pub state: String,
    pub code: String,
    pub scope: String,
}

/// Builds the provider authorization URL with one fresh state and nonce.
pub struct GoogleAutorization<'a> {
    pub config: &'a GoogleConfig,
}

impl<'a> GoogleAutorization<'a> {
    pub fn new(config: &'a GoogleConfig) -> (r: Self)
        ensures
            r.config == config,
    {
        GoogleAutorization { config }
    }

    /// The authorization redirect: its URI carries exactly the client
    /// settings plus the same state and nonce that are handed back for the
    /// caller to persist.
    pub fn start(&self) -> (r: Result<GoogleAuthRequest, GoogleSigninError>)
        ensures
            r matches Ok(req) ==> ({
                &&& req.attributes.state@.len() == b64url_len(32)
                &&& exists|b: Seq<u8>|
                    b.len() == 32 && req.attributes.state@ == b64url_of(b) && b64url_decoded(
                        req.attributes.state@,
                    ) == Some(b)
                &&& req.attributes.nonce@.len() == b64url_len(32)
                &&& exists|b: Seq<u8>|
                    b.len() == 32 && req.attributes.nonce@ == b64url_of(b) && b64url_decoded(
                        req.attributes.nonce@,
                    ) == Some(b)
                &&& Some(req.request_uri@) == url_with_params_of(
                    "https://accounts.google.com/o/oauth2/v2/auth"@,
                    seq![
                        ("response_type"@, "code"@),
                        ("client_id"@, self.config.client_id@),
                        ("redirect_uri"@, self.config.redirect_uri@),
                        ("scope"@, self.config.scope@),
                        ("state"@, req.attributes.state@),
                        ("nonce"@, req.attributes.nonce@),
                    ],
                )
            }),
            r matches Err(e) ==> e is InvalidEndpointUrl && (exists|st: Seq<char>, no: Seq<char>|
                st.len() == b64url_len(32) && no.len() == b64url_len(32) && url_with_params_of(
                    "https://accounts.google.com/o/oauth2/v2/auth"@,
                    seq![
                        ("response_type"@, "code"@),
                        ("client_id"@, self.config.client_id@),
                        ("redirect_uri"@, self.config.redirect_uri@),
                        ("scope"@, self.config.scope@),
                        ("state"@, st),
                        ("nonce"@, no),
                    ],
                ) is None),
    {
        let state = self.generate_state();
        let nonce = self.generate_nonce();
        let mut params: Vec<(String, String)> = Vec::new();
        params.push(pair("response_type", "code"));
        params.push(pair("client_id", self.config.client_id.as_str()));
        params.push(pair("redirect_uri", self.config.redirect_uri.as_str()));
        params.push(pair("scope", self.config.scope.as_str()));
        params.push(pair("state", state.as_str()));
        params.push(pair("nonce", nonce.as_str()));
        proof {
            assert(params.deep_view() =~= seq![
                ("response_type"@, "code"@),
                ("client_id"@, self.config.client_id@),
                ("redirect_uri"@, self.config.redirect_uri@),
                ("scope"@, self.config.scope@),
                ("state"@, state@),
                ("nonce"@, nonce@),
            ]);
        }
        match url_with_params("https://accounts.google.com/o/oauth2/v2/auth", &params) {
            Some(u) => Ok(
                GoogleAuthRequest {
                    request_uri: u,
                    attributes: RequestAttributes { state, nonce },
                },
            ),
            None => {
                proof {
                    let st = state@;
                    let no = nonce@;
                    assert(st.len() == b64url_len(32) && no.len() == b64url_len(32)
                        && url_with_params_of(
                        "https://accounts.google.com/o/oauth2/v2/auth"@,
                        seq![
                            ("response_type"@, "code"@),
                            ("client_id"@, self.config.client_id@),
                            ("redirect_uri"@, self.config.redirect_uri@),
                            ("scope"@, self.config.scope@),
                            ("state"@, st),
                            ("nonce"@, no),
                        ],
                    ) is None);
                }
                Err(GoogleSigninError::InvalidEndpointUrl)
            },
        }
    }

    fn generate_state(&self) -> (r: String)
        ensures
            r@.len() == b64url_len(32),
            exists|b: Seq<u8>|
                b.len() == 32 && r@ == b64url_of(b) && b64url_decoded(r@) == Some(b),
    {
        RandomString::new().generate(32)
    }

    fn generate_nonce(&self) -> (r: String)
        ensures
            r@.len() == b64url_len(32),
            exists|b: Seq<u8>|
                b.len() == 32 && r@ == b64url_of(b) && b64url_decoded(r@) == Some(b),
    {
        RandomString::new().generate(32)
    }
}

/// The members of the provider's token response that the engine reads.
#[derive(Clone, Debug)]
pub struct TokenResponse {
    pub access_token: String,
    pub expires_in: u64,
    pub id_token: String,
    pub scope: String,
    pub token_type: String,
}

/// Builds the token-endpoint request for an authorization code and judges
/// what came back.
pub struct TokenRequest<'a> {
    pub config: &'a GoogleConfig,
    pub openid_config: &'a OpenIdConfiguration,
    pub code: &'a str,
}

impl<'a> TokenRequest<'a> {
    pub fn new(
        config: &'a GoogleConfig,
        openid_config: &'a OpenIdConfiguration,
        code: &'a str,
    ) -> (r: Self)
        ensures
            r.config == config,
            r.openid_config == openid_config,
            r.code@ == code@,
    {
        TokenRequest { config, openid_config, code }
    }

    /// The exact form body the discovered token endpoint receives.
    pub fn request(&self) -> (r: FormPostRequest)
        ensures
            r.url@ == self.openid_config.token_endpoint@,
            r.headers.deep_view() =~= seq![
                ("Content-Type"@, "application/x-www-form-urlencoded"@),
            ],
            r.params.deep_view() =~= seq![
                ("grant_type"@, "authorization_code"@),
                ("client_id"@, self.config.client_id@),
                ("client_secret"@, self.config.client_secret@),
                ("redirect_uri"@, self.config.redirect_uri@),
                ("code"@, self.code@),
            ],
    {
        let mut headers: Vec<(String, String)> = Vec::new();
        headers.push(pair("Content-Type", "application/x-www-form-urlencoded"));
        let mut params: Vec<(String, String)> = Vec::new();
        params.push(pair("grant_type", "authorization_code"));
        params.push(pair("client_id", self.config.client_id.as_str()));
        params.push(pair("client_secret", self.config.client_secret.as_str()));
        params.push(pair("redirect_uri", self.config.redirect_uri.as_str()));
        params.push(pair("code", self.code));
        FormPostRequest { url: self.openid_config.token_endpoint.clone(), headers, params }
    }

    /// Judges the token-endpoint response: success is owed exactly when
    /// the status is successful and the body decoded.
    pub fn outcome(&self, status: u16, parsed: Option<TokenResponse>, body: String) -> (r: Result<
        TokenResponse,
        GoogleSigninError,
    >)
        ensures
            r is Ok <==> spec_status_success(status) && parsed is Some,
            r matches Ok(t) ==> parsed matches Some(p) && t.access_token@ == p.access_token@
                && t.expires_in == p.expires_in && t.id_token@ == p.id_token@ && t.scope@
                == p.scope@ && t.token_type@ == p.token_type@,
            r matches Err(e) ==> e matches GoogleSigninError::TokenRequestFailed {
                status: st,
                body: b,
            } && st == status && b@ == body@,
    {
        if !status_success(status) {
            return Err(GoogleSigninError::TokenRequestFailed { status, body });
        }
        match parsed {
            Some(t) => Ok(t),
            None => Err(GoogleSigninError::TokenRequestFailed { status, body }),
        }
    }
}

/// The claims of a verified ID token that the engine reads.
#[derive(Clone, Debug)]
pub struct Claims {
    pub aud: String,
    pub exp: u64,
    pub iss: String,
    pub sub: String,
    pub email: String,
    pub nonce: String,
}

/// The normalized identity handed to the caller after every check passed.
#[derive(Clone, Debug, PartialEq, Eq)]
pub struct GoogleId {
    pub sub: String,
    pub email: String,
}

impl From<Claims> for GoogleId {
    fn from(claims: Claims) -> (r: Self) {
        GoogleId { sub: claims.sub, email: claims.email }
    }
}

impl vstd::std_specs::convert::FromSpecImpl<Claims> for GoogleId {
    open spec fn obeys_from_spec() -> bool {
        true
    }

    open spec fn from_spec(c: Claims) -> Self {
        GoogleId { sub: c.sub, email: c.email }
    }
}

/// Drives one callback through the OpenID Connect checks; the transport
/// layer only performs the requests this type hands it.
pub struct GoogleSignin<'a> {
    pub config: &'a GoogleConfig,
    pub auth: &'a GoogleAuthorizationResponse,
    pub attributes: Option<RequestAttributes>,
}

impl<'a> GoogleSignin<'a> {
    pub fn new(
        config: &'a GoogleConfig,
        auth: &'a GoogleAuthorizationResponse,
        attributes: Option<RequestAttributes>,
    ) -> (r: Self)
        ensures
            r.config == config,
            r.auth == auth,
            r.attributes == attributes,
    {
        GoogleSignin { config, auth, attributes }
    }

    /// The correlation check: the saved attributes must exist and their
    /// state must equal the one the provider returned, or the attempt ends
    /// here.
    pub fn verify_callback(&self) -> (r: Result<&RequestAttributes, GoogleSigninError>)
        ensures
            match r {
                Ok(attrs) => self.attributes matches Some(a) && *attrs == a && a.state@
                    == self.auth.state@,
                Err(e) => match e {
                    GoogleSigninError::RequestAttributesMissing => self.attributes is None,
                    GoogleSigninError::StateMismatch => self.attributes matches Some(a)
                        && a.state@ != self.auth.state@,
                    _ => false,
                },
            },
    {
        let attrs = match &self.attributes {
            Some(a) => a,
            None => {
                return Err(GoogleSigninError::RequestAttributesMissing);
            },
        };
        if attrs.state == self.auth.state {
            Ok(attrs)
        } else {
            Err(GoogleSigninError::StateMismatch)
        }
    }

    /// Judges decoded claims, in the fixed order issuer, audience, expiry,
    /// nonce; the first failing check names the error.
    pub fn validate_claims(&self, claims: &Claims, attrs: &RequestAttributes, now: u64) -> (r:
        Result<(), GoogleSigninError>)
        ensures
            match r {
                Ok(u) => claims.iss@ == "https://accounts.google.com"@ && claims.aud@
                    == self.config.client_id@ && now < claims.exp && claims.nonce@
                    == attrs.nonce@,
                Err(e) => match e {
                    GoogleSigninError::InvalidIssuer => claims.iss@
                        != "https://accounts.google.com"@,
                    GoogleSigninError::InvalidAudience => claims.iss@
                        == "https://accounts.google.com"@ && claims.aud@
                        != self.config.client_id@,
                    GoogleSigninError::IdTokenExpired => claims.iss@
                        == "https://accounts.google.com"@ && claims.aud@
                        == self.config.client_id@ && now >= claims.exp,
                    GoogleSigninError::NonceMismatch => claims.iss@
                        == "https://accounts.google.com"@ && claims.aud@
                        == self.config.client_id@ && now < claims.exp && claims.nonce@
                        != attrs.nonce@,
                    _ => false,
                },
            },
    {
        let issuer = self.config.issuer();
        if claims.iss != issuer {
            return Err(GoogleSigninError::InvalidIssuer);
        }
        if claims.aud != self.config.client_id {
            return Err(GoogleSigninError::InvalidAudience);
        }
        if now >= claims.exp {
            return Err(GoogleSigninError::IdTokenExpired);
        }
        if claims.nonce != attrs.nonce {
            return Err(GoogleSigninError::NonceMismatch);
        }
        Ok(())
    }

    /// The whole ID-token judgment: structure, algorithm, key lookup,
    /// signature, then the claims, in that order. An identity comes back
    /// only from a token that passed every step.
    pub fn verify_id_token(
        &self,
        id_token: &str,
        jwks: &Jwks,
        attrs: &RequestAttributes,
        now: u64,
    ) -> (r: Result<GoogleId, GoogleSigninError>)
        ensures
            r matches Ok(id) ==> ({
                &&& token_signed_ok(id_token@, jwks.keys@)
                &&& token_claims_ok(id_token@)
                &&& claim_str(id_token@, "iss"@) == "https://accounts.google.com"@
                &&& claim_str(id_token@, "aud"@) == self.config.client_id@
                &&& now < claim_exp(id_token@)
                &&& claim_str(id_token@, "nonce"@) == attrs.nonce@
                &&& id.sub@ == claim_str(id_token@, "sub"@)
                &&& id.email@ == claim_str(id_token@, "email"@)
            }),
            r matches Err(e) ==> match e {
                GoogleSigninError::MalformedToken => !token_shape_ok(id_token@) || (
                token_signed_ok(id_token@, jwks.keys@) && !token_claims_ok(id_token@)),
                GoogleSigninError::UnsupportedAlgorithm => token_shape_ok(id_token@) && token_alg(
                    id_token@,
                ) != "RS256"@,
                GoogleSigninError::SigningKeyNotFound => token_shape_ok(id_token@) && token_alg(
                    id_token@,
                ) == "RS256"@ && !has_key_with_kid(jwks.keys@, token_kid(id_token@)),
                GoogleSigninError::SignatureInvalid => token_shape_ok(id_token@) && token_alg(
                    id_token@,
                ) == "RS256"@ && exists|k: JsonWebKey| #[trigger] first_key_with_kid(
                    jwks.keys@,
                    token_kid(id_token@),
                    k,
                ) && !token_sig_valid(id_token@, k),
                GoogleSigninError::InvalidIssuer => token_signed_ok(id_token@, jwks.keys@)
                    && token_claims_ok(id_token@) && claim_str(id_token@, "iss"@)
                    != "https://accounts.google.com"@,
                GoogleSigninError::InvalidAudience => token_signed_ok(id_token@, jwks.keys@)
                    && token_claims_ok(id_token@) && claim_str(id_token@, "iss"@)
                    == "https://accounts.google.com"@ && claim_str(id_token@, "aud"@)
                    != self.config.client_id@,
                GoogleSigninError::IdTokenExpired => token_signed_ok(id_token@, jwks.keys@)
                    && token_claims_ok(id_token@) && claim_str(id_token@, "iss"@)
                    == "https://accounts.google.com"@ && claim_str(id_token@, "aud"@)
                    == self.config.client_id@ && now >= claim_exp(id_token@),
                GoogleSigninError::NonceMismatch => token_signed_ok(id_token@, jwks.keys@)
                    && token_claims_ok(id_token@) && claim_str(id_token@, "iss"@)
                    == "https://accounts.google.com"@ && claim_str(id_token@, "aud"@)
                    == self.config.client_id@ && now < claim_exp(id_token@) && claim_str(
                    id_token@,
                    "nonce"@,
                ) != attrs.nonce@,
                _ => false,
            },
    {
        let parts = match split_token(id_token) {
            Some(t) => t,
            None => {
                return Err(GoogleSigninError::MalformedToken);
            },
        };
        let header_bytes_v = match b64url_decode(parts.0.as_str()) {
            Some(b) => b,
            None => {
                return Err(GoogleSigninError::MalformedToken);
            },
        };
        let payload_bytes_v = match b64url_decode(parts.1.as_str()) {
            Some(b) => b,
            None => {
                return Err(GoogleSigninError::MalformedToken);
            },
        };
        if b64url_decode(parts.2.as_str()).is_none() {
            return Err(GoogleSigninError::MalformedToken);
        }
        let header_map = match parse_json_object(header_bytes_v.as_slice()) {
            Some(m) => m,
            None => {
                return Err(GoogleSigninError::MalformedToken);
            },
        };
        let alg = match json_get_str(&header_map, "alg") {
            Some(s) => s,
            None => {
                return Err(GoogleSigninError::MalformedToken);
            },
        };
        let kid = match json_get_str(&header_map, "kid") {
            Some(s) => s,
            None => {
                return Err(GoogleSigninError::MalformedToken);
            },
        };
        let rs256 = String::from_str("RS256");
        if alg != rs256 {
            return Err(GoogleSigninError::UnsupportedAlgorithm);
        }
        let key = match jwks.find_by_kid(kid.as_str()) {
            Some(k) => k,
            None => {
                return Err(GoogleSigninError::SigningKeyNotFound);
            },
        };
        proof {
            assert(first_key_with_kid(jwks.keys@, token_kid(id_token@), *key));
        }
        let signing = parts.0.clone().concat(".").concat(parts.1.as_str());
        proof {
            reveal_strlit(".");
            assert(signing@ =~= split3(id_token@)->Some_0.0 + seq!['.'] + split3(
                id_token@,
            )->Some_0.1);
        }
        let signing_str = signing.as_str();
        let message = signing_str.as_bytes();
        proof {
            assert(message@ == encode_utf8(signing@));
            assert(message@ == signing_input(id_token@));
        }
        let sig_valid = rs256_verify(message, parts.2.as_str(), key.n.as_str(), key.e.as_str());
        proof {
            assert(sig_valid == token_sig_valid(id_token@, *key));
        }
        if !sig_valid {
            return Err(GoogleSigninError::SignatureInvalid);
        }
        let claims_map = match parse_json_object(payload_bytes_v.as_slice()) {
            Some(m) => m,
            None => {
                return Err(GoogleSigninError::MalformedToken);
            },
        };
        let aud = match json_get_str(&claims_map, "aud") {
            Some(s) => s,
            None => {
                return Err(GoogleSigninError::MalformedToken);
            },
        };
        let exp = match json_get_u64(&claims_map, "exp") {
            Some(x) => x,
            None => {
                return Err(GoogleSigninError::MalformedToken);
            },
        };
        let iss = match json_get_str(&claims_map, "iss") {
            Some(s) => s,
            None => {
                return Err(GoogleSigninError::MalformedToken);
            },
        };
        let sub = match json_get_str(&claims_map, "sub") {
            Some(s) => s,
            None => {
                return Err(GoogleSigninError::MalformedToken);
            },
        };
        let email = match json_get_str(&claims_map, "email") {
            Some(s) => s,
            None => {
                return Err(GoogleSigninError::MalformedToken);
            },
        };
        let nonce = match json_get_str(&claims_map, "nonce") {
            Some(s) => s,
            None => {
                return Err(GoogleSigninError::MalformedToken);
            },
        };
        let claims = Claims { aud, exp, iss, sub, email, nonce };
        match self.validate_claims(&claims, attrs, now) {
            Ok(u) => {},
            Err(e) => {
                return Err(e);
            },
        }
        Ok(GoogleId::from(claims))
    }
}

} // verus!
