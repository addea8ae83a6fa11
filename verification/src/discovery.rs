use vstd::prelude::*;

use vstd::string::StringExecFns;

verus! {

/// Why fetching or reading a discovery document failed. The transport layer
/// fills these in from its own errors; the engine only passes them on.
#[derive(Clone, Debug)]
pub enum DiscoveryError {
    DecodingFailed { uri: String, message: String },
    HttpRequestFailed { uri: String, message: String },
}

impl DiscoveryError {
    /// Classifies one failed fetch from the transport's own report: a body
    /// that arrived but could not be decoded, else a failed request.
    pub fn classify(is_decode: bool, uri: String, message: String) -> (r: DiscoveryError)
        ensures
            is_decode ==> (r matches DiscoveryError::DecodingFailed { uri: u, message: m } && u@
                == uri@ && m@ == message@),
            !is_decode ==> (r matches DiscoveryError::HttpRequestFailed { uri: u, message: m }
                && u@ == uri@ && m@ == message@),
    {
        if is_decode {
            DiscoveryError::DecodingFailed { uri, message }
        } else {
            DiscoveryError::HttpRequestFailed { uri, message }
        }
    }
}

/// The fields of an issuer's `openid-configuration` document that the
/// engine reads.
#[derive(Clone, Debug)]
pub struct OpenIdConfiguration {
    pub issuer: String,
    pub authorization_endpoint: String,
    pub token_endpoint: String,
    pub userinfo_endpoint: Option<String>,
    pub jwks_uri: String,
}

/// Names the well-known URI under an issuer from which the configuration
/// document is fetched; the fetch itself is the transport layer's.
pub struct OpenIdConfigurationDiscovery {
    pub issuer: String,
}

impl OpenIdConfigurationDiscovery {
    pub fn new(issuer: &str) -> (r: Self)
        ensures
            r.issuer@ == issuer@,
    {
        OpenIdConfigurationDiscovery { issuer: String::from_str(issuer) }
    }

    /// The exact URI to fetch: the issuer followed by the well-known path.
    pub fn endpoint(&self) -> (r: String)
        ensures
            r@ == self.issuer@ + "/.well-known/openid-configuration"@,
    {
        self.issuer.clone().concat("/.well-known/openid-configuration")
    }
}

/// One provider signing key, as published in the issuer's key set.
#[derive(Clone, Debug, PartialEq, Eq)]
pub struct JsonWebKey {
    pub alg: String,
    pub key_use: String,
    pub kid: String,
    pub e: String,
    pub kty: String,
    pub n: String,
}

/// An issuer's published key set, ordered as the document listed it.
#[derive(Clone, Debug)]
pub struct Jwks {
    pub keys: Vec<JsonWebKey>,
}

impl Jwks {
    /// Looks a key up by its `kid`. Duplicate ids are resolved
    /// deterministically: the first match in document order wins.
    pub fn find_by_kid(&self, kid: &str) -> (r: Option<&JsonWebKey>)
        ensures
            match r {
                Some(k) => exists|i: int|
                    0 <= i < self.keys@.len() && self.keys@[i] == *k && k.kid@ == kid@ && (
                    forall|j: int| 0 <= j < i ==> self.keys@[j].kid@ != kid@),
                None => forall|i: int|
                    0 <= i < self.keys@.len() ==> self.keys@[i].kid@ != kid@,
            },
    {
        let wanted: String = kid.to_owned();
        let n = self.keys.len();
        let mut idx: usize = 0;
        while idx < n
            invariant
                n == self.keys@.len(),
                0 <= idx <= n,
                wanted@ == kid@,
                forall|j: int| 0 <= j < idx ==> self.keys@[j].kid@ != kid@,
            decreases n - idx,
        {
            if self.keys[idx].kid == wanted {
                return Some(&self.keys[idx]);
            }
            idx = idx + 1;
        }
        None
    }
}

/// Names the URI of a key-set document; fetching it is the transport
/// layer's.
pub struct JwksDiscovery {
    pub uri: String,
}

impl JwksDiscovery {
    pub fn new(uri: &str) -> (r: Self)
        ensures
            r.uri@ == uri@,
    {
        JwksDiscovery { uri: String::from_str(uri) }
    }

    /// The exact URI to fetch.
    pub fn endpoint(&self) -> (r: String)
        ensures
            r@ == self.uri@,
    {
        self.uri.clone()
    }
}

} // verus!
