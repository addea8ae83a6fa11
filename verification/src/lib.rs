//! A relying-party sign-in engine for OAuth2 authorization-code flows,
//! optionally extended with OpenID Connect ID-token verification and
//! proof-key code exchange. The engine builds every outbound request,
//! judges every response and verifies every token; the caller's transport
//! layer only moves bytes.

pub mod b64;
pub mod config;
pub mod discovery;
pub mod github;
pub mod google;
pub mod http;
pub mod json;
pub mod jwt;
pub mod pkce;
pub mod random;
pub mod spotify;
pub mod urlq;
