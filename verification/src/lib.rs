//! An OpenID Connect / OAuth2 authorization-code client core with PKCE.
//!
//! The crate holds the protocol engine of a native-application login flow:
//! PKCE verifier/challenge generation, provider metadata discovery, the
//! write-once callback result slot of the local redirect listener, anti-CSRF
//! state validation, and the authorization-code/token exchange. Network and
//! server plumbing live outside the library and hand it plain values.

pub mod encoding;
pub mod jsonval;
pub mod listener;
pub mod oauth2_client;
pub mod oidc;
pub mod pkce;
mod text;
