//! A photo-hosting backend's security core: the OAuth2/OIDC session
//! lifecycle and the claims-based authorization that guards every request.
//!
//! The library verifies JWTs against the identity provider's key set, keeps
//! a session's expiry bookkeeping, generates and consumes PKCE
//! authorization-code attempts, decides each request's authentication, and
//! builds the UMA2 permission requests an external policy server answers.
//! Everything that computes or decides lives here under contract; HTTP,
//! session storage and clocks stay with the caller, which hands in what it
//! read and carries out what was decided.

pub mod auth;
pub mod authz;
pub mod encoding;
pub mod models;
pub mod oauth;
pub mod routes;
pub mod text;
