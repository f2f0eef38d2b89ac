//! The OAuth2/OIDC session types: the token triple a session carries, the
//! expiry bookkeeping around it, and the token endpoint's response shape.

use vstd::prelude::*;

verus! {

/// Session-store key under which an in-flight authorization request waits
/// for its callback.
pub const OAUTH_AUTHORIZATION_REQUEST_STATE_SESSION_KEY: &'static str =
    "oauth_authorization_request_state";

/// Session-store key under which an authenticated session's tokens live.
pub const OAUTH_SESSION_KEY: &'static str = "oauth_session";

/// The token triple of one authenticated session, plus the nonce used only
/// for the first validation after the code exchange. Replaced wholesale on
/// refresh, never edited.
#[derive(Debug, Clone, PartialEq, Eq)]
pub struct OAuthSessionTokens {
    pub access_token: String,
    pub refresh_token: String,
    pub id_token: String,
    pub nonce: Option<String>,
}

impl OAuthSessionTokens {
    pub fn new(access_token: &str, refresh_token: &str, id_token: &str, nonce: Option<&str>) -> (r:
        OAuthSessionTokens)
        ensures
            r.access_token@ == access_token@,
            r.refresh_token@ == refresh_token@,
            r.id_token@ == id_token@,
            r.nonce is Some <==> nonce is Some,
            nonce matches Some(n0) ==> (r.nonce matches Some(n) && n@ == n0@),
    {
        OAuthSessionTokens {
            access_token: access_token.to_owned(),
            refresh_token: refresh_token.to_owned(),
            id_token: id_token.to_owned(),
            nonce: match nonce {
                Some(n) => Some(n.to_owned()),
                None => None,
            },
        }
    }

    pub fn access_token(&self) -> (r: &str)
        ensures
            r@ == self.access_token@,
    {
        self.access_token.as_str()
    }

    pub fn refresh_token(&self) -> (r: &str)
        ensures
            r@ == self.refresh_token@,
    {
        self.refresh_token.as_str()
    }

    pub fn id_token(&self) -> (r: &str)
        ensures
            r@ == self.id_token@,
    {
        self.id_token.as_str()
    }

    pub fn nonce(&self) -> (r: &Option<String>)
        ensures
            r == self.nonce,
    {
        &self.nonce
    }
}

/// One authenticated session: its tokens and the absolute expiry second of
/// each, taken from the tokens' own `exp` claims, never computed locally.
#[derive(Debug, Clone, PartialEq, Eq)]
pub struct OAuthSession {
    pub access_token_exp: u64,
    pub refresh_token_exp: u64,
    pub id_token_exp: u64,
    pub session_tokens: OAuthSessionTokens,
}

impl OAuthSession {
    pub fn new(
        access_token_exp: u64,
        refresh_token_exp: u64,
        id_token_exp: u64,
        oauth_session_tokens: OAuthSessionTokens,
    ) -> (r: OAuthSession)
        ensures
            r == (OAuthSession {
                access_token_exp,
                refresh_token_exp,
                id_token_exp,
                session_tokens: oauth_session_tokens,
            }),
    {
        OAuthSession {
            access_token_exp,
            refresh_token_exp,
            id_token_exp,
            session_tokens: oauth_session_tokens,
        }
    }

    pub fn session_tokens(&self) -> (r: &OAuthSessionTokens)
        ensures
            r == self.session_tokens,
    {
        &self.session_tokens
    }

    /// Whether the access token has expired at second `now`: it is live up
    /// to the second before its `exp` claim and expired from `exp` on.
    pub fn is_access_token_expired(&self, now: u64) -> (r: bool)
        ensures
            r == (now >= self.access_token_exp),
    {
        now >= self.access_token_exp
    }

    /// Whether the refresh token has expired at second `now`.
    pub fn is_refresh_token_expired(&self, now: u64) -> (r: bool)
        ensures
            r == (now >= self.refresh_token_exp),
    {
        now >= self.refresh_token_exp
    }

    /// Whether the ID token has expired at second `now`.
    pub fn is_id_token_expired(&self, now: u64) -> (r: bool)
        ensures
            r == (now >= self.id_token_exp),
    {
        now >= self.id_token_exp
    }
}

/// What the token endpoint returns for any successful grant.
#[derive(Debug, Clone, PartialEq, Eq)]
pub struct OAuthAuthorizationResponse {
    pub access_token: String,
    pub refresh_token: String,
    pub id_token: String,
    pub expires_in: u64,
    pub refresh_expires_in: u64,
    pub not_before_policy: u64,
    pub session_state: String,
    pub scope: String,
}

impl OAuthAuthorizationResponse {
    pub fn new(
        access_token: &str,
        refresh_token: &str,
        id_token: &str,
        expires_in: u64,
        refresh_expires_in: u64,
        not_before_policy: u64,
        session_state: &str,
        scope: &str,
    ) -> (r: OAuthAuthorizationResponse)
        ensures
            r.access_token@ == access_token@,
            r.refresh_token@ == refresh_token@,
            r.id_token@ == id_token@,
            r.expires_in == expires_in,
            r.refresh_expires_in == refresh_expires_in,
            r.not_before_policy == not_before_policy,
            r.session_state@ == session_state@,
            r.scope@ == scope@,
    {
        OAuthAuthorizationResponse {
            access_token: access_token.to_owned(),
            refresh_token: refresh_token.to_owned(),
            id_token: id_token.to_owned(),
            expires_in,
            refresh_expires_in,
            not_before_policy,
            session_state: session_state.to_owned(),
            scope: scope.to_owned(),
        }
    }

    pub fn access_token(&self) -> (r: &str)
        ensures
            r@ == self.access_token@,
    {
        self.access_token.as_str()
    }

    pub fn refresh_token(&self) -> (r: &str)
        ensures
            r@ == self.refresh_token@,
    {
        self.refresh_token.as_str()
    }

    pub fn id_token(&self) -> (r: &str)
        ensures
            r@ == self.id_token@,
    {
        self.id_token.as_str()
    }

    pub fn expires_in(&self) -> (r: u64)
        ensures
            r == self.expires_in,
    {
        self.expires_in
    }

    pub fn refresh_expires_in(&self) -> (r: u64)
        ensures
            r == self.refresh_expires_in,
    {
        self.refresh_expires_in
    }

    pub fn not_before_policy(&self) -> (r: u64)
        ensures
            r == self.not_before_policy,
    {
        self.not_before_policy
    }

    pub fn session_state(&self) -> (r: &str)
        ensures
            r@ == self.session_state@,
    {
        self.session_state.as_str()
    }

    pub fn scope(&self) -> (r: &str)
        ensures
            r@ == self.scope@,
    {
        self.scope.as_str()
    }
}

} // verus!

pub mod authorization_request;
pub mod claims;
pub mod client_session;
pub mod requests;
pub mod token_validator;
