//! The claims an ID token carries once validated.

use vstd::prelude::*;

verus! {

/// The ID token's claims. Fields the identity provider always sends are
/// plain; the rest are optional.
#[derive(Debug, Clone, PartialEq, Eq)]
pub struct IdTokenClaims {
    pub acr: String,
    pub at_hash: String,
    pub aud: String,
    pub auth_time: Option<u64>,
    pub azp: String,
    pub email: Option<String>,
    pub email_verified: bool,
    pub exp: u64,
    pub family_name: Option<String>,
    pub given_name: Option<String>,
    pub iat: u64,
    pub iss: String,
    pub jti: String,
    pub name: Option<String>,
    pub nonce: Option<String>,
    pub preferred_username: String,
    pub sid: String,
    pub sub: String,
    pub typ: String,
}

impl IdTokenClaims {
    pub fn acr(&self) -> (r: &str)
        ensures
            r@ == self.acr@,
    {
        self.acr.as_str()
    }

    pub fn at_hash(&self) -> (r: &str)
        ensures
            r@ == self.at_hash@,
    {
        self.at_hash.as_str()
    }

    pub fn aud(&self) -> (r: &str)
        ensures
            r@ == self.aud@,
    {
        self.aud.as_str()
    }

    pub fn auth_time(&self) -> (r: Option<u64>)
        ensures
            r == self.auth_time,
    {
        self.auth_time
    }

    pub fn azp(&self) -> (r: &str)
        ensures
            r@ == self.azp@,
    {
        self.azp.as_str()
    }

    pub fn email(&self) -> (r: Option<String>)
        ensures
            r == self.email,
    {
        self.email.clone()
    }

    pub fn email_verified(&self) -> (r: bool)
        ensures
            r == self.email_verified,
    {
        self.email_verified
    }

    pub fn exp(&self) -> (r: u64)
        ensures
            r == self.exp,
    {
        self.exp
    }

    pub fn family_name(&self) -> (r: Option<String>)
        ensures
            r == self.family_name,
    {
        self.family_name.clone()
    }

    pub fn given_name(&self) -> (r: Option<String>)
        ensures
            r == self.given_name,
    {
        self.given_name.clone()
    }

    pub fn iat(&self) -> (r: u64)
        ensures
            r == self.iat,
    {
        self.iat
    }

    pub fn iss(&self) -> (r: &str)
        ensures
            r@ == self.iss@,
    {
        self.iss.as_str()
    }

    pub fn jti(&self) -> (r: &str)
        ensures
            r@ == self.jti@,
    {
        self.jti.as_str()
    }

    pub fn name(&self) -> (r: Option<String>)
        ensures
            r == self.name,
    {
        self.name.clone()
    }

    pub fn nonce(&self) -> (r: &Option<String>)
        ensures
            r == self.nonce,
    {
        &self.nonce
    }

    pub fn preferred_username(&self) -> (r: &str)
        ensures
            r@ == self.preferred_username@,
    {
        self.preferred_username.as_str()
    }

    pub fn sid(&self) -> (r: &str)
        ensures
            r@ == self.sid@,
    {
        self.sid.as_str()
    }

    pub fn sub(&self) -> (r: &str)
        ensures
            r@ == self.sub@,
    {
        self.sub.as_str()
    }

    pub fn typ(&self) -> (r: &str)
        ensures
            r@ == self.typ@,
    {
        self.typ.as_str()
    }
}

} // verus!
