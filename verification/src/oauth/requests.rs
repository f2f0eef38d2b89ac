//! The form bodies of the three token grants and the shape of a UserInfo
//! answer. Building the parameter lists is the library's work; sending them
//! is the caller's.

use vstd::prelude::*;

use crate::text::{join_strings, join_text};

verus! {

/// A token-endpoint request for the authorization-code or client-credentials
/// grant.
#[derive(Debug, Clone, PartialEq, Eq)]
pub struct OAuthAccessTokenRequest {
    pub access_token_endpoint: String,
    pub client_id: String,
    pub client_secret: String,
    pub redirect_uri: Option<String>,
    pub code: Option<String>,
    pub code_verifier: Option<String>,
}

impl OAuthAccessTokenRequest {
    /// Whether the request carries everything the authorization-code grant
    /// sends.
    pub open spec fn is_authorization_code_request(self) -> bool {
        self.redirect_uri is Some && self.code is Some && self.code_verifier is Some
    }

    /// An authorization-code grant: the callback's code and the stored PKCE
    /// verifier, bound to the registered redirect URI.
    pub fn authorization_code_request(
        access_token_endpoint: &str,
        client_id: &str,
        client_secret: &str,
        redirect_uri: &str,
        code: &str,
        code_verifier: &str,
    ) -> (r: OAuthAccessTokenRequest)
        ensures
            r.access_token_endpoint@ == access_token_endpoint@,
            r.client_id@ == client_id@,
            r.client_secret@ == client_secret@,
            r.redirect_uri matches Some(u) && u@ == redirect_uri@,
            r.code matches Some(c) && c@ == code@,
            r.code_verifier matches Some(v) && v@ == code_verifier@,
            r.is_authorization_code_request(),
    {
        OAuthAccessTokenRequest {
            access_token_endpoint: access_token_endpoint.to_owned(),
            client_id: client_id.to_owned(),
            client_secret: client_secret.to_owned(),
            redirect_uri: Some(redirect_uri.to_owned()),
            code: Some(code.to_owned()),
            code_verifier: Some(code_verifier.to_owned()),
        }
    }

    /// The form body of the authorization-code grant, in order: grant type,
    /// code, code verifier, client id, client secret, redirect URI.
    pub fn to_authorization_code_params(&self) -> (r: Vec<(String, String)>)
        requires
            self.is_authorization_code_request(),
        ensures
            r@.len() == 6,
            r@[0].0@ == "grant_type"@ && r@[0].1@ == "authorization_code"@,
            r@[1].0@ == "code"@ && r@[1].1@ == self.code->Some_0@,
            r@[2].0@ == "code_verifier"@ && r@[2].1@ == self.code_verifier->Some_0@,
            r@[3].0@ == "client_id"@ && r@[3].1@ == self.client_id@,
            r@[4].0@ == "client_secret"@ && r@[4].1@ == self.client_secret@,
            r@[5].0@ == "redirect_uri"@ && r@[5].1@ == self.redirect_uri->Some_0@,
    {
        let code = match &self.code {
            Some(code) => code.clone(),
            None => unreached(),
        };
        let code_verifier = match &self.code_verifier {
            Some(verifier) => verifier.clone(),
            None => unreached(),
        };
        let redirect_uri = match &self.redirect_uri {
            Some(uri) => uri.clone(),
            None => unreached(),
        };
        let mut params: Vec<(String, String)> = Vec::new();
        params.push((String::from_str("grant_type"), String::from_str("authorization_code")));
        params.push((String::from_str("code"), code));
        params.push((String::from_str("code_verifier"), code_verifier));
        params.push((String::from_str("client_id"), self.client_id.clone()));
        params.push((String::from_str("client_secret"), self.client_secret.clone()));
        params.push((String::from_str("redirect_uri"), redirect_uri));
        params
    }

    /// A client-credentials grant: the system's own identity, no user.
    pub fn client_credentials(
        access_token_endpoint: &str,
        client_id: &str,
        client_secret: &str,
    ) -> (r: OAuthAccessTokenRequest)
        ensures
            r.access_token_endpoint@ == access_token_endpoint@,
            r.client_id@ == client_id@,
            r.client_secret@ == client_secret@,
            r.redirect_uri is None,
            r.code is None,
            r.code_verifier is None,
    {
        OAuthAccessTokenRequest {
            access_token_endpoint: access_token_endpoint.to_owned(),
            client_id: client_id.to_owned(),
            client_secret: client_secret.to_owned(),
            redirect_uri: None,
            code: None,
            code_verifier: None,
        }
    }

    /// The form body of the client-credentials grant, in order: grant type,
    /// client id, client secret, the scopes joined by one space.
    pub fn to_client_credentials_params(&self, scopes: &Vec<String>) -> (r: Vec<(String, String)>)
        ensures
            r@.len() == 4,
            r@[0].0@ == "grant_type"@ && r@[0].1@ == "client_credentials"@,
            r@[1].0@ == "client_id"@ && r@[1].1@ == self.client_id@,
            r@[2].0@ == "client_secret"@ && r@[2].1@ == self.client_secret@,
            r@[3].0@ == "scope"@ && r@[3].1@ == join_text(
                scopes@.map_values(|s: String| s@),
                " "@,
            ),
    {
        let mut params: Vec<(String, String)> = Vec::new();
        params.push((String::from_str("grant_type"), String::from_str("client_credentials")));
        params.push((String::from_str("client_id"), self.client_id.clone()));
        params.push((String::from_str("client_secret"), self.client_secret.clone()));
        params.push((String::from_str("scope"), join_strings(scopes, " ")));
        params
    }
}

/// A token-endpoint request for the refresh-token grant.
#[derive(Debug, Clone, PartialEq, Eq)]
pub struct OAuthRefreshTokenRequest {
    pub refresh_token_endpoint: String,
    pub client_id: String,
    pub client_secret: String,
    pub scope: Vec<String>,
    pub refresh_token: String,
}

impl OAuthRefreshTokenRequest {
    pub fn new(
        refresh_token_endpoint: &str,
        client_id: &str,
        client_secret: &str,
        scope: &Vec<String>,
        refresh_token: &str,
    ) -> (r: OAuthRefreshTokenRequest)
        ensures
            r.refresh_token_endpoint@ == refresh_token_endpoint@,
            r.client_id@ == client_id@,
            r.client_secret@ == client_secret@,
            r.scope@ == scope@,
            r.refresh_token@ == refresh_token@,
    {
        OAuthRefreshTokenRequest {
            refresh_token_endpoint: refresh_token_endpoint.to_owned(),
            client_id: client_id.to_owned(),
            client_secret: client_secret.to_owned(),
            scope: scope.clone(),
            refresh_token: refresh_token.to_owned(),
        }
    }

    /// The form body of the refresh-token grant, in order: grant type, the
    /// refresh token, client id, client secret, the scopes joined by one
    /// space.
    pub fn to_params(&self) -> (r: Vec<(String, String)>)
        ensures
            r@.len() == 5,
            r@[0].0@ == "grant_type"@ && r@[0].1@ == "refresh_token"@,
            r@[1].0@ == "refresh_token"@ && r@[1].1@ == self.refresh_token@,
            r@[2].0@ == "client_id"@ && r@[2].1@ == self.client_id@,
            r@[3].0@ == "client_secret"@ && r@[3].1@ == self.client_secret@,
            r@[4].0@ == "scope"@ && r@[4].1@ == join_text(
                self.scope@.map_values(|s: String| s@),
                " "@,
            ),
    {
        let mut params: Vec<(String, String)> = Vec::new();
        params.push((String::from_str("grant_type"), String::from_str("refresh_token")));
        params.push((String::from_str("refresh_token"), self.refresh_token.clone()));
        params.push((String::from_str("client_id"), self.client_id.clone()));
        params.push((String::from_str("client_secret"), self.client_secret.clone()));
        params.push((String::from_str("scope"), join_strings(&self.scope, " ")));
        params
    }
}

/// What the UserInfo endpoint answers for a valid bearer token.
#[derive(Debug, Clone, PartialEq, Eq)]
pub struct UserInfoResponse {
    pub sub: String,
    pub email_verified: bool,
    pub name: String,
    pub preferred_username: String,
    pub given_name: String,
    pub family_name: String,
    pub email: String,
}

impl UserInfoResponse {
    pub fn new(
        sub: &str,
        email_verified: bool,
        name: &str,
        preferred_username: &str,
        given_name: &str,
        family_name: &str,
        email: &str,
    ) -> (r: UserInfoResponse)
        ensures
            r.sub@ == sub@,
            r.email_verified == email_verified,
            r.name@ == name@,
            r.preferred_username@ == preferred_username@,
            r.given_name@ == given_name@,
            r.family_name@ == family_name@,
            r.email@ == email@,
    {
        UserInfoResponse {
            sub: sub.to_owned(),
            email_verified,
            name: name.to_owned(),
            preferred_username: preferred_username.to_owned(),
            given_name: given_name.to_owned(),
            family_name: family_name.to_owned(),
            email: email.to_owned(),
        }
    }

    pub fn sub(&self) -> (r: &str)
        ensures
            r@ == self.sub@,
    {
        self.sub.as_str()
    }

    pub fn email_verified(&self) -> (r: bool)
        ensures
            r == self.email_verified,
    {
        self.email_verified
    }

    pub fn name(&self) -> (r: &str)
        ensures
            r@ == self.name@,
    {
        self.name.as_str()
    }

    pub fn preferred_username(&self) -> (r: &str)
        ensures
            r@ == self.preferred_username@,
    {
        self.preferred_username.as_str()
    }

    pub fn given_name(&self) -> (r: &str)
        ensures
            r@ == self.given_name@,
    {
        self.given_name.as_str()
    }

    pub fn family_name(&self) -> (r: &str)
        ensures
            r@ == self.family_name@,
    {
        self.family_name.as_str()
    }

    pub fn email(&self) -> (r: &str)
        ensures
            r@ == self.email@,
    {
        self.email.as_str()
    }
}

} // verus!
