//! The resolved principal of one request.

use vstd::prelude::*;

use crate::oauth::claims::IdTokenClaims;
use crate::oauth::requests::UserInfoResponse;
use crate::text::{is_uuid_str, is_uuid_text};

verus! {

/// An authenticated caller: a stable subject id in UUID form, the profile
/// claims, and the raw access token the policy layer forwards.
#[derive(Debug, Clone, PartialEq, Eq)]
pub struct AuthenticatedUser {
    pub id: String,
    pub username: String,
    pub given_name: String,
    pub family_name: String,
    pub full_name: String,
    pub email: String,
    pub email_verified: bool,
    pub access_token: String,
}

impl AuthenticatedUser {
    /// A well-formed principal carries its subject id in UUID text form.
    pub open spec fn wf(self) -> bool {
        is_uuid_text(self.id@)
    }

    pub fn new(
        id: &String,
        username: &str,
        given_name: &str,
        family_name: &str,
        full_name: &str,
        email: &str,
        email_verified: bool,
        access_token: &str,
    ) -> (r: AuthenticatedUser)
        requires
            is_uuid_text(id@),
        ensures
            r.id@ == id@,
            r.username@ == username@,
            r.given_name@ == given_name@,
            r.family_name@ == family_name@,
            r.full_name@ == full_name@,
            r.email@ == email@,
            r.email_verified == email_verified,
            r.access_token@ == access_token@,
            r.wf(),
    {
        AuthenticatedUser {
            id: id.clone(),
            username: username.to_owned(),
            given_name: given_name.to_owned(),
            family_name: family_name.to_owned(),
            full_name: full_name.to_owned(),
            email: email.to_owned(),
            email_verified,
            access_token: access_token.to_owned(),
        }
    }

    pub fn id(&self) -> (r: &String)
        ensures
            r@ == self.id@,
    {
        &self.id
    }

    pub fn username(&self) -> (r: &str)
        ensures
            r@ == self.username@,
    {
        self.username.as_str()
    }

    pub fn given_name(&self) -> (r: &str)
        ensures
            r@ == self.given_name@,
    {
        self.given_name.as_str()
    }

    pub fn family_name(&self) -> (r: &str)
        ensures
            r@ == self.family_name@,
    {
        self.family_name.as_str()
    }

    pub fn full_name(&self) -> (r: &str)
        ensures
            r@ == self.full_name@,
    {
        self.full_name.as_str()
    }

    pub fn email(&self) -> (r: &str)
        ensures
            r@ == self.email@,
    {
        self.email.as_str()
    }

    pub fn email_verified(&self) -> (r: bool)
        ensures
            r == self.email_verified,
    {
        self.email_verified
    }

    pub fn access_token(&self) -> (r: &str)
        ensures
            r@ == self.access_token@,
    {
        self.access_token.as_str()
    }

    /// Whether validated ID token claims carry everything a principal needs:
    /// a subject id in UUID form and the four profile claims.
    pub open spec fn claims_complete(claims: IdTokenClaims) -> bool {
        &&& is_uuid_text(claims.sub@)
        &&& claims.given_name is Some
        &&& claims.family_name is Some
        &&& claims.name is Some
        &&& claims.email is Some
    }

    /// The principal of the cookie flow, read out of validated ID token
    /// claims; claims missing a profile field or with a subject id that is
    /// not a UUID are rejected.
    pub fn from_id_token_claims(claims: &IdTokenClaims, access_token: &str) -> (r: Option<
        AuthenticatedUser,
    >)
        ensures
            r is Some <==> Self::claims_complete(*claims),
            r matches Some(u) ==> {
                &&& u.id@ == claims.sub@
                &&& u.username@ == claims.preferred_username@
                &&& u.given_name@ == claims.given_name->Some_0@
                &&& u.family_name@ == claims.family_name->Some_0@
                &&& u.full_name@ == claims.name->Some_0@
                &&& u.email@ == claims.email->Some_0@
                &&& u.email_verified == claims.email_verified
                &&& u.access_token@ == access_token@
                &&& u.wf()
            },
    {
        if !is_uuid_str(claims.sub.as_str()) {
            return None;
        }
        match (&claims.given_name, &claims.family_name, &claims.name, &claims.email) {
            (Some(given_name), Some(family_name), Some(full_name), Some(email)) => Some(
                AuthenticatedUser::new(
                    &claims.sub,
                    claims.preferred_username.as_str(),
                    given_name.as_str(),
                    family_name.as_str(),
                    full_name.as_str(),
                    email.as_str(),
                    claims.email_verified,
                    access_token,
                ),
            ),
            _ => None,
        }
    }

    /// The principal of the bearer flow, read out of a UserInfo answer; a
    /// subject id that is not a UUID is rejected.
    pub fn from_user_info_response(user_info_response: &UserInfoResponse, access_token: &str) -> (r:
        Option<AuthenticatedUser>)
        ensures
            r is Some <==> is_uuid_text(user_info_response.sub@),
            r matches Some(u) ==> {
                &&& u.id@ == user_info_response.sub@
                &&& u.username@ == user_info_response.preferred_username@
                &&& u.given_name@ == user_info_response.given_name@
                &&& u.family_name@ == user_info_response.family_name@
                &&& u.full_name@ == user_info_response.name@
                &&& u.email@ == user_info_response.email@
                &&& u.email_verified == user_info_response.email_verified
                &&& u.access_token@ == access_token@
                &&& u.wf()
            },
    {
        if !is_uuid_str(user_info_response.sub.as_str()) {
            return None;
        }
        Some(
            AuthenticatedUser::new(
                &user_info_response.sub,
                user_info_response.preferred_username.as_str(),
                user_info_response.given_name.as_str(),
                user_info_response.family_name.as_str(),
                user_info_response.name.as_str(),
                user_info_response.email.as_str(),
                user_info_response.email_verified,
                access_token,
            ),
        )
    }
}

} // verus!
