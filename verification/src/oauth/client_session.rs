//! The machine credential: one self-refreshing access token for the system's
//! own calls into the policy server. The grants travel over HTTP outside
//! this library; everything decided about them is here.

use vstd::prelude::*;

use crate::oauth::requests::OAuthRefreshTokenRequest;
use crate::oauth::token_validator::{
    authorization_check, jwt_payload_nums, spec_refresh_exp, KeySet, TokenValidationError,
};
use crate::oauth::{OAuthAuthorizationResponse, OAuthSession, OAuthSessionTokens};

verus! {

/// The session the system holds for itself, with everything needed to
/// refresh it.
pub struct OAuthClientSession {
    pub client_id: String,
    pub key_set: KeySet,
    pub session: OAuthSession,
    pub refresh_token_request: OAuthRefreshTokenRequest,
}

impl OAuthClientSession {
    /// Starts the session from a client-credentials answer: validates the
    /// returned tokens against the key set, records their expiry seconds,
    /// and prepares the refresh request with the returned refresh token.
    pub fn start_session(
        client_id: &str,
        client_secret: &str,
        token_endpoint: &str,
        key_set: KeySet,
        scopes: &Vec<String>,
        authorization_response: &OAuthAuthorizationResponse,
    ) -> (r: Result<OAuthClientSession, TokenValidationError>)
        ensures
            r matches Ok(s) ==> {
                &&& s.client_id@ == client_id@
                &&& s.session.session_tokens.access_token@
                    == authorization_response.access_token@
                &&& s.session.session_tokens.refresh_token@
                    == authorization_response.refresh_token@
                &&& s.session.session_tokens.id_token@ == authorization_response.id_token@
                &&& s.session.session_tokens.nonce is None
                &&& jwt_payload_nums(authorization_response.access_token@).contains_key("exp"@)
                &&& s.session.access_token_exp == jwt_payload_nums(
                    authorization_response.access_token@,
                )["exp"@]
                &&& jwt_payload_nums(authorization_response.id_token@).contains_key("exp"@)
                &&& s.session.id_token_exp == jwt_payload_nums(
                    authorization_response.id_token@,
                )["exp"@]
                &&& s.session.refresh_token_exp == spec_refresh_exp(
                    authorization_response.refresh_token@,
                    s.session.access_token_exp,
                )
                &&& s.refresh_token_request.refresh_token@
                    == authorization_response.refresh_token@
                &&& s.refresh_token_request.refresh_token_endpoint@ == token_endpoint@
                &&& s.refresh_token_request.client_id@ == client_id@
                &&& s.refresh_token_request.client_secret@ == client_secret@
                &&& s.refresh_token_request.scope@ == scopes@
            },
            r matches Err(e) ==> e == TokenValidationError::Unknown,
    {
        let session_tokens = OAuthSessionTokens::new(
            authorization_response.access_token(),
            authorization_response.refresh_token(),
            authorization_response.id_token(),
            None,
        );
        let validated_tokens = match authorization_check(&session_tokens, &key_set, client_id) {
            Some(validated) => validated,
            None => {
                return Err(TokenValidationError::Unknown);
            },
        };
        let refresh_token_request = OAuthRefreshTokenRequest::new(
            token_endpoint,
            client_id,
            client_secret,
            scopes,
            validated_tokens.refresh_token(),
        );
        let session = OAuthSession::new(
            validated_tokens.access_token_exp(),
            validated_tokens.refresh_token_exp(),
            validated_tokens.id_token_exp(),
            session_tokens,
        );
        Ok(
            OAuthClientSession {
                client_id: client_id.to_owned(),
                key_set,
                session,
                refresh_token_request,
            },
        )
    }

    /// Whether the held access token must be refreshed before use at second
    /// `now`.
    pub fn needs_refresh(&self, now: u64) -> (r: bool)
        ensures
            r == (now >= self.session.access_token_exp),
    {
        self.session.is_access_token_expired(now)
    }

    /// The held access token, as long as it is still live at second `now`.
    pub fn access_token_if_fresh(&self, now: u64) -> (r: Option<String>)
        ensures
            r is Some <==> now < self.session.access_token_exp,
            r matches Some(t) ==> t@ == self.session.session_tokens.access_token@,
    {
        if self.session.is_access_token_expired(now) {
            None
        } else {
            Some(self.session.session_tokens.access_token.clone())
        }
    }

    /// The refresh request the owner sends when the token has expired.
    pub fn refresh_token_request(&self) -> (r: &OAuthRefreshTokenRequest)
        ensures
            r == self.refresh_token_request,
    {
        &self.refresh_token_request
    }

    /// Replaces the session with the outcome of a refresh grant: the new
    /// tokens are validated against the key set and supersede the old ones
    /// wholesale; on validation failure nothing changes.
    pub fn apply_refresh(&mut self, authorization_response: &OAuthAuthorizationResponse) -> (r:
        Result<String, TokenValidationError>)
        ensures
            r matches Ok(token) ==> {
                &&& token@ == authorization_response.access_token@
                &&& final(self).session.session_tokens.access_token@
                    == authorization_response.access_token@
                &&& final(self).session.session_tokens.refresh_token@
                    == authorization_response.refresh_token@
                &&& final(self).session.session_tokens.id_token@
                    == authorization_response.id_token@
                &&& final(self).session.session_tokens.nonce is None
                &&& jwt_payload_nums(authorization_response.access_token@).contains_key("exp"@)
                &&& final(self).session.access_token_exp == jwt_payload_nums(
                    authorization_response.access_token@,
                )["exp"@]
                &&& jwt_payload_nums(authorization_response.id_token@).contains_key("exp"@)
                &&& final(self).session.id_token_exp == jwt_payload_nums(
                    authorization_response.id_token@,
                )["exp"@]
                &&& final(self).session.refresh_token_exp == spec_refresh_exp(
                    authorization_response.refresh_token@,
                    final(self).session.access_token_exp,
                )
                &&& final(self).client_id@ == old(self).client_id@
                &&& final(self).refresh_token_request == old(self).refresh_token_request
            },
            r is Err ==> *final(self) == *old(self),
    {
        let session_tokens = OAuthSessionTokens::new(
            authorization_response.access_token(),
            authorization_response.refresh_token(),
            authorization_response.id_token(),
            None,
        );
        let validated_tokens = match authorization_check(
            &session_tokens,
            &self.key_set,
            self.client_id.as_str(),
        ) {
            Some(validated) => validated,
            None => {
                return Err(TokenValidationError::Unknown);
            },
        };
        let access_token = session_tokens.access_token.clone();
        self.session = OAuthSession::new(
            validated_tokens.access_token_exp(),
            validated_tokens.refresh_token_exp(),
            validated_tokens.id_token_exp(),
            session_tokens,
        );
        Ok(access_token)
    }
}

} // verus!
