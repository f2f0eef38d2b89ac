//! The redirect-callback logic: matching the returned `state` against the
//! stored authorization request, building the code exchange, and judging its
//! outcome. Failures redirect home silently, so a probing caller learns
//! nothing about which part failed.

use vstd::prelude::*;

use crate::auth::user::AuthenticatedUser;
use crate::oauth::authorization_request::OAuthAuthorizationRequestState;
use crate::oauth::requests::OAuthAccessTokenRequest;
use crate::oauth::token_validator::{
    authorization_check, jwt_payload_nums, spec_refresh_exp, KeySet,
};
use crate::oauth::{OAuthAuthorizationResponse, OAuthSession, OAuthSessionTokens};

verus! {

/// The `code` query parameter of the callback.
#[derive(Debug, Clone, PartialEq, Eq)]
pub struct OAuthAuthorizationCode {
    pub code: String,
}

impl OAuthAuthorizationCode {
    pub fn new(code: &str) -> (r: OAuthAuthorizationCode)
        ensures
            r.code@ == code@,
    {
        OAuthAuthorizationCode { code: code.to_owned() }
    }

    pub fn as_str(&self) -> (r: &str)
        ensures
            r@ == self.code@,
    {
        self.code.as_str()
    }
}

/// The `state` query parameter of the callback.
#[derive(Debug, Clone, PartialEq, Eq)]
pub struct OAuthState {
    pub state: String,
}

impl OAuthState {
    pub fn new(state: &str) -> (r: OAuthState)
        ensures
            r.state@ == state@,
    {
        OAuthState { state: state.to_owned() }
    }

    pub fn as_str(&self) -> (r: &str)
        ensures
            r@ == self.state@,
    {
        self.state.as_str()
    }
}

/// The nonce and PKCE verifier of the stored authorization request, handed
/// back only when the callback's `state` matches the stored one exactly;
/// anything else is discarded without detail.
pub fn restore_authorization_request_state(
    stored: Option<&OAuthAuthorizationRequestState>,
    state: &str,
) -> (r: Option<(String, String)>)
    ensures
        r is Some <==> (stored is Some && stored->Some_0.state@ == state@),
        r matches Some(p) ==> (stored matches Some(a) && p.0@ == a.nonce@ && p.1@
            == a.code_verifier@),
{
    match stored {
        Some(authorization_request_state) => {
            if crate::text::text_eq(authorization_request_state.state.as_str(), state) {
                Some(
                    (
                        authorization_request_state.nonce.clone(),
                        authorization_request_state.code_verifier.clone(),
                    ),
                )
            } else {
                None
            }
        },
        None => None,
    }
}

/// A code exchange ready to send, with the nonce the validation will expect.
pub struct CallbackExchange {
    pub request: OAuthAccessTokenRequest,
    pub nonce: String,
}

/// Begins the callback: only when the stored request's `state` matches the
/// returned one does an authorization-code exchange come back, carrying the
/// stored PKCE verifier and the stored nonce; on any mismatch the caller
/// redirects home and writes nothing.
pub fn callback_begin(
    stored: Option<&OAuthAuthorizationRequestState>,
    state: &OAuthState,
    code: &OAuthAuthorizationCode,
    token_endpoint: &str,
    client_id: &str,
    client_secret: &str,
    redirect_uri: &str,
) -> (r: Option<CallbackExchange>)
    ensures
        r is Some <==> (stored is Some && stored->Some_0.state@ == state.state@),
        r matches Some(x) ==> (stored matches Some(a) && {
            &&& x.nonce@ == a.nonce@
            &&& x.request.access_token_endpoint@ == token_endpoint@
            &&& x.request.client_id@ == client_id@
            &&& x.request.client_secret@ == client_secret@
            &&& x.request.redirect_uri matches Some(u) && u@ == redirect_uri@
            &&& x.request.code matches Some(c) && c@ == code.code@
            &&& x.request.code_verifier matches Some(v) && v@ == a.code_verifier@
            &&& x.request.is_authorization_code_request()
        }),
{
    let (nonce, code_verifier) = match restore_authorization_request_state(
        stored,
        state.state.as_str(),
    ) {
        Some(restored) => restored,
        None => {
            return None;
        },
    };
    let request = OAuthAccessTokenRequest::authorization_code_request(
        token_endpoint,
        client_id,
        client_secret,
        redirect_uri,
        code.code.as_str(),
        code_verifier.as_str(),
    );
    Some(CallbackExchange { request, nonce })
}

/// How the callback ends. Whatever happens the stored authorization request
/// is deleted and the answer is a redirect home.
pub enum CallbackOutcome {
    /// The exchange or the validation failed: redirect home with no detail
    /// and write nothing.
    RedirectHome,
    /// The exchanged tokens validated under the stored nonce: store this
    /// session and principal under their keys, then redirect home.
    StoreAndRedirectHome { session: OAuthSession, user: AuthenticatedUser },
}

/// Judges the code exchange's answer: validation runs with the stored nonce,
/// and only a fully validated token set with complete profile claims is
/// stored.
pub fn callback_finish(
    response: Option<&OAuthAuthorizationResponse>,
    nonce: &str,
    key_set: &KeySet,
    client_id: &str,
) -> (r: CallbackOutcome)
    ensures
        response is None ==> r == CallbackOutcome::RedirectHome,
        r matches CallbackOutcome::StoreAndRedirectHome { session, user } ==> (response matches Some(
            a,
        ) && {
            &&& session.session_tokens.access_token@ == a.access_token@
            &&& session.session_tokens.refresh_token@ == a.refresh_token@
            &&& session.session_tokens.id_token@ == a.id_token@
            &&& (session.session_tokens.nonce matches Some(n) ==> n@ == nonce@)
            &&& jwt_payload_nums(a.access_token@).contains_key("exp"@)
            &&& session.access_token_exp == jwt_payload_nums(a.access_token@)["exp"@]
            &&& jwt_payload_nums(a.id_token@).contains_key("exp"@)
            &&& session.id_token_exp == jwt_payload_nums(a.id_token@)["exp"@]
            &&& session.refresh_token_exp == spec_refresh_exp(
                a.refresh_token@,
                session.access_token_exp,
            )
            &&& user.access_token@ == a.access_token@
            &&& user.wf()
        }),
{
    let authorization_response = match response {
        Some(answer) => answer,
        None => {
            return CallbackOutcome::RedirectHome;
        },
    };
    let session_tokens = OAuthSessionTokens::new(
        authorization_response.access_token(),
        authorization_response.refresh_token(),
        authorization_response.id_token(),
        Some(nonce),
    );
    let validated_tokens = match authorization_check(&session_tokens, key_set, client_id) {
        Some(validated) => validated,
        None => {
            return CallbackOutcome::RedirectHome;
        },
    };
    let user = match AuthenticatedUser::from_id_token_claims(
        validated_tokens.id_token_claims(),
        validated_tokens.access_token(),
    ) {
        Some(user) => user,
        None => {
            return CallbackOutcome::RedirectHome;
        },
    };
    let session = OAuthSession::new(
        validated_tokens.access_token_exp(),
        validated_tokens.refresh_token_exp(),
        validated_tokens.id_token_exp(),
        session_tokens,
    );
    CallbackOutcome::StoreAndRedirectHome { session, user }
}

} // verus!
