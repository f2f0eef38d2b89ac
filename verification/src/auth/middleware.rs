//! The inbound authentication gateway, as two passes over each request:
//! first the bearer pass, then the cookie pass. Each pass is a small state
//! machine; the functions here take what the request and the session store
//! show and decide the next step, and the HTTP shell around the library
//! carries the steps out.

use vstd::prelude::*;

use crate::auth::user::AuthenticatedUser;
use crate::oauth::requests::{OAuthRefreshTokenRequest, UserInfoResponse};
use crate::oauth::token_validator::{
    authorization_check, jwt_payload_nums, spec_refresh_exp, AccessTokenClaims, KeySet,
    TokenValidationError,
};
use crate::oauth::{OAuthAuthorizationResponse, OAuthSession, OAuthSessionTokens};
use crate::routes::HEALTH_CHECK_ROUTE;
use crate::text::strip_bearer_prefix;

verus! {

/// How the caller of the current request authenticated.
#[derive(Debug, Clone, Copy, PartialEq, Eq, Structural)]
pub enum AuthenticationMethod {
    Bearer,
    OAuthCodeFlow,
}

/// Whether the path is the liveness-check path, which skips authentication.
pub fn is_health_check(path: &str) -> (r: bool)
    ensures
        r == (path@ == HEALTH_CHECK_ROUTE@),
{
    crate::text::text_eq(path, HEALTH_CHECK_ROUTE)
}

/// The first decision of the bearer pass.
pub enum BearerGate {
    /// Liveness check: skip authentication entirely.
    Bypass,
    /// No bearer token: leave the request to the cookie pass.
    PassThrough,
    /// A bearer token is present: validate it; on any failure the request
    /// ends 401, never falling through to the cookie pass.
    CheckToken(String),
}

/// The shape of an `Authorization` header value that carries a bearer token.
pub open spec fn is_bearer_header(header: Seq<char>) -> bool {
    header.len() >= 7 && header.subrange(0, 7) == "Bearer "@
}

/// Reads the request path and `Authorization` header and decides the bearer
/// pass's first step.
pub fn bearer_gate(path: &str, authorization_header: Option<&str>) -> (r: BearerGate)
    ensures
        path@ == HEALTH_CHECK_ROUTE@ ==> r == BearerGate::Bypass,
        path@ != HEALTH_CHECK_ROUTE@ && authorization_header is None ==> r
            == BearerGate::PassThrough,
        path@ != HEALTH_CHECK_ROUTE@ && authorization_header is Some && !is_bearer_header(
            authorization_header->Some_0@,
        ) ==> r == BearerGate::PassThrough,
        path@ != HEALTH_CHECK_ROUTE@ && authorization_header is Some && is_bearer_header(
            authorization_header->Some_0@,
        ) ==> (r matches BearerGate::CheckToken(t) && t@ == authorization_header->Some_0@.skip(7)),
{
    if is_health_check(path) {
        return BearerGate::Bypass;
    }
    match authorization_header {
        None => BearerGate::PassThrough,
        Some(header) => match strip_bearer_prefix(header) {
            Some(token) => BearerGate::CheckToken(token),
            None => BearerGate::PassThrough,
        },
    }
}

/// Whether a bearer validation outcome lets the request go on to the
/// UserInfo fetch: only a fully valid token does; an expired signature is
/// rejected like any other failure, the bearer pass never refreshes.
pub fn bearer_proceeds(outcome: &Result<AccessTokenClaims, TokenValidationError>) -> (r: bool)
    ensures
        r == (outcome is Ok),
{
    outcome.is_ok()
}

/// Ends the bearer pass once the UserInfo endpoint has answered (or failed):
/// no answer is a 401, an answer without a UUID subject is a 401, and
/// otherwise the caller is authenticated with the `Bearer` method and any
/// stale cookie session is cleared.
pub fn bearer_finish(user_info: Option<&UserInfoResponse>, access_token: &str) -> (r: Option<
    AuthenticatedUser,
>)
    ensures
        user_info is None ==> r is None,
        user_info matches Some(ui) ==> {
            &&& (r is Some <==> crate::text::is_uuid_text(ui.sub@))
            &&& (r matches Some(u) ==> {
                &&& u.id@ == ui.sub@
                &&& u.access_token@ == access_token@
                &&& u.wf()
            })
        },
{
    match user_info {
        Some(response) => AuthenticatedUser::from_user_info_response(response, access_token),
        None => None,
    }
}

/// The decision of the cookie pass.
pub enum CookieGate {
    /// Liveness check, or a principal already attached by the bearer pass.
    Bypass,
    /// No stored session and not the callback path: start a fresh
    /// authorization-code attempt and redirect to the identity provider.
    BeginAuthorization,
    /// No stored session on the callback path itself: let the callback
    /// route handle the request.
    PassThrough,
    /// A stored session with a live access token: the caller is
    /// authenticated with the `OAuthCodeFlow` method.
    Proceed,
    /// A stored session whose access token has expired: send this refresh
    /// grant and judge the answer.
    Refresh(OAuthRefreshTokenRequest),
}

/// Reads the request path, the bearer pass's outcome and the stored session,
/// and decides the cookie pass's step at second `now`.
pub fn cookie_gate(
    path: &str,
    already_authenticated: bool,
    stored_session: Option<&OAuthSession>,
    redirect_path: &str,
    now: u64,
    token_endpoint: &str,
    client_id: &str,
    client_secret: &str,
    scopes: &Vec<String>,
) -> (r: CookieGate)
    ensures
        (path@ == HEALTH_CHECK_ROUTE@ || already_authenticated) ==> r == CookieGate::Bypass,
        (path@ != HEALTH_CHECK_ROUTE@ && !already_authenticated && stored_session is None && path@
            != redirect_path@) ==> r == CookieGate::BeginAuthorization,
        (path@ != HEALTH_CHECK_ROUTE@ && !already_authenticated && stored_session is None && path@
            == redirect_path@) ==> r == CookieGate::PassThrough,
        (path@ != HEALTH_CHECK_ROUTE@ && !already_authenticated && stored_session is Some && now
            < stored_session->Some_0.access_token_exp) ==> r == CookieGate::Proceed,
        (path@ != HEALTH_CHECK_ROUTE@ && !already_authenticated && stored_session is Some && now
            >= stored_session->Some_0.access_token_exp) ==> (r matches CookieGate::Refresh(q) && {
            &&& q.refresh_token_endpoint@ == token_endpoint@
            &&& q.client_id@ == client_id@
            &&& q.client_secret@ == client_secret@
            &&& q.scope@ == scopes@
            &&& q.refresh_token@ == stored_session->Some_0.session_tokens.refresh_token@
        }),
{
    if is_health_check(path) || already_authenticated {
        return CookieGate::Bypass;
    }
    match stored_session {
        None => {
            if crate::text::text_eq(path, redirect_path) {
                CookieGate::PassThrough
            } else {
                CookieGate::BeginAuthorization
            }
        },
        Some(session) => {
            if session.is_access_token_expired(now) {
                CookieGate::Refresh(
                    OAuthRefreshTokenRequest::new(
                        token_endpoint,
                        client_id,
                        client_secret,
                        scopes,
                        session.session_tokens.refresh_token.as_str(),
                    ),
                )
            } else {
                CookieGate::Proceed
            }
        },
    }
}

/// How the cookie pass ends after a refresh grant.
pub enum RefreshOutcome {
    /// The grant or the validation of its tokens failed: respond 401.
    Unauthorized,
    /// The refreshed tokens validated: store this session and principal
    /// under their keys, superseding the old ones, and let the request
    /// proceed with the `OAuthCodeFlow` method.
    Replace { session: OAuthSession, user: AuthenticatedUser },
}

/// Judges the answer of a refresh grant: no answer is a 401; an answer whose
/// tokens do not validate, or whose ID token claims cannot make a principal,
/// is a 401; otherwise the stored session is superseded wholesale.
pub fn cookie_refresh_finish(
    response: Option<&OAuthAuthorizationResponse>,
    key_set: &KeySet,
    client_id: &str,
) -> (r: RefreshOutcome)
    ensures
        response is None ==> r == RefreshOutcome::Unauthorized,
        r matches RefreshOutcome::Replace { session, user } ==> (response matches Some(a) && {
            &&& session.session_tokens.access_token@ == a.access_token@
            &&& session.session_tokens.refresh_token@ == a.refresh_token@
            &&& session.session_tokens.id_token@ == a.id_token@
            &&& jwt_payload_nums(a.access_token@).contains_key("exp"@)
            &&& session.access_token_exp == jwt_payload_nums(a.access_token@)["exp"@]
            &&& jwt_payload_nums(a.id_token@).contains_key("exp"@)
            &&& session.id_token_exp == jwt_payload_nums(a.id_token@)["exp"@]
            &&& session.refresh_token_exp == spec_refresh_exp(
                a.refresh_token@,
                session.access_token_exp,
            )
            &&& user.access_token@ == a.access_token@
            &&& user.wf()
        }),
{
    let authorization_response = match response {
        Some(answer) => answer,
        None => {
            return RefreshOutcome::Unauthorized;
        },
    };
    let session_tokens = OAuthSessionTokens::new(
        authorization_response.access_token(),
        authorization_response.refresh_token(),
        authorization_response.id_token(),
        None,
    );
    let validated_tokens = match authorization_check(&session_tokens, key_set, client_id) {
        Some(validated) => validated,
        None => {
            return RefreshOutcome::Unauthorized;
        },
    };
    let user = match AuthenticatedUser::from_id_token_claims(
        validated_tokens.id_token_claims(),
        validated_tokens.access_token(),
    ) {
        Some(user) => user,
        None => {
            return RefreshOutcome::Unauthorized;
        },
    };
    let session = OAuthSession::of_validated_tokens(&validated_tokens);
    RefreshOutcome::Replace { session, user }
}

} // verus!
