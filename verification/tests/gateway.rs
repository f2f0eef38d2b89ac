use std::collections::HashMap;
use std::time::{SystemTime, UNIX_EPOCH};

use base64::Engine;
use base64::prelude::BASE64_URL_SAFE_NO_PAD;
use jsonwebtoken::{Algorithm, EncodingKey, Header};

use secure_photo_hub::auth::middleware::{
    bearer_gate, bearer_finish, bearer_proceeds, cookie_gate, cookie_refresh_finish, BearerGate,
    CookieGate, RefreshOutcome,
};
use secure_photo_hub::auth::redirect_endpoint::{
    callback_begin, callback_finish, restore_authorization_request_state, CallbackOutcome,
    OAuthAuthorizationCode, OAuthState,
};
use secure_photo_hub::auth::USER_SESSION_KEY;
use secure_photo_hub::oauth::authorization_request::OAuthAuthorizationRequestState;
use secure_photo_hub::oauth::requests::UserInfoResponse;
use secure_photo_hub::oauth::token_validator::{validate_access_token, KeySet, KeySetEntry};
use secure_photo_hub::oauth::{
    OAuthAuthorizationResponse, OAuthSession, OAuthSessionTokens, OAUTH_SESSION_KEY,
};

const SECRET: &[u8] = b"a-gateway-test-secret-0123456789";
const KID: &str = "gw-key";
const CLIENT_ID: &str = "photo-client";

fn now_secs() -> u64 {
    SystemTime::now().duration_since(UNIX_EPOCH).expect("clock").as_secs()
}

fn test_key_set() -> KeySet {
    let encoded = BASE64_URL_SAFE_NO_PAD.encode(SECRET);
    let json = format!("{{\"kty\":\"oct\",\"kid\":\"{}\",\"k\":\"{}\"}}", KID, encoded);
    let jwk: jsonwebtoken::jwk::Jwk = serde_json::from_str(&json).expect("jwk json");
    KeySet::new(vec![KeySetEntry::new(KID, jwk)])
}

fn sign(claims_json: &str) -> String {
    let mut header = Header::new(Algorithm::HS256);
    header.kid = Some(KID.to_string());
    let claims: serde_json::Value = serde_json::from_str(claims_json).expect("claims json");
    jsonwebtoken::encode(&header, &claims, &EncodingKey::from_secret(SECRET)).expect("sign")
}

fn access_token_with_exp(exp: u64) -> String {
    sign(&format!("{{\"aud\":\"account\",\"sub\":\"svc\",\"exp\":{}}}", exp))
}

fn id_token_with(exp: u64, nonce: Option<&str>) -> String {
    let nonce_field = match nonce {
        Some(n) => format!(",\"nonce\":\"{}\"", n),
        None => String::new(),
    };
    sign(&format!(
        "{{\"acr\":\"1\",\"at_hash\":\"h\",\"aud\":\"{}\",\"azp\":\"{}\",\
         \"email\":\"jo@example.com\",\"email_verified\":true,\"exp\":{},\
         \"family_name\":\"Doe\",\"given_name\":\"Jo\",\"iat\":1,\"iss\":\"https://idp\",\
         \"jti\":\"j1\",\"name\":\"Jo Doe\",\"preferred_username\":\"jo\",\"sid\":\"s1\",\
         \"sub\":\"123e4567-e89b-12d3-a456-426614174000\",\"typ\":\"ID\"{}}}",
        CLIENT_ID, CLIENT_ID, exp, nonce_field
    ))
}

fn grant_response(access_token: &str, refresh_token: &str, id_token: &str) -> OAuthAuthorizationResponse {
    OAuthAuthorizationResponse::new(access_token, refresh_token, id_token, 300, 1800, 0, "st", "openid")
}

#[test]
fn health_check_bypasses_both_passes() {
    assert!(matches!(bearer_gate("/healthcheck", Some("Bearer x")), BearerGate::Bypass));
    let gate = cookie_gate(
        "/healthcheck",
        false,
        None,
        "/callback",
        now_secs(),
        "https://idp/token",
        CLIENT_ID,
        "secret",
        &vec!["openid".to_string()],
    );
    assert!(matches!(gate, CookieGate::Bypass));
}

#[test]
fn bearer_gate_reads_the_authorization_header() {
    assert!(matches!(bearer_gate("/photos", None), BearerGate::PassThrough));
    assert!(matches!(bearer_gate("/photos", Some("Basic abc")), BearerGate::PassThrough));
    match bearer_gate("/photos", Some("Bearer tok-1")) {
        BearerGate::CheckToken(token) => assert_eq!(token, "tok-1"),
        _ => panic!("a bearer header must be checked"),
    }
}

#[test]
fn bearer_with_expired_token_is_rejected_without_refresh() {
    let key_set = test_key_set();
    let expired = access_token_with_exp(now_secs() - 7200);
    let header = format!("Bearer {}", expired);
    let token = match bearer_gate("/photos", Some(&header)) {
        BearerGate::CheckToken(token) => token,
        _ => panic!("the bearer pass must check the token"),
    };
    let outcome = validate_access_token(&token, &key_set);
    // The signature validates but `exp` is past: the distinguished error...
    assert!(matches!(
        outcome,
        Err(secure_photo_hub::oauth::token_validator::TokenValidationError::ExpiredSignature)
    ));
    // ...still ends the request 401: the bearer pass never refreshes.
    assert!(!bearer_proceeds(&outcome));
}

#[test]
fn bearer_success_builds_the_principal_from_user_info() {
    let response = UserInfoResponse::new(
        "123e4567-e89b-12d3-a456-426614174000",
        true,
        "Jo Doe",
        "jo",
        "Jo",
        "Doe",
        "jo@example.com",
    );
    let user = bearer_finish(Some(&response), "raw-access-token").expect("principal");
    assert_eq!(user.id(), "123e4567-e89b-12d3-a456-426614174000");
    assert_eq!(user.username(), "jo");
    assert_eq!(user.full_name(), "Jo Doe");
    assert_eq!(user.access_token(), "raw-access-token");
    assert!(bearer_finish(None, "raw-access-token").is_none());
    let bad_sub = UserInfoResponse::new("not-a-uuid", true, "n", "u", "g", "f", "e");
    assert!(bearer_finish(Some(&bad_sub), "raw-access-token").is_none());
}

#[test]
fn cookie_gate_without_session_redirects_except_on_the_callback_path() {
    let scopes = vec!["openid".to_string()];
    let gate = cookie_gate(
        "/photos", false, None, "/callback", now_secs(), "https://idp/token", CLIENT_ID, "secret",
        &scopes,
    );
    assert!(matches!(gate, CookieGate::BeginAuthorization));
    let gate = cookie_gate(
        "/callback", false, None, "/callback", now_secs(), "https://idp/token", CLIENT_ID,
        "secret", &scopes,
    );
    assert!(matches!(gate, CookieGate::PassThrough));
    let gate = cookie_gate(
        "/photos", true, None, "/callback", now_secs(), "https://idp/token", CLIENT_ID, "secret",
        &scopes,
    );
    assert!(matches!(gate, CookieGate::Bypass));
}

#[test]
fn cookie_gate_expiry_boundary_decides_between_proceed_and_refresh() {
    let scopes = vec!["openid".to_string()];
    let exp: u64 = 5_000_000;
    let session = OAuthSession::new(
        exp,
        exp + 100,
        exp + 100,
        OAuthSessionTokens::new("at", "rt-77", "it", None),
    );
    let gate = cookie_gate(
        "/photos", false, Some(&session), "/callback", exp - 1, "https://idp/token", CLIENT_ID,
        "secret", &scopes,
    );
    assert!(matches!(gate, CookieGate::Proceed));
    let gate = cookie_gate(
        "/photos", false, Some(&session), "/callback", exp, "https://idp/token", CLIENT_ID,
        "secret", &scopes,
    );
    match gate {
        CookieGate::Refresh(request) => {
            assert_eq!(request.refresh_token, "rt-77");
            assert_eq!(request.client_id, CLIENT_ID);
            assert_eq!(request.refresh_token_endpoint, "https://idp/token");
            let params = request.to_params();
            assert_eq!(params[0], ("grant_type".to_string(), "refresh_token".to_string()));
            assert_eq!(params[1], ("refresh_token".to_string(), "rt-77".to_string()));
            assert_eq!(params[4], ("scope".to_string(), "openid".to_string()));
        }
        _ => panic!("an expired access token must be refreshed"),
    }
}

#[test]
fn successful_refresh_replaces_the_session_with_a_later_expiry() {
    let key_set = test_key_set();
    let old_exp = now_secs() - 60;
    let old_session = OAuthSession::new(
        old_exp,
        now_secs() + 3600,
        now_secs() + 3600,
        OAuthSessionTokens::new("old-at", "old-rt", "old-it", None),
    );
    let new_exp = now_secs() + 900;
    let fresh_access = access_token_with_exp(new_exp);
    let fresh_id = id_token_with(new_exp, None);
    let response = grant_response(&fresh_access, "new-rt", &fresh_id);
    match cookie_refresh_finish(Some(&response), &key_set, CLIENT_ID) {
        RefreshOutcome::Replace { session, user } => {
            assert_eq!(session.session_tokens().access_token(), fresh_access);
            assert_eq!(session.session_tokens().refresh_token(), "new-rt");
            assert!(session.access_token_exp > old_session.access_token_exp);
            assert_eq!(session.access_token_exp, new_exp);
            assert_eq!(user.username(), "jo");
            assert_eq!(user.access_token(), fresh_access);
        }
        RefreshOutcome::Unauthorized => panic!("a valid refresh must replace the session"),
    }
}

#[test]
fn failed_refresh_is_a_401() {
    let key_set = test_key_set();
    assert!(matches!(
        cookie_refresh_finish(None, &key_set, CLIENT_ID),
        RefreshOutcome::Unauthorized
    ));
    let bogus = grant_response("garbage", "r", "garbage");
    assert!(matches!(
        cookie_refresh_finish(Some(&bogus), &key_set, CLIENT_ID),
        RefreshOutcome::Unauthorized
    ));
}

#[test]
fn callback_with_mismatched_state_writes_nothing_and_goes_home() {
    let stored = OAuthAuthorizationRequestState::new("state-a", "nonce-a", "verifier-a", "digest");
    // The session store as the driver sees it: no writes may happen.
    let mut store: HashMap<String, String> = HashMap::new();
    let begun = callback_begin(
        Some(&stored),
        &OAuthState::new("state-b"),
        &OAuthAuthorizationCode::new("code-1"),
        "https://idp/token",
        CLIENT_ID,
        "secret",
        "https://app/callback",
    );
    assert!(begun.is_none());
    if let Some(exchange) = begun {
        // Never reached: only a matched state exchanges the code.
        store.insert(OAUTH_SESSION_KEY.to_string(), exchange.nonce);
    }
    assert!(!store.contains_key(OAUTH_SESSION_KEY));
    assert!(!store.contains_key(USER_SESSION_KEY));
    assert!(restore_authorization_request_state(None, "state-b").is_none());
}

#[test]
fn callback_with_matching_state_exchanges_the_code_with_the_stored_verifier() {
    let stored = OAuthAuthorizationRequestState::new("state-a", "nonce-a", "verifier-a", "digest");
    let exchange = callback_begin(
        Some(&stored),
        &OAuthState::new("state-a"),
        &OAuthAuthorizationCode::new("code-1"),
        "https://idp/token",
        CLIENT_ID,
        "secret",
        "https://app/callback",
    )
    .expect("matched state");
    assert_eq!(exchange.nonce, "nonce-a");
    let params = exchange.request.to_authorization_code_params();
    assert_eq!(params[0], ("grant_type".to_string(), "authorization_code".to_string()));
    assert_eq!(params[1], ("code".to_string(), "code-1".to_string()));
    assert_eq!(params[2], ("code_verifier".to_string(), "verifier-a".to_string()));
    assert_eq!(params[3], ("client_id".to_string(), CLIENT_ID.to_string()));
    assert_eq!(params[4], ("client_secret".to_string(), "secret".to_string()));
    assert_eq!(params[5], ("redirect_uri".to_string(), "https://app/callback".to_string()));
}

#[test]
fn callback_finish_stores_a_session_bound_to_the_stored_nonce() {
    let key_set = test_key_set();
    let exp = now_secs() + 600;
    let access_token = access_token_with_exp(exp);
    let id_token = id_token_with(exp, Some("nonce-a"));
    let response = grant_response(&access_token, "rt-1", &id_token);
    match callback_finish(Some(&response), "nonce-a", &key_set, CLIENT_ID) {
        CallbackOutcome::StoreAndRedirectHome { session, user } => {
            assert_eq!(session.access_token_exp, exp);
            assert_eq!(session.session_tokens().nonce(), &Some("nonce-a".to_string()));
            assert_eq!(user.id(), "123e4567-e89b-12d3-a456-426614174000");
        }
        CallbackOutcome::RedirectHome => panic!("a valid exchange must be stored"),
    }
}

#[test]
fn callback_finish_swallows_a_nonce_mismatch() {
    let key_set = test_key_set();
    let exp = now_secs() + 600;
    let response = grant_response(
        &access_token_with_exp(exp),
        "rt-1",
        &id_token_with(exp, Some("nonce-a")),
    );
    assert!(matches!(
        callback_finish(Some(&response), "a-different-nonce", &key_set, CLIENT_ID),
        CallbackOutcome::RedirectHome
    ));
    assert!(matches!(
        callback_finish(None, "nonce-a", &key_set, CLIENT_ID),
        CallbackOutcome::RedirectHome
    ));
}
