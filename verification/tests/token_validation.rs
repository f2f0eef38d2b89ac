use std::time::{SystemTime, UNIX_EPOCH};

use base64::Engine;
use base64::prelude::BASE64_URL_SAFE_NO_PAD;
use jsonwebtoken::{Algorithm, EncodingKey, Header};

use secure_photo_hub::oauth::token_validator::{
    authorization_check, validate_access_token, validate_id_token, KeySet, KeySetEntry,
    TokenValidationError,
};
use secure_photo_hub::oauth::{OAuthSession, OAuthSessionTokens};

const SECRET: &[u8] = b"an-hmac-secret-for-tests-0123456789";
const KID: &str = "test-key";
const CLIENT_ID: &str = "photo-client";

fn now_secs() -> u64 {
    SystemTime::now().duration_since(UNIX_EPOCH).expect("clock").as_secs()
}

fn test_key_set() -> KeySet {
    let encoded = BASE64_URL_SAFE_NO_PAD.encode(SECRET);
    let json = format!("{{\"kty\":\"oct\",\"kid\":\"{}\",\"k\":\"{}\"}}", KID, encoded);
    let jwk: jsonwebtoken::jwk::Jwk = serde_json::from_str(&json).expect("jwk json");
    KeySet::new(vec![KeySetEntry::new(KID, jwk)])
}

fn sign(claims_json: &str) -> String {
    let mut header = Header::new(Algorithm::HS256);
    header.kid = Some(KID.to_string());
    let claims: serde_json::Value = serde_json::from_str(claims_json).expect("claims json");
    jsonwebtoken::encode(&header, &claims, &EncodingKey::from_secret(SECRET)).expect("sign")
}

fn access_token_with_exp(exp: u64) -> String {
    sign(&format!("{{\"aud\":\"account\",\"sub\":\"svc\",\"exp\":{}}}", exp))
}

fn id_token_claims_json(exp: u64, nonce: Option<&str>) -> String {
    let nonce_field = match nonce {
        Some(n) => format!(",\"nonce\":\"{}\"", n),
        None => String::new(),
    };
    format!(
        "{{\"acr\":\"1\",\"at_hash\":\"h\",\"aud\":\"{}\",\"azp\":\"{}\",\
         \"email\":\"jo@example.com\",\"email_verified\":true,\"exp\":{},\
         \"family_name\":\"Doe\",\"given_name\":\"Jo\",\"iat\":1,\"iss\":\"https://idp\",\
         \"jti\":\"j1\",\"name\":\"Jo Doe\",\"preferred_username\":\"jo\",\"sid\":\"s1\",\
         \"sub\":\"123e4567-e89b-12d3-a456-426614174000\",\"typ\":\"ID\"{}}}",
        CLIENT_ID, CLIENT_ID, exp, nonce_field
    )
}

#[test]
fn validated_access_token_exposes_the_encoded_exp() {
    let key_set = test_key_set();
    let exp = now_secs() + 3600;
    let token = access_token_with_exp(exp);
    let claims = validate_access_token(&token, &key_set).ok().expect("valid token");
    assert_eq!(claims.exp, exp);
}

#[test]
fn expired_access_token_is_reported_as_expired_signature() {
    let key_set = test_key_set();
    let token = access_token_with_exp(now_secs() - 7200);
    match validate_access_token(&token, &key_set) {
        Err(TokenValidationError::ExpiredSignature) => {}
        _ => panic!("an expired signature must be told apart"),
    }
}

#[test]
fn unknown_kid_is_an_unknown_error() {
    let key_set = test_key_set();
    let mut header = Header::new(Algorithm::HS256);
    header.kid = Some("some-other-key".to_string());
    let claims: serde_json::Value =
        serde_json::from_str(&format!("{{\"aud\":\"account\",\"exp\":{}}}", now_secs() + 3600))
            .expect("claims");
    let token =
        jsonwebtoken::encode(&header, &claims, &EncodingKey::from_secret(SECRET)).expect("sign");
    match validate_access_token(&token, &key_set) {
        Err(TokenValidationError::Unknown) => {}
        _ => panic!("a missing key must collapse to Unknown"),
    }
}

#[test]
fn tampered_signature_is_an_unknown_error() {
    let key_set = test_key_set();
    let token = access_token_with_exp(now_secs() + 3600);
    let mut tampered = token.clone();
    let last = tampered.pop().expect("token has characters");
    tampered.push(if last == 'A' { 'B' } else { 'A' });
    match validate_access_token(&tampered, &key_set) {
        Err(TokenValidationError::Unknown) => {}
        _ => panic!("a bad signature must collapse to Unknown"),
    }
}

#[test]
fn garbage_token_is_an_unknown_error() {
    let key_set = test_key_set();
    match validate_access_token("not-a-jwt", &key_set) {
        Err(TokenValidationError::Unknown) => {}
        _ => panic!("garbage must collapse to Unknown"),
    }
}

#[test]
fn id_token_claims_round_trip_through_validation() {
    let key_set = test_key_set();
    let exp = now_secs() + 3600;
    let token = sign(&id_token_claims_json(exp, Some("nonce-1")));
    let claims = validate_id_token(&token, Some("nonce-1".to_string()), &key_set, CLIENT_ID)
        .ok()
        .expect("valid id token");
    assert_eq!(claims.exp(), exp);
    assert_eq!(claims.sub(), "123e4567-e89b-12d3-a456-426614174000");
    assert_eq!(claims.preferred_username(), "jo");
    assert_eq!(claims.given_name(), Some("Jo".to_string()));
    assert_eq!(claims.family_name(), Some("Doe".to_string()));
    assert_eq!(claims.name(), Some("Jo Doe".to_string()));
    assert_eq!(claims.email(), Some("jo@example.com".to_string()));
    assert!(claims.email_verified());
    assert_eq!(claims.nonce(), &Some("nonce-1".to_string()));
    assert_eq!(claims.aud(), CLIENT_ID);
    assert_eq!(claims.iat(), 1);
    assert_eq!(claims.auth_time(), None);
}

#[test]
fn nonce_mismatch_is_unknown_not_expired() {
    let key_set = test_key_set();
    let token = sign(&id_token_claims_json(now_secs() + 3600, Some("nonce-a")));
    match validate_id_token(&token, Some("nonce-b".to_string()), &key_set, CLIENT_ID) {
        Err(TokenValidationError::Unknown) => {}
        _ => panic!("a nonce mismatch must be Unknown"),
    }
}

#[test]
fn missing_nonce_on_either_side_is_accepted() {
    let key_set = test_key_set();
    let token = sign(&id_token_claims_json(now_secs() + 3600, None));
    assert!(validate_id_token(&token, Some("ignored".to_string()), &key_set, CLIENT_ID).is_ok());
    let token_with_nonce = sign(&id_token_claims_json(now_secs() + 3600, Some("n")));
    assert!(validate_id_token(&token_with_nonce, None, &key_set, CLIENT_ID).is_ok());
}

#[test]
fn wrong_audience_is_rejected() {
    let key_set = test_key_set();
    let token = sign(&id_token_claims_json(now_secs() + 3600, None));
    match validate_id_token(&token, None, &key_set, "another-client") {
        Err(TokenValidationError::Unknown) => {}
        _ => panic!("a wrong audience must be Unknown"),
    }
}

#[test]
fn authorization_check_builds_a_session_with_claim_expiries() {
    let key_set = test_key_set();
    let exp = now_secs() + 1800;
    let access_token = access_token_with_exp(exp);
    let id_token = sign(&id_token_claims_json(exp + 60, Some("n-1")));
    let tokens = OAuthSessionTokens::new(&access_token, "refresh-1", &id_token, Some("n-1"));
    let validated = authorization_check(&tokens, &key_set, CLIENT_ID).expect("both tokens valid");
    assert_eq!(validated.access_token(), access_token);
    assert_eq!(validated.refresh_token(), "refresh-1");
    assert_eq!(validated.access_token_exp(), exp);
    assert_eq!(validated.refresh_token_exp(), exp);
    assert_eq!(validated.id_token_exp(), exp + 60);

    let session = OAuthSession::of_validated_tokens(&validated);
    assert_eq!(session.access_token_exp, exp);
    assert_eq!(session.id_token_exp, exp + 60);
    assert_eq!(session.session_tokens().access_token(), access_token);
}

#[test]
fn expiry_boundary_is_exact() {
    let exp: u64 = 1_000_000;
    let session = OAuthSession::new(
        exp,
        exp,
        exp,
        OAuthSessionTokens::new("a", "r", "i", None),
    );
    assert!(!session.is_access_token_expired(exp - 1));
    assert!(session.is_access_token_expired(exp));
    assert!(session.is_access_token_expired(exp + 1));
    assert!(!session.is_refresh_token_expired(exp - 1));
    assert!(session.is_refresh_token_expired(exp));
    assert!(!session.is_id_token_expired(exp - 1));
    assert!(session.is_id_token_expired(exp + 1));
}

#[test]
fn id_token_missing_a_required_claim_is_unknown() {
    let key_set = test_key_set();
    let exp = now_secs() + 3600;
    // No `acr` claim: the provider is relied on for it, so validation fails.
    let claims = format!(
        "{{\"at_hash\":\"h\",\"aud\":\"{}\",\"azp\":\"{}\",\"email_verified\":true,\
         \"exp\":{},\"iat\":1,\"iss\":\"i\",\"jti\":\"j\",\"preferred_username\":\"jo\",\
         \"sid\":\"s\",\"sub\":\"x\",\"typ\":\"ID\"}}",
        CLIENT_ID, CLIENT_ID, exp
    );
    let token = sign(&claims);
    match validate_id_token(&token, None, &key_set, CLIENT_ID) {
        Err(TokenValidationError::Unknown) => {}
        _ => panic!("incomplete claims must be Unknown"),
    }
}

#[test]
fn optional_profile_claims_may_be_absent() {
    let key_set = test_key_set();
    let exp = now_secs() + 3600;
    // None of email, names, nonce or auth_time: still a valid ID token.
    let claims = format!(
        "{{\"acr\":\"1\",\"at_hash\":\"h\",\"aud\":\"{}\",\"azp\":\"{}\",\
         \"email_verified\":false,\"exp\":{},\"iat\":1,\"iss\":\"i\",\"jti\":\"j\",\
         \"preferred_username\":\"jo\",\"sid\":\"s\",\"sub\":\"x\",\"typ\":\"ID\"}}",
        CLIENT_ID, CLIENT_ID, exp
    );
    let token = sign(&claims);
    let parsed = validate_id_token(&token, None, &key_set, CLIENT_ID).ok().expect("valid");
    assert_eq!(parsed.email(), None);
    assert_eq!(parsed.given_name(), None);
    assert_eq!(parsed.family_name(), None);
    assert_eq!(parsed.name(), None);
    assert_eq!(parsed.nonce(), &None);
}

#[test]
fn jwt_refresh_token_contributes_its_own_expiry() {
    let key_set = test_key_set();
    let access_exp = now_secs() + 1800;
    let refresh_exp = now_secs() + 7200;
    let access_token = access_token_with_exp(access_exp);
    let id_token = sign(&id_token_claims_json(access_exp, None));
    // A refresh token that is itself a JWT: its own exp claim is recorded.
    let refresh_token = sign(&format!("{{\"sub\":\"svc\",\"exp\":{}}}", refresh_exp));
    let tokens = OAuthSessionTokens::new(&access_token, &refresh_token, &id_token, None);
    let validated = authorization_check(&tokens, &key_set, CLIENT_ID).expect("both tokens valid");
    assert_eq!(validated.refresh_token_exp(), refresh_exp);
    let session = OAuthSession::of_validated_tokens(&validated);
    assert_eq!(session.refresh_token_exp, refresh_exp);
    assert_eq!(session.access_token_exp, access_exp);
}

#[test]
fn opaque_refresh_token_falls_back_to_the_access_expiry() {
    let key_set = test_key_set();
    let access_exp = now_secs() + 1800;
    let tokens = OAuthSessionTokens::new(
        &access_token_with_exp(access_exp),
        "an-opaque-refresh-token",
        &sign(&id_token_claims_json(access_exp, None)),
        None,
    );
    let validated = authorization_check(&tokens, &key_set, CLIENT_ID).expect("both tokens valid");
    assert_eq!(validated.refresh_token_exp(), access_exp);
}
