use std::collections::HashSet;

use base64::Engine;
use base64::prelude::BASE64_URL_SAFE_NO_PAD;

use secure_photo_hub::oauth::authorization_request::{
    OAuthAuthorizationRequestState, OAuthSecureAuthorizationRequest,
};

#[test]
fn code_verifier_digest_is_base64url_nopad_of_sha256_of_verifier() {
    let state = OAuthAuthorizationRequestState::random().expect("random source");
    let digest = ring::digest::digest(&ring::digest::SHA256, state.code_verifier().as_bytes());
    let expected = BASE64_URL_SAFE_NO_PAD.encode(digest.as_ref());
    assert_eq!(state.code_verifier_digest(), expected);
}

#[test]
fn generated_values_have_the_entropy_source_length() {
    let state = OAuthAuthorizationRequestState::random().expect("random source");
    // 64 bytes: 88 characters padded, 86 unpadded.
    assert_eq!(state.state().len(), 88);
    assert_eq!(state.nonce().len(), 88);
    assert_eq!(state.code_verifier().len(), 86);
    // SHA-256: 32 bytes, 43 characters unpadded.
    assert_eq!(state.code_verifier_digest().len(), 43);
}

#[test]
fn repeated_draws_are_pairwise_distinct() {
    let mut states: HashSet<String> = HashSet::new();
    let mut nonces: HashSet<String> = HashSet::new();
    let mut verifiers: HashSet<String> = HashSet::new();
    for _ in 0..1000 {
        let state = OAuthAuthorizationRequestState::random().expect("random source");
        assert!(states.insert(state.state().to_string()));
        assert!(nonces.insert(state.nonce().to_string()));
        assert!(verifiers.insert(state.code_verifier().to_string()));
    }
}

#[test]
fn new_stores_the_given_values_verbatim() {
    let state = OAuthAuthorizationRequestState::new("s", "n", "v", "d");
    assert_eq!(state.state(), "s");
    assert_eq!(state.nonce(), "n");
    assert_eq!(state.code_verifier(), "v");
    assert_eq!(state.code_verifier_digest(), "d");
}

#[test]
fn authorization_redirect_carries_the_exact_query_parameters() {
    let scopes = vec!["openid".to_string(), "profile".to_string()];
    let request = OAuthSecureAuthorizationRequest::code_flow(
        "https://idp.example/auth",
        "my-client",
        &scopes,
        "https://app.example/callback",
    )
    .expect("random source");
    let params = request.query_params();
    assert_eq!(params.len(), 8);
    assert_eq!(params[0], ("client_id".to_string(), "my-client".to_string()));
    assert_eq!(params[1], ("redirect_uri".to_string(), "https://app.example/callback".to_string()));
    assert_eq!(params[2].0, "state");
    assert_eq!(params[2].1, request.state().state());
    assert_eq!(params[3], ("response_type".to_string(), "code".to_string()));
    assert_eq!(params[4], ("scope".to_string(), "openid profile".to_string()));
    assert_eq!(params[5].0, "code_challenge");
    assert_eq!(params[5].1, request.state().code_verifier_digest());
    assert_eq!(params[6], ("code_challenge_method".to_string(), "S256".to_string()));
    assert_eq!(params[7].0, "nonce");
    assert_eq!(params[7].1, request.state().nonce());
}
