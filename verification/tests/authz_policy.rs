use std::time::{SystemTime, UNIX_EPOCH};

use base64::Engine;
use base64::prelude::{BASE64_STANDARD_NO_PAD, BASE64_URL_SAFE_NO_PAD};
use jsonwebtoken::{Algorithm, EncodingKey, Header};

use secure_photo_hub::auth::user::AuthenticatedUser;
use secure_photo_hub::authz::kc_authz_service::{
    AuthzResourceSetRequest, KcAuthzService, ResourceLookup, ResponseMode,
};
use secure_photo_hub::authz::album::AlbumPolicyEnforcerKc;
use secure_photo_hub::authz::image::ImagePolicyEnforcerKc;
use secure_photo_hub::authz::photo::PhotoPolicyEnforcerKc;
use secure_photo_hub::authz::{
    policy_outcome_of, AuthorizationScope, CommonClaims, PermissionClaims, PolicyOutcome,
};
use secure_photo_hub::models::album::UpdateAlbum;
use secure_photo_hub::models::image::ImageReference;
use secure_photo_hub::models::photo::{Photo, UpdatePhoto};
use secure_photo_hub::models::{ImageFormat, Visibility};
use secure_photo_hub::oauth::client_session::OAuthClientSession;
use secure_photo_hub::oauth::token_validator::{KeySet, KeySetEntry};
use secure_photo_hub::oauth::OAuthAuthorizationResponse;
use secure_photo_hub::routes::PHOTO_BY_ID_ROUTE;

const SECRET: &[u8] = b"an-authz-test-secret-0123456789a";
const KID: &str = "authz-key";
const CLIENT_ID: &str = "photo-client";
const OWNER: &str = "123e4567-e89b-12d3-a456-426614174000";
const RESOURCE: &str = "9f1b2c3d-4e5f-6071-8293-a4b5c6d7e8f9";

fn now_secs() -> u64 {
    SystemTime::now().duration_since(UNIX_EPOCH).expect("clock").as_secs()
}

fn test_key_set() -> KeySet {
    let encoded = BASE64_URL_SAFE_NO_PAD.encode(SECRET);
    let json = format!("{{\"kty\":\"oct\",\"kid\":\"{}\",\"k\":\"{}\"}}", KID, encoded);
    let jwk: jsonwebtoken::jwk::Jwk = serde_json::from_str(&json).expect("jwk json");
    KeySet::new(vec![KeySetEntry::new(KID, jwk)])
}

fn sign(claims_json: &str) -> String {
    let mut header = Header::new(Algorithm::HS256);
    header.kid = Some(KID.to_string());
    let claims: serde_json::Value = serde_json::from_str(claims_json).expect("claims json");
    jsonwebtoken::encode(&header, &claims, &EncodingKey::from_secret(SECRET)).expect("sign")
}

fn grant_response(exp: u64) -> OAuthAuthorizationResponse {
    let access_token = sign(&format!("{{\"aud\":\"account\",\"sub\":\"svc\",\"exp\":{}}}", exp));
    let id_token = sign(&format!(
        "{{\"acr\":\"1\",\"at_hash\":\"h\",\"aud\":\"{}\",\"azp\":\"{}\",\
         \"email\":\"svc@example.com\",\"email_verified\":true,\"exp\":{},\
         \"family_name\":\"Svc\",\"given_name\":\"Svc\",\"iat\":1,\"iss\":\"https://idp\",\
         \"jti\":\"j1\",\"name\":\"Svc\",\"preferred_username\":\"svc\",\"sid\":\"s1\",\
         \"sub\":\"{}\",\"typ\":\"ID\"}}",
        CLIENT_ID, CLIENT_ID, exp, OWNER
    ));
    OAuthAuthorizationResponse::new(&access_token, "machine-rt", &id_token, 300, 1800, 0, "st", "uma")
}

fn machine_session() -> OAuthClientSession {
    OAuthClientSession::start_session(
        CLIENT_ID,
        "secret",
        "https://idp/token",
        test_key_set(),
        &vec!["openid".to_string()],
        &grant_response(now_secs() + 3600),
    )
    .ok()
    .expect("machine session")
}

fn service() -> KcAuthzService {
    KcAuthzService::new(
        CLIENT_ID,
        "secret",
        "https://idp/token",
        "https://idp/authz/resource-set",
        machine_session(),
    )
}

fn user() -> AuthenticatedUser {
    AuthenticatedUser::new(
        &OWNER.to_string(),
        "jo",
        "Jo",
        "Doe",
        "Jo Doe",
        "jo@example.com",
        true,
        "user-access-token",
    )
}

fn photo(id: &str, title: &str) -> Photo {
    Photo::new(
        id.to_string(),
        title.to_string(),
        "a description".to_string(),
        "landscape".to_string(),
        vec!["tag1".to_string()],
        OWNER.to_string(),
        None,
        Visibility::Public,
        ImageReference::new(
            "5a1b2c3d-4e5f-6071-8293-a4b5c6d7e8f0",
            OWNER,
            "https://store/img",
            2048,
            &ImageFormat::Png,
            &Visibility::Public,
        ),
        0,
    )
}

#[test]
fn second_resolution_of_a_path_is_answered_by_the_cache() {
    let mut service = service();
    let mut outbound_lookups: usize = 0;
    // First resolution: a miss, one outbound lookup.
    match service.resource_id_step(PHOTO_BY_ID_ROUTE, "machine-token") {
        ResourceLookup::Fetch(request) => {
            outbound_lookups += 1;
            assert_eq!(request.uri, PHOTO_BY_ID_ROUTE);
            assert_eq!(request.access_token, "machine-token");
            assert_eq!(request.max, 1);
            assert!(request.matching_uri);
        }
        ResourceLookup::Cached(_) => panic!("an empty cache cannot answer"),
    }
    let id = service
        .resource_id_fetched(PHOTO_BY_ID_ROUTE, &vec![RESOURCE.to_string()])
        .expect("the answer held an id");
    assert_eq!(id, RESOURCE);
    // Second resolution of the same path: a hit, nothing outbound.
    match service.resource_id_step(PHOTO_BY_ID_ROUTE, "machine-token") {
        ResourceLookup::Cached(cached) => assert_eq!(cached, RESOURCE),
        ResourceLookup::Fetch(_) => outbound_lookups += 1,
    }
    assert_eq!(outbound_lookups, 1);
}

#[test]
fn empty_resource_answer_is_an_error_and_caches_nothing() {
    let mut service = service();
    assert!(service.resource_id_fetched(PHOTO_BY_ID_ROUTE, &vec![]).is_none());
    assert!(matches!(
        service.resource_id_step(PHOTO_BY_ID_ROUTE, "machine-token"),
        ResourceLookup::Fetch(_)
    ));
}

#[test]
fn resource_set_request_carries_the_registration_query() {
    let request = AuthzResourceSetRequest::new(
        "https://idp/authz/resource-set",
        "tok",
        PHOTO_BY_ID_ROUTE,
        1,
        true,
    );
    let params = request.to_params();
    assert_eq!(params.len(), 4);
    assert_eq!(params[0], ("matchingUri".to_string(), "true".to_string()));
    assert_eq!(params[1], ("uri".to_string(), PHOTO_BY_ID_ROUTE.to_string()));
    assert_eq!(params[2], ("deep".to_string(), "false".to_string()));
    assert_eq!(params[3], ("max".to_string(), "1".to_string()));
}

#[test]
fn view_request_carries_owner_and_visibility_claims() {
    let enforcer = PhotoPolicyEnforcerKc::new(service());
    let photo = photo("7f1b2c3d-4e5f-6071-8293-a4b5c6d7e8f1", "t");
    let request = enforcer.can_view_photo_request(&user(), &photo, &RESOURCE.to_string());
    let params = request.to_params(ResponseMode::Decision);
    assert_eq!(params.len(), 10);
    assert_eq!(
        params[0],
        ("grant_type".to_string(), "urn:ietf:params:oauth:grant-type:uma-ticket".to_string())
    );
    assert_eq!(params[1], ("permission".to_string(), RESOURCE.to_string()));
    assert_eq!(params[2], ("audience".to_string(), CLIENT_ID.to_string()));
    assert_eq!(params[3], ("subject_token".to_string(), "user-access-token".to_string()));
    let expected_json = format!(
        "{{\"resourceOwner\":[\"{}\"],\"visibility\":[\"Public\"]}}",
        OWNER
    );
    let expected_token = BASE64_STANDARD_NO_PAD.encode(expected_json.as_bytes());
    assert_eq!(params[4], ("claim_token".to_string(), expected_token));
    assert_eq!(
        params[5],
        ("claim_token_format".to_string(), "urn:ietf:params:oauth:token-type:jwt".to_string())
    );
    assert_eq!(params[6], ("response_mode".to_string(), "decision".to_string()));
    assert_eq!(params[7], ("client_id".to_string(), CLIENT_ID.to_string()));
    assert_eq!(params[8], ("client_secret".to_string(), "secret".to_string()));
    assert_eq!(params[9], ("scope".to_string(), "View".to_string()));
}

#[test]
fn create_request_carries_empty_claims_and_the_create_scope() {
    let enforcer = PhotoPolicyEnforcerKc::new(service());
    let request = enforcer.can_create_photo_request(&user(), &RESOURCE.to_string());
    let params = request.to_params(ResponseMode::Decision);
    let expected_token = BASE64_STANDARD_NO_PAD.encode(b"null");
    assert_eq!(params[4], ("claim_token".to_string(), expected_token));
    assert_eq!(params[9], ("scope".to_string(), "Create".to_string()));
}

#[test]
fn title_only_edit_requests_exactly_the_edit_title_scope() {
    let update = UpdatePhoto::new(
        &"7f1b2c3d-4e5f-6071-8293-a4b5c6d7e8f1".to_string(),
        Some(&"a new title".to_string()),
        None,
        None,
    );
    let scopes = PhotoPolicyEnforcerKc::authorization_scopes(&update);
    assert_eq!(scopes, vec![AuthorizationScope::EditTitle]);

    let enforcer = PhotoPolicyEnforcerKc::new(service());
    let photo = photo("7f1b2c3d-4e5f-6071-8293-a4b5c6d7e8f1", "old title");
    let request = enforcer.can_edit_photo_request(&user(), &photo, &update, &RESOURCE.to_string());
    let params = request.to_params(ResponseMode::Decision);
    assert_eq!(params[9], ("scope".to_string(), "EditTitle".to_string()));
    // Edit claims carry the owner alone, never the visibility.
    let expected_json = format!("{{\"resourceOwner\":[\"{}\"]}}", OWNER);
    let expected_token = BASE64_STANDARD_NO_PAD.encode(expected_json.as_bytes());
    assert_eq!(params[4], ("claim_token".to_string(), expected_token));
}

#[test]
fn full_edit_requests_all_three_scopes_in_order() {
    let update = UpdatePhoto::new(
        &"7f1b2c3d-4e5f-6071-8293-a4b5c6d7e8f1".to_string(),
        Some(&"t".to_string()),
        Some(&"8a1b2c3d-4e5f-6071-8293-a4b5c6d7e8f2".to_string()),
        Some(&Visibility::Private),
    );
    let scopes = PhotoPolicyEnforcerKc::authorization_scopes(&update);
    assert_eq!(
        scopes,
        vec![
            AuthorizationScope::ChangeVisibility,
            AuthorizationScope::ChangeAlbum,
            AuthorizationScope::EditTitle,
        ]
    );
    let request = PhotoPolicyEnforcerKc::new(service()).can_edit_photo_request(
        &user(),
        &photo("7f1b2c3d-4e5f-6071-8293-a4b5c6d7e8f1", "t"),
        &update,
        &RESOURCE.to_string(),
    );
    let params = request.to_params(ResponseMode::Decision);
    assert_eq!(
        params[9],
        ("scope".to_string(), "ChangeVisibility, ChangeAlbum, EditTitle".to_string())
    );
}

#[test]
fn unchanged_edit_requests_no_scopes() {
    let update = UpdatePhoto::new(
        &"7f1b2c3d-4e5f-6071-8293-a4b5c6d7e8f1".to_string(),
        None,
        None,
        None,
    );
    assert!(PhotoPolicyEnforcerKc::authorization_scopes(&update).is_empty());
}

#[test]
fn bulk_filter_keeps_exactly_the_allowed_photos_and_asks_once_per_photo() {
    let enforcer = PhotoPolicyEnforcerKc::new(service());
    let photos: Vec<Photo> = (1..=5)
        .map(|n| {
            photo(
                &format!("00000000-0000-0000-0000-00000000000{}", n),
                &format!("photo {}", n),
            )
        })
        .collect();
    // One permission request per candidate: five outbound calls for five.
    let mut outbound_requests: usize = 0;
    let mut outcomes: Vec<PolicyOutcome> = Vec::new();
    for (index, item) in photos.iter().enumerate() {
        let request =
            enforcer.can_view_photo_permission_request(item, &user(), &RESOURCE.to_string());
        assert_eq!(request.subject_token, "user-access-token");
        outbound_requests += 1;
        // The policy server allows the first and third, denies the rest.
        outcomes.push(policy_outcome_of(Some(index == 0 || index == 2)));
    }
    assert_eq!(outbound_requests, 5);
    let kept = enforcer.filter_photos_by_view_permission(photos.clone(), &outcomes);
    assert_eq!(kept, vec![photos[0].clone(), photos[2].clone()]);
}

#[test]
fn an_unreachable_decision_drops_its_item_without_failing_the_batch() {
    let enforcer = PhotoPolicyEnforcerKc::new(service());
    let photos: Vec<Photo> = (1..=3)
        .map(|n| photo(&format!("00000000-0000-0000-0000-00000000000{}", n), "t"))
        .collect();
    let outcomes = vec![
        policy_outcome_of(Some(true)),
        policy_outcome_of(None),
        policy_outcome_of(Some(true)),
    ];
    let kept = enforcer.filter_photos_by_view_permission(photos.clone(), &outcomes);
    assert_eq!(kept, vec![photos[0].clone(), photos[2].clone()]);
}

#[test]
fn claims_json_shapes_match_their_wire_form() {
    let owner = OWNER.to_string();
    let both = CommonClaims::new(&owner, Visibility::Private);
    assert_eq!(
        both.to_json(),
        format!("{{\"resourceOwner\":[\"{}\"],\"visibility\":[\"Private\"]}}", OWNER)
    );
    let owner_only = CommonClaims::resource_owner(&owner);
    assert_eq!(owner_only.to_json(), format!("{{\"resourceOwner\":[\"{}\"]}}", OWNER));
    assert_eq!(PermissionClaims::Absent.to_json(), "null");
}

#[test]
fn machine_credential_returns_the_cached_token_until_expiry() {
    let exp = now_secs() + 3600;
    let session = OAuthClientSession::start_session(
        CLIENT_ID,
        "secret",
        "https://idp/token",
        test_key_set(),
        &vec!["openid".to_string()],
        &grant_response(exp),
    )
    .ok()
    .expect("machine session");
    let token = session.access_token_if_fresh(exp - 1).expect("still fresh");
    assert_eq!(token, session.session.session_tokens.access_token);
    assert!(session.access_token_if_fresh(exp).is_none());
    assert!(session.needs_refresh(exp));
    assert!(!session.needs_refresh(exp - 1));
}

#[test]
fn machine_credential_refresh_replaces_the_session() {
    let exp = now_secs() + 60;
    let mut session = OAuthClientSession::start_session(
        CLIENT_ID,
        "secret",
        "https://idp/token",
        test_key_set(),
        &vec!["openid".to_string()],
        &grant_response(exp),
    )
    .ok()
    .expect("machine session");
    assert_eq!(session.refresh_token_request().refresh_token, "machine-rt");
    let fresh = grant_response(exp + 600);
    let token = session.apply_refresh(&fresh).ok().expect("valid refresh");
    assert_eq!(token, fresh.access_token);
    assert_eq!(session.session.access_token_exp, exp + 600);
}

#[test]
fn album_edit_scopes_cover_visibility_and_title_only() {
    let id = "7f1b2c3d-4e5f-6071-8293-a4b5c6d7e8f1".to_string();
    let both = UpdateAlbum::new(&id, Some(&"t".to_string()), Some(&Visibility::Public));
    assert_eq!(
        AlbumPolicyEnforcerKc::authorization_scopes(&both),
        vec![AuthorizationScope::ChangeVisibility, AuthorizationScope::EditTitle]
    );
    let title_only = UpdateAlbum::new(&id, Some(&"t".to_string()), None);
    assert_eq!(
        AlbumPolicyEnforcerKc::authorization_scopes(&title_only),
        vec![AuthorizationScope::EditTitle]
    );
    let unchanged = UpdateAlbum::new(&id, None, None);
    assert!(AlbumPolicyEnforcerKc::authorization_scopes(&unchanged).is_empty());
}

#[test]
fn image_requests_carry_their_scope_sets() {
    let enforcer = ImagePolicyEnforcerKc::new(service());
    let image = ImageReference::new(
        "5a1b2c3d-4e5f-6071-8293-a4b5c6d7e8f0",
        OWNER,
        "https://store/img",
        2048,
        &ImageFormat::Png,
        &Visibility::Private,
    );
    let download =
        enforcer.can_download_request(&user(), &image, &RESOURCE.to_string());
    assert_eq!(
        download.to_params(ResponseMode::Decision)[9],
        ("scope".to_string(), "Download".to_string())
    );
    let both = enforcer.can_download_then_transform_request(&user(), &image, &RESOURCE.to_string());
    assert_eq!(
        both.to_params(ResponseMode::Decision)[9],
        ("scope".to_string(), "Download, Transform".to_string())
    );
    let create = enforcer.can_create_request(&user(), &RESOURCE.to_string());
    let params = create.to_params(ResponseMode::Decision);
    assert_eq!(params[9], ("scope".to_string(), "Download, Transform".to_string()));
    assert_eq!(params[4].1, {
        let expected: String = BASE64_STANDARD_NO_PAD.encode(b"null");
        expected
    });
}

#[test]
fn permissions_response_mode_spells_itself() {
    let enforcer = PhotoPolicyEnforcerKc::new(service());
    let request = enforcer.can_create_photo_request(&user(), &RESOURCE.to_string());
    let params = request.to_params(ResponseMode::Permissions);
    assert_eq!(params[6], ("response_mode".to_string(), "permissions".to_string()));
}
