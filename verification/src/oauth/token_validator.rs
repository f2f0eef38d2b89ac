//! Verifies JWTs against a key set: reads the header's key id, finds the
//! key, checks signature, expiry and audience through the jsonwebtoken
//! crate, and reads the claims back out of the verified payload.
//!
//! Only signature expiry surfaces as [`TokenValidationError::ExpiredSignature`];
//! every other failure collapses to [`TokenValidationError::Unknown`]. The
//! distinction is load-bearing: only expiry triggers the refresh path
//! upstream.

use vstd::prelude::*;

use crate::oauth::claims::IdTokenClaims;
use crate::oauth::{OAuthSession, OAuthSessionTokens};

verus! {

#[verifier::external_type_specification]
#[verifier::external_body]
pub struct ExJwk(jsonwebtoken::jwk::Jwk);

#[verifier::external_type_specification]
#[verifier::external_body]
pub struct ExAlgorithm(jsonwebtoken::Algorithm);

#[verifier::external_type_specification]
#[verifier::external_body]
pub struct ExDecodingKey(jsonwebtoken::DecodingKey);

#[verifier::external_type_specification]
#[verifier::external_body]
pub struct ExValue(serde_json::Value);

/// The unsigned numbers a JSON object holds at its top level, by field name.
pub uninterp spec fn json_nums(v: serde_json::Value) -> Map<Seq<char>, u64>;

/// The strings a JSON object holds at its top level, by field name.
pub uninterp spec fn json_texts(v: serde_json::Value) -> Map<Seq<char>, Seq<char>>;

/// The booleans a JSON object holds at its top level, by field name.
pub uninterp spec fn json_flags(v: serde_json::Value) -> Map<Seq<char>, bool>;

/// Relies on serde_json's `Value::get` and `Value::as_u64`: the unsigned
/// number under `key` at the top level of `v`, if there is one.
#[verifier::external_body]
fn json_u64(v: &serde_json::Value, key: &str) -> (r: Option<u64>)
    ensures
        r == (if json_nums(*v).contains_key(key@) {
            Some(json_nums(*v)[key@])
        } else {
            None::<u64>
        }),
{
    v.get(key).and_then(|x| x.as_u64())
}

/// Relies on serde_json's `Value::get` and `Value::as_str`: the string under
/// `key` at the top level of `v`, if there is one.
#[verifier::external_body]
fn json_str(v: &serde_json::Value, key: &str) -> (r: Option<String>)
    ensures
        r is Some <==> json_texts(*v).contains_key(key@),
        r matches Some(s) ==> s@ == json_texts(*v)[key@],
{
    v.get(key).and_then(|x| x.as_str()).map(|s| s.to_owned())
}

/// Relies on serde_json's `Value::get` and `Value::as_bool`: the boolean
/// under `key` at the top level of `v`, if there is one.
#[verifier::external_body]
fn json_bool(v: &serde_json::Value, key: &str) -> (r: Option<bool>)
    ensures
        r == (if json_flags(*v).contains_key(key@) {
            Some(json_flags(*v)[key@])
        } else {
            None::<bool>
        }),
{
    v.get(key).and_then(|x| x.as_bool())
}

/// The `kid` field of a compact JWT's header: present exactly when the
/// token's header part decodes and carries one. A pure function of the
/// token's text, named but not written out.
pub uninterp spec fn jwt_header_kid(token: Seq<char>) -> Option<Seq<char>>;

/// Whether a compact JWT's payload part decodes to JSON at all, signature
/// aside. A pure function of the token's text.
pub uninterp spec fn jwt_payload_readable(token: Seq<char>) -> bool;

/// The unsigned numbers at the top level of a compact JWT's payload, by
/// claim name. A pure function of the token's text; meaningful only where
/// the payload is readable.
pub uninterp spec fn jwt_payload_nums(token: Seq<char>) -> Map<Seq<char>, u64>;

/// The strings at the top level of a compact JWT's payload, by claim name.
pub uninterp spec fn jwt_payload_texts(token: Seq<char>) -> Map<Seq<char>, Seq<char>>;

/// The booleans at the top level of a compact JWT's payload, by claim name.
pub uninterp spec fn jwt_payload_flags(token: Seq<char>) -> Map<Seq<char>, bool>;

/// Relies on jsonwebtoken's `decode_header`: reads the unverified JOSE
/// header of a compact JWT; fails when the token is not three dot-separated
/// parts with a readable header. The header — and so the `kid` — is a
/// function of the token's text alone.
#[verifier::external_body]
fn decode_header_info(token: &str) -> (r: Option<(Option<String>, jsonwebtoken::Algorithm)>)
    ensures
        (r matches Some(h) && h.0 is Some) <==> jwt_header_kid(token@) is Some,
        (r matches Some(h) && h.0 is Some) ==> r->Some_0.0->Some_0@ == jwt_header_kid(
            token@,
        )->Some_0,
{
    match jsonwebtoken::decode_header(token) {
        Ok(header) => Some((header.kid, header.alg)),
        Err(_) => None,
    }
}

/// Relies on jsonwebtoken's `insecure_decode_claims`: reads a compact JWT's
/// payload without touching the signature. The payload is a function of the
/// token's text alone, so it is the same payload a successful verification
/// would expose.
#[verifier::external_body]
fn peek_payload(token: &str) -> (r: Option<serde_json::Value>)
    ensures
        r is Some <==> jwt_payload_readable(token@),
        r matches Some(v) ==> {
            &&& json_nums(v) == jwt_payload_nums(token@)
            &&& json_texts(v) == jwt_payload_texts(token@)
            &&& json_flags(v) == jwt_payload_flags(token@)
        },
{
    jsonwebtoken::dangerous::insecure_decode_claims::<serde_json::Value>(token).ok()
}

/// Relies on jsonwebtoken's `DecodingKey::from_jwk`: builds a verification
/// key from a JWK; fails on unsupported key material.
#[verifier::external_body]
fn decoding_key_of(jwk: &jsonwebtoken::jwk::Jwk) -> (r: Option<jsonwebtoken::DecodingKey>) {
    jsonwebtoken::DecodingKey::from_jwk(jwk).ok()
}

/// What decoding a token comes to: a verified payload, a token that is valid
/// but past its `exp`, or anything else.
pub enum TokenDecode {
    Valid(serde_json::Value),
    Expired,
    Invalid,
}

/// Relies on jsonwebtoken's `decode` with a `Validation` built from the
/// given algorithm and audience: checks the signature, the mandatory `exp`
/// claim (with the crate's default leeway) and, when the payload carries
/// `aud`, that it covers the given audience. An `ExpiredSignature` error is
/// told apart from every other failure. Which outcome arrives depends on
/// the key and the clock, but a `Valid` payload is the token's own payload
/// and nothing else.
#[verifier::external_body]
fn decode_with_key(
    token: &str,
    key: &jsonwebtoken::DecodingKey,
    alg: &jsonwebtoken::Algorithm,
    audience: &str,
) -> (r: TokenDecode)
    ensures
        r matches TokenDecode::Valid(payload) ==> {
            &&& jwt_payload_readable(token@)
            &&& json_nums(payload) == jwt_payload_nums(token@)
            &&& json_texts(payload) == jwt_payload_texts(token@)
            &&& json_flags(payload) == jwt_payload_flags(token@)
        },
{
    let mut validation = jsonwebtoken::Validation::new(*alg);
    validation.set_audience(&[audience]);
    match jsonwebtoken::decode::<serde_json::Value>(token, key, &validation) {
        Ok(data) => TokenDecode::Valid(data.claims),
        Err(err) => match err.kind() {
            jsonwebtoken::errors::ErrorKind::ExpiredSignature => TokenDecode::Expired,
            _ => TokenDecode::Invalid,
        },
    }
}

/// One key of the identity provider's key set, under the key id that token
/// headers refer to it by.
pub struct KeySetEntry {
    pub kid: String,
    pub key: jsonwebtoken::jwk::Jwk,
}

impl KeySetEntry {
    pub fn new(kid: &str, key: jsonwebtoken::jwk::Jwk) -> (r: KeySetEntry)
        ensures
            r.kid@ == kid@,
    {
        KeySetEntry { kid: kid.to_owned(), key }
    }
}

/// The identity provider's key set, fetched once at startup.
pub struct KeySet {
    pub entries: Vec<KeySetEntry>,
}

impl KeySet {
    pub fn new(entries: Vec<KeySetEntry>) -> (r: KeySet)
        ensures
            r.entries@ == entries@,
    {
        KeySet { entries }
    }

    /// The position of the first key under `kid`, if the set has one.
    pub fn find_index(&self, kid: &str) -> (r: Option<usize>)
        ensures
            r matches Some(i) ==> i < self.entries@.len() && self.entries@[i as int].kid@ == kid@
                && (forall|j: int| 0 <= j < i ==> self.entries@[j].kid@ != kid@),
            r is None ==> forall|j: int|
                0 <= j < self.entries@.len() ==> self.entries@[j].kid@ != kid@,
    {
        let mut i: usize = 0;
        while i < self.entries.len()
            invariant
                i <= self.entries@.len(),
                forall|j: int| 0 <= j < i ==> self.entries@[j].kid@ != kid@,
            decreases self.entries@.len() - i,
        {
            if crate::text::text_eq(self.entries[i].kid.as_str(), kid) {
                return Some(i);
            }
            i = i + 1;
        }
        None
    }
}

/// Whether some entry of a key set carries the given key id.
pub open spec fn spec_has_kid(entries: Seq<KeySetEntry>, kid: Seq<char>) -> bool {
    exists|i: int| 0 <= i < entries.len() && entries[i].kid@ == kid
}

/// How token validation fails.
#[derive(Debug, Clone, Copy, PartialEq, Eq, Structural)]
pub enum TokenValidationError {
    ExpiredSignature,
    Unknown,
}

/// An access token's verified claims: the `exp` second the library works
/// with, and the full payload for anything else a caller may read.
pub struct AccessTokenClaims {
    pub exp: u64,
    pub payload: serde_json::Value,
}

/// The claims of a verified access token payload: its `exp` second; a
/// payload without a numeric `exp` is rejected.
pub fn access_claims_of_payload(payload: serde_json::Value) -> (r: Result<
    AccessTokenClaims,
    TokenValidationError,
>)
    ensures
        json_nums(payload).contains_key("exp"@) ==> (r matches Ok(c) && c.exp == json_nums(
            payload,
        )["exp"@] && c.payload == payload),
        !json_nums(payload).contains_key("exp"@) ==> r == Err::<
            AccessTokenClaims,
            TokenValidationError,
        >(TokenValidationError::Unknown),
{
    match json_u64(&payload, "exp") {
        Some(exp) => Ok(AccessTokenClaims { exp, payload }),
        None => Err(TokenValidationError::Unknown),
    }
}

/// Whether an ID token payload carries every claim the identity provider is
/// relied on for: the plain string claims, the `exp` and `iat` seconds and
/// the `email_verified` flag.
pub open spec fn id_payload_well_formed(v: serde_json::Value) -> bool {
    &&& json_texts(v).contains_key("acr"@)
    &&& json_texts(v).contains_key("at_hash"@)
    &&& json_texts(v).contains_key("aud"@)
    &&& json_texts(v).contains_key("azp"@)
    &&& json_texts(v).contains_key("iss"@)
    &&& json_texts(v).contains_key("jti"@)
    &&& json_texts(v).contains_key("preferred_username"@)
    &&& json_texts(v).contains_key("sid"@)
    &&& json_texts(v).contains_key("sub"@)
    &&& json_texts(v).contains_key("typ"@)
    &&& json_nums(v).contains_key("exp"@)
    &&& json_nums(v).contains_key("iat"@)
    &&& json_flags(v).contains_key("email_verified"@)
}

/// Reads the ID token claims out of a verified payload: the required claims
/// must all be there, the optional ones are taken when present.
pub fn id_claims_of_payload(payload: &serde_json::Value) -> (r: Option<IdTokenClaims>)
    ensures
        r is Some <==> id_payload_well_formed(*payload),
        r matches Some(c) ==> {
            &&& c.acr@ == json_texts(*payload)["acr"@]
            &&& c.at_hash@ == json_texts(*payload)["at_hash"@]
            &&& c.aud@ == json_texts(*payload)["aud"@]
            &&& c.azp@ == json_texts(*payload)["azp"@]
            &&& c.iss@ == json_texts(*payload)["iss"@]
            &&& c.jti@ == json_texts(*payload)["jti"@]
            &&& c.preferred_username@ == json_texts(*payload)["preferred_username"@]
            &&& c.sid@ == json_texts(*payload)["sid"@]
            &&& c.sub@ == json_texts(*payload)["sub"@]
            &&& c.typ@ == json_texts(*payload)["typ"@]
            &&& c.exp == json_nums(*payload)["exp"@]
            &&& c.iat == json_nums(*payload)["iat"@]
            &&& c.email_verified == json_flags(*payload)["email_verified"@]
            &&& c.auth_time == (if json_nums(*payload).contains_key("auth_time"@) {
                Some(json_nums(*payload)["auth_time"@])
            } else {
                None::<u64>
            })
            &&& (c.email is Some <==> json_texts(*payload).contains_key("email"@))
            &&& (c.email matches Some(t) ==> t@ == json_texts(*payload)["email"@])
            &&& (c.family_name is Some <==> json_texts(*payload).contains_key("family_name"@))
            &&& (c.family_name matches Some(t) ==> t@ == json_texts(*payload)["family_name"@])
            &&& (c.given_name is Some <==> json_texts(*payload).contains_key("given_name"@))
            &&& (c.given_name matches Some(t) ==> t@ == json_texts(*payload)["given_name"@])
            &&& (c.name is Some <==> json_texts(*payload).contains_key("name"@))
            &&& (c.name matches Some(t) ==> t@ == json_texts(*payload)["name"@])
            &&& (c.nonce is Some <==> json_texts(*payload).contains_key("nonce"@))
            &&& (c.nonce matches Some(t) ==> t@ == json_texts(*payload)["nonce"@])
        },
{
    let acr = json_str(payload, "acr");
    let at_hash = json_str(payload, "at_hash");
    let aud = json_str(payload, "aud");
    let azp = json_str(payload, "azp");
    let iss = json_str(payload, "iss");
    let jti = json_str(payload, "jti");
    let preferred_username = json_str(payload, "preferred_username");
    let sid = json_str(payload, "sid");
    let sub = json_str(payload, "sub");
    let typ = json_str(payload, "typ");
    let exp = json_u64(payload, "exp");
    let iat = json_u64(payload, "iat");
    let email_verified = json_bool(payload, "email_verified");
    match (acr, at_hash, aud, azp, iss, jti, preferred_username, sid, sub, typ, exp, iat,
        email_verified) {
        (
            Some(acr),
            Some(at_hash),
            Some(aud),
            Some(azp),
            Some(iss),
            Some(jti),
            Some(preferred_username),
            Some(sid),
            Some(sub),
            Some(typ),
            Some(exp),
            Some(iat),
            Some(email_verified),
        ) => Some(
            IdTokenClaims {
                acr,
                at_hash,
                aud,
                auth_time: json_u64(payload, "auth_time"),
                azp,
                email: json_str(payload, "email"),
                email_verified,
                exp,
                family_name: json_str(payload, "family_name"),
                given_name: json_str(payload, "given_name"),
                iat,
                iss,
                jti,
                name: json_str(payload, "name"),
                nonce: json_str(payload, "nonce"),
                preferred_username,
                sid,
                sub,
                typ,
            },
        ),
        _ => None,
    }
}

/// Whether a token's nonce claim agrees with the nonce the caller expects:
/// a mismatch exists only when both sides carry one and they differ.
pub fn nonce_matches(claim_nonce: &Option<String>, expected: &Option<String>) -> (r: bool)
    ensures
        r == !(claim_nonce matches Some(got) && expected matches Some(want) && got@ != want@),
{
    match (claim_nonce, expected) {
        (Some(got), Some(want)) => crate::text::text_eq(got.as_str(), want.as_str()),
        _ => true,
    }
}

/// Classifies a decode outcome for an access token: only an expired decode
/// is `ExpiredSignature`; anything invalid, and a valid payload without a
/// numeric `exp`, is `Unknown`; a valid payload with one succeeds with that
/// `exp`.
pub fn access_claims_of_decode(outcome: TokenDecode) -> (r: Result<
    AccessTokenClaims,
    TokenValidationError,
>)
    ensures
        outcome is Expired ==> r == Err::<AccessTokenClaims, TokenValidationError>(
            TokenValidationError::ExpiredSignature,
        ),
        outcome is Invalid ==> r == Err::<AccessTokenClaims, TokenValidationError>(
            TokenValidationError::Unknown,
        ),
        outcome matches TokenDecode::Valid(payload) ==> {
            &&& (r is Ok <==> json_nums(payload).contains_key("exp"@))
            &&& (r matches Ok(c) ==> c.exp == json_nums(payload)["exp"@] && c.payload == payload)
            &&& (r is Err ==> r == Err::<AccessTokenClaims, TokenValidationError>(
                TokenValidationError::Unknown,
            ))
        },
{
    match outcome {
        TokenDecode::Valid(payload) => access_claims_of_payload(payload),
        TokenDecode::Expired => Err(TokenValidationError::ExpiredSignature),
        TokenDecode::Invalid => Err(TokenValidationError::Unknown),
    }
}

/// Classifies a decode outcome for an ID token: only an expired decode is
/// `ExpiredSignature`; of a valid payload, incomplete claims and a nonce
/// that disagrees with the expected one are `Unknown` — a nonce mismatch is
/// never mistaken for expiry.
pub fn id_claims_of_decode(outcome: TokenDecode, expected_nonce: &Option<String>) -> (r: Result<
    IdTokenClaims,
    TokenValidationError,
>)
    ensures
        outcome is Expired ==> r == Err::<IdTokenClaims, TokenValidationError>(
            TokenValidationError::ExpiredSignature,
        ),
        outcome is Invalid ==> r == Err::<IdTokenClaims, TokenValidationError>(
            TokenValidationError::Unknown,
        ),
        outcome matches TokenDecode::Valid(payload) ==> {
            &&& (r is Ok <==> id_payload_well_formed(payload) && !(json_texts(
                payload,
            ).contains_key("nonce"@) && expected_nonce is Some && json_texts(payload)["nonce"@]
                != expected_nonce->Some_0@))
            &&& (r is Err ==> r == Err::<IdTokenClaims, TokenValidationError>(
                TokenValidationError::Unknown,
            ))
            &&& (r matches Ok(c) ==> {
                &&& c.exp == json_nums(payload)["exp"@]
                &&& c.iat == json_nums(payload)["iat"@]
                &&& c.sub@ == json_texts(payload)["sub"@]
                &&& c.preferred_username@ == json_texts(payload)["preferred_username"@]
                &&& c.email_verified == json_flags(payload)["email_verified"@]
                &&& (c.nonce is Some <==> json_texts(payload).contains_key("nonce"@))
                &&& (c.nonce matches Some(n) ==> n@ == json_texts(payload)["nonce"@])
            })
        },
{
    match outcome {
        TokenDecode::Valid(payload) => match id_claims_of_payload(&payload) {
            Some(claims) => {
                if nonce_matches(&claims.nonce, expected_nonce) {
                    Ok(claims)
                } else {
                    Err(TokenValidationError::Unknown)
                }
            },
            None => Err(TokenValidationError::Unknown),
        },
        TokenDecode::Expired => Err(TokenValidationError::ExpiredSignature),
        TokenDecode::Invalid => Err(TokenValidationError::Unknown),
    }
}

/// Whether ID token claims agree, field by field, with the payload of the
/// given token's text.
pub open spec fn spec_id_claims_match_token(c: IdTokenClaims, token: Seq<char>) -> bool {
    &&& jwt_payload_nums(token).contains_key("exp"@) && c.exp == jwt_payload_nums(token)["exp"@]
    &&& jwt_payload_nums(token).contains_key("iat"@) && c.iat == jwt_payload_nums(token)["iat"@]
    &&& jwt_payload_texts(token).contains_key("sub"@) && c.sub@ == jwt_payload_texts(
        token,
    )["sub"@]
    &&& jwt_payload_texts(token).contains_key("preferred_username"@) && c.preferred_username@
        == jwt_payload_texts(token)["preferred_username"@]
    &&& jwt_payload_flags(token).contains_key("email_verified"@) && c.email_verified
        == jwt_payload_flags(token)["email_verified"@]
    &&& (c.nonce is Some <==> jwt_payload_texts(token).contains_key("nonce"@))
    &&& (c.nonce matches Some(n) ==> n@ == jwt_payload_texts(token)["nonce"@])
}

/// Validates an access token against the key set: the header's `kid` must
/// name a key, the signature and time window must check out under the
/// audience `account`, and the payload must carry a numeric `exp`, which is
/// the `exp` the claims expose. A missing or unknown `kid` is `Unknown`;
/// `ExpiredSignature` arises only past those checks, from an expired decode
/// of the token itself, and is the one error eligible for refresh upstream.
pub fn validate_access_token(access_token: &str, key_set: &KeySet) -> (r: Result<
    AccessTokenClaims,
    TokenValidationError,
>)
    ensures
        jwt_header_kid(access_token@) is None ==> r == Err::<
            AccessTokenClaims,
            TokenValidationError,
        >(TokenValidationError::Unknown),
        (jwt_header_kid(access_token@) matches Some(k) && !spec_has_kid(key_set.entries@, k))
            ==> r == Err::<AccessTokenClaims, TokenValidationError>(TokenValidationError::Unknown),
        r == Err::<AccessTokenClaims, TokenValidationError>(TokenValidationError::ExpiredSignature)
            ==> (jwt_header_kid(access_token@) matches Some(k) && spec_has_kid(
            key_set.entries@,
            k,
        )),
        r matches Ok(c) ==> {
            &&& jwt_header_kid(access_token@) matches Some(k) && spec_has_kid(
                key_set.entries@,
                k,
            )
            &&& jwt_payload_readable(access_token@)
            &&& json_nums(c.payload) == jwt_payload_nums(access_token@)
            &&& json_texts(c.payload) == jwt_payload_texts(access_token@)
            &&& json_flags(c.payload) == jwt_payload_flags(access_token@)
            &&& jwt_payload_nums(access_token@).contains_key("exp"@)
            &&& c.exp == jwt_payload_nums(access_token@)["exp"@]
        },
{
    let (kid, alg) = match decode_header_info(access_token) {
        Some(header) => header,
        None => {
            return Err(TokenValidationError::Unknown);
        },
    };
    let kid = match kid {
        Some(kid) => kid,
        None => {
            return Err(TokenValidationError::Unknown);
        },
    };
    let index = match key_set.find_index(kid.as_str()) {
        Some(index) => index,
        None => {
            return Err(TokenValidationError::Unknown);
        },
    };
    let key = match decoding_key_of(&key_set.entries[index].key) {
        Some(key) => key,
        None => {
            return Err(TokenValidationError::Unknown);
        },
    };
    access_claims_of_decode(decode_with_key(access_token, &key, &alg, "account"))
}

/// Validates an ID token against the key set, with the caller's client id as
/// the audience. A missing or unknown `kid` is `Unknown`; `ExpiredSignature`
/// arises only past those checks, from an expired decode of the token
/// itself. Of a decoded payload, incomplete claims and a nonce that
/// disagrees with the expected one are `Unknown` — never `ExpiredSignature`
/// (see [`id_claims_of_decode`]). The claims of a success are the token's
/// own payload, field by field.
pub fn validate_id_token(
    id_token: &str,
    nonce: Option<String>,
    key_set: &KeySet,
    client_id: &str,
) -> (r: Result<IdTokenClaims, TokenValidationError>)
    ensures
        jwt_header_kid(id_token@) is None ==> r == Err::<IdTokenClaims, TokenValidationError>(
            TokenValidationError::Unknown,
        ),
        (jwt_header_kid(id_token@) matches Some(k) && !spec_has_kid(key_set.entries@, k)) ==> r
            == Err::<IdTokenClaims, TokenValidationError>(TokenValidationError::Unknown),
        r == Err::<IdTokenClaims, TokenValidationError>(TokenValidationError::ExpiredSignature)
            ==> (jwt_header_kid(id_token@) matches Some(k) && spec_has_kid(key_set.entries@, k)),
        r matches Ok(c) ==> {
            &&& jwt_header_kid(id_token@) matches Some(k) && spec_has_kid(key_set.entries@, k)
            &&& jwt_payload_readable(id_token@)
            &&& spec_id_claims_match_token(c, id_token@)
            &&& !(jwt_payload_texts(id_token@).contains_key("nonce"@) && nonce is Some
                && jwt_payload_texts(id_token@)["nonce"@] != nonce->Some_0@)
            &&& ((c.nonce is Some && nonce is Some) ==> c.nonce->Some_0@ == nonce->Some_0@)
        },
{
    let (kid, alg) = match decode_header_info(id_token) {
        Some(header) => header,
        None => {
            return Err(TokenValidationError::Unknown);
        },
    };
    let kid = match kid {
        Some(kid) => kid,
        None => {
            return Err(TokenValidationError::Unknown);
        },
    };
    let index = match key_set.find_index(kid.as_str()) {
        Some(index) => index,
        None => {
            return Err(TokenValidationError::Unknown);
        },
    };
    let key = match decoding_key_of(&key_set.entries[index].key) {
        Some(key) => key,
        None => {
            return Err(TokenValidationError::Unknown);
        },
    };
    id_claims_of_decode(decode_with_key(id_token, &key, &alg, client_id), &nonce)
}

/// The expiry second of a refresh token: its payload's own `exp` claim when
/// the token is a readable JWT carrying one; for an opaque refresh token the
/// access token's `exp` stands in as a lower bound, since the refresh token
/// outlives the access token it came with.
pub open spec fn spec_refresh_exp(refresh_token: Seq<char>, access_exp: u64) -> u64 {
    if jwt_payload_readable(refresh_token) && jwt_payload_nums(refresh_token).contains_key(
        "exp"@,
    ) {
        jwt_payload_nums(refresh_token)["exp"@]
    } else {
        access_exp
    }
}

/// Reads a refresh token's expiry second by [`spec_refresh_exp`]. The
/// refresh token's signature is not checked here — the identity provider
/// checks it when the token is spent; only its `exp` claim is read, for the
/// session's bookkeeping.
pub fn refresh_exp_of(refresh_token: &str, access_exp: u64) -> (r: u64)
    ensures
        r == spec_refresh_exp(refresh_token@, access_exp),
{
    match peek_payload(refresh_token) {
        Some(payload) => match json_u64(&payload, "exp") {
            Some(exp) => exp,
            None => access_exp,
        },
        None => access_exp,
    }
}

/// A session's tokens once both have been validated: the raw tokens echoed
/// back beside their verified claims and the refresh token's expiry second.
pub struct OAuthValidatedTokens {
    pub access_token: String,
    pub refresh_token: String,
    pub id_token: String,
    pub access_token_claims: AccessTokenClaims,
    pub id_token_claims: IdTokenClaims,
    pub refresh_token_exp: u64,
}

impl OAuthValidatedTokens {
    pub fn access_token(&self) -> (r: &str)
        ensures
            r@ == self.access_token@,
    {
        self.access_token.as_str()
    }

    pub fn refresh_token(&self) -> (r: &str)
        ensures
            r@ == self.refresh_token@,
    {
        self.refresh_token.as_str()
    }

    pub fn id_token(&self) -> (r: &str)
        ensures
            r@ == self.id_token@,
    {
        self.id_token.as_str()
    }

    pub fn access_token_claims(&self) -> (r: &AccessTokenClaims)
        ensures
            r == self.access_token_claims,
    {
        &self.access_token_claims
    }

    pub fn id_token_claims(&self) -> (r: &IdTokenClaims)
        ensures
            r == self.id_token_claims,
    {
        &self.id_token_claims
    }

    /// The access token's `exp` claim.
    pub fn access_token_exp(&self) -> (r: u64)
        ensures
            r == self.access_token_claims.exp,
    {
        self.access_token_claims.exp
    }

    /// The refresh token's expiry second, as [`spec_refresh_exp`] settled it
    /// when this set was built.
    pub fn refresh_token_exp(&self) -> (r: u64)
        ensures
            r == self.refresh_token_exp,
    {
        self.refresh_token_exp
    }

    /// The ID token's `exp` claim.
    pub fn id_token_exp(&self) -> (r: u64)
        ensures
            r == self.id_token_claims.exp,
    {
        self.id_token_claims.exp
    }
}

/// Validates a session's ID token and access token together. `None` covers
/// every failure, expiry included: the caller that wants to tell expiry
/// apart validates the access token alone first. A success echoes the raw
/// tokens and carries claims read from the tokens' own payloads: the access
/// claims' `exp` is the access token's, the ID claims match the ID token
/// field by field, and the refresh expiry follows [`spec_refresh_exp`].
pub fn authorization_check(
    session_token: &OAuthSessionTokens,
    key_set: &KeySet,
    client_id: &str,
) -> (r: Option<OAuthValidatedTokens>)
    ensures
        r matches Some(v) ==> {
            &&& v.access_token@ == session_token.access_token@
            &&& v.refresh_token@ == session_token.refresh_token@
            &&& v.id_token@ == session_token.id_token@
            &&& jwt_payload_nums(session_token.access_token@).contains_key("exp"@)
            &&& v.access_token_claims.exp == jwt_payload_nums(
                session_token.access_token@,
            )["exp"@]
            &&& json_nums(v.access_token_claims.payload) == jwt_payload_nums(
                session_token.access_token@,
            )
            &&& spec_id_claims_match_token(v.id_token_claims, session_token.id_token@)
            &&& v.refresh_token_exp == spec_refresh_exp(
                session_token.refresh_token@,
                v.access_token_claims.exp,
            )
            &&& ((v.id_token_claims.nonce is Some && session_token.nonce is Some)
                ==> v.id_token_claims.nonce->Some_0@ == session_token.nonce->Some_0@)
        },
{
    let nonce = match &session_token.nonce {
        Some(n) => Some(n.clone()),
        None => None,
    };
    let id_token_claims = match validate_id_token(
        session_token.id_token.as_str(),
        nonce,
        key_set,
        client_id,
    ) {
        Ok(claims) => claims,
        Err(_) => {
            return None;
        },
    };
    let access_token_claims = match validate_access_token(
        session_token.access_token.as_str(),
        key_set,
    ) {
        Ok(claims) => claims,
        Err(_) => {
            return None;
        },
    };
    let refresh_token_exp = refresh_exp_of(
        session_token.refresh_token.as_str(),
        access_token_claims.exp,
    );
    Some(
        OAuthValidatedTokens {
            access_token: session_token.access_token.clone(),
            refresh_token: session_token.refresh_token.clone(),
            id_token: session_token.id_token.clone(),
            access_token_claims,
            id_token_claims,
            refresh_token_exp,
        },
    )
}

impl OAuthSessionTokens {
    /// The session tokens of a validated set: the raw tokens beside the ID
    /// token's nonce claim.
    pub fn of_validated_tokens(validated: &OAuthValidatedTokens) -> (r: OAuthSessionTokens)
        ensures
            r.access_token@ == validated.access_token@,
            r.refresh_token@ == validated.refresh_token@,
            r.id_token@ == validated.id_token@,
            r.nonce is Some <==> validated.id_token_claims.nonce is Some,
            r.nonce matches Some(n) ==> n@ == validated.id_token_claims.nonce->Some_0@,
    {
        OAuthSessionTokens {
            access_token: validated.access_token.clone(),
            refresh_token: validated.refresh_token.clone(),
            id_token: validated.id_token.clone(),
            nonce: match &validated.id_token_claims.nonce {
                Some(nonce) => Some(nonce.clone()),
                None => None,
            },
        }
    }
}

impl OAuthSession {
    /// The session a validated token set settles: every expiry second comes
    /// from a validated claim.
    pub fn of_validated_tokens(validated: &OAuthValidatedTokens) -> (r: OAuthSession)
        ensures
            r.access_token_exp == validated.access_token_claims.exp,
            r.refresh_token_exp == validated.refresh_token_exp,
            r.id_token_exp == validated.id_token_claims.exp,
            r.session_tokens.access_token@ == validated.access_token@,
            r.session_tokens.refresh_token@ == validated.refresh_token@,
            r.session_tokens.id_token@ == validated.id_token@,
            r.session_tokens.nonce is Some <==> validated.id_token_claims.nonce is Some,
            r.session_tokens.nonce matches Some(n) ==> n@
                == validated.id_token_claims.nonce->Some_0@,
    {
        let session_tokens = OAuthSessionTokens::of_validated_tokens(validated);
        OAuthSession::new(
            validated.access_token_exp(),
            validated.refresh_token_exp(),
            validated.id_token_exp(),
            session_tokens,
        )
    }
}

} // verus!
