//! One browser authorization-code attempt: the random correlation values it
//! carries and the redirect that starts it.

use vstd::prelude::*;

use vstd::utf8::encode_utf8;

use crate::encoding::{
    b64url_nopad_encode, b64url_pad_encode, base64url_nopad, base64url_pad, secure_random_bytes,
    sha256_of, sha256_text,
};
use crate::text::join_text;

verus! {

/// How many random bytes feed each generated value.
pub const AUTHORIZATION_ENTROPY_BYTES: usize = 64;

/// The PKCE rule every generated request obeys: the digest sent as the code
/// challenge is the unpadded URL-safe base64 of the SHA-256 of the verifier's
/// UTF-8 bytes.
pub open spec fn digest_of_verifier(verifier: Seq<char>) -> Seq<char> {
    base64url_nopad(sha256_of(encode_utf8(verifier)))
}

/// The values of one in-flight authorization-code attempt: the `state`
/// correlation token, the `nonce` echoed in the ID token, the PKCE verifier
/// and its digest.
#[derive(Debug, Clone, PartialEq, Eq)]
pub struct OAuthAuthorizationRequestState {
    pub state: String,
    pub nonce: String,
    pub code_verifier: String,
    pub code_verifier_digest: String,
}

impl OAuthAuthorizationRequestState {
    /// Draws fresh random values: `state` and `nonce` are padded URL-safe
    /// base64 of 64 random bytes each, the verifier is unpadded URL-safe
    /// base64 of 64 more, and the digest is derived from the verifier by the
    /// PKCE rule. `None` only when the system's random source fails.
    pub fn random() -> (r: Option<OAuthAuthorizationRequestState>)
        ensures
            r matches Some(s) ==> {
                &&& s.code_verifier_digest@ == digest_of_verifier(s.code_verifier@)
                &&& exists|b: Seq<u8>| b.len() == 64 && s.state@ == base64url_pad(b)
                &&& exists|b: Seq<u8>| b.len() == 64 && s.nonce@ == base64url_pad(b)
                &&& exists|b: Seq<u8>| b.len() == 64 && s.code_verifier@ == base64url_nopad(b)
            },
    {
        let state_bytes = match secure_random_bytes(AUTHORIZATION_ENTROPY_BYTES) {
            Some(bytes) => bytes,
            None => {
                return None;
            },
        };
        let verifier_bytes = match secure_random_bytes(AUTHORIZATION_ENTROPY_BYTES) {
            Some(bytes) => bytes,
            None => {
                return None;
            },
        };
        let nonce_bytes = match secure_random_bytes(AUTHORIZATION_ENTROPY_BYTES) {
            Some(bytes) => bytes,
            None => {
                return None;
            },
        };
        let state = b64url_pad_encode(state_bytes.as_slice());
        let nonce = b64url_pad_encode(nonce_bytes.as_slice());
        let code_verifier = b64url_nopad_encode(verifier_bytes.as_slice());
        let digest_bytes = sha256_text(code_verifier.as_str());
        let code_verifier_digest = b64url_nopad_encode(digest_bytes.as_slice());
        proof {
            assert(exists|b: Seq<u8>| b.len() == 64 && state@ == base64url_pad(b)) by {
                assert(state_bytes@.len() == 64 && state@ == base64url_pad(state_bytes@));
            }
            assert(exists|b: Seq<u8>| b.len() == 64 && nonce@ == base64url_pad(b)) by {
                assert(nonce_bytes@.len() == 64 && nonce@ == base64url_pad(nonce_bytes@));
            }
            assert(exists|b: Seq<u8>| b.len() == 64 && code_verifier@ == base64url_nopad(b)) by {
                assert(verifier_bytes@.len() == 64 && code_verifier@ == base64url_nopad(
                    verifier_bytes@,
                ));
            }
        }
        Some(
            OAuthAuthorizationRequestState {
                state,
                nonce,
                code_verifier,
                code_verifier_digest,
            },
        )
    }

    /// Wraps already-known values, as when the state is read back from the
    /// session store; nothing is derived or checked here.
    pub fn new(state: &str, nonce: &str, code_verifier: &str, code_verifier_digest: &str) -> (r:
        OAuthAuthorizationRequestState)
        ensures
            r.state@ == state@,
            r.nonce@ == nonce@,
            r.code_verifier@ == code_verifier@,
            r.code_verifier_digest@ == code_verifier_digest@,
    {
        OAuthAuthorizationRequestState {
            state: state.to_owned(),
            nonce: nonce.to_owned(),
            code_verifier: code_verifier.to_owned(),
            code_verifier_digest: code_verifier_digest.to_owned(),
        }
    }

    pub fn state(&self) -> (r: &str)
        ensures
            r@ == self.state@,
    {
        self.state.as_str()
    }

    pub fn nonce(&self) -> (r: &str)
        ensures
            r@ == self.nonce@,
    {
        self.nonce.as_str()
    }

    pub fn code_verifier(&self) -> (r: &str)
        ensures
            r@ == self.code_verifier@,
    {
        self.code_verifier.as_str()
    }

    pub fn code_verifier_digest(&self) -> (r: &str)
        ensures
            r@ == self.code_verifier_digest@,
    {
        self.code_verifier_digest.as_str()
    }
}

/// The one response type the flow uses.
#[derive(Debug, Clone, Copy, PartialEq, Eq, Structural)]
pub enum OAuthResponseType {
    Code,
}

impl OAuthResponseType {
    /// The response type as the wire spells it.
    pub fn as_str(&self) -> (r: &'static str)
        ensures
            r@ == "code"@,
    {
        match self {
            OAuthResponseType::Code => "code",
        }
    }
}

/// A full authorization redirect in the making: where to send the browser
/// and with which parameters.
#[derive(Debug, Clone, PartialEq, Eq)]
pub struct OAuthSecureAuthorizationRequest {
    pub authorization_endpoint: String,
    pub client_id: String,
    pub redirect_uri: String,
    pub state: OAuthAuthorizationRequestState,
    pub response_type: OAuthResponseType,
    pub scope: Vec<String>,
}

impl OAuthSecureAuthorizationRequest {
    /// Begins a fresh code-flow attempt with newly drawn random values.
    /// `None` only when the system's random source fails.
    pub fn code_flow(
        authorization_endpoint: &str,
        client_id: &str,
        scope: &Vec<String>,
        redirect_uri: &str,
    ) -> (r: Option<OAuthSecureAuthorizationRequest>)
        ensures
            r matches Some(q) ==> {
                &&& q.authorization_endpoint@ == authorization_endpoint@
                &&& q.client_id@ == client_id@
                &&& q.redirect_uri@ == redirect_uri@
                &&& q.scope@ == scope@
                &&& q.response_type == OAuthResponseType::Code
                &&& q.state.code_verifier_digest@ == digest_of_verifier(q.state.code_verifier@)
            },
    {
        let state = match OAuthAuthorizationRequestState::random() {
            Some(state) => state,
            None => {
                return None;
            },
        };
        Some(
            OAuthSecureAuthorizationRequest {
                authorization_endpoint: authorization_endpoint.to_owned(),
                client_id: client_id.to_owned(),
                redirect_uri: redirect_uri.to_owned(),
                state,
                response_type: OAuthResponseType::Code,
                scope: scope.clone(),
            },
        )
    }

    pub fn state(&self) -> (r: &OAuthAuthorizationRequestState)
        ensures
            r == self.state,
    {
        &self.state
    }

    /// The query parameters of the authorization redirect, in order: client
    /// id, redirect URI, state, response type, the scopes joined by one
    /// space, the code challenge (the verifier's digest), the challenge
    /// method `S256`, and the nonce.
    pub fn query_params(&self) -> (r: Vec<(String, String)>)
        ensures
            r@.len() == 8,
            r@[0].0@ == "client_id"@ && r@[0].1@ == self.client_id@,
            r@[1].0@ == "redirect_uri"@ && r@[1].1@ == self.redirect_uri@,
            r@[2].0@ == "state"@ && r@[2].1@ == self.state.state@,
            r@[3].0@ == "response_type"@ && r@[3].1@ == "code"@,
            r@[4].0@ == "scope"@ && r@[4].1@ == join_text(
                self.scope@.map_values(|s: String| s@),
                " "@,
            ),
            r@[5].0@ == "code_challenge"@ && r@[5].1@ == self.state.code_verifier_digest@,
            r@[6].0@ == "code_challenge_method"@ && r@[6].1@ == "S256"@,
            r@[7].0@ == "nonce"@ && r@[7].1@ == self.state.nonce@,
    {
        let mut params: Vec<(String, String)> = Vec::new();
        params.push((String::from_str("client_id"), self.client_id.clone()));
        params.push((String::from_str("redirect_uri"), self.redirect_uri.clone()));
        params.push((String::from_str("state"), self.state.state.clone()));
        params.push((String::from_str("response_type"), self.response_type.as_str().to_owned()));
        params.push((String::from_str("scope"), crate::text::join_strings(&self.scope, " ")));
        params.push((String::from_str("code_challenge"), self.state.code_verifier_digest.clone()));
        params.push((String::from_str("code_challenge_method"), String::from_str("S256")));
        params.push((String::from_str("nonce"), self.state.nonce.clone()));
        params
    }
}

} // verus!
