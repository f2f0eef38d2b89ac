//! The policy decision client: it resolves protected-resource ids (cached
//! for the process lifetime), builds claims-bearing permission requests, and
//! shapes the wire bodies of both calls. Sending them is the caller's work.

use vstd::prelude::*;

use crate::auth::user::AuthenticatedUser;
use crate::authz::{spec_claim_token_json, spec_scope_param, AuthorizationScope, PermissionClaims};
use crate::encoding::{b64std_nopad_encode_text, base64std_nopad};
use crate::oauth::client_session::OAuthClientSession;
use crate::text::{dec_text, u32_to_string};

use vstd::utf8::encode_utf8;

verus! {

/// The UMA ticket grant type of every permission request.
pub const UMA_TICKET_GRANT_TYPE: &'static str = "urn:ietf:params:oauth:grant-type:uma-ticket";

/// The claim token format of every permission request.
pub const CLAIM_TOKEN_FORMAT_JWT: &'static str = "urn:ietf:params:oauth:token-type:jwt";

/// How the policy server is asked to answer.
#[derive(Debug, Clone, Copy, PartialEq, Eq, Structural)]
pub enum ResponseMode {
    Decision,
    Permissions,
}

impl ResponseMode {
    /// The response mode as the wire spells it.
    pub open spec fn spec_str(self) -> Seq<char> {
        match self {
            ResponseMode::Decision => "decision"@,
            ResponseMode::Permissions => "permissions"@,
        }
    }

    /// The response mode's name.
    pub fn as_str(&self) -> (r: &'static str)
        ensures
            r@ == self.spec_str(),
    {
        match self {
            ResponseMode::Decision => "decision",
            ResponseMode::Permissions => "permissions",
        }
    }
}

/// A claims-bearing permission request, built but not sent.
pub struct AuthzPermissionRequest {
    pub access_token_endpoint: String,
    pub resource_id: String,
    pub subject_token: String,
    pub client_id: String,
    pub client_secret: String,
    pub claims: PermissionClaims,
    pub scopes: Vec<AuthorizationScope>,
}

impl AuthzPermissionRequest {
    pub fn new(
        access_token_endpoint: &str,
        resource_id: &String,
        subject_token: &str,
        client_id: &str,
        client_secret: &str,
        claims: PermissionClaims,
        scopes: Vec<AuthorizationScope>,
    ) -> (r: AuthzPermissionRequest)
        ensures
            r.access_token_endpoint@ == access_token_endpoint@,
            r.resource_id@ == resource_id@,
            r.subject_token@ == subject_token@,
            r.client_id@ == client_id@,
            r.client_secret@ == client_secret@,
            r.claims == claims,
            r.scopes@ == scopes@,
    {
        AuthzPermissionRequest {
            access_token_endpoint: access_token_endpoint.to_owned(),
            resource_id: resource_id.clone(),
            subject_token: subject_token.to_owned(),
            client_id: client_id.to_owned(),
            client_secret: client_secret.to_owned(),
            claims,
            scopes,
        }
    }

    /// The form body of the permission request, in order: the UMA ticket
    /// grant type, the resource id as the permission, the client id as the
    /// audience, the end user's access token as the subject token, the
    /// claims as unpadded standard base64 of their JSON, the JWT claim token
    /// format, the response mode, the client credentials, and the scopes
    /// joined by a comma and a space.
    pub fn to_params(&self, response_mode: ResponseMode) -> (r: Vec<(String, String)>)
        ensures
            r@.len() == 10,
            r@[0].0@ == "grant_type"@ && r@[0].1@ == UMA_TICKET_GRANT_TYPE@,
            r@[1].0@ == "permission"@ && r@[1].1@ == self.resource_id@,
            r@[2].0@ == "audience"@ && r@[2].1@ == self.client_id@,
            r@[3].0@ == "subject_token"@ && r@[3].1@ == self.subject_token@,
            r@[4].0@ == "claim_token"@ && r@[4].1@ == base64std_nopad(
                encode_utf8(spec_claim_token_json(self.claims)),
            ),
            r@[5].0@ == "claim_token_format"@ && r@[5].1@ == CLAIM_TOKEN_FORMAT_JWT@,
            r@[6].0@ == "response_mode"@ && r@[6].1@ == response_mode.spec_str(),
            r@[7].0@ == "client_id"@ && r@[7].1@ == self.client_id@,
            r@[8].0@ == "client_secret"@ && r@[8].1@ == self.client_secret@,
            r@[9].0@ == "scope"@ && r@[9].1@ == spec_scope_param(self.scopes@),
    {
        let claim_json = self.claims.to_json();
        let claim_token = b64std_nopad_encode_text(claim_json.as_str());
        let mut params: Vec<(String, String)> = Vec::new();
        params.push((String::from_str("grant_type"), UMA_TICKET_GRANT_TYPE.to_owned()));
        params.push((String::from_str("permission"), self.resource_id.clone()));
        params.push((String::from_str("audience"), self.client_id.clone()));
        params.push((String::from_str("subject_token"), self.subject_token.clone()));
        params.push((String::from_str("claim_token"), claim_token));
        params.push((String::from_str("claim_token_format"), CLAIM_TOKEN_FORMAT_JWT.to_owned()));
        params.push((String::from_str("response_mode"), response_mode.as_str().to_owned()));
        params.push((String::from_str("client_id"), self.client_id.clone()));
        params.push((String::from_str("client_secret"), self.client_secret.clone()));
        params.push((String::from_str("scope"), crate::authz::scope_param(&self.scopes)));
        params
    }
}

/// A resource-registration lookup, built but not sent.
pub struct AuthzResourceSetRequest {
    pub resource_set_endpoint: String,
    pub access_token: String,
    pub uri: String,
    pub matching_uri: bool,
    pub max: u32,
}

impl AuthzResourceSetRequest {
    pub fn new(
        resource_set_endpoint: &str,
        access_token: &str,
        path: &str,
        max: u32,
        matching_uri: bool,
    ) -> (r: AuthzResourceSetRequest)
        ensures
            r.resource_set_endpoint@ == resource_set_endpoint@,
            r.access_token@ == access_token@,
            r.uri@ == path@,
            r.matching_uri == matching_uri,
            r.max == max,
    {
        AuthzResourceSetRequest {
            resource_set_endpoint: resource_set_endpoint.to_owned(),
            access_token: access_token.to_owned(),
            uri: path.to_owned(),
            matching_uri,
            max,
        }
    }

    /// The query of the lookup, in order: whether to match by URI pattern,
    /// the URI itself, `deep` always off, and the answer-size cap.
    pub fn to_params(&self) -> (r: Vec<(String, String)>)
        ensures
            r@.len() == 4,
            r@[0].0@ == "matchingUri"@ && r@[0].1@ == (if self.matching_uri {
                "true"@
            } else {
                "false"@
            }),
            r@[1].0@ == "uri"@ && r@[1].1@ == self.uri@,
            r@[2].0@ == "deep"@ && r@[2].1@ == "false"@,
            r@[3].0@ == "max"@ && r@[3].1@ == dec_text(self.max as nat),
    {
        let matching = if self.matching_uri {
            String::from_str("true")
        } else {
            String::from_str("false")
        };
        let mut params: Vec<(String, String)> = Vec::new();
        params.push((String::from_str("matchingUri"), matching));
        params.push((String::from_str("uri"), self.uri.clone()));
        params.push((String::from_str("deep"), String::from_str("false")));
        params.push((String::from_str("max"), u32_to_string(self.max)));
        params
    }
}

/// The resource-id cache: one entry per logical path, never invalidated for
/// the life of the process.
pub struct ResourceIdCache {
    pub entries: Vec<(String, String)>,
}

/// The id the cache holds for a path: that of the first entry under it.
pub open spec fn spec_cache_lookup(entries: Seq<(String, String)>, path: Seq<char>) -> Option<
    Seq<char>,
>
    decreases entries.len(),
{
    if entries.len() == 0 {
        None
    } else if entries[0].0@ == path {
        Some(entries[0].1@)
    } else {
        spec_cache_lookup(entries.skip(1), path)
    }
}

impl ResourceIdCache {
    /// An empty cache.
    pub fn empty() -> (r: ResourceIdCache)
        ensures
            r.entries@.len() == 0,
    {
        ResourceIdCache { entries: Vec::new() }
    }

    /// The cached id of a path, if one was recorded.
    pub fn lookup(&self, path: &str) -> (r: Option<String>)
        ensures
            r is Some <==> spec_cache_lookup(self.entries@, path@) is Some,
            r matches Some(id) ==> Some(id@) == spec_cache_lookup(self.entries@, path@),
    {
        proof {
            assert(self.entries@.skip(0) =~= self.entries@);
        }
        let mut i: usize = 0;
        while i < self.entries.len()
            invariant
                i <= self.entries@.len(),
                spec_cache_lookup(self.entries@, path@) == spec_cache_lookup(
                    self.entries@.skip(i as int),
                    path@,
                ),
            decreases self.entries@.len() - i,
        {
            proof {
                assert(self.entries@.skip(i as int)[0] == self.entries@[i as int]);
                assert(self.entries@.skip(i as int).skip(1) =~= self.entries@.skip(i + 1));
            }
            if crate::text::text_eq(self.entries[i].0.as_str(), path) {
                return Some(self.entries[i].1.clone());
            }
            i = i + 1;
        }
        proof {
            assert(self.entries@.skip(self.entries@.len() as int) =~= Seq::<(
                String,
                String,
            )>::empty());
        }
        None
    }

    /// Records the id fetched for a path that had no entry yet.
    pub fn insert(&mut self, path: &str, id: &String)
        requires
            spec_cache_lookup(old(self).entries@, path@) is None,
        ensures
            final(self).entries@.len() == old(self).entries@.len() + 1,
            spec_cache_lookup(final(self).entries@, path@) == Some(id@),
            forall|other: Seq<char>|
                other != path@ ==> spec_cache_lookup(final(self).entries@, other)
                    == spec_cache_lookup(old(self).entries@, other),
    {
        let entry = (path.to_owned(), id.clone());
        proof {
            lemma_cache_push(self.entries@, entry, path@);
            assert forall|other: Seq<char>| other != path@ implies spec_cache_lookup(
                self.entries@.push(entry),
                other,
            ) == spec_cache_lookup(self.entries@, other) by {
                lemma_cache_push(self.entries@, entry, other);
            }
        }
        self.entries.push(entry);
    }
}

/// What one more entry does to the cache's answers: a path already answered
/// keeps its answer; the new entry's path gains the new id; every other path
/// still misses.
proof fn lemma_cache_push(entries: Seq<(String, String)>, entry: (String, String), path: Seq<char>)
    ensures
        spec_cache_lookup(entries.push(entry), path) == (if spec_cache_lookup(
            entries,
            path,
        ) is Some {
            spec_cache_lookup(entries, path)
        } else if entry.0@ == path {
            Some(entry.1@)
        } else {
            None::<Seq<char>>
        }),
    decreases entries.len(),
{
    if entries.len() == 0 {
        assert(entries.push(entry)[0] == entry);
        assert(entries.push(entry).skip(1) =~= Seq::<(String, String)>::empty());
        if entry.0@ != path {
            assert(spec_cache_lookup(entries.push(entry), path) == spec_cache_lookup(
                Seq::<(String, String)>::empty(),
                path,
            ));
        }
    } else {
        lemma_cache_push(entries.skip(1), entry, path);
        assert(entries.push(entry).skip(1) =~= entries.skip(1).push(entry));
        assert(entries.push(entry)[0] == entries[0]);
    }
}

/// Once a path's id is recorded, looking that path up hits the cache: the
/// second ask for the same path sends nothing outward.
pub proof fn lemma_cache_hit_after_insert(
    before: Seq<(String, String)>,
    entry: (String, String),
    path: Seq<char>,
)
    requires
        spec_cache_lookup(before, path) is None,
        entry.0@ == path,
    ensures
        spec_cache_lookup(before.push(entry), path) == Some(entry.1@),
{
    lemma_cache_push(before, entry, path);
}

/// What resolving a resource id comes to: the cache already held it, or this
/// lookup must be sent first.
pub enum ResourceLookup {
    Cached(String),
    Fetch(AuthzResourceSetRequest),
}

/// The policy decision client: the system's credentials and endpoints, the
/// resource-id cache, and the machine credential session.
pub struct KcAuthzService {
    pub client_id: String,
    pub client_secret: String,
    pub token_endpoint: String,
    pub resource_registration_endpoint: String,
    pub resource_cache: ResourceIdCache,
    pub client_session: OAuthClientSession,
}

impl KcAuthzService {
    pub fn new(
        client_id: &str,
        client_secret: &str,
        token_endpoint: &str,
        resource_registration_endpoint: &str,
        client_session: OAuthClientSession,
    ) -> (r: KcAuthzService)
        ensures
            r.client_id@ == client_id@,
            r.client_secret@ == client_secret@,
            r.token_endpoint@ == token_endpoint@,
            r.resource_registration_endpoint@ == resource_registration_endpoint@,
            r.resource_cache.entries@.len() == 0,
    {
        KcAuthzService {
            client_id: client_id.to_owned(),
            client_secret: client_secret.to_owned(),
            token_endpoint: token_endpoint.to_owned(),
            resource_registration_endpoint: resource_registration_endpoint.to_owned(),
            resource_cache: ResourceIdCache::empty(),
            client_session,
        }
    }

    /// Resolves a path's resource id against the cache: a hit answers at
    /// once, a miss hands back the one lookup to send, authenticated with
    /// the machine credential.
    pub fn resource_id_step(&self, path: &str, machine_token: &str) -> (r: ResourceLookup)
        ensures
            spec_cache_lookup(self.resource_cache.entries@, path@) is Some ==> (r
                matches ResourceLookup::Cached(id) && Some(id@) == spec_cache_lookup(
                self.resource_cache.entries@,
                path@,
            )),
            spec_cache_lookup(self.resource_cache.entries@, path@) is None ==> (r
                matches ResourceLookup::Fetch(q) && {
                &&& q.resource_set_endpoint@ == self.resource_registration_endpoint@
                &&& q.access_token@ == machine_token@
                &&& q.uri@ == path@
                &&& q.matching_uri == true
                &&& q.max == 1
            }),
    {
        match self.resource_cache.lookup(path) {
            Some(id) => ResourceLookup::Cached(id),
            None => ResourceLookup::Fetch(
                AuthzResourceSetRequest::new(
                    self.resource_registration_endpoint.as_str(),
                    machine_token,
                    path,
                    1,
                    true,
                ),
            ),
        }
    }

    /// Records what a resource lookup returned: the first id is cached and
    /// answered; an empty answer means the path names no registered
    /// resource, and nothing changes.
    pub fn resource_id_fetched(&mut self, path: &str, ids: &Vec<String>) -> (r: Option<String>)
        requires
            spec_cache_lookup(old(self).resource_cache.entries@, path@) is None,
        ensures
            ids@.len() == 0 ==> r is None && *final(self) == *old(self),
            ids@.len() > 0 ==> {
                &&& r matches Some(id) && id@ == ids@[0]@
                &&& spec_cache_lookup(final(self).resource_cache.entries@, path@) == Some(ids@[0]@)
                &&& forall|other: Seq<char>|
                    other != path@ ==> spec_cache_lookup(final(self).resource_cache.entries@, other)
                        == spec_cache_lookup(old(self).resource_cache.entries@, other)
            },
    {
        if ids.len() == 0 {
            return None;
        }
        let id = ids[0].clone();
        self.resource_cache.insert(path, &id);
        Some(id)
    }

    /// Builds the permission request that asks the policy server whether the
    /// given user may act on the given resource under the given scopes.
    pub fn permission_request(
        &self,
        authenticated_user: &AuthenticatedUser,
        claims: PermissionClaims,
        resource_id: &String,
        authorization_scopes: Vec<AuthorizationScope>,
    ) -> (r: AuthzPermissionRequest)
        ensures
            r.access_token_endpoint@ == self.token_endpoint@,
            r.resource_id@ == resource_id@,
            r.subject_token@ == authenticated_user.access_token@,
            r.client_id@ == self.client_id@,
            r.client_secret@ == self.client_secret@,
            r.claims == claims,
            r.scopes@ == authorization_scopes@,
    {
        AuthzPermissionRequest::new(
            self.token_endpoint.as_str(),
            resource_id,
            authenticated_user.access_token.as_str(),
            self.client_id.as_str(),
            self.client_secret.as_str(),
            claims,
            authorization_scopes,
        )
    }
}

} // verus!
