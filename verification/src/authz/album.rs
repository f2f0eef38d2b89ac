//! The album policy enforcer: which claims and scopes each album operation
//! puts before the policy server.

use vstd::prelude::*;

use crate::auth::user::AuthenticatedUser;
use crate::authz::kc_authz_service::{AuthzPermissionRequest, KcAuthzService};
use crate::authz::{
    filter_allowed, spec_filter_allowed, spec_permission_claims_wf, texts_of, AuthorizationScope,
    CommonClaims, PermissionClaims, PolicyOutcome,
};
use crate::text::is_uuid_text;
use crate::models::album::{Album, UpdateAlbum};

verus! {

/// The scopes an album update asks for: exactly one per field the payload
/// actually changes, in the order visibility, title.
pub open spec fn spec_album_edit_scopes(update: UpdateAlbum) -> Seq<AuthorizationScope> {
    (if update.visibility is Some {
        seq![AuthorizationScope::ChangeVisibility]
    } else {
        Seq::<AuthorizationScope>::empty()
    }) + (if update.title is Some {
        seq![AuthorizationScope::EditTitle]
    } else {
        Seq::<AuthorizationScope>::empty()
    })
}

/// Enforces album policy through the policy decision client.
pub struct AlbumPolicyEnforcerKc {
    pub kc_authz_service: KcAuthzService,
}

impl AlbumPolicyEnforcerKc {
    pub fn new(kc_authorization_service: KcAuthzService) -> (r: AlbumPolicyEnforcerKc)
        ensures
            r.kc_authz_service == kc_authorization_service,
    {
        AlbumPolicyEnforcerKc { kc_authz_service: kc_authorization_service }
    }

    /// The scopes of an album update: a scope is requested if and only if
    /// the matching field is being changed.
    pub fn authorization_scopes(update_album: &UpdateAlbum) -> (r: Vec<AuthorizationScope>)
        ensures
            r@ =~= spec_album_edit_scopes(*update_album),
    {
        let mut authorization_scopes: Vec<AuthorizationScope> = Vec::new();
        if update_album.visibility.is_some() {
            authorization_scopes.push(AuthorizationScope::ChangeVisibility);
        }
        if update_album.title.is_some() {
            authorization_scopes.push(AuthorizationScope::EditTitle);
        }
        authorization_scopes
    }

    /// The request that asks whether `authenticated_user` may view `album`:
    /// claims carry the album's owner and its visibility, the one scope is
    /// `View`.
    pub fn can_view_album_request(
        &self,
        authenticated_user: &AuthenticatedUser,
        album: &Album,
        resource_id: &String,
    ) -> (r: AuthzPermissionRequest)
        requires
            is_uuid_text(album.owner_user_id@),
        ensures
            r.resource_id@ == resource_id@,
            r.subject_token@ == authenticated_user.access_token@,
            r.claims matches PermissionClaims::Common(c) && {
                &&& c.resource_owner matches Some(o) && texts_of(o@) =~= seq![
                    album.owner_user_id@,
                ]
                &&& c.visibility matches Some(v) && v@ =~= seq![album.visibility]
            },
            spec_permission_claims_wf(r.claims),
            r.scopes@ =~= seq![AuthorizationScope::View],
    {
        let album_claims = CommonClaims::new(&album.owner_user_id, album.visibility);
        let mut scopes: Vec<AuthorizationScope> = Vec::new();
        scopes.push(AuthorizationScope::View);
        self.kc_authz_service.permission_request(
            authenticated_user,
            PermissionClaims::Common(album_claims),
            resource_id,
            scopes,
        )
    }

    /// The request that asks whether `authenticated_user` may create an
    /// album: no entity exists yet, so the claims are empty and the one
    /// scope is `Create`.
    pub fn can_create_album_request(
        &self,
        authenticated_user: &AuthenticatedUser,
        resource_id: &String,
    ) -> (r: AuthzPermissionRequest)
        ensures
            r.resource_id@ == resource_id@,
            r.subject_token@ == authenticated_user.access_token@,
            r.claims == PermissionClaims::Absent,
            spec_permission_claims_wf(r.claims),
            r.scopes@ =~= seq![AuthorizationScope::Create],
    {
        let mut scopes: Vec<AuthorizationScope> = Vec::new();
        scopes.push(AuthorizationScope::Create);
        self.kc_authz_service.permission_request(
            authenticated_user,
            PermissionClaims::Absent,
            resource_id,
            scopes,
        )
    }

    /// The request that asks whether `authenticated_user` may apply
    /// `update_album` to `album`: claims carry the owner alone, and the
    /// scopes are exactly those of the fields the update changes.
    pub fn can_edit_album_request(
        &self,
        authenticated_user: &AuthenticatedUser,
        album: &Album,
        update_album: &UpdateAlbum,
        resource_id: &String,
    ) -> (r: AuthzPermissionRequest)
        requires
            is_uuid_text(album.owner_user_id@),
        ensures
            r.resource_id@ == resource_id@,
            r.subject_token@ == authenticated_user.access_token@,
            r.claims matches PermissionClaims::Common(c) && {
                &&& c.resource_owner matches Some(o) && texts_of(o@) =~= seq![
                    album.owner_user_id@,
                ]
                &&& c.visibility is None
            },
            spec_permission_claims_wf(r.claims),
            r.scopes@ =~= spec_album_edit_scopes(*update_album),
    {
        let album_claims = CommonClaims::resource_owner(&album.owner_user_id);
        self.kc_authz_service.permission_request(
            authenticated_user,
            PermissionClaims::Common(album_claims),
            resource_id,
            Self::authorization_scopes(update_album),
        )
    }

    /// The per-item request of the bulk view filter: claims carry the owner
    /// alone, the one scope is `View`.
    pub fn can_view_album_permission_request(
        &self,
        album: &Album,
        authenticated_user: &AuthenticatedUser,
        resource_id: &String,
    ) -> (r: AuthzPermissionRequest)
        requires
            is_uuid_text(album.owner_user_id@),
        ensures
            r.resource_id@ == resource_id@,
            r.subject_token@ == authenticated_user.access_token@,
            r.claims matches PermissionClaims::Common(c) && {
                &&& c.resource_owner matches Some(o) && texts_of(o@) =~= seq![
                    album.owner_user_id@,
                ]
                &&& c.visibility is None
            },
            spec_permission_claims_wf(r.claims),
            r.scopes@ =~= seq![AuthorizationScope::View],
    {
        let album_claims = CommonClaims::resource_owner(&album.owner_user_id);
        let mut scopes: Vec<AuthorizationScope> = Vec::new();
        scopes.push(AuthorizationScope::View);
        self.kc_authz_service.permission_request(
            authenticated_user,
            PermissionClaims::Common(album_claims),
            resource_id,
            scopes,
        )
    }

    /// Keeps the albums whose view decision was `Allow`, one decision per
    /// album in order; a decision that could not be obtained drops its album
    /// (fail closed) without failing the batch.
    pub fn filter_albums_by_view_permission(
        &self,
        albums: Vec<Album>,
        outcomes: &Vec<PolicyOutcome>,
    ) -> (r: Vec<Album>)
        requires
            albums@.len() == outcomes@.len(),
        ensures
            r@ == spec_filter_allowed(albums@, outcomes@),
    {
        filter_allowed(albums, outcomes)
    }
}

} // verus!
