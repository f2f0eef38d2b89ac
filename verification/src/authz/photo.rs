//! The photo policy enforcer: which claims and scopes each photo operation
//! puts before the policy server.

use vstd::prelude::*;

use crate::auth::user::AuthenticatedUser;
use crate::authz::kc_authz_service::{AuthzPermissionRequest, KcAuthzService};
use crate::authz::{
    filter_allowed, spec_filter_allowed, spec_permission_claims_wf, texts_of, AuthorizationScope,
    CommonClaims, PermissionClaims, PolicyOutcome,
};
use crate::text::is_uuid_text;
use crate::models::photo::{Photo, UpdatePhoto};

verus! {

/// The scopes a photo update asks for: exactly one per field the payload
/// actually changes, in the order visibility, album, title.
pub open spec fn spec_photo_edit_scopes(update: UpdatePhoto) -> Seq<AuthorizationScope> {
    (if update.visibility is Some {
        seq![AuthorizationScope::ChangeVisibility]
    } else {
        Seq::<AuthorizationScope>::empty()
    }) + (if update.album_id is Some {
        seq![AuthorizationScope::ChangeAlbum]
    } else {
        Seq::<AuthorizationScope>::empty()
    }) + (if update.title is Some {
        seq![AuthorizationScope::EditTitle]
    } else {
        Seq::<AuthorizationScope>::empty()
    })
}

/// Enforces photo policy through the policy decision client.
pub struct PhotoPolicyEnforcerKc {
    pub kc_authz_service: KcAuthzService,
}

impl PhotoPolicyEnforcerKc {
    pub fn new(kc_authz_service: KcAuthzService) -> (r: PhotoPolicyEnforcerKc)
        ensures
            r.kc_authz_service == kc_authz_service,
    {
        PhotoPolicyEnforcerKc { kc_authz_service }
    }

    /// The scopes of a photo update: a scope is requested if and only if
    /// the matching field is being changed.
    pub fn authorization_scopes(update_photo: &UpdatePhoto) -> (r: Vec<AuthorizationScope>)
        ensures
            r@ =~= spec_photo_edit_scopes(*update_photo),
    {
        let mut authorization_scopes: Vec<AuthorizationScope> = Vec::new();
        if update_photo.visibility.is_some() {
            authorization_scopes.push(AuthorizationScope::ChangeVisibility);
        }
        if update_photo.album_id.is_some() {
            authorization_scopes.push(AuthorizationScope::ChangeAlbum);
        }
        if update_photo.title.is_some() {
            authorization_scopes.push(AuthorizationScope::EditTitle);
        }
        authorization_scopes
    }

    /// The request that asks whether `authenticated_user` may view `photo`:
    /// claims carry the photo's owner and its visibility, the one scope is
    /// `View`.
    pub fn can_view_photo_request(
        &self,
        authenticated_user: &AuthenticatedUser,
        photo: &Photo,
        resource_id: &String,
    ) -> (r: AuthzPermissionRequest)
        requires
            is_uuid_text(photo.owner_user_id@),
        ensures
            r.resource_id@ == resource_id@,
            r.subject_token@ == authenticated_user.access_token@,
            r.claims matches PermissionClaims::Common(c) && {
                &&& c.resource_owner matches Some(o) && texts_of(o@) =~= seq![
                    photo.owner_user_id@,
                ]
                &&& c.visibility matches Some(v) && v@ =~= seq![photo.visibility]
            },
            spec_permission_claims_wf(r.claims),
            r.scopes@ =~= seq![AuthorizationScope::View],
    {
        let photo_claims = CommonClaims::new(&photo.owner_user_id, photo.visibility);
        let mut scopes: Vec<AuthorizationScope> = Vec::new();
        scopes.push(AuthorizationScope::View);
        self.kc_authz_service.permission_request(
            authenticated_user,
            PermissionClaims::Common(photo_claims),
            resource_id,
            scopes,
        )
    }

    /// The request that asks whether `authenticated_user` may create a
    /// photo: no entity exists yet, so the claims are empty and the one
    /// scope is `Create`.
    pub fn can_create_photo_request(
        &self,
        authenticated_user: &AuthenticatedUser,
        resource_id: &String,
    ) -> (r: AuthzPermissionRequest)
        ensures
            r.resource_id@ == resource_id@,
            r.subject_token@ == authenticated_user.access_token@,
            r.claims == PermissionClaims::Absent,
            spec_permission_claims_wf(r.claims),
            r.scopes@ =~= seq![AuthorizationScope::Create],
    {
        let mut scopes: Vec<AuthorizationScope> = Vec::new();
        scopes.push(AuthorizationScope::Create);
        self.kc_authz_service.permission_request(
            authenticated_user,
            PermissionClaims::Absent,
            resource_id,
            scopes,
        )
    }

    /// The request that asks whether `authenticated_user` may apply
    /// `update_photo` to `photo`: claims carry the owner alone (visibility
    /// never governs editing), and the scopes are exactly those of the
    /// fields the update changes.
    pub fn can_edit_photo_request(
        &self,
        authenticated_user: &AuthenticatedUser,
        photo: &Photo,
        update_photo: &UpdatePhoto,
        resource_id: &String,
    ) -> (r: AuthzPermissionRequest)
        requires
            is_uuid_text(photo.owner_user_id@),
        ensures
            r.resource_id@ == resource_id@,
            r.subject_token@ == authenticated_user.access_token@,
            r.claims matches PermissionClaims::Common(c) && {
                &&& c.resource_owner matches Some(o) && texts_of(o@) =~= seq![
                    photo.owner_user_id@,
                ]
                &&& c.visibility is None
            },
            spec_permission_claims_wf(r.claims),
            r.scopes@ =~= spec_photo_edit_scopes(*update_photo),
    {
        let photo_claims = CommonClaims::resource_owner(&photo.owner_user_id);
        self.kc_authz_service.permission_request(
            authenticated_user,
            PermissionClaims::Common(photo_claims),
            resource_id,
            Self::authorization_scopes(update_photo),
        )
    }

    /// The per-item request of the bulk view filter: claims carry the owner
    /// alone, the one scope is `View`.
    pub fn can_view_photo_permission_request(
        &self,
        photo: &Photo,
        authenticated_user: &AuthenticatedUser,
        resource_id: &String,
    ) -> (r: AuthzPermissionRequest)
        requires
            is_uuid_text(photo.owner_user_id@),
        ensures
            r.resource_id@ == resource_id@,
            r.subject_token@ == authenticated_user.access_token@,
            r.claims matches PermissionClaims::Common(c) && {
                &&& c.resource_owner matches Some(o) && texts_of(o@) =~= seq![
                    photo.owner_user_id@,
                ]
                &&& c.visibility is None
            },
            spec_permission_claims_wf(r.claims),
            r.scopes@ =~= seq![AuthorizationScope::View],
    {
        let photo_claims = CommonClaims::resource_owner(&photo.owner_user_id);
        let mut scopes: Vec<AuthorizationScope> = Vec::new();
        scopes.push(AuthorizationScope::View);
        self.kc_authz_service.permission_request(
            authenticated_user,
            PermissionClaims::Common(photo_claims),
            resource_id,
            scopes,
        )
    }

    /// Keeps the photos whose view decision was `Allow`, one decision per
    /// photo in order; a decision that could not be obtained drops its photo
    /// (fail closed) without failing the batch.
    pub fn filter_photos_by_view_permission(
        &self,
        photos: Vec<Photo>,
        outcomes: &Vec<PolicyOutcome>,
    ) -> (r: Vec<Photo>)
        requires
            photos@.len() == outcomes@.len(),
        ensures
            r@ == spec_filter_allowed(photos@, outcomes@),
    {
        filter_allowed(photos, outcomes)
    }
}

} // verus!
