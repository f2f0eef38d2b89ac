//! The image policy enforcer: which claims and scopes each image operation
//! puts before the policy server.

use vstd::prelude::*;

use crate::auth::user::AuthenticatedUser;
use crate::authz::kc_authz_service::{AuthzPermissionRequest, KcAuthzService};
use crate::authz::{
    spec_permission_claims_wf, texts_of, AuthorizationScope, CommonClaims, PermissionClaims,
};
use crate::text::is_uuid_text;
use crate::models::image::ImageReference;

verus! {

/// Enforces image policy through the policy decision client.
pub struct ImagePolicyEnforcerKc {
    pub kc_authz_service: KcAuthzService,
}

impl ImagePolicyEnforcerKc {
    pub fn new(kc_authz_service: KcAuthzService) -> (r: ImagePolicyEnforcerKc)
        ensures
            r.kc_authz_service == kc_authz_service,
    {
        ImagePolicyEnforcerKc { kc_authz_service }
    }

    /// The request that asks whether `authenticated_user` may download the
    /// image: owner and visibility claims, the one scope `Download`.
    pub fn can_download_request(
        &self,
        authenticated_user: &AuthenticatedUser,
        image_reference: &ImageReference,
        resource_id: &String,
    ) -> (r: AuthzPermissionRequest)
        requires
            is_uuid_text(image_reference.owner_user_id@),
        ensures
            r.resource_id@ == resource_id@,
            r.subject_token@ == authenticated_user.access_token@,
            r.claims matches PermissionClaims::Common(c) && {
                &&& c.resource_owner matches Some(o) && texts_of(o@) =~= seq![
                    image_reference.owner_user_id@,
                ]
                &&& c.visibility matches Some(v) && v@ =~= seq![image_reference.visibility]
            },
            spec_permission_claims_wf(r.claims),
            r.scopes@ =~= seq![AuthorizationScope::Download],
    {
        let image_claims = CommonClaims::new(
            &image_reference.owner_user_id,
            image_reference.visibility,
        );
        let mut scopes: Vec<AuthorizationScope> = Vec::new();
        scopes.push(AuthorizationScope::Download);
        self.kc_authz_service.permission_request(
            authenticated_user,
            PermissionClaims::Common(image_claims),
            resource_id,
            scopes,
        )
    }

    /// The request that asks whether `authenticated_user` may transform the
    /// image: owner and visibility claims, the one scope `Transform`.
    pub fn can_transform_request(
        &self,
        authenticated_user: &AuthenticatedUser,
        image_reference: &ImageReference,
        resource_id: &String,
    ) -> (r: AuthzPermissionRequest)
        requires
            is_uuid_text(image_reference.owner_user_id@),
        ensures
            r.resource_id@ == resource_id@,
            r.subject_token@ == authenticated_user.access_token@,
            r.claims matches PermissionClaims::Common(c) && {
                &&& c.resource_owner matches Some(o) && texts_of(o@) =~= seq![
                    image_reference.owner_user_id@,
                ]
                &&& c.visibility matches Some(v) && v@ =~= seq![image_reference.visibility]
            },
            spec_permission_claims_wf(r.claims),
            r.scopes@ =~= seq![AuthorizationScope::Transform],
    {
        let image_claims = CommonClaims::new(
            &image_reference.owner_user_id,
            image_reference.visibility,
        );
        let mut scopes: Vec<AuthorizationScope> = Vec::new();
        scopes.push(AuthorizationScope::Transform);
        self.kc_authz_service.permission_request(
            authenticated_user,
            PermissionClaims::Common(image_claims),
            resource_id,
            scopes,
        )
    }

    /// The request that asks whether `authenticated_user` may download and
    /// then transform the image: owner and visibility claims, the scopes
    /// `Download` and `Transform` together.
    pub fn can_download_then_transform_request(
        &self,
        authenticated_user: &AuthenticatedUser,
        image_reference: &ImageReference,
        resource_id: &String,
    ) -> (r: AuthzPermissionRequest)
        requires
            is_uuid_text(image_reference.owner_user_id@),
        ensures
            r.resource_id@ == resource_id@,
            r.subject_token@ == authenticated_user.access_token@,
            r.claims matches PermissionClaims::Common(c) && {
                &&& c.resource_owner matches Some(o) && texts_of(o@) =~= seq![
                    image_reference.owner_user_id@,
                ]
                &&& c.visibility matches Some(v) && v@ =~= seq![image_reference.visibility]
            },
            spec_permission_claims_wf(r.claims),
            r.scopes@ =~= seq![AuthorizationScope::Download, AuthorizationScope::Transform],
    {
        let image_claims = CommonClaims::new(
            &image_reference.owner_user_id,
            image_reference.visibility,
        );
        let mut scopes: Vec<AuthorizationScope> = Vec::new();
        scopes.push(AuthorizationScope::Download);
        scopes.push(AuthorizationScope::Transform);
        self.kc_authz_service.permission_request(
            authenticated_user,
            PermissionClaims::Common(image_claims),
            resource_id,
            scopes,
        )
    }

    /// The request that asks whether `authenticated_user` may create an
    /// image: no entity exists yet, so the claims are empty; the scopes are
    /// `Download` and `Transform` together.
    pub fn can_create_request(
        &self,
        authenticated_user: &AuthenticatedUser,
        resource_id: &String,
    ) -> (r: AuthzPermissionRequest)
        ensures
            r.resource_id@ == resource_id@,
            r.subject_token@ == authenticated_user.access_token@,
            r.claims == PermissionClaims::Absent,
            spec_permission_claims_wf(r.claims),
            r.scopes@ =~= seq![AuthorizationScope::Download, AuthorizationScope::Transform],
    {
        let mut scopes: Vec<AuthorizationScope> = Vec::new();
        scopes.push(AuthorizationScope::Download);
        scopes.push(AuthorizationScope::Transform);
        self.kc_authz_service.permission_request(
            authenticated_user,
            PermissionClaims::Absent,
            resource_id,
            scopes,
        )
    }

    /// The request that asks whether `authenticated_user` may view the
    /// image: owner and visibility claims, the one scope `View`.
    pub fn can_view_request(
        &self,
        authenticated_user: &AuthenticatedUser,
        image_reference: &ImageReference,
        resource_id: &String,
    ) -> (r: AuthzPermissionRequest)
        requires
            is_uuid_text(image_reference.owner_user_id@),
        ensures
            r.resource_id@ == resource_id@,
            r.subject_token@ == authenticated_user.access_token@,
            r.claims matches PermissionClaims::Common(c) && {
                &&& c.resource_owner matches Some(o) && texts_of(o@) =~= seq![
                    image_reference.owner_user_id@,
                ]
                &&& c.visibility matches Some(v) && v@ =~= seq![image_reference.visibility]
            },
            spec_permission_claims_wf(r.claims),
            r.scopes@ =~= seq![AuthorizationScope::View],
    {
        let image_claims = CommonClaims::new(
            &image_reference.owner_user_id,
            image_reference.visibility,
        );
        let mut scopes: Vec<AuthorizationScope> = Vec::new();
        scopes.push(AuthorizationScope::View);
        self.kc_authz_service.permission_request(
            authenticated_user,
            PermissionClaims::Common(image_claims),
            resource_id,
            scopes,
        )
    }
}

} // verus!
