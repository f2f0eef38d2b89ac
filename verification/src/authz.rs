//! Claims-based authorization against an external policy server: the
//! authorization scopes, the claims bundle a permission request carries, and
//! its exact JSON text.

use vstd::prelude::*;

use crate::models::Visibility;
use crate::text::join_text;

verus! {

/// A named permission action requested against a resource.
#[derive(Debug, Clone, Copy, PartialEq, Eq, Structural)]
pub enum AuthorizationScope {
    View,
    ViewAll,
    ViewOwn,
    Create,
    Transform,
    Download,
    ChangeAlbum,
    ChangeVisibility,
    EditTitle,
}

impl AuthorizationScope {
    /// The scope's name, as the policy server spells it.
    pub open spec fn spec_str(self) -> Seq<char> {
        match self {
            AuthorizationScope::View => "View"@,
            AuthorizationScope::ViewAll => "ViewAll"@,
            AuthorizationScope::ViewOwn => "ViewOwn"@,
            AuthorizationScope::Create => "Create"@,
            AuthorizationScope::Transform => "Transform"@,
            AuthorizationScope::Download => "Download"@,
            AuthorizationScope::ChangeAlbum => "ChangeAlbum"@,
            AuthorizationScope::ChangeVisibility => "ChangeVisibility"@,
            AuthorizationScope::EditTitle => "EditTitle"@,
        }
    }

    /// The scope's name.
    pub fn as_str(&self) -> (r: &'static str)
        ensures
            r@ == self.spec_str(),
    {
        match self {
            AuthorizationScope::View => "View",
            AuthorizationScope::ViewAll => "ViewAll",
            AuthorizationScope::ViewOwn => "ViewOwn",
            AuthorizationScope::Create => "Create",
            AuthorizationScope::Transform => "Transform",
            AuthorizationScope::Download => "Download",
            AuthorizationScope::ChangeAlbum => "ChangeAlbum",
            AuthorizationScope::ChangeVisibility => "ChangeVisibility",
            AuthorizationScope::EditTitle => "EditTitle",
        }
    }
}

/// The scope names of a scope list.
pub open spec fn scope_texts(scopes: Seq<AuthorizationScope>) -> Seq<Seq<char>> {
    scopes.map_values(|scope: AuthorizationScope| scope.spec_str())
}

/// The comma-joined scope list a permission request carries.
pub open spec fn spec_scope_param(scopes: Seq<AuthorizationScope>) -> Seq<char> {
    join_text(scope_texts(scopes), ", "@)
}

/// Joins scope names with a comma and a space, as the wire wants them.
pub fn scope_param(scopes: &Vec<AuthorizationScope>) -> (r: String)
    ensures
        r@ == spec_scope_param(scopes@),
{
    let mut names: Vec<String> = Vec::new();
    let mut i: usize = 0;
    while i < scopes.len()
        invariant
            i <= scopes@.len(),
            names@.map_values(|s: String| s@) =~= scope_texts(scopes@.subrange(0, i as int)),
        decreases scopes@.len() - i,
    {
        let name = scopes[i].as_str().to_owned();
        proof {
            assert(scope_texts(scopes@.subrange(0, i + 1)) =~= scope_texts(
                scopes@.subrange(0, i as int),
            ).push(scopes@[i as int].spec_str()));
            assert(names@.push(name).map_values(|s: String| s@) =~= names@.map_values(
                |s: String| s@,
            ).push(name@));
        }
        names.push(name);
        i = i + 1;
    }
    proof {
        assert(scopes@.subrange(0, scopes@.len() as int) =~= scopes@);
    }
    crate::text::join_strings(&names, ", ")
}

/// The texts of a string list.
pub open spec fn texts_of(items: Seq<String>) -> Seq<Seq<char>> {
    items.map_values(|s: String| s@)
}

/// A string in its JSON spelling, unescaped: correct exactly for strings
/// with no quote, backslash or control character. The claims path admits
/// only such strings — owner ids must have the UUID text shape (see
/// [`spec_claims_wf`]) and visibility names are fixed words.
pub open spec fn json_quoted(s: Seq<char>) -> Seq<char> {
    "\""@ + s + "\""@
}

/// A JSON array of strings.
pub open spec fn spec_json_string_array(items: Seq<Seq<char>>) -> Seq<char> {
    "["@ + join_text(items.map_values(|s: Seq<char>| json_quoted(s)), ","@) + "]"@
}

/// Renders a JSON array of strings.
pub fn json_string_array(items: &Vec<String>) -> (r: String)
    ensures
        r@ == spec_json_string_array(texts_of(items@)),
{
    let mut quoted_items: Vec<String> = Vec::new();
    let mut i: usize = 0;
    while i < items.len()
        invariant
            i <= items@.len(),
            quoted_items@.map_values(|s: String| s@) =~= texts_of(items@).subrange(
                0,
                i as int,
            ).map_values(|s: Seq<char>| json_quoted(s)),
        decreases items@.len() - i,
    {
        let mut quoted = String::from_str("\"");
        quoted.append(items[i].as_str());
        quoted.append("\"");
        proof {
            assert(quoted@ =~= json_quoted(texts_of(items@)[i as int]));
            assert(texts_of(items@).subrange(0, i + 1) =~= texts_of(items@).subrange(
                0,
                i as int,
            ).push(texts_of(items@)[i as int]));
            assert(texts_of(items@).subrange(0, i as int).push(
                texts_of(items@)[i as int],
            ).map_values(|s: Seq<char>| json_quoted(s)) =~= texts_of(items@).subrange(
                0,
                i as int,
            ).map_values(|s: Seq<char>| json_quoted(s)).push(
                json_quoted(texts_of(items@)[i as int]),
            ));
            assert(quoted_items@.push(quoted).map_values(|s: String| s@) =~= quoted_items@
                .map_values(|s: String| s@).push(quoted@));
        }
        quoted_items.push(quoted);
        i = i + 1;
    }
    proof {
        assert(texts_of(items@).subrange(0, items@.len() as int) =~= texts_of(items@));
    }
    let joined = crate::text::join_strings(&quoted_items, ",");
    let mut out = String::from_str("[");
    out.append(joined.as_str());
    out.append("]");
    proof {
        assert(out@ =~= spec_json_string_array(texts_of(items@)));
    }
    out
}

/// The fact bundle a permission request attaches: optionally who owns the
/// resource, optionally how visible it is. The policy server reads these to
/// evaluate attribute rules such as "owner or public".
#[derive(Debug, Clone, PartialEq, Eq)]
pub struct CommonClaims {
    pub resource_owner: Option<Vec<String>>,
    pub visibility: Option<Vec<Visibility>>,
}

/// The visibility names of a visibility list.
pub open spec fn visibility_texts(items: Seq<Visibility>) -> Seq<Seq<char>> {
    items.map_values(|v: Visibility| v.spec_str())
}

/// Whether a claims bundle holds only values whose JSON spelling needs no
/// escaping: every resource-owner id in UUID text form. Visibility names
/// are fixed words and always safe.
pub open spec fn spec_claims_wf(c: CommonClaims) -> bool {
    c.resource_owner is Some ==> forall|i: int|
        0 <= i < c.resource_owner->Some_0@.len() ==> crate::text::is_uuid_text(
            #[trigger] c.resource_owner->Some_0@[i]@,
        )
}

/// Whether a claim token holds only escaping-free values.
pub open spec fn spec_permission_claims_wf(claims: PermissionClaims) -> bool {
    match claims {
        PermissionClaims::Absent => true,
        PermissionClaims::Common(c) => spec_claims_wf(c),
    }
}

/// The JSON text of a claims bundle: absent fields are left out entirely,
/// the resource owner comes first.
pub open spec fn spec_claims_json(c: CommonClaims) -> Seq<char> {
    if c.resource_owner is Some && c.visibility is Some {
        "{\"resourceOwner\":"@ + spec_json_string_array(texts_of(c.resource_owner->Some_0@))
            + ",\"visibility\":"@ + spec_json_string_array(visibility_texts(c.visibility->Some_0@))
            + "}"@
    } else if c.resource_owner is Some {
        "{\"resourceOwner\":"@ + spec_json_string_array(texts_of(c.resource_owner->Some_0@))
            + "}"@
    } else if c.visibility is Some {
        "{\"visibility\":"@ + spec_json_string_array(visibility_texts(c.visibility->Some_0@))
            + "}"@
    } else {
        "{}"@
    }
}

fn visibility_names(items: &Vec<Visibility>) -> (r: Vec<String>)
    ensures
        texts_of(r@) =~= visibility_texts(items@),
{
    let mut names: Vec<String> = Vec::new();
    let mut i: usize = 0;
    while i < items.len()
        invariant
            i <= items@.len(),
            texts_of(names@) =~= visibility_texts(items@.subrange(0, i as int)),
        decreases items@.len() - i,
    {
        let name = items[i].as_str().to_owned();
        proof {
            assert(visibility_texts(items@.subrange(0, i + 1)) =~= visibility_texts(
                items@.subrange(0, i as int),
            ).push(items@[i as int].spec_str()));
            assert(texts_of(names@.push(name)) =~= texts_of(names@).push(name@));
        }
        names.push(name);
        i = i + 1;
    }
    proof {
        assert(items@.subrange(0, items@.len() as int) =~= items@);
    }
    names
}

impl CommonClaims {
    /// Claims for a view decision: the owner and the visibility, so the
    /// policy server can grant view to the owner or to anyone when public.
    pub fn new(resource_owner: &String, visibility: Visibility) -> (r: CommonClaims)
        requires
            crate::text::is_uuid_text(resource_owner@),
        ensures
            r.resource_owner matches Some(o) && texts_of(o@) =~= seq![resource_owner@],
            r.visibility matches Some(v) && v@ =~= seq![visibility],
            spec_claims_wf(r),
    {
        let mut owners: Vec<String> = Vec::new();
        owners.push(resource_owner.clone());
        let mut visibilities: Vec<Visibility> = Vec::new();
        visibilities.push(visibility);
        proof {
            assert(texts_of(owners@) =~= seq![resource_owner@]);
            assert(owners@[0]@ == resource_owner@);
        }
        CommonClaims { resource_owner: Some(owners), visibility: Some(visibilities) }
    }

    /// Claims for an edit decision: the owner alone; visibility plays no
    /// part in who may edit.
    pub fn resource_owner(resource_owner: &String) -> (r: CommonClaims)
        requires
            crate::text::is_uuid_text(resource_owner@),
        ensures
            r.resource_owner matches Some(o) && texts_of(o@) =~= seq![resource_owner@],
            r.visibility is None,
            spec_claims_wf(r),
    {
        let mut owners: Vec<String> = Vec::new();
        owners.push(resource_owner.clone());
        proof {
            assert(texts_of(owners@) =~= seq![resource_owner@]);
            assert(owners@[0]@ == resource_owner@);
        }
        CommonClaims { resource_owner: Some(owners), visibility: None }
    }

    /// Renders the claims bundle as its JSON text.
    pub fn to_json(&self) -> (r: String)
        ensures
            r@ == spec_claims_json(*self),
    {
        match (&self.resource_owner, &self.visibility) {
            (Some(owners), Some(visibilities)) => {
                let mut out = String::from_str("{\"resourceOwner\":");
                out.append(json_string_array(owners).as_str());
                out.append(",\"visibility\":");
                out.append(json_string_array(&visibility_names(visibilities)).as_str());
                out.append("}");
                proof {
                    assert(out@ =~= spec_claims_json(*self));
                }
                out
            },
            (Some(owners), None) => {
                let mut out = String::from_str("{\"resourceOwner\":");
                out.append(json_string_array(owners).as_str());
                out.append("}");
                proof {
                    assert(out@ =~= spec_claims_json(*self));
                }
                out
            },
            (None, Some(visibilities)) => {
                let mut out = String::from_str("{\"visibility\":");
                out.append(json_string_array(&visibility_names(visibilities)).as_str());
                out.append("}");
                proof {
                    assert(out@ =~= spec_claims_json(*self));
                }
                out
            },
            (None, None) => {
                let out = String::from_str("{}");
                out
            },
        }
    }
}

/// What a permission request attaches as its claim token: nothing at all
/// (for create, where no entity exists yet) or a claims bundle.
#[derive(Debug, Clone, PartialEq, Eq)]
pub enum PermissionClaims {
    Absent,
    Common(CommonClaims),
}

/// The JSON text of a claim token: an absent bundle is the JSON `null`, as
/// a unit value serializes.
pub open spec fn spec_claim_token_json(claims: PermissionClaims) -> Seq<char> {
    match claims {
        PermissionClaims::Absent => "null"@,
        PermissionClaims::Common(c) => spec_claims_json(c),
    }
}

impl PermissionClaims {
    /// Renders the claim token's JSON text.
    pub fn to_json(&self) -> (r: String)
        ensures
            r@ == spec_claim_token_json(*self),
    {
        match self {
            PermissionClaims::Absent => String::from_str("null"),
            PermissionClaims::Common(claims) => claims.to_json(),
        }
    }
}

/// What one policy decision came to: the server said yes, the server said
/// no, or the server could not be asked. An error is not a denial, but
/// callers that filter fail closed on it.
#[derive(Debug, Clone, Copy, PartialEq, Eq, Structural)]
pub enum PolicyOutcome {
    Allow,
    Deny,
    Unreachable,
}

/// Reads a decision answer: the server's boolean verdict when one arrived,
/// and `Unreachable` when the request failed or the answer was malformed.
pub fn policy_outcome_of(result: Option<bool>) -> (r: PolicyOutcome)
    ensures
        result == Some(true) ==> r == PolicyOutcome::Allow,
        result == Some(false) ==> r == PolicyOutcome::Deny,
        result is None ==> r == PolicyOutcome::Unreachable,
{
    match result {
        Some(true) => PolicyOutcome::Allow,
        Some(false) => PolicyOutcome::Deny,
        None => PolicyOutcome::Unreachable,
    }
}

/// The items whose outcome was `Allow`, in their own order: an error keeps
/// an item out just as a denial does.
pub open spec fn spec_filter_allowed<T>(items: Seq<T>, outcomes: Seq<PolicyOutcome>) -> Seq<T>
    decreases items.len(),
{
    if items.len() == 0 {
        Seq::<T>::empty()
    } else if outcomes[0] == PolicyOutcome::Allow {
        seq![items[0]] + spec_filter_allowed(items.skip(1), outcomes.skip(1))
    } else {
        spec_filter_allowed(items.skip(1), outcomes.skip(1))
    }
}

/// Keeps the items whose decision was `Allow`, one decision per item;
/// a decision that could not be obtained keeps its item out (fail closed)
/// without failing the whole batch.
pub fn filter_allowed<T>(items: Vec<T>, outcomes: &Vec<PolicyOutcome>) -> (r: Vec<T>)
    requires
        items@.len() == outcomes@.len(),
    ensures
        r@ == spec_filter_allowed(items@, outcomes@),
{
    let ghost all_items = items@;
    let mut remaining = items;
    let mut out: Vec<T> = Vec::new();
    let mut k: usize = 0;
    proof {
        assert(all_items.skip(0) =~= all_items);
        assert(outcomes@.skip(0) =~= outcomes@);
        assert(Seq::<T>::empty() + spec_filter_allowed(all_items, outcomes@)
            =~= spec_filter_allowed(all_items, outcomes@));
    }
    while remaining.len() > 0
        invariant
            all_items.len() == outcomes@.len(),
            k + remaining@.len() == outcomes@.len(),
            remaining@ =~= all_items.skip(k as int),
            spec_filter_allowed(all_items, outcomes@) =~= out@ + spec_filter_allowed(
                remaining@,
                outcomes@.skip(k as int),
            ),
        decreases remaining@.len(),
    {
        let ghost pre = remaining@;
        let ghost out_pre = out@;
        proof {
            assert(k < outcomes@.len());
            assert(outcomes@.skip(k as int)[0] == outcomes@[k as int]);
            assert(outcomes@.skip(k as int).skip(1) =~= outcomes@.skip(k as int + 1));
        }
        let item = remaining.remove(0);
        proof {
            assert(k < all_items.len());
            assert(remaining@ =~= pre.skip(1));
            assert(all_items.skip(k as int).skip(1) =~= all_items.skip(k as int + 1));
            assert(remaining@ =~= all_items.skip(k as int + 1));
        }
        if outcomes[k] == PolicyOutcome::Allow {
            out.push(item);
            proof {
                assert(out@ =~= out_pre.push(item));
                assert(spec_filter_allowed(pre, outcomes@.skip(k as int)) =~= seq![pre[0]]
                    + spec_filter_allowed(pre.skip(1), outcomes@.skip(k as int + 1)));
                assert(out_pre + (seq![pre[0]] + spec_filter_allowed(
                    remaining@,
                    outcomes@.skip(k as int + 1),
                )) =~= out@ + spec_filter_allowed(remaining@, outcomes@.skip(k as int + 1)));
            }
        } else {
            proof {
                assert(spec_filter_allowed(pre, outcomes@.skip(k as int))
                    =~= spec_filter_allowed(pre.skip(1), outcomes@.skip(k as int + 1)));
            }
        }
        let total: usize = outcomes.len();
        assert(k < total);
        k = k + 1;
    }
    proof {
        assert(spec_filter_allowed(remaining@, outcomes@.skip(k as int)) =~= Seq::<T>::empty());
        assert(out@ + Seq::<T>::empty() =~= out@);
    }
    out
}

} // verus!

pub mod album;
pub mod image;
pub mod kc_authz_service;
pub mod photo;
