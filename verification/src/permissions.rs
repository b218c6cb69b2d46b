//! The access model: what level a principal holds on a resource, and the
//! decision that every protected operation asks for.
//!
//! The owner of a resource holds the highest level on it. Anyone else
//! holds the highest level among the grants that apply to them, and no
//! access where none applies.

use vstd::prelude::*;

use crate::errors::OrganizatorError;
use crate::models::{ExplicitPermission, GetFilePermissions};

verus! {

/// The level of someone who has no access.
pub const NO_ACCESS: i32 = 0;

/// The highest level: that of an owner.
pub const MAX_ACCESS: i32 = 0x7fff_ffff;

/// Members of the user group may access the resource group at this level.
#[derive(Debug, Clone, Copy, PartialEq, Eq, Structural)]
pub struct AccessGrant {
    pub resource_group_id: i32,
    pub user_group_id: i32,
    pub access_level: i32,
}

/// A resource under access control: a memo or a file, with its owner and
/// the resource group it belongs to, if any.
#[derive(Debug, Clone, Copy, PartialEq, Eq, Structural)]
pub struct Resource {
    pub owner_id: i32,
    pub group_id: Option<i32>,
}

/// A principal as the access model sees it: the user and the user groups
/// of which the user is a member.
#[derive(Debug, Clone, PartialEq, Eq)]
pub struct Principal {
    pub user_id: i32,
    pub groups: Vec<i32>,
}

/// A principal over plain values.
pub struct PrincipalView {
    pub user_id: i32,
    pub groups: Seq<i32>,
}

impl View for Principal {
    type V = PrincipalView;

    open spec fn view(&self) -> PrincipalView {
        PrincipalView { user_id: self.user_id, groups: self.groups@ }
    }
}

/// Whether access is given.
#[derive(Debug, Clone, Copy, PartialEq, Eq, Structural)]
pub enum Decision {
    Allow,
    Deny,
}

/// A grant applies where it is made for the resource's group and to one
/// of the principal's groups.
pub open spec fn applies(grant: AccessGrant, groups: Seq<i32>, resource: Resource) -> bool {
    resource.group_id == Some(grant.resource_group_id) && groups.contains(grant.user_group_id)
}

/// The highest level among the grants that apply, and no access where
/// none applies. A grant of a lower level than no access grants nothing.
pub open spec fn granted_level(grants: Seq<AccessGrant>, groups: Seq<i32>, resource: Resource) -> int
    decreases grants.len(),
{
    if grants.len() == 0 {
        NO_ACCESS as int
    } else {
        let rest = granted_level(grants.drop_last(), groups, resource);
        let last = grants.last();
        if applies(last, groups, resource) && last.access_level > rest {
            last.access_level as int
        } else {
            rest
        }
    }
}

/// The level that a principal holds on a resource.
pub open spec fn effective_level_spec(
    principal: PrincipalView,
    resource: Resource,
    grants: Seq<AccessGrant>,
) -> int {
    if principal.user_id == resource.owner_id {
        MAX_ACCESS as int
    } else {
        granted_level(grants, principal.groups, resource)
    }
}

/// Access is allowed exactly where the level held reaches the level asked.
pub open spec fn authorize_spec(
    principal: PrincipalView,
    resource: Resource,
    grants: Seq<AccessGrant>,
    minimum_required_level: int,
) -> Decision {
    if effective_level_spec(principal, resource, grants) >= minimum_required_level {
        Decision::Allow
    } else {
        Decision::Deny
    }
}

fn is_member(groups: &Vec<i32>, user_group_id: i32) -> (r: bool)
    ensures
        r == groups@.contains(user_group_id),
{
    let n: usize = groups.len();
    let mut i: usize = 0;
    while i < n
        invariant
            i <= n,
            n == groups@.len(),
            forall|j: int| 0 <= j < i ==> groups@[j] != user_group_id,
        decreases n - i,
    {
        if groups[i] == user_group_id {
            return true;
        }
        i += 1;
    }
    false
}

fn grant_applies(grant: &AccessGrant, groups: &Vec<i32>, resource: &Resource) -> (r: bool)
    ensures
        r == applies(*grant, groups@, *resource),
{
    match resource.group_id {
        Some(group) => group == grant.resource_group_id && is_member(groups, grant.user_group_id),
        None => false,
    }
}

/// Computes the level that a principal holds on a resource under the
/// grants as they stand now.
pub fn effective_level(principal: &Principal, resource: &Resource, grants: &Vec<AccessGrant>) -> (level:
    i32)
    ensures
        level == effective_level_spec(principal@, *resource, grants@),
{
    if principal.user_id == resource.owner_id {
        return MAX_ACCESS;
    }
    let n: usize = grants.len();
    let mut level: i32 = NO_ACCESS;
    let mut i: usize = 0;
    while i < n
        invariant
            i <= n,
            n == grants@.len(),
            level == granted_level(grants@.subrange(0, i as int), principal.groups@, *resource),
        decreases n - i,
    {
        assert(grants@.subrange(0, i + 1).drop_last() =~= grants@.subrange(0, i as int));
        let grant = &grants[i];
        if grant.access_level > level && grant_applies(grant, &principal.groups, resource) {
            level = grant.access_level;
        }
        i += 1;
    }
    assert(grants@.subrange(0, n as int) =~= grants@);
    level
}

/// Decides: does the principal hold at least the level asked on the
/// resource? Every decision is computed anew from the grants given.
pub fn authorize(
    principal: &Principal,
    resource: &Resource,
    grants: &Vec<AccessGrant>,
    minimum_required_level: i32,
) -> (d: Decision)
    ensures
        d == authorize_spec(principal@, *resource, grants@, minimum_required_level as int),
{
    if effective_level(principal, resource, grants) >= minimum_required_level {
        Decision::Allow
    } else {
        Decision::Deny
    }
}

/// A principal that may be absent, over plain values.
pub open spec fn principal_view(principal: Option<&Principal>) -> Option<PrincipalView> {
    match principal {
        Some(p) => Some(p@),
        None => None,
    }
}

/// A resource that may not exist.
pub open spec fn resource_view(resource: Option<&Resource>) -> Option<Resource> {
    match resource {
        Some(r) => Some(*r),
        None => None,
    }
}

/// What a protected operation is answered with. Without a principal the
/// request is unauthorized; a resource that does not exist is not found,
/// which is said before anything about access; a principal whose level
/// does not reach the level asked is forbidden.
pub open spec fn guard_spec(
    principal: Option<PrincipalView>,
    resource: Option<Resource>,
    grants: Seq<AccessGrant>,
    minimum_required_level: int,
) -> Result<(), OrganizatorError> {
    match principal {
        None => Err(OrganizatorError::Unauthorized),
        Some(p) => match resource {
            None => Err(OrganizatorError::NotFound),
            Some(r) => match authorize_spec(p, r, grants, minimum_required_level) {
                Decision::Allow => Ok(()),
                Decision::Deny => Err(OrganizatorError::Forbidden),
            },
        },
    }
}

/// Passes or refuses a protected operation. The failure never says why
/// access was denied.
pub fn guard(
    principal: Option<&Principal>,
    resource: Option<&Resource>,
    grants: &Vec<AccessGrant>,
    minimum_required_level: i32,
) -> (r: Result<(), OrganizatorError>)
    ensures
        r == guard_spec(
            principal_view(principal),
            resource_view(resource),
            grants@,
            minimum_required_level as int,
        ),
{
    match principal {
        None => Err(OrganizatorError::Unauthorized),
        Some(p) => match resource {
            None => Err(OrganizatorError::NotFound),
            Some(r) => match authorize(p, r, grants, minimum_required_level) {
                Decision::Allow => Ok(()),
                Decision::Deny => Err(OrganizatorError::Forbidden),
            },
        },
    }
}

impl ExplicitPermission {
    /// The grant that the record states.
    pub open spec fn grant_spec(&self) -> AccessGrant {
        AccessGrant {
            resource_group_id: self.memo_group_id,
            user_group_id: self.user_group_id,
            access_level: self.access,
        }
    }

    /// The grant that the record states.
    pub fn grant(&self) -> (g: AccessGrant)
        ensures
            g == self.grant_spec(),
    {
        AccessGrant {
            resource_group_id: self.memo_group_id,
            user_group_id: self.user_group_id,
            access_level: self.access,
        }
    }
}

/// The grants that a list of permission records states, in its order.
pub fn grants_of(permissions: &Vec<ExplicitPermission>) -> (grants: Vec<AccessGrant>)
    ensures
        grants@ == permissions@.map_values(|p: ExplicitPermission| p.grant_spec()),
{
    let n: usize = permissions.len();
    let mut grants: Vec<AccessGrant> = Vec::new();
    let mut i: usize = 0;
    while i < n
        invariant
            i <= n,
            n == permissions@.len(),
            grants@ == permissions@.subrange(0, i as int).map_values(
                |p: ExplicitPermission| p.grant_spec(),
            ),
        decreases n - i,
    {
        grants.push(permissions[i].grant());
        assert(permissions@.subrange(0, i + 1) =~= permissions@.subrange(0, i as int).push(
            permissions@[i as int],
        ));
        i += 1;
    }
    grants
}

/// The user groups of which the records show the user to be a member.
pub open spec fn memberships_spec(user_id: i32, permissions: Seq<ExplicitPermission>) -> Seq<i32> {
    permissions.filter(|p: ExplicitPermission| p.user_id == user_id).map_values(
        |p: ExplicitPermission| p.user_group_id,
    )
}

/// The principal that a list of permission records shows for a user: the
/// user with the user groups of the records that name them.
pub fn principal_of(user_id: i32, permissions: &Vec<ExplicitPermission>) -> (principal: Principal)
    ensures
        principal@.user_id == user_id,
        principal@.groups == memberships_spec(user_id, permissions@),
{
    let n: usize = permissions.len();
    let mut groups: Vec<i32> = Vec::new();
    let mut i: usize = 0;
    while i < n
        invariant
            i <= n,
            n == permissions@.len(),
            groups@ == memberships_spec(user_id, permissions@.subrange(0, i as int)),
        decreases n - i,
    {
        proof {
            reveal(Seq::filter);
            let pred = |p: ExplicitPermission| p.user_id == user_id;
            let group = |p: ExplicitPermission| p.user_group_id;
            let before = permissions@.subrange(0, i as int);
            let next = permissions@.subrange(0, i + 1);
            assert(next.drop_last() =~= before);
            if pred(next.last()) {
                assert(next.filter(pred).map_values(group) =~= before.filter(pred).map_values(
                    group,
                ).push(next.last().user_group_id));
            }
        }
        if permissions[i].user_id == user_id {
            groups.push(permissions[i].user_group_id);
        }
        i += 1;
    }
    assert(permissions@.subrange(0, n as int) =~= permissions@);
    Principal { user_id, groups }
}

impl GetFilePermissions {
    /// The level that the one who asks holds on the file: the highest
    /// for the owner, else the level that the record states.
    pub open spec fn effective_level_spec(&self) -> int {
        if self.requester.id == self.user.id {
            MAX_ACCESS as int
        } else {
            self.access as int
        }
    }

    /// The level that the one who asks holds on the file.
    pub fn effective_level(&self) -> (level: i32)
        ensures
            level == self.effective_level_spec(),
    {
        if self.requester.id == self.user.id {
            MAX_ACCESS
        } else {
            self.access
        }
    }

    /// The decision on a file: the level held must reach the level asked.
    pub fn authorize(&self, minimum_required_level: i32) -> (d: Decision)
        ensures
            d == Decision::Allow <==> self.effective_level_spec() >= minimum_required_level,
    {
        if self.effective_level() >= minimum_required_level {
            Decision::Allow
        } else {
            Decision::Deny
        }
    }
}

/// The level granted is the maximum over the grants that apply: it is
/// never below no access, no grant that applies exceeds it, and it is
/// either no access or the level of a grant that applies.
pub proof fn lemma_granted_level_is_maximum(
    grants: Seq<AccessGrant>,
    groups: Seq<i32>,
    resource: Resource,
)
    ensures
        granted_level(grants, groups, resource) >= NO_ACCESS,
        forall|i: int|
            0 <= i < grants.len() && applies(#[trigger] grants[i], groups, resource)
                ==> grants[i].access_level <= granted_level(grants, groups, resource),
        granted_level(grants, groups, resource) == NO_ACCESS || exists|i: int|
            0 <= i < grants.len() && applies(#[trigger] grants[i], groups, resource)
                && grants[i].access_level == granted_level(grants, groups, resource),
    decreases grants.len(),
{
    if grants.len() > 0 {
        let front = grants.drop_last();
        lemma_granted_level_is_maximum(front, groups, resource);
        assert forall|i: int|
            0 <= i < grants.len() && applies(#[trigger] grants[i], groups, resource)
            implies grants[i].access_level <= granted_level(grants, groups, resource) by {
            if i < front.len() {
                assert(front[i] == grants[i]);
            }
        }
        let level = granted_level(grants, groups, resource);
        if level != NO_ACCESS && level == granted_level(front, groups, resource) {
            // The grant that gives the front its level gives it to the whole list.
            let i = choose|i: int|
                0 <= i < front.len() && applies(#[trigger] front[i], groups, resource)
                    && front[i].access_level == level;
            assert(grants[i] == front[i]);
        }
    }
}

/// Without a grant that applies, nothing is granted.
pub proof fn lemma_no_applicable_grant(
    grants: Seq<AccessGrant>,
    groups: Seq<i32>,
    resource: Resource,
)
    requires
        forall|i: int| 0 <= i < grants.len() ==> !applies(#[trigger] grants[i], groups, resource),
    ensures
        granted_level(grants, groups, resource) == NO_ACCESS,
{
    lemma_granted_level_is_maximum(grants, groups, resource);
}

/// The owner is allowed at every level, the highest included,
/// whatever the grants are, also where there are none.
pub proof fn lemma_owner_is_allowed(
    principal: PrincipalView,
    resource: Resource,
    grants: Seq<AccessGrant>,
    minimum_required_level: i32,
)
    requires
        principal.user_id == resource.owner_id,
    ensures
        effective_level_spec(principal, resource, grants) == MAX_ACCESS,
        authorize_spec(principal, resource, grants, minimum_required_level as int)
            == Decision::Allow,
        authorize_spec(principal, resource, Seq::empty(), MAX_ACCESS as int) == Decision::Allow,
{
}

/// The higher of two levels.
pub open spec fn higher(a: int, b: int) -> int {
    if a >= b {
        a
    } else {
        b
    }
}

/// Grants combine to the most generous one: where two grants apply to a
/// principal who is not the owner, the level held is the higher of the
/// two, whichever was given first: not their sum, and not the one given
/// last. No grant lowers the level below no access.
pub proof fn lemma_two_grants_combine(
    principal: PrincipalView,
    resource: Resource,
    first: AccessGrant,
    second: AccessGrant,
)
    requires
        principal.user_id != resource.owner_id,
        applies(first, principal.groups, resource),
        applies(second, principal.groups, resource),
    ensures
        effective_level_spec(principal, resource, seq![first, second]) == higher(
            NO_ACCESS as int,
            higher(first.access_level as int, second.access_level as int),
        ),
        effective_level_spec(principal, resource, seq![first, second]) == effective_level_spec(
            principal,
            resource,
            seq![second, first],
        ),
{
    let a = seq![first, second];
    let b = seq![second, first];
    lemma_granted_level_is_maximum(a, principal.groups, resource);
    lemma_granted_level_is_maximum(b, principal.groups, resource);
}

/// Only which grants there are counts, not their order nor how often
/// one is stated: two lists that hold the same grants give the same level.
pub proof fn lemma_order_of_grants_is_irrelevant(
    principal: PrincipalView,
    resource: Resource,
    grants: Seq<AccessGrant>,
    others: Seq<AccessGrant>,
)
    requires
        forall|g: AccessGrant| grants.contains(g) <==> others.contains(g),
    ensures
        effective_level_spec(principal, resource, grants) == effective_level_spec(
            principal,
            resource,
            others,
        ),
{
    let groups = principal.groups;
    lemma_granted_level_is_maximum(grants, groups, resource);
    lemma_granted_level_is_maximum(others, groups, resource);
    let level = granted_level(grants, groups, resource);
    let other_level = granted_level(others, groups, resource);
    if level != NO_ACCESS {
        // The grant that gives the level stands in the other list too.
        let i = choose|i: int|
            0 <= i < grants.len() && applies(#[trigger] grants[i], groups, resource)
                && grants[i].access_level == level;
        assert(others.contains(grants[i]));
        assert(level <= other_level);
    }
    if other_level != NO_ACCESS {
        let j = choose|j: int|
            0 <= j < others.len() && applies(#[trigger] others[j], groups, resource)
                && others[j].access_level == other_level;
        assert(grants.contains(others[j]));
        assert(other_level <= level);
    }
}

/// One more grant never lowers the level held.
pub proof fn lemma_grants_are_additive(
    principal: PrincipalView,
    resource: Resource,
    grants: Seq<AccessGrant>,
    grant: AccessGrant,
)
    ensures
        effective_level_spec(principal, resource, grants.push(grant)) >= effective_level_spec(
            principal,
            resource,
            grants,
        ),
{
    assert(grants.push(grant).drop_last() =~= grants);
}

/// Who holds no principal is unauthorized, whatever is asked for; a
/// denial is forbidden, and differs from both unauthorized and not found.
pub proof fn lemma_guard_outcomes(
    principal: Option<PrincipalView>,
    resource: Option<Resource>,
    grants: Seq<AccessGrant>,
    minimum_required_level: int,
)
    ensures
        principal is None ==> guard_spec(principal, resource, grants, minimum_required_level)
            == Err::<(), OrganizatorError>(OrganizatorError::Unauthorized),
        guard_spec(principal, resource, grants, minimum_required_level) == Err::<
            (),
            OrganizatorError,
        >(OrganizatorError::Forbidden) <==> principal is Some && resource is Some && authorize_spec(
            principal.unwrap(),
            resource.unwrap(),
            grants,
            minimum_required_level,
        ) == Decision::Deny,
        guard_spec(principal, resource, grants, minimum_required_level) is Ok <==> principal is Some
            && resource is Some && authorize_spec(
            principal.unwrap(),
            resource.unwrap(),
            grants,
            minimum_required_level,
        ) == Decision::Allow,
{
}

} // verus!
