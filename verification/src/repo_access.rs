//! Who may read, push to and administer a hosted repository, and how the
//! owner part of a git URL is resolved to a repository.
//!
//! A user's role on a repository is the stronger of their direct role (the
//! owner of a user repository, or an owner, admin or member of the owning
//! organization) and the role their teams give them. Roles are ordered
//! read < write < admin. Public repositories are readable by anyone.
use vstd::prelude::*;
use crate::invitation_rules::OrgRole;
use crate::replies::Lookup;

verus! {

/// A user's role on a repository.
#[derive(Debug, Clone, Copy, PartialEq, Eq, Structural)]
pub enum RepoRole {
    Read,
    Write,
    Admin,
}

/// The strength of a role.
pub open spec fn role_rank(r: RepoRole) -> int {
    match r {
        RepoRole::Read => 0,
        RepoRole::Write => 1,
        RepoRole::Admin => 2,
    }
}

/// Whether role `a` grants everything role `b` grants.
pub open spec fn has_permission_of(a: RepoRole, b: RepoRole) -> bool {
    role_rank(a) >= role_rank(b)
}

/// Whether role `a` grants everything role `b` grants.
pub fn role_has_permission_of(a: RepoRole, b: RepoRole) -> (r: bool)
    ensures
        r == has_permission_of(a, b),
{
    let ra: u8 = match a {
        RepoRole::Read => 0,
        RepoRole::Write => 1,
        RepoRole::Admin => 2,
    };
    let rb: u8 = match b {
        RepoRole::Read => 0,
        RepoRole::Write => 1,
        RepoRole::Admin => 2,
    };
    ra >= rb
}

/// The stronger of two optional roles (the first when they are equal).
pub open spec fn stronger_role(a: Option<RepoRole>, b: Option<RepoRole>) -> Option<RepoRole> {
    match (a, b) {
        (Some(x), Some(y)) => if has_permission_of(x, y) {
            Some(x)
        } else {
            Some(y)
        },
        (Some(x), None) => Some(x),
        (None, Some(y)) => Some(y),
        (None, None) => None,
    }
}

/// The stronger of two optional roles.
pub fn higher_role(a: Option<RepoRole>, b: Option<RepoRole>) -> (r: Option<RepoRole>)
    ensures
        r == stronger_role(a, b),
{
    match (a, b) {
        (Some(x), Some(y)) => if role_has_permission_of(x, y) {
            Some(x)
        } else {
            Some(y)
        },
        (Some(x), None) => Some(x),
        (None, Some(y)) => Some(y),
        (None, None) => None,
    }
}

/// The stronger of two roles grants all that each of them grants, and is one
/// of them.
pub proof fn law_higher_role_dominates(a: Option<RepoRole>, b: Option<RepoRole>, needed: RepoRole)
    ensures
        (a matches Some(x) && has_permission_of(x, needed)) ==> (stronger_role(a, b) matches Some(h)
            && has_permission_of(h, needed)),
        (b matches Some(y) && has_permission_of(y, needed)) ==> (stronger_role(a, b) matches Some(h)
            && has_permission_of(h, needed)),
        stronger_role(a, b) == a || stronger_role(a, b) == b,
        stronger_role(a, b) is None <==> (a is None && b is None),
{
}

/// Who owns a repository.
#[derive(Debug, Clone, Copy, PartialEq, Eq, Structural)]
pub enum RepoOwner {
    User(u128),
    Org(u128),
}

/// A user's direct role on a repository: admin of their own repository; for
/// an organization's repository, admin when they own or administer the
/// organization and read when they are another member; none otherwise (a
/// failed membership lookup counts as none).
pub open spec fn direct_role_of(owner: RepoOwner, user: u128, membership: Lookup<OrgRole>) -> Option<RepoRole> {
    match owner {
        RepoOwner::User(id) => if id == user {
            Some(RepoRole::Admin)
        } else {
            None
        },
        RepoOwner::Org(_) => match membership {
            Lookup::Found(role) => if role == OrgRole::Owner || role == OrgRole::Admin {
                Some(RepoRole::Admin)
            } else {
                Some(RepoRole::Read)
            },
            _ => None,
        },
    }
}

/// A user's direct role on a repository. `membership` is the user's role in
/// the owning organization (unused for a user's repository).
pub fn get_direct_role(owner: RepoOwner, user: u128, membership: Lookup<OrgRole>) -> (r: Option<RepoRole>)
    ensures
        r == direct_role_of(owner, user, membership),
{
    match owner {
        RepoOwner::User(id) => if id == user {
            Some(RepoRole::Admin)
        } else {
            None
        },
        RepoOwner::Org(_) => match membership {
            Lookup::Found(role) => if role == OrgRole::Owner || role == OrgRole::Admin {
                Some(RepoRole::Admin)
            } else {
                Some(RepoRole::Read)
            },
            _ => None,
        },
    }
}

/// A user's role on a repository: the stronger of their direct role and
/// the role their teams give them (a failed team lookup counts as none).
pub fn get_user_repo_role(direct: Option<RepoRole>, via_teams: Option<RepoRole>) -> (r: Option<RepoRole>)
    ensures
        r == stronger_role(direct, via_teams),
{
    higher_role(direct, via_teams)
}

/// Why access to a repository was refused: unauthorized (401) for an
/// anonymous caller, forbidden (403) for a signed-in one; each with its
/// message key.
#[derive(Debug, Clone, Copy, PartialEq, Eq, Structural)]
pub enum AccessRefusal {
    AuthRequiredPrivate,
    AccessDenied,
    AuthRequiredPush,
    WriteAccessDenied,
}

/// The message key of a refusal.
pub open spec fn refusal_key(r: AccessRefusal) -> Seq<char> {
    match r {
        AccessRefusal::AuthRequiredPrivate => "server.api.scm.git.auth_required_private"@,
        AccessRefusal::AccessDenied => "server.api.scm.git.access_denied"@,
        AccessRefusal::AuthRequiredPush => "server.api.scm.git.auth_required_push"@,
        AccessRefusal::WriteAccessDenied => "server.api.scm.git.write_access_denied"@,
    }
}

/// Whether a refusal is for an anonymous caller (401 rather than 403).
pub open spec fn refusal_unauthorized(r: AccessRefusal) -> bool {
    r == AccessRefusal::AuthRequiredPrivate || r == AccessRefusal::AuthRequiredPush
}

/// The outcome of a read check: public repositories are open; otherwise the
/// caller must be signed in (`role` is `None` for an anonymous caller,
/// `Some` of their role for a signed-in one) with at least the read role.
pub open spec fn read_access(public: bool, role: Option<Option<RepoRole>>) -> Result<(), AccessRefusal> {
    if public {
        Ok(())
    } else {
        match role {
            None => Err(AccessRefusal::AuthRequiredPrivate),
            Some(r) => if r matches Some(x) && has_permission_of(x, RepoRole::Read) {
                Ok(())
            } else {
                Err(AccessRefusal::AccessDenied)
            },
        }
    }
}

/// The outcome of a read check.
pub fn check_read_access(public: bool, role: Option<Option<RepoRole>>) -> (r: Result<(), AccessRefusal>)
    ensures
        r == read_access(public, role),
{
    if public {
        return Ok(());
    }
    match role {
        None => Err(AccessRefusal::AuthRequiredPrivate),
        Some(r) => match r {
            Some(x) => if role_has_permission_of(x, RepoRole::Read) {
                Ok(())
            } else {
                Err(AccessRefusal::AccessDenied)
            },
            None => Err(AccessRefusal::AccessDenied),
        },
    }
}

/// The outcome of a push check: the caller must be signed in with at least
/// the write role, whatever the repository's visibility.
pub open spec fn write_access(role: Option<Option<RepoRole>>) -> Result<(), AccessRefusal> {
    match role {
        None => Err(AccessRefusal::AuthRequiredPush),
        Some(r) => if r matches Some(x) && has_permission_of(x, RepoRole::Write) {
            Ok(())
        } else {
            Err(AccessRefusal::WriteAccessDenied)
        },
    }
}

/// The outcome of a push check.
pub fn check_write_access(role: Option<Option<RepoRole>>) -> (r: Result<(), AccessRefusal>)
    ensures
        r == write_access(role),
{
    match role {
        None => Err(AccessRefusal::AuthRequiredPush),
        Some(r) => match r {
            Some(x) => if role_has_permission_of(x, RepoRole::Write) {
                Ok(())
            } else {
                Err(AccessRefusal::WriteAccessDenied)
            },
            None => Err(AccessRefusal::WriteAccessDenied),
        },
    }
}

/// Whether a user administers a repository: their role is admin.
pub fn check_user_is_repo_admin(role: Option<RepoRole>) -> (r: bool)
    ensures
        r == (role == Some(RepoRole::Admin)),
{
    match role {
        Some(RepoRole::Admin) => true,
        _ => false,
    }
}

/// Whoever may push may also read, whatever the repository's visibility;
/// an anonymous caller may neither push nor read a private repository.
pub proof fn law_write_implies_read(public: bool, role: Option<Option<RepoRole>>)
    ensures
        write_access(role) is Ok ==> read_access(public, role) is Ok,
        role is None ==> write_access(role) is Err && (!public ==> read_access(public, role) is Err),
        public ==> read_access(public, role) is Ok,
{
}

/// How the owner part of a git URL can name a repository's owner.
#[derive(Debug, Clone, Copy, PartialEq, Eq, Structural)]
pub enum OwnerLookup {
    /// A user id (the owner text was a UUID).
    UserId(u128),
    /// An organization id (the owner text was a UUID).
    OrgId(u128),
    /// The organization whose slug the owner text is.
    OrgSlug,
    /// The user whose username the owner text is.
    Username,
}

/// What resolving a repository has learnt so far: the outcome of each way
/// of reading the owner, once tried, in order.
#[derive(Debug, Clone, Copy)]
pub struct ResolveFacts {
    pub scm_configured: bool,
    /// The owner text as a UUID, if it is one.
    pub owner_uuid: Option<u128>,
    /// Whether a repository of that user id has the name, once asked.
    pub by_user_id: Option<Lookup<()>>,
    /// Whether a repository of that organization id has the name, once
    /// asked.
    pub by_org_id: Option<Lookup<()>>,
    /// The organization whose slug the owner is, once asked.
    pub org_by_slug: Option<Lookup<u128>>,
    /// Whether a repository of that organization has the name, once asked.
    pub by_org_slug: Option<Lookup<()>>,
    /// The user whose username the owner is, once asked (a failed lookup
    /// counts as none).
    pub user_by_name: Option<Option<u128>>,
    /// Whether a repository of that user has the name, once asked.
    pub by_username: Option<Lookup<()>>,
}

/// The next step of resolving a repository.
#[derive(Debug, Clone, Copy, PartialEq, Eq, Structural)]
pub enum ResolveStep {
    /// Answer an internal error: the repository store is not configured.
    NotConfigured,
    /// Ask for a repository with the name owned by this user id.
    FindByUser(u128),
    /// Ask for a repository with the name owned by this organization id.
    FindByOrg(u128),
    FindOrgBySlug,
    FindUserByName,
    /// Answer an internal error with the store's message.
    StoreError,
    /// The repository found by the last lookup.
    Found,
    /// Answer not found (`server.api.scm.repo_not_found`).
    NotFound,
}

/// The next step of resolving the owner and name of a git URL: the owner is
/// tried as a user id, then as an organization id, then as an
/// organization's slug, then as a username; a failed repository lookup, or
/// a failed organization lookup, stops with an error.
pub open spec fn resolve_step_of(f: ResolveFacts) -> ResolveStep {
    if !f.scm_configured {
        ResolveStep::NotConfigured
    } else if f.owner_uuid is Some && f.by_user_id is None {
        ResolveStep::FindByUser(f.owner_uuid->0)
    } else if f.owner_uuid is Some && f.by_user_id == Some(Lookup::<()>::Failed) {
        ResolveStep::StoreError
    } else if f.owner_uuid is Some && (f.by_user_id matches Some(Lookup::Found(_))) {
        ResolveStep::Found
    } else if f.owner_uuid is Some && f.by_org_id is None {
        ResolveStep::FindByOrg(f.owner_uuid->0)
    } else if f.owner_uuid is Some && f.by_org_id == Some(Lookup::<()>::Failed) {
        ResolveStep::StoreError
    } else if f.owner_uuid is Some && (f.by_org_id matches Some(Lookup::Found(_))) {
        ResolveStep::Found
    } else {
        match f.org_by_slug {
            None => ResolveStep::FindOrgBySlug,
            Some(Lookup::Failed) => ResolveStep::StoreError,
            Some(Lookup::Found(org)) if f.by_org_slug is None => ResolveStep::FindByOrg(org),
            Some(Lookup::Found(_)) if f.by_org_slug == Some(Lookup::<()>::Failed) => ResolveStep::StoreError,
            Some(Lookup::Found(_)) if (f.by_org_slug matches Some(Lookup::Found(_))) => ResolveStep::Found,
            _ => match f.user_by_name {
                None => ResolveStep::FindUserByName,
                Some(None) => ResolveStep::NotFound,
                Some(Some(user)) => match f.by_username {
                    None => ResolveStep::FindByUser(user),
                    Some(Lookup::Failed) => ResolveStep::StoreError,
                    Some(Lookup::Found(_)) => ResolveStep::Found,
                    Some(Lookup::Missing) => ResolveStep::NotFound,
                },
            },
        }
    }
}

/// The next step of resolving a repository.
pub fn resolve_repo_step(f: &ResolveFacts) -> (r: ResolveStep)
    ensures
        r == resolve_step_of(*f),
{
    if !f.scm_configured {
        return ResolveStep::NotConfigured;
    }
    if let Some(id) = f.owner_uuid {
        match f.by_user_id {
            None => return ResolveStep::FindByUser(id),
            Some(Lookup::Failed) => return ResolveStep::StoreError,
            Some(Lookup::Found(_)) => return ResolveStep::Found,
            Some(Lookup::Missing) => {},
        }
        match f.by_org_id {
            None => return ResolveStep::FindByOrg(id),
            Some(Lookup::Failed) => return ResolveStep::StoreError,
            Some(Lookup::Found(_)) => return ResolveStep::Found,
            Some(Lookup::Missing) => {},
        }
    }
    match f.org_by_slug {
        None => return ResolveStep::FindOrgBySlug,
        Some(Lookup::Failed) => return ResolveStep::StoreError,
        Some(Lookup::Found(org)) => match f.by_org_slug {
            None => return ResolveStep::FindByOrg(org),
            Some(Lookup::Failed) => return ResolveStep::StoreError,
            Some(Lookup::Found(_)) => return ResolveStep::Found,
            Some(Lookup::Missing) => {},
        },
        Some(Lookup::Missing) => {},
    }
    match f.user_by_name {
        None => ResolveStep::FindUserByName,
        Some(None) => ResolveStep::NotFound,
        Some(Some(user)) => match f.by_username {
            None => ResolveStep::FindByUser(user),
            Some(Lookup::Failed) => ResolveStep::StoreError,
            Some(Lookup::Found(_)) => ResolveStep::Found,
            Some(Lookup::Missing) => ResolveStep::NotFound,
        },
    }
}

/// A repository named by a UUID owner is looked up as a user's first: the
/// organization reading is tried only when no user owns one by that name.
pub proof fn law_user_owner_first(f: ResolveFacts)
    requires
        resolve_step_of(f) is FindByOrg,
        f.owner_uuid is Some,
        f.org_by_slug is None,
    ensures
        f.by_user_id == Some(Lookup::<()>::Missing),
{
}

} // verus!
