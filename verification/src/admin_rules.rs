//! Decisions of the admin endpoints: changing a user's global roles,
//! deleting a user, and starting and stopping impersonation.
//!
//! Only system administrators may use them (stopping an impersonation only
//! needs one to be active). An administrator cannot remove their own admin
//! role, the last administrator cannot lose it, and nobody can delete or
//! impersonate themselves.
use vstd::prelude::*;
use crate::replies::{internal_error, internal_error_reply, keyed, keyed_reply, literal, literal_reply, Lookup, Reply, ReplyView};

verus! {

/// The global roles of a user.
#[derive(Debug, Clone, Copy, PartialEq, Eq, Structural)]
pub struct GlobalRoles {
    pub is_system_admin: bool,
    pub is_support: bool,
    pub is_auditor: bool,
}

/// A requested change of global roles: each role is set when given.
#[derive(Debug, Clone, Copy, PartialEq, Eq, Structural)]
pub struct RoleChange {
    pub is_system_admin: Option<bool>,
    pub is_support: Option<bool>,
    pub is_auditor: Option<bool>,
}

/// The roles after a change.
pub open spec fn changed_roles(roles: GlobalRoles, change: RoleChange) -> GlobalRoles {
    GlobalRoles {
        is_system_admin: match change.is_system_admin {
            Some(v) => v,
            None => roles.is_system_admin,
        },
        is_support: match change.is_support {
            Some(v) => v,
            None => roles.is_support,
        },
        is_auditor: match change.is_auditor {
            Some(v) => v,
            None => roles.is_auditor,
        },
    }
}

/// The roles after a change.
pub fn apply_role_change(roles: GlobalRoles, change: RoleChange) -> (r: GlobalRoles)
    ensures
        r == changed_roles(roles, change),
{
    GlobalRoles {
        is_system_admin: match change.is_system_admin {
            Some(v) => v,
            None => roles.is_system_admin,
        },
        is_support: match change.is_support {
            Some(v) => v,
            None => roles.is_support,
        },
        is_auditor: match change.is_auditor {
            Some(v) => v,
            None => roles.is_auditor,
        },
    }
}

/// Whether a change takes the admin role away.
pub open spec fn removes_admin(change: RoleChange) -> bool {
    change.is_system_admin == Some(false)
}

/// The reply to a caller who is not a system administrator.
pub open spec fn admin_required() -> ReplyView {
    keyed(403, "forbidden"@, "server.api.admin.system_admin_required"@)
}

/// The reply to a target id that is no UUID.
pub open spec fn invalid_user_id() -> ReplyView {
    keyed(400, "bad_request"@, "server.api.user.invalid_id"@)
}

/// What a role update has learnt so far.
#[derive(Debug, Clone, Copy)]
pub struct RoleUpdateFacts {
    /// Whether the caller is a system administrator.
    pub actor_is_admin: bool,
    /// Whether the target id is a UUID.
    pub target_id_valid: bool,
    /// Whether the target is the caller.
    pub is_self: bool,
    pub change: RoleChange,
    /// The target's roles, once looked up.
    pub target: Option<Lookup<GlobalRoles>>,
    /// The number of system administrators, once counted.
    pub admin_count: Option<Lookup<u64>>,
    /// Whether saving the new roles succeeded, once tried.
    pub saved: Option<bool>,
}

/// The next step of a role update.
#[derive(Debug, Clone)]
pub enum RoleUpdateStep {
    LoadTarget,
    CountAdmins,
    Save(GlobalRoles),
    Reply(Reply),
    Done(GlobalRoles),
}

/// The next step of a role update, as plain values.
pub enum RoleUpdateStepView {
    LoadTarget,
    CountAdmins,
    Save(GlobalRoles),
    Reply(ReplyView),
    Done(GlobalRoles),
}

impl View for RoleUpdateStep {
    type V = RoleUpdateStepView;

    open spec fn view(&self) -> RoleUpdateStepView {
        match self {
            RoleUpdateStep::LoadTarget => RoleUpdateStepView::LoadTarget,
            RoleUpdateStep::CountAdmins => RoleUpdateStepView::CountAdmins,
            RoleUpdateStep::Save(r) => RoleUpdateStepView::Save(*r),
            RoleUpdateStep::Reply(r) => RoleUpdateStepView::Reply(r@),
            RoleUpdateStep::Done(r) => RoleUpdateStepView::Done(*r),
        }
    }
}

/// The next step of a role update: the caller must be an administrator,
/// the target id valid, and an administrator may not drop their own admin
/// role; the target is looked up; when the change takes the admin role from
/// an administrator, the administrators are counted and the last one keeps
/// it; then the new roles are saved.
pub open spec fn role_update_step(f: RoleUpdateFacts) -> RoleUpdateStepView {
    if !f.actor_is_admin {
        RoleUpdateStepView::Reply(admin_required())
    } else if !f.target_id_valid {
        RoleUpdateStepView::Reply(invalid_user_id())
    } else if f.is_self && removes_admin(f.change) {
        RoleUpdateStepView::Reply(keyed(400, "bad_request"@, "server.api.admin.cannot_remove_own_admin"@))
    } else {
        match f.target {
            None => RoleUpdateStepView::LoadTarget,
            Some(Lookup::Missing) => RoleUpdateStepView::Reply(keyed(404, "not_found"@, "server.api.user.not_found"@)),
            Some(Lookup::Failed) => RoleUpdateStepView::Reply(internal_error()),
            Some(Lookup::Found(roles)) => {
                let guarded = removes_admin(f.change) && roles.is_system_admin;
                if guarded && f.admin_count is None {
                    RoleUpdateStepView::CountAdmins
                } else if guarded && f.admin_count matches Some(Lookup::Failed) {
                    RoleUpdateStepView::Reply(internal_error())
                } else if guarded && !(f.admin_count matches Some(Lookup::Found(n)) && n > 1) {
                    RoleUpdateStepView::Reply(keyed(400, "bad_request"@, "server.api.admin.cannot_remove_last_admin"@))
                } else {
                    match f.saved {
                        None => RoleUpdateStepView::Save(changed_roles(roles, f.change)),
                        Some(false) => RoleUpdateStepView::Reply(
                            keyed(500, "internal_error"@, "server.api.admin.user_update_failed"@),
                        ),
                        Some(true) => RoleUpdateStepView::Done(changed_roles(roles, f.change)),
                    }
                }
            },
        }
    }
}

/// The next step of a role update.
pub fn update_user_roles_step(f: &RoleUpdateFacts) -> (r: RoleUpdateStep)
    ensures
        r@ == role_update_step(*f),
{
    if !f.actor_is_admin {
        return RoleUpdateStep::Reply(keyed_reply(403, "forbidden", "server.api.admin.system_admin_required"));
    }
    if !f.target_id_valid {
        return RoleUpdateStep::Reply(keyed_reply(400, "bad_request", "server.api.user.invalid_id"));
    }
    let removes = f.change.is_system_admin == Some(false);
    if f.is_self && removes {
        return RoleUpdateStep::Reply(keyed_reply(400, "bad_request", "server.api.admin.cannot_remove_own_admin"));
    }
    let roles = match f.target {
        None => return RoleUpdateStep::LoadTarget,
        Some(Lookup::Missing) => return RoleUpdateStep::Reply(keyed_reply(404, "not_found", "server.api.user.not_found")),
        Some(Lookup::Failed) => return RoleUpdateStep::Reply(internal_error_reply()),
        Some(Lookup::Found(roles)) => roles,
    };
    if removes && roles.is_system_admin {
        match f.admin_count {
            None => return RoleUpdateStep::CountAdmins,
            Some(Lookup::Failed) => return RoleUpdateStep::Reply(internal_error_reply()),
            Some(Lookup::Found(n)) => {
                if n <= 1 {
                    return RoleUpdateStep::Reply(
                        keyed_reply(400, "bad_request", "server.api.admin.cannot_remove_last_admin"),
                    );
                }
            },
            Some(Lookup::Missing) => {
                return RoleUpdateStep::Reply(
                    keyed_reply(400, "bad_request", "server.api.admin.cannot_remove_last_admin"),
                );
            },
        }
    }
    let updated = apply_role_change(roles, f.change);
    match f.saved {
        None => RoleUpdateStep::Save(updated),
        Some(false) => RoleUpdateStep::Reply(keyed_reply(500, "internal_error", "server.api.admin.user_update_failed")),
        Some(true) => RoleUpdateStep::Done(updated),
    }
}

/// A role update saves new roles only for an administrator caller, never
/// takes the admin role from the caller themselves, and never from the
/// last administrator; what it saves is the target's roles with the change
/// applied.
pub proof fn law_role_update_guards(f: RoleUpdateFacts)
    requires
        role_update_step(f) is Save || role_update_step(f) is Done,
    ensures
        f.actor_is_admin,
        f.target_id_valid,
        !(f.is_self && removes_admin(f.change)),
        f.target matches Some(Lookup::Found(roles)) && (removes_admin(f.change) && roles.is_system_admin ==> (
        f.admin_count matches Some(Lookup::Found(n)) && n > 1)),
        role_update_step(f) matches RoleUpdateStepView::Save(new) ==> (f.target matches Some(Lookup::Found(roles))
            && new == changed_roles(roles, f.change)),
{
}

/// What a user deletion has learnt so far.
#[derive(Debug, Clone, Copy)]
pub struct DeleteUserFacts {
    pub actor_is_admin: bool,
    pub target_id_valid: bool,
    pub is_self: bool,
    /// Whether the target exists, once looked up.
    pub target: Option<Lookup<()>>,
    /// Whether the deletion succeeded, once tried.
    pub deleted: Option<bool>,
}

/// The next step of a user deletion.
#[derive(Debug, Clone)]
pub enum DeleteUserStep {
    LoadTarget,
    Delete,
    Reply(Reply),
    Done,
}

/// The next step of a user deletion, as plain values.
pub enum DeleteUserStepView {
    LoadTarget,
    Delete,
    Reply(ReplyView),
    Done,
}

impl View for DeleteUserStep {
    type V = DeleteUserStepView;

    open spec fn view(&self) -> DeleteUserStepView {
        match self {
            DeleteUserStep::LoadTarget => DeleteUserStepView::LoadTarget,
            DeleteUserStep::Delete => DeleteUserStepView::Delete,
            DeleteUserStep::Reply(r) => DeleteUserStepView::Reply(r@),
            DeleteUserStep::Done => DeleteUserStepView::Done,
        }
    }
}

/// The next step of a user deletion: an administrator caller, a valid
/// target id that is not the caller, an existing target, then the
/// (soft) deletion.
pub open spec fn delete_user_step_of(f: DeleteUserFacts) -> DeleteUserStepView {
    if !f.actor_is_admin {
        DeleteUserStepView::Reply(admin_required())
    } else if !f.target_id_valid {
        DeleteUserStepView::Reply(invalid_user_id())
    } else if f.is_self {
        DeleteUserStepView::Reply(keyed(400, "bad_request"@, "server.api.admin.cannot_delete_self"@))
    } else {
        match f.target {
            None => DeleteUserStepView::LoadTarget,
            Some(Lookup::Missing) => DeleteUserStepView::Reply(keyed(404, "not_found"@, "server.api.admin.user_not_found"@)),
            Some(Lookup::Failed) => DeleteUserStepView::Reply(internal_error()),
            Some(Lookup::Found(_)) => match f.deleted {
                None => DeleteUserStepView::Delete,
                Some(false) => DeleteUserStepView::Reply(internal_error()),
                Some(true) => DeleteUserStepView::Done,
            },
        }
    }
}

/// The next step of a user deletion.
pub fn delete_user_step(f: &DeleteUserFacts) -> (r: DeleteUserStep)
    ensures
        r@ == delete_user_step_of(*f),
{
    if !f.actor_is_admin {
        return DeleteUserStep::Reply(keyed_reply(403, "forbidden", "server.api.admin.system_admin_required"));
    }
    if !f.target_id_valid {
        return DeleteUserStep::Reply(keyed_reply(400, "bad_request", "server.api.user.invalid_id"));
    }
    if f.is_self {
        return DeleteUserStep::Reply(keyed_reply(400, "bad_request", "server.api.admin.cannot_delete_self"));
    }
    match f.target {
        None => DeleteUserStep::LoadTarget,
        Some(Lookup::Missing) => DeleteUserStep::Reply(keyed_reply(404, "not_found", "server.api.admin.user_not_found")),
        Some(Lookup::Failed) => DeleteUserStep::Reply(internal_error_reply()),
        Some(Lookup::Found(_)) => match f.deleted {
            None => DeleteUserStep::Delete,
            Some(false) => DeleteUserStep::Reply(internal_error_reply()),
            Some(true) => DeleteUserStep::Done,
        },
    }
}

/// Only an administrator deletes users, and never themselves.
pub proof fn law_delete_user_guards(f: DeleteUserFacts)
    requires
        delete_user_step_of(f) is Delete,
    ensures
        f.actor_is_admin && f.target_id_valid && !f.is_self,
{
}

/// What starting an impersonation has learnt so far.
#[derive(Debug, Clone, Copy)]
pub struct ImpersonationStartFacts {
    pub actor_is_admin: bool,
    pub target_id_valid: bool,
    pub is_self: bool,
    /// Whether the caller already impersonates someone, once asked (a
    /// failed lookup counts as no).
    pub already_active: Option<bool>,
    /// Whether the target exists, once looked up.
    pub target: Option<Lookup<()>>,
    /// Whether creating the impersonation session succeeded, once tried.
    pub created: Option<bool>,
}

/// The next step of starting an impersonation.
#[derive(Debug, Clone)]
pub enum ImpersonationStartStep {
    CheckActive,
    LoadTarget,
    CreateSession,
    Reply(Reply),
    Done,
}

/// The next step of starting an impersonation, as plain values.
pub enum ImpersonationStartStepView {
    CheckActive,
    LoadTarget,
    CreateSession,
    Reply(ReplyView),
    Done,
}

impl View for ImpersonationStartStep {
    type V = ImpersonationStartStepView;

    open spec fn view(&self) -> ImpersonationStartStepView {
        match self {
            ImpersonationStartStep::CheckActive => ImpersonationStartStepView::CheckActive,
            ImpersonationStartStep::LoadTarget => ImpersonationStartStepView::LoadTarget,
            ImpersonationStartStep::CreateSession => ImpersonationStartStepView::CreateSession,
            ImpersonationStartStep::Reply(r) => ImpersonationStartStepView::Reply(r@),
            ImpersonationStartStep::Done => ImpersonationStartStepView::Done,
        }
    }
}

/// The next step of starting an impersonation: an administrator caller, a
/// valid target that is not the caller, no impersonation already active,
/// an existing target, then the new session.
pub open spec fn start_impersonation_step_of(f: ImpersonationStartFacts) -> ImpersonationStartStepView {
    if !f.actor_is_admin {
        ImpersonationStartStepView::Reply(admin_required())
    } else if !f.target_id_valid {
        ImpersonationStartStepView::Reply(invalid_user_id())
    } else if f.is_self {
        ImpersonationStartStepView::Reply(literal(400, "bad_request"@, "Cannot impersonate yourself"@))
    } else {
        match f.already_active {
            None => ImpersonationStartStepView::CheckActive,
            Some(true) => ImpersonationStartStepView::Reply(
                literal(409, "conflict"@, "Already impersonating another user. Stop current impersonation first."@),
            ),
            Some(false) => match f.target {
                None => ImpersonationStartStepView::LoadTarget,
                Some(Lookup::Missing) => ImpersonationStartStepView::Reply(
                    keyed(404, "not_found"@, "server.api.user.not_found"@),
                ),
                Some(Lookup::Failed) => ImpersonationStartStepView::Reply(internal_error()),
                Some(Lookup::Found(_)) => match f.created {
                    None => ImpersonationStartStepView::CreateSession,
                    Some(false) => ImpersonationStartStepView::Reply(internal_error()),
                    Some(true) => ImpersonationStartStepView::Done,
                },
            },
        }
    }
}

/// The next step of starting an impersonation.
pub fn start_impersonation_step(f: &ImpersonationStartFacts) -> (r: ImpersonationStartStep)
    ensures
        r@ == start_impersonation_step_of(*f),
{
    if !f.actor_is_admin {
        return ImpersonationStartStep::Reply(keyed_reply(403, "forbidden", "server.api.admin.system_admin_required"));
    }
    if !f.target_id_valid {
        return ImpersonationStartStep::Reply(keyed_reply(400, "bad_request", "server.api.user.invalid_id"));
    }
    if f.is_self {
        return ImpersonationStartStep::Reply(literal_reply(400, "bad_request", "Cannot impersonate yourself"));
    }
    match f.already_active {
        None => ImpersonationStartStep::CheckActive,
        Some(true) => ImpersonationStartStep::Reply(
            literal_reply(409, "conflict", "Already impersonating another user. Stop current impersonation first."),
        ),
        Some(false) => match f.target {
            None => ImpersonationStartStep::LoadTarget,
            Some(Lookup::Missing) => ImpersonationStartStep::Reply(keyed_reply(404, "not_found", "server.api.user.not_found")),
            Some(Lookup::Failed) => ImpersonationStartStep::Reply(internal_error_reply()),
            Some(Lookup::Found(_)) => match f.created {
                None => ImpersonationStartStep::CreateSession,
                Some(false) => ImpersonationStartStep::Reply(internal_error_reply()),
                Some(true) => ImpersonationStartStep::Done,
            },
        },
    }
}

/// An impersonation session is created only by an administrator, never of
/// themselves, and never while another one is active.
pub proof fn law_impersonation_guards(f: ImpersonationStartFacts)
    requires
        start_impersonation_step_of(f) is CreateSession,
    ensures
        f.actor_is_admin && f.target_id_valid && !f.is_self && f.already_active == Some(false),
{
}

/// What stopping an impersonation has learnt so far.
#[derive(Debug, Clone, Copy)]
pub struct ImpersonationStopFacts {
    /// The caller's active impersonation, once looked up.
    pub active: Option<Lookup<()>>,
    /// Whether ending it succeeded, once tried.
    pub ended: Option<bool>,
}

/// The next step of stopping an impersonation.
#[derive(Debug, Clone)]
pub enum ImpersonationStopStep {
    LoadActive,
    EndSession,
    Reply(Reply),
    Done,
}

/// The next step of stopping an impersonation, as plain values.
pub enum ImpersonationStopStepView {
    LoadActive,
    EndSession,
    Reply(ReplyView),
    Done,
}

impl View for ImpersonationStopStep {
    type V = ImpersonationStopStepView;

    open spec fn view(&self) -> ImpersonationStopStepView {
        match self {
            ImpersonationStopStep::LoadActive => ImpersonationStopStepView::LoadActive,
            ImpersonationStopStep::EndSession => ImpersonationStopStepView::EndSession,
            ImpersonationStopStep::Reply(r) => ImpersonationStopStepView::Reply(r@),
            ImpersonationStopStep::Done => ImpersonationStopStepView::Done,
        }
    }
}

/// The next step of stopping an impersonation: there must be an active one,
/// which is then ended.
pub open spec fn stop_impersonation_step_of(f: ImpersonationStopFacts) -> ImpersonationStopStepView {
    match f.active {
        None => ImpersonationStopStepView::LoadActive,
        Some(Lookup::Missing) => ImpersonationStopStepView::Reply(
            literal(404, "not_found"@, "Not currently impersonating any user"@),
        ),
        Some(Lookup::Failed) => ImpersonationStopStepView::Reply(internal_error()),
        Some(Lookup::Found(_)) => match f.ended {
            None => ImpersonationStopStepView::EndSession,
            Some(false) => ImpersonationStopStepView::Reply(internal_error()),
            Some(true) => ImpersonationStopStepView::Done,
        },
    }
}

/// The next step of stopping an impersonation.
pub fn stop_impersonation_step(f: &ImpersonationStopFacts) -> (r: ImpersonationStopStep)
    ensures
        r@ == stop_impersonation_step_of(*f),
{
    match f.active {
        None => ImpersonationStopStep::LoadActive,
        Some(Lookup::Missing) => ImpersonationStopStep::Reply(
            literal_reply(404, "not_found", "Not currently impersonating any user"),
        ),
        Some(Lookup::Failed) => ImpersonationStopStep::Reply(internal_error_reply()),
        Some(Lookup::Found(_)) => match f.ended {
            None => ImpersonationStopStep::EndSession,
            Some(false) => ImpersonationStopStep::Reply(internal_error_reply()),
            Some(true) => ImpersonationStopStep::Done,
        },
    }
}

/// What reading the caller's impersonation state has learnt so far.
#[derive(Debug, Clone, Copy)]
pub struct ImpersonationStateFacts {
    pub actor_is_admin: bool,
    /// The user the caller impersonates, once their active session is looked
    /// up.
    pub session: Option<Lookup<u128>>,
    /// Whether that user exists, once looked up.
    pub target: Option<Lookup<()>>,
}

/// The next step of reading the impersonation state.
#[derive(Debug, Clone)]
pub enum ImpersonationStateStep {
    LoadActive,
    LoadTarget,
    Reply(Reply),
    /// Answer that the caller impersonates nobody.
    NotImpersonating,
    /// Answer that the caller impersonates this user.
    Impersonating(u128),
}

/// The next step of reading the impersonation state, as plain values.
pub enum ImpersonationStateStepView {
    LoadActive,
    LoadTarget,
    Reply(ReplyView),
    NotImpersonating,
    Impersonating(u128),
}

impl View for ImpersonationStateStep {
    type V = ImpersonationStateStepView;

    open spec fn view(&self) -> ImpersonationStateStepView {
        match self {
            ImpersonationStateStep::LoadActive => ImpersonationStateStepView::LoadActive,
            ImpersonationStateStep::LoadTarget => ImpersonationStateStepView::LoadTarget,
            ImpersonationStateStep::Reply(r) => ImpersonationStateStepView::Reply(r@),
            ImpersonationStateStep::NotImpersonating => ImpersonationStateStepView::NotImpersonating,
            ImpersonationStateStep::Impersonating(t) => ImpersonationStateStepView::Impersonating(*t),
        }
    }
}

/// The next step of reading the impersonation state: administrators only;
/// a session whose user no longer exists counts as none.
pub open spec fn impersonation_state_step_of(f: ImpersonationStateFacts) -> ImpersonationStateStepView {
    if !f.actor_is_admin {
        ImpersonationStateStepView::Reply(admin_required())
    } else {
        match f.session {
            None => ImpersonationStateStepView::LoadActive,
            Some(Lookup::Missing) => ImpersonationStateStepView::NotImpersonating,
            Some(Lookup::Failed) => ImpersonationStateStepView::Reply(internal_error()),
            Some(Lookup::Found(t)) => match f.target {
                None => ImpersonationStateStepView::LoadTarget,
                Some(Lookup::Missing) => ImpersonationStateStepView::NotImpersonating,
                Some(Lookup::Failed) => ImpersonationStateStepView::Reply(internal_error()),
                Some(Lookup::Found(_)) => ImpersonationStateStepView::Impersonating(t),
            },
        }
    }
}

/// The next step of reading the impersonation state.
pub fn impersonation_state_step(f: &ImpersonationStateFacts) -> (r: ImpersonationStateStep)
    ensures
        r@ == impersonation_state_step_of(*f),
{
    if !f.actor_is_admin {
        return ImpersonationStateStep::Reply(keyed_reply(403, "forbidden", "server.api.admin.system_admin_required"));
    }
    match f.session {
        None => ImpersonationStateStep::LoadActive,
        Some(Lookup::Missing) => ImpersonationStateStep::NotImpersonating,
        Some(Lookup::Failed) => ImpersonationStateStep::Reply(internal_error_reply()),
        Some(Lookup::Found(t)) => match f.target {
            None => ImpersonationStateStep::LoadTarget,
            Some(Lookup::Missing) => ImpersonationStateStep::NotImpersonating,
            Some(Lookup::Failed) => ImpersonationStateStep::Reply(internal_error_reply()),
            Some(Lookup::Found(_)) => ImpersonationStateStep::Impersonating(t),
        },
    }
}

/// Who may list users: system administrators.
pub fn can_list_users(is_system_admin: bool) -> (r: Result<(), Reply>)
    ensures
        is_system_admin ==> r is Ok,
        !is_system_admin ==> (r matches Err(rep) && rep@ == admin_required()),
{
    if is_system_admin {
        Ok(())
    } else {
        Err(keyed_reply(403, "forbidden", "server.api.admin.system_admin_required"))
    }
}

/// Who may read audit logs: system administrators and auditors.
pub fn can_read_audit_logs(is_system_admin: bool, is_auditor: bool) -> (r: Result<(), Reply>)
    ensures
        (is_system_admin || is_auditor) ==> r is Ok,
        !(is_system_admin || is_auditor) ==> (r matches Err(rep) && rep@ == keyed(
            403,
            "forbidden"@,
            "server.api.error.forbidden"@,
        )),
{
    if is_system_admin || is_auditor {
        Ok(())
    } else {
        Err(keyed_reply(403, "forbidden", "server.api.error.forbidden"))
    }
}

} // verus!
