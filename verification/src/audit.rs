//! The audit entries that the server's administration, team, invitation,
//! flag and cron handlers record once they have succeeded.
//!
//! Each entry names its event, severity, actor, the resource it is about
//! and the details the handler knows. Each builder below takes what the
//! handler has learnt (its step facts) and the values that only the store
//! holds, and returns the entry exactly when the handler's step function
//! has reached success, `None` otherwise.
use vstd::prelude::*;
use crate::admin_rules::{
    changed_roles, delete_user_step, delete_user_step_of, role_update_step, start_impersonation_step,
    start_impersonation_step_of, stop_impersonation_step, stop_impersonation_step_of, update_user_roles_step,
    DeleteUserFacts, DeleteUserStep, GlobalRoles, ImpersonationStartFacts, ImpersonationStartStep,
    ImpersonationStopFacts, ImpersonationStopStep, RoleUpdateFacts, RoleUpdateStep,
};
use crate::invitation_rules::{
    accept_invitation_step, accept_invitation_step_of, approve_join_request_step, approve_join_request_step_of,
    create_invitation_step, create_invitation_step_of, invited_role, AcceptInvitationFacts, CreateInvitationFacts,
    HandleJoinRequestFacts, InviteStep, InviteStepView, OrgRole, RequestedRole,
};
use crate::cron_rules::{
    create_monitor_step, create_monitor_step_of, monitor_access_step, monitor_access_step_of, CreateMonitorFacts,
    CronStep, CronStepView, MonitorAccessFacts, MonitorHandler,
};
use crate::flag_rules::{
    copy_strings, create_flag_step, create_flag_step_of, create_kill_switch_step, create_kill_switch_step_of,
    flag_access_step, flag_access_step_of, kill_switch_change_step, kill_switch_change_step_of, opt_string_view,
    strings_view, update_flag_step, update_flag_step_of, CreateFlagFacts, CreateKillSwitchFacts, FlagAccessFacts,
    FlagHandler, FlagStep, FlagStepView, KillSwitchChange, KillSwitchChangeFacts, UpdateFlagFacts,
};
use crate::replies::{keyed, Lookup};
use crate::team_rules::{
    add_member_step, add_member_step_of, create_team_step, create_team_step_of, remove_member_step,
    remove_member_step_of, team_access_step, team_access_step_of, update_team_step, update_team_step_of,
    updated_name, updated_slug, AddMemberFacts, CreateTeamFacts, RemoveMemberFacts, TeamAccess, TeamAccessFacts,
    TeamRole, TeamStep, TeamStepView, UpdateTeamFacts,
};
use crate::text::string_of_str;

verus! {

/// The kind of an audited event.
#[derive(Debug, Clone, Copy, PartialEq, Eq, Structural)]
pub enum AuditEventType {
    GlobalRoleChanged,
    UserDeleted,
    ImpersonationStarted,
    ImpersonationEnded,
    TeamCreated,
    TeamUpdated,
    TeamDeleted,
    TeamMemberAdded,
    TeamMemberRemoved,
    /// Someone was invited to, or joined, an organization.
    MemberAdded,
    FlagCreated,
    FlagUpdated,
    FlagArchived,
    FlagRestored,
    KillSwitchCreated,
    KillSwitchUpdated,
    KillSwitchDeleted,
    KillSwitchActivated,
    KillSwitchDeactivated,
    CronMonitorCreated,
    CronMonitorDeleted,
}

/// The severity of an audit entry.
#[derive(Debug, Clone, Copy, PartialEq, Eq, Structural)]
pub enum AuditSeverity {
    /// The audit log's own default: the handler sets none.
    Standard,
    Warning,
    Critical,
}

/// What an audit entry is about.
#[derive(Debug, Clone)]
pub enum AuditResource {
    User(u128),
    Team(u128),
    Invitation(String),
    Org(u128),
    PlatformFlag(u128),
    PlatformKillSwitch(u128),
    CronMonitor(u128),
}

/// What an audit entry is about, as plain values.
pub enum AuditResourceView {
    User(u128),
    Team(u128),
    Invitation(Seq<char>),
    Org(u128),
    PlatformFlag(u128),
    PlatformKillSwitch(u128),
    CronMonitor(u128),
}

/// The details of an audit entry.
#[derive(Debug, Clone)]
pub enum AuditDetails {
    RolesChanged { old_roles: GlobalRoles, new_roles: GlobalRoles },
    /// A user deleted by an administrator.
    UserDeleted { target_email: Option<String>, target_display_name: String },
    ImpersonationStarted { reason: String, session_id: String, target_user_id: u128 },
    ImpersonationEnded { session_id: String },
    /// A team created, updated or deleted, with its name and slug.
    Team { org_id: u128, name: String, slug: String },
    TeamMemberAdded { org_id: u128, target_user_id: u128, role: TeamRole },
    TeamMemberRemoved { org_id: u128, target_user_id: u128, is_self_removal: bool },
    InvitationCreated { org_id: u128, email: String, role: OrgRole },
    InvitationAccepted { invitation_id: String, role: OrgRole },
    JoinRequestApproved { request_id: String, target_user_id: u128 },
    /// A platform flag, with its name when it was created.
    PlatformFlag { key: String, name: Option<String> },
    /// A platform kill switch: its name and linked flags when it was
    /// created, the reason and linked flags when it was activated.
    PlatformKillSwitch {
        key: String,
        name: Option<String>,
        reason: Option<String>,
        linked_flag_keys: Option<Vec<String>>,
    },
    /// A cron monitor of an organization, with its schedule (as text) when
    /// it was created.
    CronMonitor { org_id: u128, slug: String, name: String, schedule: Option<String> },
}

/// The details of an audit entry, as plain values.
pub enum AuditDetailsView {
    RolesChanged { old_roles: GlobalRoles, new_roles: GlobalRoles },
    UserDeleted { target_email: Option<Seq<char>>, target_display_name: Seq<char> },
    ImpersonationStarted { reason: Seq<char>, session_id: Seq<char>, target_user_id: u128 },
    ImpersonationEnded { session_id: Seq<char> },
    Team { org_id: u128, name: Seq<char>, slug: Seq<char> },
    TeamMemberAdded { org_id: u128, target_user_id: u128, role: TeamRole },
    TeamMemberRemoved { org_id: u128, target_user_id: u128, is_self_removal: bool },
    InvitationCreated { org_id: u128, email: Seq<char>, role: OrgRole },
    InvitationAccepted { invitation_id: Seq<char>, role: OrgRole },
    JoinRequestApproved { request_id: Seq<char>, target_user_id: u128 },
    PlatformFlag { key: Seq<char>, name: Option<Seq<char>> },
    PlatformKillSwitch {
        key: Seq<char>,
        name: Option<Seq<char>>,
        reason: Option<Seq<char>>,
        linked_flag_keys: Option<Seq<Seq<char>>>,
    },
    CronMonitor { org_id: u128, slug: Seq<char>, name: Seq<char>, schedule: Option<Seq<char>> },
}

/// One audit entry.
#[derive(Debug, Clone)]
pub struct AuditEntry {
    pub event: AuditEventType,
    pub severity: AuditSeverity,
    /// The user who acted.
    pub actor: u128,
    pub resource: AuditResource,
    pub details: AuditDetails,
}

/// One audit entry, as plain values.
pub struct AuditEntryView {
    pub event: AuditEventType,
    pub severity: AuditSeverity,
    pub actor: u128,
    pub resource: AuditResourceView,
    pub details: AuditDetailsView,
}

impl View for AuditResource {
    type V = AuditResourceView;

    open spec fn view(&self) -> AuditResourceView {
        match self {
            AuditResource::User(id) => AuditResourceView::User(*id),
            AuditResource::Team(id) => AuditResourceView::Team(*id),
            AuditResource::Invitation(id) => AuditResourceView::Invitation(id@),
            AuditResource::Org(id) => AuditResourceView::Org(*id),
            AuditResource::PlatformFlag(id) => AuditResourceView::PlatformFlag(*id),
            AuditResource::PlatformKillSwitch(id) => AuditResourceView::PlatformKillSwitch(*id),
            AuditResource::CronMonitor(id) => AuditResourceView::CronMonitor(*id),
        }
    }
}

impl View for AuditDetails {
    type V = AuditDetailsView;

    open spec fn view(&self) -> AuditDetailsView {
        match self {
            AuditDetails::RolesChanged { old_roles, new_roles } => AuditDetailsView::RolesChanged {
                old_roles: *old_roles,
                new_roles: *new_roles,
            },
            AuditDetails::UserDeleted { target_email, target_display_name } => AuditDetailsView::UserDeleted {
                target_email: match target_email {
                    Some(e) => Some(e@),
                    None => None,
                },
                target_display_name: target_display_name@,
            },
            AuditDetails::ImpersonationStarted { reason, session_id, target_user_id } =>
                AuditDetailsView::ImpersonationStarted {
                reason: reason@,
                session_id: session_id@,
                target_user_id: *target_user_id,
            },
            AuditDetails::ImpersonationEnded { session_id } => AuditDetailsView::ImpersonationEnded {
                session_id: session_id@,
            },
            AuditDetails::Team { org_id, name, slug } => AuditDetailsView::Team {
                org_id: *org_id,
                name: name@,
                slug: slug@,
            },
            AuditDetails::TeamMemberAdded { org_id, target_user_id, role } => AuditDetailsView::TeamMemberAdded {
                org_id: *org_id,
                target_user_id: *target_user_id,
                role: *role,
            },
            AuditDetails::TeamMemberRemoved { org_id, target_user_id, is_self_removal } =>
                AuditDetailsView::TeamMemberRemoved {
                org_id: *org_id,
                target_user_id: *target_user_id,
                is_self_removal: *is_self_removal,
            },
            AuditDetails::InvitationCreated { org_id, email, role } => AuditDetailsView::InvitationCreated {
                org_id: *org_id,
                email: email@,
                role: *role,
            },
            AuditDetails::InvitationAccepted { invitation_id, role } => AuditDetailsView::InvitationAccepted {
                invitation_id: invitation_id@,
                role: *role,
            },
            AuditDetails::JoinRequestApproved { request_id, target_user_id } =>
                AuditDetailsView::JoinRequestApproved { request_id: request_id@, target_user_id: *target_user_id },
            AuditDetails::PlatformFlag { key, name } => AuditDetailsView::PlatformFlag {
                key: key@,
                name: opt_string_view(*name),
            },
            AuditDetails::PlatformKillSwitch { key, name, reason, linked_flag_keys } =>
                AuditDetailsView::PlatformKillSwitch {
                key: key@,
                name: opt_string_view(*name),
                reason: opt_string_view(*reason),
                linked_flag_keys: match linked_flag_keys {
                    Some(v) => Some(strings_view(v@)),
                    None => None,
                },
            },
            AuditDetails::CronMonitor { org_id, slug, name, schedule } => AuditDetailsView::CronMonitor {
                org_id: *org_id,
                slug: slug@,
                name: name@,
                schedule: opt_string_view(*schedule),
            },
        }
    }
}

impl View for AuditEntry {
    type V = AuditEntryView;

    open spec fn view(&self) -> AuditEntryView {
        AuditEntryView {
            event: self.event,
            severity: self.severity,
            actor: self.actor,
            resource: self.resource@,
            details: self.details@,
        }
    }
}

/// The entry of a role update that succeeded (a `Warning`): the target's
/// roles before and after; `None` until the update has succeeded.
pub fn role_change_audit(f: &RoleUpdateFacts, actor: u128, target: u128) -> (r: Option<AuditEntry>)
    ensures
        r is Some <==> role_update_step(*f) is Done,
        r matches Some(e) ==> f.target matches Some(Lookup::Found(old)) && e@ == (AuditEntryView {
            event: AuditEventType::GlobalRoleChanged,
            severity: AuditSeverity::Warning,
            actor,
            resource: AuditResourceView::User(target),
            details: AuditDetailsView::RolesChanged { old_roles: old, new_roles: changed_roles(old, f.change) },
        }),
{
    match (update_user_roles_step(f), f.target) {
        (RoleUpdateStep::Done(new_roles), Some(Lookup::Found(old_roles))) => Some(
            AuditEntry {
                event: AuditEventType::GlobalRoleChanged,
                severity: AuditSeverity::Warning,
                actor,
                resource: AuditResource::User(target),
                details: AuditDetails::RolesChanged { old_roles, new_roles },
            },
        ),
        _ => None,
    }
}

/// The entry of a user deletion that succeeded (`Critical`): the deleted
/// user's address and display name; `None` until the deletion has
/// succeeded.
pub fn user_deleted_audit(
    f: &DeleteUserFacts,
    actor: u128,
    target: u128,
    target_email: Option<String>,
    target_display_name: String,
) -> (r: Option<AuditEntry>)
    ensures
        r is Some <==> delete_user_step_of(*f) is Done,
        r matches Some(e) ==> e@ == (AuditEntryView {
            event: AuditEventType::UserDeleted,
            severity: AuditSeverity::Critical,
            actor,
            resource: AuditResourceView::User(target),
            details: AuditDetailsView::UserDeleted {
                target_email: match target_email {
                    Some(m) => Some(m@),
                    None => None,
                },
                target_display_name: target_display_name@,
            },
        }),
{
    match delete_user_step(f) {
        DeleteUserStep::Done => Some(
            AuditEntry {
                event: AuditEventType::UserDeleted,
                severity: AuditSeverity::Critical,
                actor,
                resource: AuditResource::User(target),
                details: AuditDetails::UserDeleted { target_email, target_display_name },
            },
        ),
        _ => None,
    }
}

/// The entry of an impersonation that started (a `Warning`): the reason,
/// the new session and the impersonated user; `None` until the session
/// exists.
pub fn impersonation_started_audit(
    f: &ImpersonationStartFacts,
    actor: u128,
    target: u128,
    reason: String,
    session_id: String,
) -> (r: Option<AuditEntry>)
    ensures
        r is Some <==> start_impersonation_step_of(*f) is Done,
        r matches Some(e) ==> e@ == (AuditEntryView {
            event: AuditEventType::ImpersonationStarted,
            severity: AuditSeverity::Warning,
            actor,
            resource: AuditResourceView::User(target),
            details: AuditDetailsView::ImpersonationStarted {
                reason: reason@,
                session_id: session_id@,
                target_user_id: target,
            },
        }),
{
    match start_impersonation_step(f) {
        ImpersonationStartStep::Done => Some(
            AuditEntry {
                event: AuditEventType::ImpersonationStarted,
                severity: AuditSeverity::Warning,
                actor,
                resource: AuditResource::User(target),
                details: AuditDetails::ImpersonationStarted { reason, session_id, target_user_id: target },
            },
        ),
        _ => None,
    }
}

/// The entry of an impersonation that ended (a `Warning`), about the user
/// who was impersonated; `None` until the session has ended.
pub fn impersonation_ended_audit(f: &ImpersonationStopFacts, actor: u128, target: u128, session_id: String) -> (r:
    Option<AuditEntry>)
    ensures
        r is Some <==> stop_impersonation_step_of(*f) is Done,
        r matches Some(e) ==> e@ == (AuditEntryView {
            event: AuditEventType::ImpersonationEnded,
            severity: AuditSeverity::Warning,
            actor,
            resource: AuditResourceView::User(target),
            details: AuditDetailsView::ImpersonationEnded { session_id: session_id@ },
        }),
{
    match stop_impersonation_step(f) {
        ImpersonationStopStep::Done => Some(
            AuditEntry {
                event: AuditEventType::ImpersonationEnded,
                severity: AuditSeverity::Warning,
                actor,
                resource: AuditResource::User(target),
                details: AuditDetails::ImpersonationEnded { session_id },
            },
        ),
        _ => None,
    }
}

/// The entry of a team that was created, with the name and slug it was
/// created with; `None` until creating it (and adding its creator as
/// maintainer) is done.
pub fn team_created_audit(f: &CreateTeamFacts, actor: u128, team_id: u128) -> (r: Option<AuditEntry>)
    ensures
        r is Some <==> create_team_step_of(*f) is Done,
        r matches Some(e) ==> f.org_id matches Some(org_id) && e@ == (AuditEntryView {
            event: AuditEventType::TeamCreated,
            severity: AuditSeverity::Standard,
            actor,
            resource: AuditResourceView::Team(team_id),
            details: AuditDetailsView::Team { org_id, name: f.name@, slug: f.slug@ },
        }),
{
    match (create_team_step(f), f.org_id) {
        (TeamStep::Done, Some(org_id)) => Some(
            AuditEntry {
                event: AuditEventType::TeamCreated,
                severity: AuditSeverity::Standard,
                actor,
                resource: AuditResource::Team(team_id),
                details: AuditDetails::Team {
                    org_id,
                    name: string_of_str(f.name.as_str()),
                    slug: string_of_str(f.slug.as_str()),
                },
            },
        ),
        _ => None,
    }
}

/// The entry of a team that was updated, with its name and slug after the
/// update; `None` until the update is saved.
pub fn team_updated_audit(f: &UpdateTeamFacts, actor: u128) -> (r: Option<AuditEntry>)
    ensures
        r is Some <==> update_team_step_of(*f) is Done,
        r matches Some(e) ==> f.org_id matches Some(org_id) && f.team_id matches Some(team_id) && e@ == (
        AuditEntryView {
            event: AuditEventType::TeamUpdated,
            severity: AuditSeverity::Standard,
            actor,
            resource: AuditResourceView::Team(team_id),
            details: AuditDetailsView::Team { org_id, name: updated_name(*f), slug: updated_slug(*f) },
        }),
{
    match (update_team_step(f), f.org_id, f.team_id) {
        (TeamStep::Done, Some(org_id), Some(team_id)) => {
            let name = match &f.name {
                Some(n) => string_of_str(n.as_str()),
                None => string_of_str(f.current_name.as_str()),
            };
            let slug = match &f.slug {
                Some(v) => string_of_str(v.as_str()),
                None => string_of_str(f.current_slug.as_str()),
            };
            Some(
                AuditEntry {
                    event: AuditEventType::TeamUpdated,
                    severity: AuditSeverity::Standard,
                    actor,
                    resource: AuditResource::Team(team_id),
                    details: AuditDetails::Team { org_id, name, slug },
                },
            )
        },
        _ => None,
    }
}

/// The reply of a deleted team.
pub open spec fn team_deleted_reply() -> TeamStepView {
    TeamStepView::Reply(keyed(200, ""@, "server.api.team.deleted"@))
}

/// The entry of a team that was deleted, with the name and slug it had;
/// `None` until the deletion has succeeded.
pub fn team_deleted_audit(f: &TeamAccessFacts, actor: u128, name: String, slug: String) -> (r: Option<AuditEntry>)
    ensures
        r is Some <==> team_access_step_of(TeamAccess::Delete, *f) == team_deleted_reply(),
        r matches Some(e) ==> f.org_id matches Some(org_id) && f.team_id matches Some(team_id) && e@ == (
        AuditEntryView {
            event: AuditEventType::TeamDeleted,
            severity: AuditSeverity::Standard,
            actor,
            resource: AuditResourceView::Team(team_id),
            details: AuditDetailsView::Team { org_id, name: name@, slug: slug@ },
        }),
{
    match (team_access_step(TeamAccess::Delete, f), f.org_id, f.team_id) {
        (TeamStep::Reply(rep), Some(org_id), Some(team_id)) => if rep.status == 200 {
            Some(
                AuditEntry {
                    event: AuditEventType::TeamDeleted,
                    severity: AuditSeverity::Standard,
                    actor,
                    resource: AuditResource::Team(team_id),
                    details: AuditDetails::Team { org_id, name, slug },
                },
            )
        } else {
            None
        },
        _ => None,
    }
}

/// The reply of an added team member.
pub open spec fn member_added_reply() -> TeamStepView {
    TeamStepView::Reply(keyed(200, ""@, "server.api.team.member_added"@))
}

/// The entry of a member added to a team, with their role; `None` until
/// adding them has succeeded.
pub fn team_member_added_audit(f: &AddMemberFacts, actor: u128) -> (r: Option<AuditEntry>)
    ensures
        r is Some <==> add_member_step_of(*f) == member_added_reply(),
        r matches Some(e) ==> f.org_id matches Some(org_id) && f.team_id matches Some(team_id)
            && f.target matches Some(target) && e@ == (AuditEntryView {
            event: AuditEventType::TeamMemberAdded,
            severity: AuditSeverity::Standard,
            actor,
            resource: AuditResourceView::Team(team_id),
            details: AuditDetailsView::TeamMemberAdded { org_id, target_user_id: target, role: f.role },
        }),
{
    match (add_member_step(f), f.org_id, f.team_id, f.target) {
        (TeamStep::Reply(rep), Some(org_id), Some(team_id), Some(target)) => if rep.status == 200 {
            Some(
                AuditEntry {
                    event: AuditEventType::TeamMemberAdded,
                    severity: AuditSeverity::Standard,
                    actor,
                    resource: AuditResource::Team(team_id),
                    details: AuditDetails::TeamMemberAdded { org_id, target_user_id: target, role: f.role },
                },
            )
        } else {
            None
        },
        _ => None,
    }
}

/// The reply of a removed team member.
pub open spec fn member_removed_reply() -> TeamStepView {
    TeamStepView::Reply(keyed(200, ""@, "server.api.team.member_removed"@))
}

/// The entry of a member removed from a team, saying whether they removed
/// themselves; `None` until the removal has succeeded.
pub fn team_member_removed_audit(f: &RemoveMemberFacts) -> (r: Option<AuditEntry>)
    ensures
        r is Some <==> remove_member_step_of(*f) == member_removed_reply(),
        r matches Some(e) ==> f.org_id matches Some(org_id) && f.team_id matches Some(team_id)
            && f.target matches Some(target) && e@ == (AuditEntryView {
            event: AuditEventType::TeamMemberRemoved,
            severity: AuditSeverity::Standard,
            actor: f.actor,
            resource: AuditResourceView::Team(team_id),
            details: AuditDetailsView::TeamMemberRemoved {
                org_id,
                target_user_id: target,
                is_self_removal: target == f.actor,
            },
        }),
{
    match (remove_member_step(f), f.org_id, f.team_id, f.target) {
        (TeamStep::Reply(rep), Some(org_id), Some(team_id), Some(target)) => if rep.status == 200 {
            Some(
                AuditEntry {
                    event: AuditEventType::TeamMemberRemoved,
                    severity: AuditSeverity::Standard,
                    actor: f.actor,
                    resource: AuditResource::Team(team_id),
                    details: AuditDetails::TeamMemberRemoved {
                        org_id,
                        target_user_id: target,
                        is_self_removal: target == f.actor,
                    },
                },
            )
        } else {
            None
        },
        _ => None,
    }
}

/// The entry of an invitation that was created: the address and the role
/// it grants; `None` until the invitation is stored and its mail sent.
pub fn invitation_created_audit(f: &CreateInvitationFacts, actor: u128, invitation_id: String, email: String) -> (r:
    Option<AuditEntry>)
    ensures
        r is Some <==> create_invitation_step_of(*f) is Done,
        r matches Some(e) ==> f.org_id matches Some(org_id) && e@ == (AuditEntryView {
            event: AuditEventType::MemberAdded,
            severity: AuditSeverity::Standard,
            actor,
            resource: AuditResourceView::Invitation(invitation_id@),
            details: AuditDetailsView::InvitationCreated { org_id, email: email@, role: invited_role(f.role) },
        }),
{
    match (create_invitation_step(f), f.org_id) {
        (InviteStep::Done, Some(org_id)) => {
            let role = match f.role {
                RequestedRole::Valid(role) => role,
                _ => OrgRole::Member,
            };
            Some(
                AuditEntry {
                    event: AuditEventType::MemberAdded,
                    severity: AuditSeverity::Standard,
                    actor,
                    resource: AuditResource::Invitation(invitation_id),
                    details: AuditDetails::InvitationCreated { org_id, email, role },
                },
            )
        },
        _ => None,
    }
}

/// The entry of an invitation that was accepted: the caller joined its
/// organization with its role; `None` until that is done.
pub fn invitation_accepted_audit(f: &AcceptInvitationFacts, invitation_id: String) -> (r: Option<AuditEntry>)
    ensures
        r is Some <==> accept_invitation_step_of(*f) is Done,
        r matches Some(e) ==> f.invitation matches Some(Lookup::Found(inv)) && e@ == (AuditEntryView {
            event: AuditEventType::MemberAdded,
            severity: AuditSeverity::Standard,
            actor: f.caller_id,
            resource: AuditResourceView::Org(inv.org_id),
            details: AuditDetailsView::InvitationAccepted { invitation_id: invitation_id@, role: inv.role },
        }),
{
    match (accept_invitation_step(f), &f.invitation) {
        (InviteStep::Done, Some(Lookup::Found(inv))) => Some(
            AuditEntry {
                event: AuditEventType::MemberAdded,
                severity: AuditSeverity::Standard,
                actor: f.caller_id,
                resource: AuditResource::Org(inv.org_id),
                details: AuditDetails::InvitationAccepted { invitation_id, role: inv.role },
            },
        ),
        _ => None,
    }
}

/// The reply of an approved join request.
pub open spec fn join_request_approved_reply() -> InviteStepView {
    InviteStepView::Reply(keyed(200, ""@, "server.api.join_request.approved"@))
}

/// The entry of an approved join request: the user who joined; `None`
/// until the approval is done.
pub fn join_request_approved_audit(f: &HandleJoinRequestFacts, actor: u128, request_id: String) -> (r: Option<
    AuditEntry,
>)
    ensures
        r is Some <==> approve_join_request_step_of(*f) == join_request_approved_reply(),
        r matches Some(e) ==> f.org_id matches Some(org_id) && f.request matches Some(Lookup::Found(req)) && e@ == (
        AuditEntryView {
            event: AuditEventType::MemberAdded,
            severity: AuditSeverity::Standard,
            actor,
            resource: AuditResourceView::Org(org_id),
            details: AuditDetailsView::JoinRequestApproved { request_id: request_id@, target_user_id: req.user_id },
        }),
{
    match (approve_join_request_step(f), f.org_id, f.request) {
        (InviteStep::Reply(rep), Some(org_id), Some(Lookup::Found(req))) => if rep.status == 200 {
            Some(
                AuditEntry {
                    event: AuditEventType::MemberAdded,
                    severity: AuditSeverity::Standard,
                    actor,
                    resource: AuditResource::Org(org_id),
                    details: AuditDetails::JoinRequestApproved { request_id, target_user_id: req.user_id },
                },
            )
        } else {
            None
        },
        _ => None,
    }
}

/// The entry of a platform flag that was created, with its key and name;
/// `None` until it is stored.
pub fn flag_created_audit(f: &CreateFlagFacts, actor: u128, flag_id: u128, key: String, name: String) -> (r: Option<
    AuditEntry,
>)
    ensures
        r is Some <==> create_flag_step_of(*f) is Done,
        r matches Some(e) ==> e@ == (AuditEntryView {
            event: AuditEventType::FlagCreated,
            severity: AuditSeverity::Standard,
            actor,
            resource: AuditResourceView::PlatformFlag(flag_id),
            details: AuditDetailsView::PlatformFlag { key: key@, name: Some(name@) },
        }),
{
    match create_flag_step(f) {
        FlagStep::Done => Some(
            AuditEntry {
                event: AuditEventType::FlagCreated,
                severity: AuditSeverity::Standard,
                actor,
                resource: AuditResource::PlatformFlag(flag_id),
                details: AuditDetails::PlatformFlag { key, name: Some(name) },
            },
        ),
        _ => None,
    }
}

/// The entry of a platform flag that was updated, with its key; `None`
/// until the update is saved.
pub fn flag_updated_audit(f: &UpdateFlagFacts, actor: u128, flag_id: u128, key: String) -> (r: Option<AuditEntry>)
    ensures
        r is Some <==> update_flag_step_of(*f) is Done,
        r matches Some(e) ==> e@ == (AuditEntryView {
            event: AuditEventType::FlagUpdated,
            severity: AuditSeverity::Standard,
            actor,
            resource: AuditResourceView::PlatformFlag(flag_id),
            details: AuditDetailsView::PlatformFlag { key: key@, name: None },
        }),
{
    match update_flag_step(f) {
        FlagStep::Done => Some(
            AuditEntry {
                event: AuditEventType::FlagUpdated,
                severity: AuditSeverity::Standard,
                actor,
                resource: AuditResource::PlatformFlag(flag_id),
                details: AuditDetails::PlatformFlag { key, name: None },
            },
        ),
        _ => None,
    }
}

/// The event of a handler that archives, restores or deletes a flag or
/// kill switch; `None` for the handlers that only read.
pub open spec fn flag_change_event(h: FlagHandler) -> Option<AuditEventType> {
    match h {
        FlagHandler::ArchiveFlag => Some(AuditEventType::FlagArchived),
        FlagHandler::RestoreFlag => Some(AuditEventType::FlagRestored),
        FlagHandler::DeleteKillSwitch => Some(AuditEventType::KillSwitchDeleted),
        _ => None,
    }
}

/// Whether a flag or kill-switch step is the success reply (200) of
/// archiving, restoring or deleting.
pub open spec fn is_ok_reply(s: FlagStepView) -> bool {
    s matches FlagStepView::Reply(rv) && rv.status == 200
}

/// The entry of a flag archived or restored, or a kill switch deleted,
/// with its key; `None` until that has succeeded, and for the handlers
/// that only read.
pub fn flag_change_audit(h: FlagHandler, f: &FlagAccessFacts, actor: u128, id: u128, key: String) -> (r: Option<
    AuditEntry,
>)
    ensures
        r is Some <==> flag_change_event(h) is Some && is_ok_reply(flag_access_step_of(h, *f)),
        r matches Some(e) ==> flag_change_event(h) matches Some(ev) && e@ == (AuditEntryView {
            event: ev,
            severity: AuditSeverity::Standard,
            actor,
            resource: if h == FlagHandler::DeleteKillSwitch {
                AuditResourceView::PlatformKillSwitch(id)
            } else {
                AuditResourceView::PlatformFlag(id)
            },
            details: if h == FlagHandler::DeleteKillSwitch {
                AuditDetailsView::PlatformKillSwitch { key: key@, name: None, reason: None, linked_flag_keys: None }
            } else {
                AuditDetailsView::PlatformFlag { key: key@, name: None }
            },
        }),
{
    let ok = match flag_access_step(h, f) {
        FlagStep::Reply(rep) => rep.status == 200,
        _ => false,
    };
    if !ok {
        return None;
    }
    match h {
        FlagHandler::ArchiveFlag => Some(
            AuditEntry {
                event: AuditEventType::FlagArchived,
                severity: AuditSeverity::Standard,
                actor,
                resource: AuditResource::PlatformFlag(id),
                details: AuditDetails::PlatformFlag { key, name: None },
            },
        ),
        FlagHandler::RestoreFlag => Some(
            AuditEntry {
                event: AuditEventType::FlagRestored,
                severity: AuditSeverity::Standard,
                actor,
                resource: AuditResource::PlatformFlag(id),
                details: AuditDetails::PlatformFlag { key, name: None },
            },
        ),
        FlagHandler::DeleteKillSwitch => Some(
            AuditEntry {
                event: AuditEventType::KillSwitchDeleted,
                severity: AuditSeverity::Standard,
                actor,
                resource: AuditResource::PlatformKillSwitch(id),
                details: AuditDetails::PlatformKillSwitch { key, name: None, reason: None, linked_flag_keys: None },
            },
        ),
        _ => None,
    }
}

/// The entry of a platform kill switch that was created, with its key,
/// name and linked flags; `None` until it is stored.
pub fn kill_switch_created_audit(
    f: &CreateKillSwitchFacts,
    actor: u128,
    id: u128,
    key: String,
    name: String,
    linked_flag_keys: Vec<String>,
) -> (r: Option<AuditEntry>)
    ensures
        r is Some <==> create_kill_switch_step_of(*f) is Done,
        r matches Some(e) ==> e@ == (AuditEntryView {
            event: AuditEventType::KillSwitchCreated,
            severity: AuditSeverity::Standard,
            actor,
            resource: AuditResourceView::PlatformKillSwitch(id),
            details: AuditDetailsView::PlatformKillSwitch {
                key: key@,
                name: Some(name@),
                reason: None,
                linked_flag_keys: Some(strings_view(linked_flag_keys@)),
            },
        }),
{
    match create_kill_switch_step(f) {
        FlagStep::Done => Some(
            AuditEntry {
                event: AuditEventType::KillSwitchCreated,
                severity: AuditSeverity::Standard,
                actor,
                resource: AuditResource::PlatformKillSwitch(id),
                details: AuditDetails::PlatformKillSwitch {
                    key,
                    name: Some(name),
                    reason: None,
                    linked_flag_keys: Some(linked_flag_keys),
                },
            },
        ),
        _ => None,
    }
}

/// The entry of a kill switch updated, activated (with the reason and the
/// flags it links) or deactivated, with its key; `None` until that is done.
pub fn kill_switch_changed_audit(f: &KillSwitchChangeFacts, id: u128, key: String) -> (r: Option<AuditEntry>)
    ensures
        r is Some <==> kill_switch_change_step_of(*f) is Done,
        r matches Some(e) ==> f.kill_switch matches Some(Lookup::Found(k)) && e@ == (AuditEntryView {
            event: match f.change {
                KillSwitchChange::Update(_) => AuditEventType::KillSwitchUpdated,
                KillSwitchChange::Activate(_) => AuditEventType::KillSwitchActivated,
                KillSwitchChange::Deactivate => AuditEventType::KillSwitchDeactivated,
            },
            severity: AuditSeverity::Standard,
            actor: f.actor,
            resource: AuditResourceView::PlatformKillSwitch(id),
            details: match f.change {
                KillSwitchChange::Activate(reason) => AuditDetailsView::PlatformKillSwitch {
                    key: key@,
                    name: None,
                    reason: Some(reason@),
                    linked_flag_keys: Some(k@.linked_flag_keys),
                },
                _ => AuditDetailsView::PlatformKillSwitch { key: key@, name: None, reason: None, linked_flag_keys: None },
            },
        }),
{
    match (kill_switch_change_step(f), &f.kill_switch) {
        (FlagStep::Done, Some(Lookup::Found(k))) => {
            let (event, details) = match &f.change {
                KillSwitchChange::Update(_) => (
                    AuditEventType::KillSwitchUpdated,
                    AuditDetails::PlatformKillSwitch { key, name: None, reason: None, linked_flag_keys: None },
                ),
                KillSwitchChange::Activate(reason) => (
                    AuditEventType::KillSwitchActivated,
                    AuditDetails::PlatformKillSwitch {
                        key,
                        name: None,
                        reason: Some(string_of_str(reason.as_str())),
                        linked_flag_keys: Some(copy_strings(&k.linked_flag_keys)),
                    },
                ),
                KillSwitchChange::Deactivate => (
                    AuditEventType::KillSwitchDeactivated,
                    AuditDetails::PlatformKillSwitch { key, name: None, reason: None, linked_flag_keys: None },
                ),
            };
            Some(
                AuditEntry {
                    event,
                    severity: AuditSeverity::Standard,
                    actor: f.actor,
                    resource: AuditResource::PlatformKillSwitch(id),
                    details,
                },
            )
        },
        _ => None,
    }
}

/// The entry of a cron monitor that was created, with its organization,
/// slug, name and schedule; `None` until it is stored.
pub fn cron_monitor_created_audit(
    f: &CreateMonitorFacts,
    actor: u128,
    monitor_id: u128,
    org_id: u128,
    slug: String,
    name: String,
    schedule: String,
) -> (r: Option<AuditEntry>)
    ensures
        r is Some <==> create_monitor_step_of(*f) == CronStepView::Status(201),
        r matches Some(e) ==> e@ == (AuditEntryView {
            event: AuditEventType::CronMonitorCreated,
            severity: AuditSeverity::Standard,
            actor,
            resource: AuditResourceView::CronMonitor(monitor_id),
            details: AuditDetailsView::CronMonitor { org_id, slug: slug@, name: name@, schedule: Some(schedule@) },
        }),
{
    match create_monitor_step(f) {
        CronStep::Status(code) => if code == 201 {
            Some(
                AuditEntry {
                    event: AuditEventType::CronMonitorCreated,
                    severity: AuditSeverity::Standard,
                    actor,
                    resource: AuditResource::CronMonitor(monitor_id),
                    details: AuditDetails::CronMonitor { org_id, slug, name, schedule: Some(schedule) },
                },
            )
        } else {
            None
        },
        _ => None,
    }
}

/// The entry of a cron monitor that was deleted, with its organization,
/// slug and name; `None` until the deletion has succeeded.
pub fn cron_monitor_deleted_audit(
    f: &MonitorAccessFacts,
    actor: u128,
    monitor_id: u128,
    org_id: u128,
    slug: String,
    name: String,
) -> (r: Option<AuditEntry>)
    ensures
        r is Some <==> monitor_access_step_of(MonitorHandler::Delete, *f) == CronStepView::Status(204),
        r matches Some(e) ==> e@ == (AuditEntryView {
            event: AuditEventType::CronMonitorDeleted,
            severity: AuditSeverity::Standard,
            actor,
            resource: AuditResourceView::CronMonitor(monitor_id),
            details: AuditDetailsView::CronMonitor { org_id, slug: slug@, name: name@, schedule: None },
        }),
{
    match monitor_access_step(MonitorHandler::Delete, f) {
        CronStep::Status(code) => if code == 204 {
            Some(
                AuditEntry {
                    event: AuditEventType::CronMonitorDeleted,
                    severity: AuditSeverity::Standard,
                    actor,
                    resource: AuditResource::CronMonitor(monitor_id),
                    details: AuditDetails::CronMonitor { org_id, slug, name, schedule: None },
                },
            )
        } else {
            None
        },
        _ => None,
    }
}

} // verus!
