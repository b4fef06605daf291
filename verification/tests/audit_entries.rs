use maestro::admin_rules::ImpersonationStartFacts;
use maestro::audit::{
    cron_monitor_created_audit, flag_created_audit, impersonation_started_audit, invitation_created_audit,
    kill_switch_created_audit, team_created_audit, team_member_added_audit, team_updated_audit,
};
use maestro::cron_rules::CreateMonitorFacts;
use maestro::flag_rules::{CreateFlagFacts, CreateKillSwitchFacts};
use maestro::invitation_rules::{CreateInvitationFacts, RequestedRole};
use maestro::team_rules::{AddMemberFacts, CreateTeamFacts, UpdateTeamFacts};
use maestro::audit::{cron_monitor_deleted_audit, flag_change_audit, kill_switch_changed_audit};
use maestro::cron_rules::MonitorAccessFacts;
use maestro::flag_rules::{new_kill_switch, FlagAccessFacts, FlagHandler, KillSwitchChange, KillSwitchChangeFacts};
use maestro::admin_rules::{DeleteUserFacts, GlobalRoles, RoleChange, RoleUpdateFacts};
use maestro::audit::{
    impersonation_ended_audit, invitation_accepted_audit, join_request_approved_audit, role_change_audit,
    team_deleted_audit, team_member_removed_audit, user_deleted_audit, AuditDetails, AuditEventType, AuditResource,
    AuditSeverity,
};
use maestro::admin_rules::ImpersonationStopFacts;
use maestro::invitation_rules::{AcceptInvitationFacts, HandleJoinRequestFacts, InvitationState, JoinRequestState, OrgRole};
use maestro::replies::Lookup;
use maestro::team_rules::{RemoveMemberFacts, TeamAccessFacts, TeamRole};

#[test]
fn role_change_is_audited_once_saved() {
    let old = GlobalRoles { is_system_admin: true, is_support: false, is_auditor: false };
    let mut f = RoleUpdateFacts {
        actor_is_admin: true,
        target_id_valid: true,
        is_self: false,
        change: RoleChange { is_system_admin: None, is_support: Some(true), is_auditor: None },
        target: Some(Lookup::Found(old)),
        admin_count: None,
        saved: None,
    };
    assert!(role_change_audit(&f, 1, 2).is_none());
    f.saved = Some(false);
    assert!(role_change_audit(&f, 1, 2).is_none());
    f.saved = Some(true);
    let e = role_change_audit(&f, 1, 2).unwrap();
    assert_eq!(e.event, AuditEventType::GlobalRoleChanged);
    assert_eq!(e.severity, AuditSeverity::Warning);
    assert_eq!(e.actor, 1);
    assert!(matches!(e.resource, AuditResource::User(2)));
    match e.details {
        AuditDetails::RolesChanged { old_roles, new_roles } => {
            assert_eq!(old_roles, old);
            assert_eq!(new_roles, GlobalRoles { is_system_admin: true, is_support: true, is_auditor: false });
        },
        other => panic!("unexpected {:?}", other),
    }
}

#[test]
fn user_deletion_is_audited_as_critical() {
    let mut f = DeleteUserFacts {
        actor_is_admin: true,
        target_id_valid: true,
        is_self: false,
        target: Some(Lookup::Found(())),
        deleted: None,
    };
    assert!(user_deleted_audit(&f, 1, 2, None, "Ada".to_string()).is_none());
    f.deleted = Some(true);
    let e = user_deleted_audit(&f, 1, 2, Some("ada@example.com".to_string()), "Ada".to_string()).unwrap();
    assert_eq!(e.event, AuditEventType::UserDeleted);
    assert_eq!(e.severity, AuditSeverity::Critical);
    match e.details {
        AuditDetails::UserDeleted { target_email, target_display_name } => {
            assert_eq!(target_email.as_deref(), Some("ada@example.com"));
            assert_eq!(target_display_name, "Ada");
        },
        other => panic!("unexpected {:?}", other),
    }
}

#[test]
fn impersonation_end_is_audited() {
    let f = ImpersonationStopFacts { active: Some(Lookup::Found(())), ended: Some(true) };
    let e = impersonation_ended_audit(&f, 1, 3, "sess-9".to_string()).unwrap();
    assert_eq!(e.event, AuditEventType::ImpersonationEnded);
    assert!(matches!(e.resource, AuditResource::User(3)));
    let g = ImpersonationStopFacts { active: Some(Lookup::Missing), ended: None };
    assert!(impersonation_ended_audit(&g, 1, 3, "sess-9".to_string()).is_none());
}

#[test]
fn team_deletion_and_self_removal_are_audited() {
    let mut f = TeamAccessFacts {
        org_id: Some(1),
        team_id: Some(2),
        team_org: Some(Lookup::Found(1)),
        authorized: Some(true),
        done: None,
    };
    assert!(team_deleted_audit(&f, 5, "Core".to_string(), "core".to_string()).is_none());
    f.done = Some(true);
    let e = team_deleted_audit(&f, 5, "Core".to_string(), "core".to_string()).unwrap();
    assert_eq!(e.event, AuditEventType::TeamDeleted);
    assert!(matches!(e.resource, AuditResource::Team(2)));
    match e.details {
        AuditDetails::Team { org_id, name, slug } => {
            assert_eq!(org_id, 1);
            assert_eq!(name, "Core");
            assert_eq!(slug, "core");
        },
        other => panic!("unexpected {:?}", other),
    }
    f.team_org = Some(Lookup::Found(9));
    assert!(team_deleted_audit(&f, 5, "Core".to_string(), "core".to_string()).is_none());

    let r = RemoveMemberFacts {
        actor: 5,
        org_id: Some(1),
        team_id: Some(2),
        target: Some(5),
        team_org: Some(Lookup::Found(1)),
        authorized: None,
        membership: Some(Lookup::Found(TeamRole::Member)),
        members: None,
        removed: Some(true),
    };
    let e = team_member_removed_audit(&r).unwrap();
    assert_eq!(e.event, AuditEventType::TeamMemberRemoved);
    assert_eq!(e.actor, 5);
    match e.details {
        AuditDetails::TeamMemberRemoved { org_id, target_user_id, is_self_removal } => {
            assert_eq!(org_id, 1);
            assert_eq!(target_user_id, 5);
            assert!(is_self_removal);
        },
        other => panic!("unexpected {:?}", other),
    }
}

#[test]
fn accepted_invitation_and_approved_request_are_audited() {
    let f = AcceptInvitationFacts {
        caller_id: 7,
        caller_email: "ada@example.com".to_string(),
        invitation: Some(Lookup::Found(InvitationState {
            org_id: 1,
            email: "ada@example.com".to_string(),
            role: OrgRole::Admin,
            valid: true,
            expired: false,
        })),
        already_member: Some(false),
        org: Some(Lookup::Found(())),
        added: Some(true),
        marked: true,
    };
    let e = invitation_accepted_audit(&f, "inv-1".to_string()).unwrap();
    assert_eq!(e.event, AuditEventType::MemberAdded);
    assert_eq!(e.actor, 7);
    assert!(matches!(e.resource, AuditResource::Org(1)));
    match e.details {
        AuditDetails::InvitationAccepted { invitation_id, role } => {
            assert_eq!(invitation_id, "inv-1");
            assert_eq!(role, OrgRole::Admin);
        },
        other => panic!("unexpected {:?}", other),
    }
    let g = AcceptInvitationFacts { marked: false, ..f };
    assert!(invitation_accepted_audit(&g, "inv-1".to_string()).is_none());

    let h = HandleJoinRequestFacts {
        org_id: Some(1),
        org: Some(Lookup::Found(())),
        authorized: Some(true),
        request: Some(Lookup::Found(JoinRequestState { org_id: 1, user_id: 9, handled: false })),
        done: Some(true),
        marked: true,
    };
    let e = join_request_approved_audit(&h, 4, "req-1".to_string()).unwrap();
    assert!(matches!(e.resource, AuditResource::Org(1)));
    match e.details {
        AuditDetails::JoinRequestApproved { request_id, target_user_id } => {
            assert_eq!(request_id, "req-1");
            assert_eq!(target_user_id, 9);
        },
        other => panic!("unexpected {:?}", other),
    }
}

#[test]
fn kill_switch_activation_is_audited_with_reason_and_links() {
    let ks = new_kill_switch("Payments".to_string(), None, vec!["checkout".to_string()], 100);
    let mut f = KillSwitchChangeFacts {
        is_admin: true,
        actor: 1,
        now: 5,
        change: KillSwitchChange::Activate("outage".to_string()),
        kill_switch: Some(Lookup::Found(ks)),
        saved: Some(true),
        broadcast: false,
    };
    assert!(kill_switch_changed_audit(&f, 8, "payments".to_string()).is_none());
    f.broadcast = true;
    let e = kill_switch_changed_audit(&f, 8, "payments".to_string()).unwrap();
    assert_eq!(e.event, AuditEventType::KillSwitchActivated);
    assert_eq!(e.actor, 1);
    assert!(matches!(e.resource, AuditResource::PlatformKillSwitch(8)));
    match e.details {
        AuditDetails::PlatformKillSwitch { key, name, reason, linked_flag_keys } => {
            assert_eq!(key, "payments");
            assert!(name.is_none());
            assert_eq!(reason.as_deref(), Some("outage"));
            assert_eq!(linked_flag_keys, Some(vec!["checkout".to_string()]));
        },
        other => panic!("unexpected {:?}", other),
    }
    f.change = KillSwitchChange::Deactivate;
    let e = kill_switch_changed_audit(&f, 8, "payments".to_string()).unwrap();
    assert_eq!(e.event, AuditEventType::KillSwitchDeactivated);
}

#[test]
fn flag_archive_and_monitor_deletion_are_audited() {
    let f = FlagAccessFacts { is_admin: true, target: Some(Lookup::Found(())), done: Some(true) };
    let e = flag_change_audit(FlagHandler::ArchiveFlag, &f, 1, 4, "beta".to_string()).unwrap();
    assert_eq!(e.event, AuditEventType::FlagArchived);
    assert!(matches!(e.resource, AuditResource::PlatformFlag(4)));
    assert!(flag_change_audit(FlagHandler::GetFlag, &f, 1, 4, "beta".to_string()).is_none());
    let g = FlagAccessFacts { done: Some(false), ..f };
    assert!(flag_change_audit(FlagHandler::ArchiveFlag, &g, 1, 4, "beta".to_string()).is_none());

    let m = MonitorAccessFacts { membership: Some(Lookup::Found(())), monitor: Some(Lookup::Found(())), done: Some(true) };
    let e = cron_monitor_deleted_audit(&m, 1, 6, 2, "nightly".to_string(), "Nightly".to_string()).unwrap();
    assert_eq!(e.event, AuditEventType::CronMonitorDeleted);
    match e.details {
        AuditDetails::CronMonitor { org_id, slug, name, schedule } => {
            assert_eq!(org_id, 2);
            assert_eq!(slug, "nightly");
            assert_eq!(name, "Nightly");
            assert!(schedule.is_none());
        },
        other => panic!("unexpected {:?}", other),
    }
}

#[test]
fn impersonation_start_is_audited() {
    let f = ImpersonationStartFacts {
        actor_is_admin: true,
        target_id_valid: true,
        is_self: false,
        already_active: Some(false),
        target: Some(Lookup::Found(())),
        created: Some(true),
    };
    let e = impersonation_started_audit(&f, 1, 2, "support ticket".to_string(), "imp-1".to_string()).unwrap();
    assert_eq!(e.event, AuditEventType::ImpersonationStarted);
    assert_eq!(e.severity, AuditSeverity::Warning);
    match e.details {
        AuditDetails::ImpersonationStarted { reason, session_id, target_user_id } => {
            assert_eq!(reason, "support ticket");
            assert_eq!(session_id, "imp-1");
            assert_eq!(target_user_id, 2);
        },
        other => panic!("unexpected {:?}", other),
    }
    let g = ImpersonationStartFacts { created: None, ..f };
    assert!(impersonation_started_audit(&g, 1, 2, "r".to_string(), "s".to_string()).is_none());
}

#[test]
fn team_creation_update_and_member_addition_are_audited() {
    let c = CreateTeamFacts {
        org_id: Some(1),
        name: "Core Team".to_string(),
        slug: "core".to_string(),
        org: Some(Lookup::Found(())),
        authorized: Some(true),
        slug_taken: Some(false),
        created: Some(true),
        creator_added: true,
    };
    let e = team_created_audit(&c, 5, 2).unwrap();
    assert_eq!(e.event, AuditEventType::TeamCreated);
    assert_eq!(e.severity, AuditSeverity::Standard);
    match e.details {
        AuditDetails::Team { org_id, name, slug } => {
            assert_eq!((org_id, name.as_str(), slug.as_str()), (1, "Core Team", "core"));
        },
        other => panic!("unexpected {:?}", other),
    }
    let u = UpdateTeamFacts {
        org_id: Some(1),
        team_id: Some(2),
        team_org: Some(Lookup::Found(1)),
        current_name: "Core Team".to_string(),
        current_slug: "core".to_string(),
        name: Some("Platform".to_string()),
        slug: None,
        authorized: Some(true),
        slug_taken: None,
        saved: Some(true),
    };
    let e = team_updated_audit(&u, 5).unwrap();
    assert_eq!(e.event, AuditEventType::TeamUpdated);
    match e.details {
        AuditDetails::Team { name, slug, .. } => {
            assert_eq!(name, "Platform");
            assert_eq!(slug, "core");
        },
        other => panic!("unexpected {:?}", other),
    }
    let a = AddMemberFacts {
        org_id: Some(1),
        team_id: Some(2),
        target: Some(6),
        role: TeamRole::Maintainer,
        team_org: Some(Lookup::Found(1)),
        authorized: Some(true),
        target_in_org: Some(Lookup::Found(())),
        already_member: Some(false),
        added: Some(true),
    };
    let e = team_member_added_audit(&a, 5).unwrap();
    match e.details {
        AuditDetails::TeamMemberAdded { org_id, target_user_id, role } => {
            assert_eq!((org_id, target_user_id, role), (1, 6, TeamRole::Maintainer));
        },
        other => panic!("unexpected {:?}", other),
    }
    let b = AddMemberFacts { already_member: Some(true), ..a };
    assert!(team_member_added_audit(&b, 5).is_none());
}

#[test]
fn invitation_flag_kill_switch_and_monitor_creation_are_audited() {
    let f = CreateInvitationFacts {
        org_id: Some(1),
        org: Some(Lookup::Found(())),
        authorized: Some(true),
        role: RequestedRole::Default,
        created: Some(true),
        notified: true,
    };
    let e = invitation_created_audit(&f, 5, "inv-1".to_string(), "ada@example.com".to_string()).unwrap();
    assert_eq!(e.event, AuditEventType::MemberAdded);
    match e.details {
        AuditDetails::InvitationCreated { org_id, email, role } => {
            assert_eq!((org_id, email.as_str(), role), (1, "ada@example.com", OrgRole::Member));
        },
        other => panic!("unexpected {:?}", other),
    }
    let g = CreateFlagFacts {
        is_admin: true,
        key_valid: true,
        duplicate: Some(false),
        variant_names: vec!["on".to_string()],
        default_variant: "on".to_string(),
        created: Some(true),
    };
    let e = flag_created_audit(&g, 1, 3, "beta".to_string(), "Beta".to_string()).unwrap();
    assert_eq!(e.event, AuditEventType::FlagCreated);
    let k = CreateKillSwitchFacts { is_admin: true, key_valid: true, duplicate: Some(false), created: Some(true) };
    let e = kill_switch_created_audit(&k, 1, 4, "pay".to_string(), "Pay".to_string(), vec!["checkout".to_string()]).unwrap();
    assert_eq!(e.event, AuditEventType::KillSwitchCreated);
    let m = CreateMonitorFacts { membership: Some(Lookup::Found(())), slug_valid: true, slug_taken: Some(false), created: Some(true) };
    let e = cron_monitor_created_audit(&m, 1, 7, 2, "nightly".to_string(), "Nightly".to_string(), "Cron".to_string()).unwrap();
    assert_eq!(e.event, AuditEventType::CronMonitorCreated);
    match e.details {
        AuditDetails::CronMonitor { schedule, .. } => assert_eq!(schedule.as_deref(), Some("Cron")),
        other => panic!("unexpected {:?}", other),
    }
    let n = CreateMonitorFacts { created: None, ..m };
    assert!(cron_monitor_created_audit(&n, 1, 7, 2, "a".to_string(), "b".to_string(), "c".to_string()).is_none());
}
