use maestro::admin_rules::{
    apply_role_change, can_list_users, can_read_audit_logs, delete_user_step, impersonation_state_step,
    start_impersonation_step, stop_impersonation_step, update_user_roles_step, DeleteUserFacts, DeleteUserStep,
    GlobalRoles, ImpersonationStartFacts, ImpersonationStartStep, ImpersonationStateFacts, ImpersonationStateStep,
    ImpersonationStopFacts, ImpersonationStopStep, RoleChange, RoleUpdateFacts, RoleUpdateStep,
};
use maestro::cron_rules::{
    apply_checkin_update, checkin_limit, checkin_of_ping, checkin_of_report, create_monitor_step, default_margin,
    default_timezone, event_for_checkin, monitor_access_step, monitor_update_for, ping_output, ping_step, ping_url,
    sdk_checkin_step, status_is_failure, status_of_ping, update_checkin_step, CheckIn, CheckInReport, CheckInSource,
    CheckInStatus, CheckInUpdate, CreateMonitorFacts, CronEvent, CronStep, MonitorAccessFacts, MonitorHandler,
    MonitorHealth, PingFacts, PingKind, SdkCheckInFacts, UpdateCheckInFacts,
};
use maestro::daemon::{
    auth_outcome, check_terminal_id, daemon_status_of, forwarded_event_name, incoming_kind, next_reconnect_attempt,
    pty_size, reconnect_delay_secs, reconnect_step, reply_outcome, shell_path, terminal_key, DaemonConfig, IncomingKind,
    ReconnectStep, ReplyBody, RequestIds,
};
use maestro::flag_rules::{
    activate_kill_switch, contains_name, create_flag_step, create_kill_switch_step, deactivate_kill_switch,
    flag_access_step, kill_switch_change_step, new_kill_switch, patch_flag, patch_kill_switch, update_flag_step,
    CreateFlagFacts, CreateKillSwitchFacts, FlagAccessFacts, FlagFields, FlagHandler, FlagPatch, FlagStep,
    KillSwitchChange, KillSwitchChangeFacts, KillSwitchPatch, UpdateFlagFacts,
};
use maestro::invitation_rules::{
    accept_invitation_step, approve_join_request_step, cancel_invitation_step, create_invitation_step,
    create_join_request_step, created_invitation, display_name_or_unknown, generate_invitation_token,
    get_invitation_step, invitation_sent_to, list_invitations_step, list_join_requests_step, org_visibility_to_abac,
    prepare_invitation, reject_join_request_step,
    AcceptInvitationFacts, AccessVisibility, CancelInvitationFacts, CreateInvitationFacts, CreateJoinRequestFacts,
    GetInvitationFacts, HandleJoinRequestFacts, InvitationState, InviteStep, JoinRequestState, ListPendingFacts,
    OrgRole, OrgVisibility, RequestedRole,
};
use maestro::replies::{Lookup, Reply};
use maestro::repo_access::{
    check_read_access, check_user_is_repo_admin, check_write_access, get_direct_role, get_user_repo_role,
    higher_role, resolve_repo_step, AccessRefusal, RepoOwner, RepoRole, ResolveFacts, ResolveStep,
};
use maestro::secret_rules::{secret_step, CreateOutcome, SecretFacts, SecretOp, SecretScopeKind, SecretStep};
use maestro::team_rules::{
    add_member_step, check_slug, check_team_name, count_maintainers, create_team_step, list_teams_step,
    remove_member_step, team_access_step, update_team_step, visible_email, AddMemberFacts, CreateTeamFacts,
    ListTeamsFacts, RemoveMemberFacts, SlugProblem, TeamAccess, TeamAccessFacts, TeamAction, TeamRole, TeamStep,
    UpdateTeamFacts,
};

fn reply_of<T: std::fmt::Debug>(step: T) -> String {
    format!("{:?}", step)
}

fn is_reply(r: &Reply, status: u16, error: &str, message: &str) -> bool {
    r.status == status && r.error == error && r.message == message
}

// ---------------------------------------------------------------- admin

fn role_facts() -> RoleUpdateFacts {
    RoleUpdateFacts {
        actor_is_admin: true,
        target_id_valid: true,
        is_self: false,
        change: RoleChange { is_system_admin: Some(false), is_support: None, is_auditor: Some(true) },
        target: None,
        admin_count: None,
        saved: None,
    }
}

#[test]
fn test_role_update_requires_admin() {
    let mut f = role_facts();
    f.actor_is_admin = false;
    match update_user_roles_step(&f) {
        RoleUpdateStep::Reply(r) => assert!(is_reply(&r, 403, "forbidden", "server.api.admin.system_admin_required")),
        other => panic!("unexpected {}", reply_of(other)),
    }
}

#[test]
fn test_role_update_cannot_remove_own_admin() {
    let mut f = role_facts();
    f.is_self = true;
    match update_user_roles_step(&f) {
        RoleUpdateStep::Reply(r) => {
            assert!(is_reply(&r, 400, "bad_request", "server.api.admin.cannot_remove_own_admin"))
        },
        other => panic!("unexpected {}", reply_of(other)),
    }
}

#[test]
fn test_role_update_last_admin_keeps_role() {
    let mut f = role_facts();
    f.target = Some(Lookup::Found(GlobalRoles { is_system_admin: true, is_support: false, is_auditor: false }));
    assert!(matches!(update_user_roles_step(&f), RoleUpdateStep::CountAdmins));
    f.admin_count = Some(Lookup::Found(1));
    match update_user_roles_step(&f) {
        RoleUpdateStep::Reply(r) => {
            assert!(is_reply(&r, 400, "bad_request", "server.api.admin.cannot_remove_last_admin"))
        },
        other => panic!("unexpected {}", reply_of(other)),
    }
    f.admin_count = Some(Lookup::Found(2));
    match update_user_roles_step(&f) {
        RoleUpdateStep::Save(roles) => {
            assert_eq!(roles, GlobalRoles { is_system_admin: false, is_support: false, is_auditor: true })
        },
        other => panic!("unexpected {}", reply_of(other)),
    }
    f.saved = Some(false);
    match update_user_roles_step(&f) {
        RoleUpdateStep::Reply(r) => {
            assert!(is_reply(&r, 500, "internal_error", "server.api.admin.user_update_failed"))
        },
        other => panic!("unexpected {}", reply_of(other)),
    }
}

#[test]
fn test_role_update_missing_target_and_invalid_id() {
    let mut f = role_facts();
    f.target = Some(Lookup::Missing);
    match update_user_roles_step(&f) {
        RoleUpdateStep::Reply(r) => assert!(is_reply(&r, 404, "not_found", "server.api.user.not_found")),
        other => panic!("unexpected {}", reply_of(other)),
    }
    f.target_id_valid = false;
    match update_user_roles_step(&f) {
        RoleUpdateStep::Reply(r) => assert!(is_reply(&r, 400, "bad_request", "server.api.user.invalid_id")),
        other => panic!("unexpected {}", reply_of(other)),
    }
}

#[test]
fn test_apply_role_change_keeps_unset_roles() {
    let roles = GlobalRoles { is_system_admin: true, is_support: true, is_auditor: false };
    let change = RoleChange { is_system_admin: None, is_support: Some(false), is_auditor: None };
    assert_eq!(
        apply_role_change(roles, change),
        GlobalRoles { is_system_admin: true, is_support: false, is_auditor: false }
    );
}

#[test]
fn test_delete_user_guards() {
    let mut f = DeleteUserFacts { actor_is_admin: true, target_id_valid: true, is_self: true, target: None, deleted: None };
    match delete_user_step(&f) {
        DeleteUserStep::Reply(r) => assert!(is_reply(&r, 400, "bad_request", "server.api.admin.cannot_delete_self")),
        other => panic!("unexpected {}", reply_of(other)),
    }
    f.is_self = false;
    assert!(matches!(delete_user_step(&f), DeleteUserStep::LoadTarget));
    f.target = Some(Lookup::Found(()));
    assert!(matches!(delete_user_step(&f), DeleteUserStep::Delete));
    f.deleted = Some(true);
    assert!(matches!(delete_user_step(&f), DeleteUserStep::Done));
}

#[test]
fn test_impersonation_start_and_stop() {
    let mut f = ImpersonationStartFacts {
        actor_is_admin: true,
        target_id_valid: true,
        is_self: false,
        already_active: Some(true),
        target: None,
        created: None,
    };
    match start_impersonation_step(&f) {
        ImpersonationStartStep::Reply(r) => assert_eq!(r.status, 409),
        other => panic!("unexpected {}", reply_of(other)),
    }
    f.already_active = Some(false);
    f.target = Some(Lookup::Found(()));
    assert!(matches!(start_impersonation_step(&f), ImpersonationStartStep::CreateSession));
    f.is_self = true;
    match start_impersonation_step(&f) {
        ImpersonationStartStep::Reply(r) => {
            assert!(is_reply(&r, 400, "bad_request", "Cannot impersonate yourself"));
            assert!(!r.translate);
        },
        other => panic!("unexpected {}", reply_of(other)),
    }
    let stop = ImpersonationStopFacts { active: Some(Lookup::Missing), ended: None };
    match stop_impersonation_step(&stop) {
        ImpersonationStopStep::Reply(r) => assert!(is_reply(&r, 404, "not_found", "Not currently impersonating any user")),
        other => panic!("unexpected {}", reply_of(other)),
    }
    let stop = ImpersonationStopFacts { active: Some(Lookup::Found(())), ended: None };
    assert!(matches!(stop_impersonation_step(&stop), ImpersonationStopStep::EndSession));
}

#[test]
fn test_impersonation_state() {
    let f = ImpersonationStateFacts { actor_is_admin: true, session: Some(Lookup::Found(7)), target: Some(Lookup::Missing) };
    assert!(matches!(impersonation_state_step(&f), ImpersonationStateStep::NotImpersonating));
    let f = ImpersonationStateFacts { actor_is_admin: true, session: Some(Lookup::Found(7)), target: Some(Lookup::Found(())) };
    assert!(matches!(impersonation_state_step(&f), ImpersonationStateStep::Impersonating(7)));
    let f = ImpersonationStateFacts { actor_is_admin: false, session: None, target: None };
    assert!(matches!(impersonation_state_step(&f), ImpersonationStateStep::Reply(_)));
}

#[test]
fn test_admin_listing_permissions() {
    assert!(can_list_users(true).is_ok());
    assert!(can_list_users(false).is_err());
    assert!(can_read_audit_logs(false, true).is_ok());
    let e = can_read_audit_logs(false, false).unwrap_err();
    assert!(is_reply(&e, 403, "forbidden", "server.api.error.forbidden"));
}

// ---------------------------------------------------------------- teams

fn remove_facts(actor: u128, target: u128) -> RemoveMemberFacts {
    RemoveMemberFacts {
        actor,
        org_id: Some(1),
        team_id: Some(2),
        target: Some(target),
        team_org: Some(Lookup::Found(1)),
        authorized: None,
        membership: None,
        members: None,
        removed: None,
    }
}

#[test]
fn test_remove_member_self_removal_skips_authorization() {
    let f = remove_facts(5, 5);
    assert!(matches!(remove_member_step(&f), TeamStep::LoadTargetMembership));
    let f = remove_facts(5, 6);
    assert!(matches!(remove_member_step(&f), TeamStep::Authorize(TeamAction::ManageTeam)));
    let mut f = remove_facts(5, 6);
    f.authorized = Some(false);
    assert!(matches!(remove_member_step(&f), TeamStep::Denied));
}

#[test]
fn test_remove_member_checks_ids_before_team() {
    let mut f = remove_facts(5, 6);
    f.target = None;
    f.team_org = Some(Lookup::Missing);
    match remove_member_step(&f) {
        TeamStep::Reply(r) => panic!("unexpected reply {}", reply_of(r)),
        TeamStep::BadInput(k) => assert_eq!(k, "server.api.user.invalid_id"),
        other => panic!("unexpected {}", reply_of(other)),
    }
    f.team_org = None;
    match remove_member_step(&f) {
        TeamStep::BadInput(k) => assert_eq!(k, "server.api.user.invalid_id"),
        other => panic!("unexpected {}", reply_of(other)),
    }
}

#[test]
fn test_remove_last_maintainer_refused() {
    let mut f = remove_facts(5, 5);
    f.membership = Some(Lookup::Found(TeamRole::Maintainer));
    assert!(matches!(remove_member_step(&f), TeamStep::ListMembers));
    f.members = Some(Ok(vec![TeamRole::Maintainer, TeamRole::Member, TeamRole::Member]));
    match remove_member_step(&f) {
        TeamStep::Reply(r) => assert!(is_reply(&r, 400, "last_maintainer", "server.api.team.last_maintainer")),
        other => panic!("unexpected {}", reply_of(other)),
    }
    f.members = Some(Ok(vec![TeamRole::Maintainer, TeamRole::Member, TeamRole::Maintainer]));
    assert!(matches!(remove_member_step(&f), TeamStep::RemoveMember));
    f.removed = Some(true);
    match remove_member_step(&f) {
        TeamStep::Reply(r) => assert!(is_reply(&r, 200, "", "server.api.team.member_removed")),
        other => panic!("unexpected {}", reply_of(other)),
    }
}

#[test]
fn test_remove_member_team_of_other_org() {
    let mut f = remove_facts(5, 6);
    f.team_org = Some(Lookup::Found(9));
    match remove_member_step(&f) {
        TeamStep::Reply(r) => assert!(is_reply(&r, 404, "not_found", "server.api.team.not_found_in_org")),
        other => panic!("unexpected {}", reply_of(other)),
    }
    f.team_org = Some(Lookup::Missing);
    match remove_member_step(&f) {
        TeamStep::Reply(r) => assert!(is_reply(&r, 404, "not_found", "server.api.team.not_found")),
        other => panic!("unexpected {}", reply_of(other)),
    }
    f.target = None;
    f.team_org = Some(Lookup::Found(1));
    match remove_member_step(&f) {
        TeamStep::BadInput(k) => assert_eq!(k, "server.api.user.invalid_id"),
        other => panic!("unexpected {}", reply_of(other)),
    }
}

#[test]
fn test_count_maintainers() {
    assert_eq!(count_maintainers(&vec![]), 0);
    assert_eq!(count_maintainers(&vec![TeamRole::Member, TeamRole::Maintainer, TeamRole::Maintainer]), 2);
}

#[test]
fn test_add_member_steps() {
    let mut f = AddMemberFacts {
        org_id: Some(1),
        team_id: Some(2),
        target: Some(3),
        role: TeamRole::Member,
        team_org: Some(Lookup::Found(1)),
        authorized: Some(true),
        target_in_org: Some(Lookup::Missing),
        already_member: None,
        added: None,
    };
    match add_member_step(&f) {
        TeamStep::Reply(r) => assert!(is_reply(&r, 400, "not_org_member", "server.api.team.user_not_org_member")),
        other => panic!("unexpected {}", reply_of(other)),
    }
    f.target_in_org = Some(Lookup::Failed);
    match add_member_step(&f) {
        TeamStep::Reply(r) => {
            assert!(is_reply(&r, 500, "internal_error", "server.api.team.membership_check_failed"))
        },
        other => panic!("unexpected {}", reply_of(other)),
    }
    f.target_in_org = Some(Lookup::Found(()));
    f.already_member = Some(true);
    match add_member_step(&f) {
        TeamStep::Reply(r) => assert!(is_reply(&r, 409, "already_member", "server.api.team.already_member")),
        other => panic!("unexpected {}", reply_of(other)),
    }
    f.already_member = Some(false);
    f.role = TeamRole::Maintainer;
    assert!(matches!(add_member_step(&f), TeamStep::AddMember(TeamRole::Maintainer)));
}

#[test]
fn test_slug_and_name_rules() {
    assert_eq!(check_slug("a"), Some(SlugProblem::Length));
    assert_eq!(check_slug(&"a".repeat(51)), Some(SlugProblem::Length));
    assert_eq!(check_slug("Bad_Slug"), Some(SlugProblem::Format));
    assert_eq!(check_slug("good-slug-2"), None);
    assert!(!check_team_name(""));
    assert!(check_team_name("Platform"));
    assert!(check_team_name(&"x".repeat(100)));
    assert!(!check_team_name(&"x".repeat(101)));
    // 34 characters of 3 bytes each: 102 bytes.
    assert!(!check_team_name(&"\u{20ac}".repeat(34)));
}

#[test]
fn test_create_team_steps() {
    let mut f = CreateTeamFacts {
        org_id: Some(1),
        name: "Core".to_string(),
        slug: "UPPER".to_string(),
        org: None,
        authorized: None,
        slug_taken: None,
        created: None,
        creator_added: false,
    };
    match create_team_step(&f) {
        TeamStep::BadInput(k) => assert_eq!(k, "server.api.team.invalid_slug_format"),
        other => panic!("unexpected {}", reply_of(other)),
    }
    f.slug = "core".to_string();
    f.name = String::new();
    match create_team_step(&f) {
        TeamStep::Reply(r) => assert!(is_reply(&r, 400, "invalid_name", "server.api.team.invalid_name_length")),
        other => panic!("unexpected {}", reply_of(other)),
    }
    f.name = "Core".to_string();
    assert!(matches!(create_team_step(&f), TeamStep::LoadOrg));
    f.org = Some(Lookup::Found(()));
    assert!(matches!(create_team_step(&f), TeamStep::Authorize(TeamAction::ManageTeam)));
    f.authorized = Some(true);
    f.slug_taken = Some(true);
    match create_team_step(&f) {
        TeamStep::Reply(r) => assert!(is_reply(&r, 409, "slug_exists", "server.api.team.slug_exists")),
        other => panic!("unexpected {}", reply_of(other)),
    }
    f.slug_taken = Some(false);
    assert!(matches!(create_team_step(&f), TeamStep::CreateTeam));
    f.created = Some(true);
    assert!(matches!(create_team_step(&f), TeamStep::AddCreatorAsMaintainer));
    f.creator_added = true;
    assert!(matches!(create_team_step(&f), TeamStep::Done));
}

#[test]
fn test_update_team_slug_change() {
    let mut f = UpdateTeamFacts {
        org_id: Some(1),
        team_id: Some(2),
        team_org: Some(Lookup::Found(1)),
        current_name: "Core".to_string(),
        current_slug: "core".to_string(),
        name: None,
        slug: Some("core".to_string()),
        authorized: Some(true),
        slug_taken: None,
        saved: None,
    };
    match update_team_step(&f) {
        TeamStep::SaveTeam(n, s) => {
            assert_eq!(n, "Core");
            assert_eq!(s, "core");
        },
        other => panic!("unexpected {}", reply_of(other)),
    }
    f.slug = Some("platform".to_string());
    assert!(matches!(update_team_step(&f), TeamStep::FindSlug));
    f.slug_taken = Some(false);
    f.name = Some("Platform".to_string());
    match update_team_step(&f) {
        TeamStep::SaveTeam(n, s) => {
            assert_eq!(n, "Platform");
            assert_eq!(s, "platform");
        },
        other => panic!("unexpected {}", reply_of(other)),
    }
    f.authorized = None;
    assert!(matches!(update_team_step(&f), TeamStep::Authorize(TeamAction::Write)));
}

#[test]
fn test_team_access_and_listing() {
    let f = TeamAccessFacts { org_id: Some(1), team_id: Some(2), team_org: Some(Lookup::Found(1)), authorized: None, done: None };
    assert!(matches!(team_access_step(TeamAccess::Delete, &f), TeamStep::Authorize(TeamAction::Delete)));
    assert!(matches!(team_access_step(TeamAccess::Get, &f), TeamStep::Authorize(TeamAction::Read)));
    let f = TeamAccessFacts { authorized: Some(true), done: Some(true), ..f };
    match team_access_step(TeamAccess::Delete, &f) {
        TeamStep::Reply(r) => assert!(is_reply(&r, 200, "", "server.api.team.deleted")),
        other => panic!("unexpected {}", reply_of(other)),
    }
    let f = TeamAccessFacts { org_id: None, ..f };
    match team_access_step(TeamAccess::Get, &f) {
        TeamStep::BadInput(k) => assert_eq!(k, "server.api.org.invalid_id"),
        other => panic!("unexpected {}", reply_of(other)),
    }
    let l = ListTeamsFacts { org_id: Some(1), org: Some(Lookup::Found(())), membership: Some(Lookup::Missing), listed: None };
    match list_teams_step(&l) {
        TeamStep::Reply(r) => assert!(is_reply(&r, 403, "forbidden", "server.api.org.not_a_member")),
        other => panic!("unexpected {}", reply_of(other)),
    }
    assert_eq!(visible_email(Some("a@b.c".to_string()), false), None);
    assert_eq!(visible_email(Some("a@b.c".to_string()), true), Some("a@b.c".to_string()));
}

// ---------------------------------------------------------------- invitations

#[test]
fn test_invitation_token_shape() {
    let a = generate_invitation_token();
    let b = generate_invitation_token();
    assert_eq!(a.len(), 64);
    assert!(a.chars().all(|c| c.is_ascii_digit() || ('a'..='f').contains(&c)));
    assert_ne!(a, b);
}

#[test]
fn test_org_visibility_to_abac() {
    assert_eq!(org_visibility_to_abac(OrgVisibility::Public), AccessVisibility::Public);
    assert_eq!(org_visibility_to_abac(OrgVisibility::Unlisted), AccessVisibility::Organization);
    assert_eq!(org_visibility_to_abac(OrgVisibility::Private), AccessVisibility::Private);
}

#[test]
fn test_create_invitation_role_default_and_invalid() {
    let mut f = CreateInvitationFacts {
        org_id: Some(1),
        org: Some(Lookup::Found(())),
        authorized: Some(true),
        role: RequestedRole::Default,
        created: None,
        notified: false,
    };
    assert!(matches!(create_invitation_step(&f), InviteStep::CreateInvitation(OrgRole::Member)));
    f.role = RequestedRole::Valid(OrgRole::Admin);
    assert!(matches!(create_invitation_step(&f), InviteStep::CreateInvitation(OrgRole::Admin)));
    f.role = RequestedRole::Invalid;
    match create_invitation_step(&f) {
        InviteStep::BadInput(k) => assert_eq!(k, "server.api.org.invalid_role"),
        other => panic!("unexpected {}", reply_of(other)),
    }
    f.authorized = Some(false);
    assert!(matches!(create_invitation_step(&f), InviteStep::Denied));
}

#[test]
fn test_accept_invitation_paths() {
    let inv = InvitationState {
        org_id: 1,
        email: "ada@example.com".to_string(),
        role: OrgRole::Admin,
        valid: false,
        expired: true,
    };
    let mut f = AcceptInvitationFacts {
        caller_id: 7,
        caller_email: "Ada@Example.com".to_string(),
        invitation: Some(Lookup::Found(inv.clone())),
        already_member: None,
        org: None,
        added: None,
        marked: false,
    };
    match accept_invitation_step(&f) {
        InviteStep::Reply(r) => assert!(is_reply(&r, 400, "invalid_invitation", "server.api.invitation.expired")),
        other => panic!("unexpected {}", reply_of(other)),
    }
    f.invitation = Some(Lookup::Found(InvitationState { expired: false, ..inv.clone() }));
    match accept_invitation_step(&f) {
        InviteStep::Reply(r) => {
            assert!(is_reply(&r, 400, "invalid_invitation", "server.api.invitation.already_accepted"))
        },
        other => panic!("unexpected {}", reply_of(other)),
    }
    f.invitation = Some(Lookup::Found(InvitationState { valid: true, expired: false, ..inv.clone() }));
    f.already_member = Some(true);
    match accept_invitation_step(&f) {
        InviteStep::Reply(r) => assert!(is_reply(&r, 409, "already_member", "server.api.join_request.already_member")),
        other => panic!("unexpected {}", reply_of(other)),
    }
    f.already_member = Some(false);
    f.org = Some(Lookup::Found(()));
    assert!(matches!(accept_invitation_step(&f), InviteStep::AddMember(1, 7, OrgRole::Admin)));
    f.added = Some(true);
    assert!(matches!(accept_invitation_step(&f), InviteStep::MarkAccepted));
    f.invitation = Some(Lookup::Missing);
    match accept_invitation_step(&f) {
        InviteStep::Reply(r) => assert!(is_reply(&r, 404, "not_found", "server.api.invitation.invalid_token")),
        other => panic!("unexpected {}", reply_of(other)),
    }
}

#[test]
fn test_accept_invitation_only_by_invitee() {
    let f = AcceptInvitationFacts {
        caller_id: 8,
        caller_email: "eve@example.com".to_string(),
        invitation: Some(Lookup::Found(InvitationState {
            org_id: 1,
            email: "ada@example.com".to_string(),
            role: OrgRole::Owner,
            valid: true,
            expired: false,
        })),
        already_member: Some(false),
        org: Some(Lookup::Found(())),
        added: None,
        marked: false,
    };
    match accept_invitation_step(&f) {
        InviteStep::Reply(r) => assert!(is_reply(&r, 404, "not_found", "server.api.invitation.not_found")),
        other => panic!("unexpected {}", reply_of(other)),
    }
    let g = AcceptInvitationFacts { caller_email: "ADA@example.COM".to_string(), ..f };
    assert!(matches!(accept_invitation_step(&g), InviteStep::AddMember(1, 8, OrgRole::Owner)));
}

#[test]
fn test_invitation_sent_to_ignores_case() {
    assert!(invitation_sent_to("ada@example.com", "Ada@Example.COM"));
    assert!(!invitation_sent_to("ada@example.com", "ada@example.org"));
    assert!(!invitation_sent_to("ada@example.com", ""));
}

#[test]
fn test_new_invitation_token_goes_to_mail_only() {
    let token = generate_invitation_token();
    let hash = "9f86d081884c7d659a2feaa0c55ad015a3bf4f1b2b0b822cd15d6c15b0f00a08";
    let (stored, mail) = prepare_invitation(1, "ada@example.com", OrgRole::Admin, 7, "Grace", "Acme", &token, hash);
    assert_eq!(stored.org_id, 1);
    assert_eq!(stored.email, "ada@example.com");
    assert_eq!(stored.role, OrgRole::Admin);
    assert_eq!(stored.invited_by, 7);
    assert_eq!(stored.token_hash, hash);
    assert_eq!(mail.to, "ada@example.com");
    assert_eq!(mail.org_name, "Acme");
    assert_eq!(mail.inviter_name, "Grace");
    assert_eq!(mail.token, token);
    let body = created_invitation("inv-1", "ada@example.com", OrgRole::Admin, "2025-01-08T00:00:00+00:00");
    assert_eq!(body.id, "inv-1");
    assert_eq!(body.email, "ada@example.com");
    assert_eq!(body.role, OrgRole::Admin);
    assert_eq!(body.expires_at, "2025-01-08T00:00:00+00:00");
    let text = format!("{:?} {:?}", stored, body);
    assert!(!text.contains(&token));
}

#[test]
fn test_cancel_invitation_other_org() {
    let f = CancelInvitationFacts {
        org_id: Some(1),
        org: Some(Lookup::Found(())),
        authorized: Some(true),
        invitation_org: Some(Lookup::Found(2)),
        deleted: None,
    };
    match cancel_invitation_step(&f) {
        InviteStep::Reply(r) => assert!(is_reply(&r, 404, "not_found", "server.api.invitation.not_found")),
        other => panic!("unexpected {}", reply_of(other)),
    }
    let f = CancelInvitationFacts { invitation_org: Some(Lookup::Found(1)), deleted: Some(true), ..f };
    match cancel_invitation_step(&f) {
        InviteStep::Reply(r) => assert!(is_reply(&r, 200, "", "server.api.invitation.cancelled")),
        other => panic!("unexpected {}", reply_of(other)),
    }
}

#[test]
fn test_join_requests() {
    let f = CreateJoinRequestFacts { org_id: Some(1), org: Some(Lookup::Found(OrgVisibility::Private)), already_member: None, created: None };
    match create_join_request_step(&f) {
        InviteStep::Reply(r) => assert!(is_reply(&r, 403, "forbidden", "server.api.join_request.private_org")),
        other => panic!("unexpected {}", reply_of(other)),
    }
    let f = CreateJoinRequestFacts { org: Some(Lookup::Found(OrgVisibility::Public)), already_member: Some(false), created: Some(true), ..f };
    match create_join_request_step(&f) {
        InviteStep::Reply(r) => assert!(is_reply(&r, 201, "", "server.api.join_request.created")),
        other => panic!("unexpected {}", reply_of(other)),
    }
    let mut h = HandleJoinRequestFacts {
        org_id: Some(1),
        org: Some(Lookup::Found(())),
        authorized: Some(true),
        request: Some(Lookup::Found(JoinRequestState { org_id: 1, user_id: 9, handled: true })),
        done: None,
        marked: false,
    };
    match approve_join_request_step(&h) {
        InviteStep::Reply(r) => {
            assert!(is_reply(&r, 400, "already_handled", "server.api.join_request.already_pending"))
        },
        other => panic!("unexpected {}", reply_of(other)),
    }
    h.request = Some(Lookup::Found(JoinRequestState { org_id: 1, user_id: 9, handled: false }));
    assert!(matches!(approve_join_request_step(&h), InviteStep::AddMember(1, 9, OrgRole::Member)));
    assert!(matches!(reject_join_request_step(&h), InviteStep::RecordRejection));
    h.done = Some(true);
    assert!(matches!(approve_join_request_step(&h), InviteStep::MarkApproved));
    h.marked = true;
    match approve_join_request_step(&h) {
        InviteStep::Reply(r) => assert!(is_reply(&r, 200, "", "server.api.join_request.approved")),
        other => panic!("unexpected {}", reply_of(other)),
    }
    h.request = Some(Lookup::Found(JoinRequestState { org_id: 2, user_id: 9, handled: false }));
    match reject_join_request_step(&h) {
        InviteStep::Reply(r) => assert!(is_reply(&r, 404, "not_found", "server.api.join_request.not_found")),
        other => panic!("unexpected {}", reply_of(other)),
    }
}

#[test]
fn test_invitation_listings_and_lookup() {
    let f = ListPendingFacts { org_id: Some(1), org: Some(Lookup::Failed), authorized: None, listed: None };
    match list_invitations_step(&f) {
        InviteStep::Reply(r) => assert!(is_reply(&r, 500, "internal_error", "server.api.invitation.list_failed")),
        other => panic!("unexpected {}", reply_of(other)),
    }
    match list_join_requests_step(&f) {
        InviteStep::Reply(r) => assert!(is_reply(&r, 500, "internal_error", "server.api.error.internal")),
        other => panic!("unexpected {}", reply_of(other)),
    }
    let g = GetInvitationFacts { invitation: Some(Lookup::Found(())), org: Some(Lookup::Missing) };
    match get_invitation_step(&g) {
        InviteStep::Reply(r) => assert!(is_reply(&r, 404, "not_found", "server.api.org.not_found")),
        other => panic!("unexpected {}", reply_of(other)),
    }
    assert_eq!(display_name_or_unknown(None), "Unknown");
    assert_eq!(display_name_or_unknown(Some("Ada".to_string())), "Ada");
}

// ---------------------------------------------------------------- crons

#[test]
fn test_ping_status_from_exit_code() {
    assert_eq!(status_of_ping(None), CheckInStatus::Success);
    assert_eq!(status_of_ping(Some(0)), CheckInStatus::Success);
    assert_eq!(status_of_ping(Some(2)), CheckInStatus::Error);
    assert!(status_is_failure(CheckInStatus::Timeout));
    assert!(status_is_failure(CheckInStatus::Missed));
    assert!(!status_is_failure(CheckInStatus::InProgress));
}

#[test]
fn test_monitor_update_and_event() {
    let u = monitor_update_for(CheckInStatus::Error);
    assert_eq!(u.health, MonitorHealth::Failing);
    assert!(u.failure);
    let u = monitor_update_for(CheckInStatus::Success);
    assert_eq!(u.health, MonitorHealth::Healthy);
    assert!(!u.failure);
    assert_eq!(
        event_for_checkin(CheckInStatus::Timeout, Some(5), Some(1), 3),
        CronEvent::Failed { exit_code: Some(1), consecutive_failures: 4 }
    );
    assert_eq!(event_for_checkin(CheckInStatus::Success, Some(5), None, 3), CronEvent::Succeeded { duration_ms: Some(5) });
    assert_eq!(event_for_checkin(CheckInStatus::InProgress, None, None, 0), CronEvent::Started);
}

#[test]
fn test_ping_checkins() {
    let c = checkin_of_ping(PingKind::Start, Some(1), Some("out".to_string()), 1000);
    assert_eq!(c.status, CheckInStatus::InProgress);
    assert_eq!(c.started_at, Some(1000));
    assert_eq!(c.exit_code, None);
    assert_eq!(c.output, None);
    let c = checkin_of_ping(PingKind::Finished, Some(3), ping_output(false, "log".to_string()), 1000);
    assert_eq!(c.status, CheckInStatus::Error);
    assert_eq!(c.started_at, None);
    assert_eq!(c.exit_code, Some(3));
    assert_eq!(c.output, Some("log".to_string()));
    assert_eq!(c.source, CheckInSource::Ping);
    assert_eq!(ping_output(true, String::new()), None);
}

#[test]
fn test_ping_flow() {
    let mut f = PingFacts {
        kind: PingKind::Start,
        exit_code: None,
        output: None,
        now: 10,
        monitor: Some(Lookup::Found(2)),
        stored: Some(true),
        monitor_updated: false,
        broadcast: false,
    };
    assert!(matches!(ping_step(&f), CronStep::Broadcast(CronEvent::Started)));
    f.kind = PingKind::Fail;
    match ping_step(&f) {
        CronStep::UpdateMonitor(u) => assert_eq!(u.health, MonitorHealth::Failing),
        other => panic!("unexpected {}", reply_of(other)),
    }
    f.monitor_updated = true;
    assert!(matches!(
        ping_step(&f),
        CronStep::Broadcast(CronEvent::Failed { exit_code: None, consecutive_failures: 3 })
    ));
    f.monitor = Some(Lookup::Missing);
    assert!(matches!(ping_step(&f), CronStep::Status(404)));
}

fn report(status: CheckInStatus) -> CheckInReport {
    CheckInReport {
        status,
        started_at: None,
        finished_at: None,
        duration_ms: Some(12),
        exit_code: None,
        output: None,
        crash_event_id: None,
    }
}

#[test]
fn test_sdk_checkin() {
    let c = checkin_of_report(report(CheckInStatus::InProgress), 50);
    assert_eq!(c.started_at, Some(50));
    assert_eq!(c.finished_at, 50);
    assert_eq!(c.source, CheckInSource::Sdk);
    let c = checkin_of_report(report(CheckInStatus::Success), 50);
    assert_eq!(c.started_at, None);
    let f = SdkCheckInFacts {
        report: report(CheckInStatus::InProgress),
        now: 50,
        membership: Some(Lookup::Found(())),
        monitor: Some(Lookup::Found(0)),
        stored: Some(true),
        monitor_updated: false,
        broadcast: false,
    };
    assert!(matches!(sdk_checkin_step(&f), CronStep::Broadcast(CronEvent::Started)));
    let f = SdkCheckInFacts { report: report(CheckInStatus::Success), ..f };
    assert!(matches!(sdk_checkin_step(&f), CronStep::UpdateMonitor(_)));
    let f = SdkCheckInFacts { monitor_updated: true, broadcast: true, ..f };
    assert!(matches!(sdk_checkin_step(&f), CronStep::Status(201)));
    let f = SdkCheckInFacts { membership: Some(Lookup::Missing), ..f };
    match sdk_checkin_step(&f) {
        CronStep::Reply(r) => assert!(is_reply(&r, 403, "forbidden", "server.api.org.not_a_member")),
        other => panic!("unexpected {}", reply_of(other)),
    }
}

fn stored_checkin() -> CheckIn {
    CheckIn {
        status: CheckInStatus::InProgress,
        started_at: Some(1_000),
        finished_at: 1_000,
        duration_ms: None,
        exit_code: None,
        output: None,
        crash_event_id: None,
        source: CheckInSource::Sdk,
    }
}

#[test]
fn test_checkin_update_computes_duration() {
    let u = CheckInUpdate {
        status: CheckInStatus::Success,
        finished_at: Some(4_500),
        duration_ms: None,
        exit_code: Some(0),
        output: Some("done".to_string()),
        crash_event_id: None,
    };
    let c = apply_checkin_update(stored_checkin(), u, 9_999);
    assert_eq!(c.duration_ms, Some(3_500));
    assert_eq!(c.finished_at, 4_500);
    assert_eq!(c.exit_code, Some(0));
    assert_eq!(c.output, Some("done".to_string()));
    let u = CheckInUpdate {
        status: CheckInStatus::Error,
        finished_at: None,
        duration_ms: Some(7),
        exit_code: None,
        output: None,
        crash_event_id: Some("evt".to_string()),
    };
    let c = apply_checkin_update(stored_checkin(), u, 9_999);
    assert_eq!(c.duration_ms, Some(7));
    assert_eq!(c.finished_at, 9_999);
    assert_eq!(c.crash_event_id, Some("evt".to_string()));
}

#[test]
fn test_update_checkin_flow() {
    let upd = CheckInUpdate {
        status: CheckInStatus::InProgress,
        finished_at: None,
        duration_ms: None,
        exit_code: None,
        output: None,
        crash_event_id: None,
    };
    let f = UpdateCheckInFacts {
        update: upd,
        now: 2_000,
        checkin: Some(Lookup::Found(stored_checkin())),
        monitor: Some(Lookup::Found(1)),
        membership: Some(Lookup::Found(())),
        saved: Some(true),
        monitor_updated: false,
        broadcast: false,
    };
    // Unlike a new SDK check-in, an update always updates the monitor.
    match update_checkin_step(&f) {
        CronStep::UpdateMonitor(u) => assert_eq!(u.health, MonitorHealth::Healthy),
        other => panic!("unexpected {}", reply_of(other)),
    }
    let f = UpdateCheckInFacts { checkin: Some(Lookup::Failed), ..f };
    assert!(matches!(update_checkin_step(&f), CronStep::Status(500)));
}

#[test]
fn test_monitor_handlers() {
    let f = MonitorAccessFacts { membership: Some(Lookup::Found(())), monitor: Some(Lookup::Found(())), done: Some(true) };
    assert!(matches!(monitor_access_step(MonitorHandler::Delete, &f), CronStep::Status(204)));
    let f = MonitorAccessFacts { done: None, ..f };
    assert!(matches!(monitor_access_step(MonitorHandler::ListCheckIns(checkin_limit(None)), &f), CronStep::ListCheckIns(50)));
    let f = MonitorAccessFacts { done: Some(false), ..f };
    assert!(matches!(monitor_access_step(MonitorHandler::List, &f), CronStep::Status(500)));
    match monitor_access_step(MonitorHandler::Stream, &f) {
        CronStep::Reply(r) => assert!(is_reply(&r, 500, "internal_error", "server.api.error.internal")),
        other => panic!("unexpected {}", reply_of(other)),
    }
    let c = CreateMonitorFacts { membership: Some(Lookup::Found(())), slug_valid: false, slug_taken: None, created: None };
    match create_monitor_step(&c) {
        CronStep::ErrorText(400, t) => assert_eq!(t, "Invalid slug"),
        other => panic!("unexpected {}", reply_of(other)),
    }
    let c = CreateMonitorFacts { slug_valid: true, slug_taken: Some(true), ..c };
    match create_monitor_step(&c) {
        CronStep::ErrorText(409, t) => assert_eq!(t, "Duplicate slug"),
        other => panic!("unexpected {}", reply_of(other)),
    }
    assert_eq!(checkin_limit(Some(7)), 7);
    assert_eq!(default_timezone(), "UTC");
    assert_eq!(default_margin(), 5);
    assert_eq!(ping_url("https://loom.example", "abc"), "https://loom.example/ping/abc");
}

// ---------------------------------------------------------------- flags

#[test]
fn test_create_flag_checks() {
    let mut f = CreateFlagFacts {
        is_admin: true,
        key_valid: true,
        duplicate: Some(false),
        variant_names: vec![],
        default_variant: "on".to_string(),
        created: None,
    };
    match create_flag_step(&f) {
        FlagStep::Reply(r) => assert!(is_reply(&r, 400, "no_variants", "server.api.flags.variant_not_found")),
        other => panic!("unexpected {}", reply_of(other)),
    }
    f.variant_names = vec!["off".to_string()];
    match create_flag_step(&f) {
        FlagStep::Reply(r) => assert!(is_reply(&r, 400, "invalid_default", "server.api.flags.default_variant_missing")),
        other => panic!("unexpected {}", reply_of(other)),
    }
    f.variant_names.push("on".to_string());
    assert!(matches!(create_flag_step(&f), FlagStep::CreateFlag));
    f.duplicate = Some(true);
    match create_flag_step(&f) {
        FlagStep::Reply(r) => assert!(is_reply(&r, 409, "duplicate_key", "server.api.flags.duplicate_flag_key")),
        other => panic!("unexpected {}", reply_of(other)),
    }
    f.key_valid = false;
    match create_flag_step(&f) {
        FlagStep::Reply(r) => assert!(is_reply(&r, 400, "invalid_key", "server.api.flags.invalid_flag_key")),
        other => panic!("unexpected {}", reply_of(other)),
    }
    f.is_admin = false;
    match create_flag_step(&f) {
        FlagStep::Reply(r) => assert_eq!(r.status, 403),
        other => panic!("unexpected {}", reply_of(other)),
    }
    assert!(contains_name(&vec!["a".to_string(), "b".to_string()], "b"));
    assert!(!contains_name(&vec![], "b"));
}

fn flag_fields() -> FlagFields {
    FlagFields {
        name: "Dark mode".to_string(),
        description: None,
        tags: vec!["ui".to_string()],
        maintainer: Some(4),
        variant_names: vec!["on".to_string(), "off".to_string()],
        default_variant: "off".to_string(),
    }
}

fn empty_patch() -> FlagPatch {
    FlagPatch {
        name: None,
        description: None,
        tags: None,
        maintainer: None,
        variant_names: None,
        default_variant: None,
        prerequisites_given: false,
    }
}

#[test]
fn test_update_flag_default_checked_against_new_variants() {
    let patch = FlagPatch {
        variant_names: Some(vec!["a".to_string(), "b".to_string()]),
        default_variant: Some("on".to_string()),
        ..empty_patch()
    };
    let f = UpdateFlagFacts { is_admin: true, patch, flag: Some(Lookup::Found(flag_fields())), saved: None };
    match update_flag_step(&f) {
        FlagStep::Reply(r) => assert!(is_reply(&r, 400, "invalid_default", "server.api.flags.default_variant_missing")),
        other => panic!("unexpected {}", reply_of(other)),
    }
    let patch = FlagPatch { name: Some("Dark".to_string()), maintainer: Some(None), ..empty_patch() };
    let patched = patch_flag(&flag_fields(), &patch);
    assert_eq!(patched.name, "Dark");
    assert_eq!(patched.maintainer, None);
    assert_eq!(patched.default_variant, "off");
    assert_eq!(patched.tags, vec!["ui".to_string()]);
    let f = UpdateFlagFacts { is_admin: true, patch, flag: Some(Lookup::Missing), saved: None };
    match update_flag_step(&f) {
        FlagStep::NotFound(k) => assert_eq!(k, "server.api.flags.flag_not_found"),
        other => panic!("unexpected {}", reply_of(other)),
    }
}

#[test]
fn test_flag_access_handlers() {
    let f = FlagAccessFacts { is_admin: true, target: Some(Lookup::Found(())), done: Some(true) };
    match flag_access_step(FlagHandler::ArchiveFlag, &f) {
        FlagStep::Reply(r) => assert!(is_reply(&r, 200, "", "server.api.flags.flag_archived")),
        other => panic!("unexpected {}", reply_of(other)),
    }
    match flag_access_step(FlagHandler::DeleteKillSwitch, &f) {
        FlagStep::Reply(r) => assert!(is_reply(&r, 200, "", "server.api.flags.kill_switch_deleted")),
        other => panic!("unexpected {}", reply_of(other)),
    }
    let f = FlagAccessFacts { target: Some(Lookup::Missing), ..f };
    match flag_access_step(FlagHandler::GetKillSwitch, &f) {
        FlagStep::NotFound(k) => assert_eq!(k, "server.api.flags.kill_switch_not_found"),
        other => panic!("unexpected {}", reply_of(other)),
    }
    let f = FlagAccessFacts { done: Some(false), ..f };
    assert!(matches!(flag_access_step(FlagHandler::ListFlags, &f), FlagStep::InternalError));
}

#[test]
fn test_kill_switch_activation_roundtrip() {
    let ks = new_kill_switch("Payments".to_string(), None, vec!["checkout".to_string()], 100);
    assert!(!ks.is_active);
    let on = activate_kill_switch(&ks, 42, "incident 7", 200);
    assert!(on.is_active);
    assert_eq!(on.activated_at, Some(200));
    assert_eq!(on.activated_by, Some(42));
    assert_eq!(on.activation_reason, Some("incident 7".to_string()));
    assert_eq!(on.linked_flag_keys, vec!["checkout".to_string()]);
    let off = deactivate_kill_switch(&on, 300);
    assert!(!off.is_active);
    assert_eq!(off.activated_at, None);
    assert_eq!(off.activated_by, None);
    assert_eq!(off.activation_reason, None);
    assert_eq!(off.updated_at, 300);
    assert_eq!(off.name, "Payments");
    let renamed = patch_kill_switch(
        &on,
        &KillSwitchPatch { name: Some("Pay".to_string()), description: None, linked_flag_keys: None },
        400,
    );
    assert_eq!(renamed.name, "Pay");
    assert!(renamed.is_active);
    assert_eq!(renamed.activation_reason, Some("incident 7".to_string()));
}

#[test]
fn test_kill_switch_activation_needs_reason() {
    let ks = new_kill_switch("Payments".to_string(), None, vec![], 100);
    let mut f = KillSwitchChangeFacts {
        is_admin: true,
        actor: 1,
        now: 5,
        change: KillSwitchChange::Activate("   ".to_string()),
        kill_switch: Some(Lookup::Found(ks)),
        saved: None,
        broadcast: false,
    };
    match kill_switch_change_step(&f) {
        FlagStep::Reply(r) => {
            assert!(is_reply(&r, 400, "reason_required", "server.api.flags.activation_reason_required"))
        },
        other => panic!("unexpected {}", reply_of(other)),
    }
    f.change = KillSwitchChange::Activate("outage".to_string());
    match kill_switch_change_step(&f) {
        FlagStep::SaveKillSwitch(k) => assert!(k.is_active),
        other => panic!("unexpected {}", reply_of(other)),
    }
    f.saved = Some(true);
    assert!(matches!(kill_switch_change_step(&f), FlagStep::Broadcast));
    f.change = KillSwitchChange::Update(KillSwitchPatch { name: None, description: None, linked_flag_keys: None });
    assert!(matches!(kill_switch_change_step(&f), FlagStep::Done));
    let c = CreateKillSwitchFacts { is_admin: true, key_valid: true, duplicate: Some(true), created: None };
    match create_kill_switch_step(&c) {
        FlagStep::Reply(r) => {
            assert!(is_reply(&r, 409, "duplicate_key", "server.api.flags.duplicate_kill_switch_key"))
        },
        other => panic!("unexpected {}", reply_of(other)),
    }
}

// ---------------------------------------------------------------- secrets

fn secret_facts(scope: SecretScopeKind, op: SecretOp, role: OrgRole) -> SecretFacts {
    SecretFacts {
        scope,
        op,
        id_valid: true,
        scm_configured: true,
        repo: Some(Lookup::Found(())),
        role: Some(Lookup::Found(role)),
        service_configured: true,
        secret: None,
        created: None,
        done: None,
    }
}

#[test]
fn test_secret_access_by_role() {
    let f = secret_facts(SecretScopeKind::Org, SecretOp::List, OrgRole::Member);
    assert!(matches!(secret_step(&f), SecretStep::ListSecrets));
    let f = secret_facts(SecretScopeKind::Org, SecretOp::Create, OrgRole::Member);
    match secret_step(&f) {
        SecretStep::Reply(r) => assert!(is_reply(&r, 403, "forbidden", "server.api.org.admin_required")),
        other => panic!("unexpected {}", reply_of(other)),
    }
    let f = secret_facts(SecretScopeKind::Repo, SecretOp::Get, OrgRole::Member);
    assert!(matches!(secret_step(&f), SecretStep::Reply(_)));
    let f = secret_facts(SecretScopeKind::Repo, SecretOp::Get, OrgRole::Owner);
    assert!(matches!(secret_step(&f), SecretStep::LoadSecret));
    let mut f = secret_facts(SecretScopeKind::Org, SecretOp::Get, OrgRole::Member);
    f.role = Some(Lookup::Missing);
    match secret_step(&f) {
        SecretStep::Reply(r) => assert!(is_reply(&r, 403, "forbidden", "server.api.org.not_a_member")),
        other => panic!("unexpected {}", reply_of(other)),
    }
}

#[test]
fn test_secret_outcomes() {
    let mut f = secret_facts(SecretScopeKind::Org, SecretOp::Create, OrgRole::Admin);
    f.created = Some(CreateOutcome::InvalidName("bad name".to_string()));
    match secret_step(&f) {
        SecretStep::Reply(r) => {
            assert!(is_reply(&r, 400, "invalid_name", "bad name"));
            assert!(!r.translate);
        },
        other => panic!("unexpected {}", reply_of(other)),
    }
    f.created = Some(CreateOutcome::AlreadyExists);
    match secret_step(&f) {
        SecretStep::Reply(r) => assert!(is_reply(&r, 409, "already_exists", "server.api.secrets.already_exists")),
        other => panic!("unexpected {}", reply_of(other)),
    }
    f.service_configured = false;
    match secret_step(&f) {
        SecretStep::Reply(r) => assert!(is_reply(&r, 503, "not_configured", "server.api.secrets.not_configured")),
        other => panic!("unexpected {}", reply_of(other)),
    }
    let mut f = secret_facts(SecretScopeKind::Repo, SecretOp::Delete, OrgRole::Admin);
    f.scm_configured = false;
    match secret_step(&f) {
        SecretStep::Reply(r) => assert!(is_reply(&r, 503, "not_configured", "server.api.scm.not_configured")),
        other => panic!("unexpected {}", reply_of(other)),
    }
    f.scm_configured = true;
    f.id_valid = false;
    match secret_step(&f) {
        SecretStep::BadInput(k) => assert_eq!(k, "server.api.repo.invalid_id"),
        other => panic!("unexpected {}", reply_of(other)),
    }
    let mut f = secret_facts(SecretScopeKind::Org, SecretOp::Delete, OrgRole::Owner);
    f.secret = Some(Lookup::Found(()));
    f.done = Some(true);
    match secret_step(&f) {
        SecretStep::Reply(r) => assert!(is_reply(&r, 200, "", "server.api.secrets.deleted")),
        other => panic!("unexpected {}", reply_of(other)),
    }
}

// ---------------------------------------------------------------- repository access

#[test]
fn test_repo_roles() {
    assert_eq!(higher_role(Some(RepoRole::Read), Some(RepoRole::Admin)), Some(RepoRole::Admin));
    assert_eq!(higher_role(Some(RepoRole::Write), None), Some(RepoRole::Write));
    assert_eq!(higher_role(None, None), None);
    assert_eq!(get_direct_role(RepoOwner::User(3), 3, Lookup::Missing), Some(RepoRole::Admin));
    assert_eq!(get_direct_role(RepoOwner::User(3), 4, Lookup::Missing), None);
    assert_eq!(get_direct_role(RepoOwner::Org(9), 4, Lookup::Found(OrgRole::Member)), Some(RepoRole::Read));
    assert_eq!(get_direct_role(RepoOwner::Org(9), 4, Lookup::Found(OrgRole::Owner)), Some(RepoRole::Admin));
    assert_eq!(get_direct_role(RepoOwner::Org(9), 4, Lookup::Failed), None);
    assert_eq!(get_user_repo_role(Some(RepoRole::Read), Some(RepoRole::Write)), Some(RepoRole::Write));
    assert!(check_user_is_repo_admin(Some(RepoRole::Admin)));
    assert!(!check_user_is_repo_admin(Some(RepoRole::Write)));
}

#[test]
fn test_repo_read_write_checks() {
    assert_eq!(check_read_access(true, None), Ok(()));
    assert_eq!(check_read_access(false, None), Err(AccessRefusal::AuthRequiredPrivate));
    assert_eq!(check_read_access(false, Some(None)), Err(AccessRefusal::AccessDenied));
    assert_eq!(check_read_access(false, Some(Some(RepoRole::Read))), Ok(()));
    assert_eq!(check_write_access(None), Err(AccessRefusal::AuthRequiredPush));
    assert_eq!(check_write_access(Some(Some(RepoRole::Read))), Err(AccessRefusal::WriteAccessDenied));
    assert_eq!(check_write_access(Some(Some(RepoRole::Write))), Ok(()));
}

#[test]
fn test_resolve_repo_order() {
    let mut f = ResolveFacts {
        scm_configured: true,
        owner_uuid: Some(5),
        by_user_id: None,
        by_org_id: None,
        org_by_slug: None,
        by_org_slug: None,
        user_by_name: None,
        by_username: None,
    };
    assert_eq!(resolve_repo_step(&f), ResolveStep::FindByUser(5));
    f.by_user_id = Some(Lookup::Missing);
    assert_eq!(resolve_repo_step(&f), ResolveStep::FindByOrg(5));
    f.by_org_id = Some(Lookup::Missing);
    assert_eq!(resolve_repo_step(&f), ResolveStep::FindOrgBySlug);
    f.org_by_slug = Some(Lookup::Found(8));
    assert_eq!(resolve_repo_step(&f), ResolveStep::FindByOrg(8));
    f.by_org_slug = Some(Lookup::Missing);
    assert_eq!(resolve_repo_step(&f), ResolveStep::FindUserByName);
    f.user_by_name = Some(None);
    assert_eq!(resolve_repo_step(&f), ResolveStep::NotFound);
    f.user_by_name = Some(Some(11));
    assert_eq!(resolve_repo_step(&f), ResolveStep::FindByUser(11));
    f.by_username = Some(Lookup::Found(()));
    assert_eq!(resolve_repo_step(&f), ResolveStep::Found);
    f.by_user_id = Some(Lookup::Failed);
    assert_eq!(resolve_repo_step(&f), ResolveStep::StoreError);
    f.scm_configured = false;
    assert_eq!(resolve_repo_step(&f), ResolveStep::NotConfigured);
}

// ---------------------------------------------------------------- daemon

#[test]
fn test_daemon_address_and_status() {
    let cfg = DaemonConfig { host: "127.0.0.1".to_string(), port: 7420, token: "t".to_string() };
    assert_eq!(cfg.address(), "127.0.0.1:7420");
    let s = daemon_status_of(true, &Some(cfg));
    assert!(s.connected);
    assert_eq!(s.host, Some("127.0.0.1".to_string()));
    assert_eq!(s.port, Some(7420));
    let s = daemon_status_of(false, &None);
    assert_eq!(s.host, None);
}

#[test]
fn test_daemon_incoming_and_replies() {
    assert_eq!(incoming_kind(true, true), IncomingKind::Reply);
    assert_eq!(incoming_kind(false, true), IncomingKind::Event);
    assert_eq!(incoming_kind(false, false), IncomingKind::Ignored);
    assert_eq!(reply_outcome(&ReplyBody::Result), Ok(()));
    assert_eq!(
        reply_outcome(&ReplyBody::Error { code: Some("E1".to_string()), message: Some("boom".to_string()) }),
        Err("E1: boom".to_string())
    );
    assert_eq!(reply_outcome(&ReplyBody::Error { code: None, message: None }), Err("unknown: ".to_string()));
    assert_eq!(reply_outcome(&ReplyBody::Missing), Err("Invalid response".to_string()));
    assert_eq!(forwarded_event_name("terminal_output"), Some("daemon:terminal_output"));
    assert_eq!(forwarded_event_name("terminal_exited"), Some("daemon:terminal_exited"));
    assert_eq!(forwarded_event_name("other"), None);
    assert_eq!(auth_outcome(Some(true)), Ok(()));
    assert_eq!(auth_outcome(Some(false)), Err("daemon_auth_failed"));
    assert_eq!(auth_outcome(None), Err("daemon_auth_failed"));
}

#[test]
fn test_daemon_request_ids_and_backoff() {
    let mut ids = RequestIds::new();
    assert_eq!(ids.next_id(), 1);
    assert_eq!(ids.next_id(), 2);
    let delays: Vec<u64> = (0..6).map(reconnect_delay_secs).collect();
    assert_eq!(delays, vec![1, 2, 5, 10, 30, 30]);
    assert_eq!(next_reconnect_attempt(2, false), 3);
    assert_eq!(next_reconnect_attempt(4, false), 4);
    assert_eq!(next_reconnect_attempt(4, true), 0);
}

#[test]
fn test_daemon_terminals() {
    assert_eq!(terminal_key("s1", "t1"), "s1:t1");
    assert_eq!(check_terminal_id(""), Err("Terminal id is required"));
    assert_eq!(check_terminal_id("t"), Ok(()));
    assert_eq!(pty_size(0, 1), (2, 2));
    assert_eq!(pty_size(80, 24), (80, 24));
    assert_eq!(shell_path(None), "/bin/bash");
    assert_eq!(shell_path(Some("/bin/zsh".to_string())), "/bin/zsh");
}

#[test]
fn test_daemon_reconnect_step() {
    assert_eq!(reconnect_step(true, true, 3), ReconnectStep::StayConnected);
    assert_eq!(reconnect_step(false, false, 3), ReconnectStep::Idle);
    assert_eq!(reconnect_step(false, true, 0), ReconnectStep::Retry { delay_secs: 1 });
    assert_eq!(reconnect_step(false, true, 9), ReconnectStep::Retry { delay_secs: 30 });
}

#[test]
fn invitation_token_is_two_v4_uuids() {
    let t = generate_invitation_token();
    assert_eq!(t.len(), 64);
    for half in [&t[..32], &t[32..]] {
        assert_eq!(&half[12..13], "4");
        assert!(matches!(&half[16..17], "8" | "9" | "a" | "b"));
    }
}
