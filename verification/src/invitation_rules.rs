//! Decisions of the invitation and join-request endpoints of an
//! organization.
//!
//! Managing invitations and join requests needs the `ManageOrg`
//! permission; accepting an invitation or asking to join only needs a
//! signed-in user; reading an invitation by its token is public. Each
//! handler is a step function over what it has learnt so far (see
//! `replies`).
use vstd::prelude::*;
use crate::replies::{internal_error, internal_error_reply, keyed, keyed_reply, Lookup, Reply, ReplyView};
use crate::sys::{lower_hex_digit, lowercase_text, new_uuid_v4_simple, to_lowercase};
use crate::text::{concat2, str_eq, string_of_str};

verus! {

/// The role of a member of an organization.
#[derive(Debug, Clone, Copy, PartialEq, Eq, Structural)]
pub enum OrgRole {
    Owner,
    Admin,
    Member,
}

/// Who may see an organization.
#[derive(Debug, Clone, Copy, PartialEq, Eq, Structural)]
pub enum OrgVisibility {
    Public,
    Unlisted,
    Private,
}

/// A fresh invitation token: two random identifiers in their simple form,
/// one after the other, 64 lowercase hexadecimal digits.
pub fn generate_invitation_token() -> (r: String)
    ensures
        r@.len() == 64,
        forall|i: int| 0 <= i < 64 ==> lower_hex_digit(#[trigger] r@[i]),
        crate::sys::is_v4_uuid_simple(r@.subrange(0, 32)),
        crate::sys::is_v4_uuid_simple(r@.subrange(32, 64)),
{
    let a = new_uuid_v4_simple();
    let b = new_uuid_v4_simple();
    let r = concat2(a.as_str(), b.as_str());
    assert forall|i: int| 0 <= i < 64 implies lower_hex_digit(#[trigger] r@[i]) by {
        if i < 32 {
            assert(r@[i] == a@[i]);
        } else {
            assert(r@[i] == b@[i - 32]);
        }
    }
    r
}

/// The visibility an organization has for the access control.
#[derive(Debug, Clone, Copy, PartialEq, Eq, Structural)]
pub enum AccessVisibility {
    Public,
    Organization,
    Private,
}

/// The visibility an organization has for the access control: an unlisted
/// organization is visible to its members.
pub fn org_visibility_to_abac(v: OrgVisibility) -> (r: AccessVisibility)
    ensures
        r == (match v {
            OrgVisibility::Public => AccessVisibility::Public,
            OrgVisibility::Unlisted => AccessVisibility::Organization,
            OrgVisibility::Private => AccessVisibility::Private,
        }),
{
    match v {
        OrgVisibility::Public => AccessVisibility::Public,
        OrgVisibility::Unlisted => AccessVisibility::Organization,
        OrgVisibility::Private => AccessVisibility::Private,
    }
}

/// The role requested for an invitation.
#[derive(Debug, Clone, Copy, PartialEq, Eq, Structural)]
pub enum RequestedRole {
    /// No role was given: the invitee becomes a member.
    Default,
    Valid(OrgRole),
    /// The given role is no role of an organization.
    Invalid,
}

/// The next step of an invitation or join-request handler.
#[derive(Debug, Clone)]
pub enum InviteStep {
    /// Reject the input as the shared validation does (400), with this
    /// message key.
    BadInput(String),
    LoadOrg,
    /// Ask the access control for `ManageOrg` on the organization.
    Authorize,
    /// The access control refused: send its reply.
    Denied,
    ListInvitations,
    CreateInvitation(OrgRole),
    NotifyInvitee,
    LoadInvitation,
    DeleteInvitation,
    CheckMembership,
    /// Add the user (the second id) to the organization (the first) with
    /// the role.
    AddMember(u128, u128, OrgRole),
    MarkAccepted,
    ListJoinRequests,
    CreateJoinRequest,
    LoadJoinRequest,
    MarkApproved,
    RecordRejection,
    Reply(Reply),
    /// Success: the handler answers with the data it gathered.
    Done,
}

/// The next step of an invitation or join-request handler, as plain values.
pub enum InviteStepView {
    BadInput(Seq<char>),
    LoadOrg,
    Authorize,
    Denied,
    ListInvitations,
    CreateInvitation(OrgRole),
    NotifyInvitee,
    LoadInvitation,
    DeleteInvitation,
    CheckMembership,
    AddMember(u128, u128, OrgRole),
    MarkAccepted,
    ListJoinRequests,
    CreateJoinRequest,
    LoadJoinRequest,
    MarkApproved,
    RecordRejection,
    Reply(ReplyView),
    Done,
}

impl View for InviteStep {
    type V = InviteStepView;

    open spec fn view(&self) -> InviteStepView {
        match self {
            InviteStep::BadInput(k) => InviteStepView::BadInput(k@),
            InviteStep::LoadOrg => InviteStepView::LoadOrg,
            InviteStep::Authorize => InviteStepView::Authorize,
            InviteStep::Denied => InviteStepView::Denied,
            InviteStep::ListInvitations => InviteStepView::ListInvitations,
            InviteStep::CreateInvitation(r) => InviteStepView::CreateInvitation(*r),
            InviteStep::NotifyInvitee => InviteStepView::NotifyInvitee,
            InviteStep::LoadInvitation => InviteStepView::LoadInvitation,
            InviteStep::DeleteInvitation => InviteStepView::DeleteInvitation,
            InviteStep::CheckMembership => InviteStepView::CheckMembership,
            InviteStep::AddMember(o, u, r) => InviteStepView::AddMember(*o, *u, *r),
            InviteStep::MarkAccepted => InviteStepView::MarkAccepted,
            InviteStep::ListJoinRequests => InviteStepView::ListJoinRequests,
            InviteStep::CreateJoinRequest => InviteStepView::CreateJoinRequest,
            InviteStep::LoadJoinRequest => InviteStepView::LoadJoinRequest,
            InviteStep::MarkApproved => InviteStepView::MarkApproved,
            InviteStep::RecordRejection => InviteStepView::RecordRejection,
            InviteStep::Reply(r) => InviteStepView::Reply(r@),
            InviteStep::Done => InviteStepView::Done,
        }
    }
}

/// The reply to an organization that does not exist.
pub open spec fn org_not_found() -> ReplyView {
    keyed(404, "not_found"@, "server.api.org.not_found"@)
}

/// The checks that open the handlers managing an organization: the id is a
/// UUID, the organization exists (a failed lookup is answered with
/// `failed`), and the caller has `ManageOrg` on it. `None` when they all
/// passed.
pub open spec fn manage_gate(
    org_id: Option<u128>,
    org: Option<Lookup<()>>,
    authorized: Option<bool>,
    failed: ReplyView,
) -> Option<InviteStepView> {
    if org_id is None {
        Some(InviteStepView::BadInput("server.api.org.invalid_id"@))
    } else {
        match org {
            None => Some(InviteStepView::LoadOrg),
            Some(Lookup::Missing) => Some(InviteStepView::Reply(org_not_found())),
            Some(Lookup::Failed) => Some(InviteStepView::Reply(failed)),
            Some(Lookup::Found(_)) => match authorized {
                None => Some(InviteStepView::Authorize),
                Some(false) => Some(InviteStepView::Denied),
                Some(true) => None,
            },
        }
    }
}

fn manage_gate_step(org_id: Option<u128>, org: Option<Lookup<()>>, authorized: Option<bool>, failed: Reply) -> (r:
    Option<InviteStep>)
    ensures
        r is None <==> manage_gate(org_id, org, authorized, failed@) is None,
        r matches Some(s) ==> manage_gate(org_id, org, authorized, failed@) == Some(s@),
{
    if org_id.is_none() {
        return Some(InviteStep::BadInput(string_of_str("server.api.org.invalid_id")));
    }
    match org {
        None => Some(InviteStep::LoadOrg),
        Some(Lookup::Missing) => Some(InviteStep::Reply(keyed_reply(404, "not_found", "server.api.org.not_found"))),
        Some(Lookup::Failed) => Some(InviteStep::Reply(failed)),
        Some(Lookup::Found(_)) => match authorized {
            None => Some(InviteStep::Authorize),
            Some(false) => Some(InviteStep::Denied),
            Some(true) => None,
        },
    }
}

/// The reply to a failed listing of invitations.
pub open spec fn list_failed() -> ReplyView {
    keyed(500, "internal_error"@, "server.api.invitation.list_failed"@)
}

/// What listing invitations or join requests has learnt so far.
#[derive(Debug, Clone, Copy)]
pub struct ListPendingFacts {
    pub org_id: Option<u128>,
    pub org: Option<Lookup<()>>,
    pub authorized: Option<bool>,
    /// Whether listing succeeded, once tried.
    pub listed: Option<bool>,
}

/// The next step of listing the pending invitations of an organization.
pub open spec fn list_invitations_step_of(f: ListPendingFacts) -> InviteStepView {
    if manage_gate(f.org_id, f.org, f.authorized, list_failed()) is Some {
        manage_gate(f.org_id, f.org, f.authorized, list_failed())->0
    } else {
        match f.listed {
            None => InviteStepView::ListInvitations,
            Some(false) => InviteStepView::Reply(list_failed()),
            Some(true) => InviteStepView::Done,
        }
    }
}

/// The next step of listing the pending invitations of an organization.
pub fn list_invitations_step(f: &ListPendingFacts) -> (r: InviteStep)
    ensures
        r@ == list_invitations_step_of(*f),
{
    let failed = keyed_reply(500, "internal_error", "server.api.invitation.list_failed");
    if let Some(s) = manage_gate_step(f.org_id, f.org, f.authorized, failed) {
        return s;
    }
    match f.listed {
        None => InviteStep::ListInvitations,
        Some(false) => InviteStep::Reply(keyed_reply(500, "internal_error", "server.api.invitation.list_failed")),
        Some(true) => InviteStep::Done,
    }
}

/// The next step of listing the pending join requests of an organization.
pub open spec fn list_join_requests_step_of(f: ListPendingFacts) -> InviteStepView {
    if manage_gate(f.org_id, f.org, f.authorized, internal_error()) is Some {
        manage_gate(f.org_id, f.org, f.authorized, internal_error())->0
    } else {
        match f.listed {
            None => InviteStepView::ListJoinRequests,
            Some(false) => InviteStepView::Reply(internal_error()),
            Some(true) => InviteStepView::Done,
        }
    }
}

/// The next step of listing the pending join requests of an organization.
pub fn list_join_requests_step(f: &ListPendingFacts) -> (r: InviteStep)
    ensures
        r@ == list_join_requests_step_of(*f),
{
    if let Some(s) = manage_gate_step(f.org_id, f.org, f.authorized, internal_error_reply()) {
        return s;
    }
    match f.listed {
        None => InviteStep::ListJoinRequests,
        Some(false) => InviteStep::Reply(internal_error_reply()),
        Some(true) => InviteStep::Done,
    }
}

/// The role an invitation grants.
pub open spec fn invited_role(r: RequestedRole) -> OrgRole {
    match r {
        RequestedRole::Valid(role) => role,
        _ => OrgRole::Member,
    }
}

/// What creating an invitation has learnt so far.
#[derive(Debug, Clone, Copy)]
pub struct CreateInvitationFacts {
    pub org_id: Option<u128>,
    pub org: Option<Lookup<()>>,
    pub authorized: Option<bool>,
    pub role: RequestedRole,
    /// Whether storing the invitation succeeded, once tried.
    pub created: Option<bool>,
    /// Whether the invitee was sent the e-mail, or there is no mail service
    /// (a failed sending is only logged).
    pub notified: bool,
}

/// The next step of creating an invitation: the `ManageOrg` permission and
/// a valid role (a member's by default); the invitation is stored with the
/// hash of a fresh token, then the invitee is told.
pub open spec fn create_invitation_step_of(f: CreateInvitationFacts) -> InviteStepView {
    if manage_gate(f.org_id, f.org, f.authorized, internal_error()) is Some {
        manage_gate(f.org_id, f.org, f.authorized, internal_error())->0
    } else if f.role == RequestedRole::Invalid {
        InviteStepView::BadInput("server.api.org.invalid_role"@)
    } else {
        match f.created {
            None => InviteStepView::CreateInvitation(invited_role(f.role)),
            Some(false) => InviteStepView::Reply(internal_error()),
            Some(true) => if !f.notified {
                InviteStepView::NotifyInvitee
            } else {
                InviteStepView::Done
            },
        }
    }
}

/// The next step of creating an invitation.
pub fn create_invitation_step(f: &CreateInvitationFacts) -> (r: InviteStep)
    ensures
        r@ == create_invitation_step_of(*f),
{
    if let Some(s) = manage_gate_step(f.org_id, f.org, f.authorized, internal_error_reply()) {
        return s;
    }
    let role = match f.role {
        RequestedRole::Invalid => return InviteStep::BadInput(string_of_str("server.api.org.invalid_role")),
        RequestedRole::Valid(role) => role,
        RequestedRole::Default => OrgRole::Member,
    };
    match f.created {
        None => InviteStep::CreateInvitation(role),
        Some(false) => InviteStep::Reply(internal_error_reply()),
        Some(true) => if !f.notified {
            InviteStep::NotifyInvitee
        } else {
            InviteStep::Done
        },
    }
}

/// An invitation is stored only with the `ManageOrg` permission on an
/// existing organization, and grants the requested role, a member's when
/// none was given.
pub proof fn law_create_invitation_guards(f: CreateInvitationFacts)
    requires
        create_invitation_step_of(f) is CreateInvitation,
    ensures
        f.org_id is Some,
        f.org matches Some(Lookup::Found(_)),
        f.authorized == Some(true),
        f.role != RequestedRole::Invalid,
        create_invitation_step_of(f) == InviteStepView::CreateInvitation(invited_role(f.role)),
        f.role == RequestedRole::Default ==> invited_role(f.role) == OrgRole::Member,
{
}

/// An invitation as the store keeps it: its token only by the token's hash.
#[derive(Debug, Clone)]
pub struct StoredInvitation {
    pub org_id: u128,
    pub email: String,
    pub role: OrgRole,
    pub invited_by: u128,
    pub token_hash: String,
}

/// The e-mail that carries an invitation's token to the invitee, the one
/// place the token itself goes.
#[derive(Debug, Clone)]
pub struct InvitationMail {
    pub to: String,
    pub org_name: String,
    pub inviter_name: String,
    pub token: String,
}

/// What is stored and what is mailed for a new invitation: the store gets
/// the token's hash, the mail to the invitee gets the token.
pub fn prepare_invitation(
    org_id: u128,
    email: &str,
    role: OrgRole,
    invited_by: u128,
    inviter_name: &str,
    org_name: &str,
    token: &str,
    token_hash: &str,
) -> (r: (StoredInvitation, InvitationMail))
    ensures
        r.0.org_id == org_id,
        r.0.email@ == email@,
        r.0.role == role,
        r.0.invited_by == invited_by,
        r.0.token_hash@ == token_hash@,
        r.1.to@ == email@,
        r.1.org_name@ == org_name@,
        r.1.inviter_name@ == inviter_name@,
        r.1.token@ == token@,
{
    let stored = StoredInvitation {
        org_id,
        email: string_of_str(email),
        role,
        invited_by,
        token_hash: string_of_str(token_hash),
    };
    let mail = InvitationMail {
        to: string_of_str(email),
        org_name: string_of_str(org_name),
        inviter_name: string_of_str(inviter_name),
        token: string_of_str(token),
    };
    (stored, mail)
}

/// The body of the reply (201) to a created invitation. It has no place for
/// the token: the token reaches the invitee by mail only.
#[derive(Debug, Clone)]
pub struct CreatedInvitation {
    pub id: String,
    pub email: String,
    pub role: OrgRole,
    pub expires_at: String,
}

/// The body of the reply to a created invitation: its id, address, role and
/// expiry.
pub fn created_invitation(id: &str, email: &str, role: OrgRole, expires_at: &str) -> (r: CreatedInvitation)
    ensures
        r.id@ == id@,
        r.email@ == email@,
        r.role == role,
        r.expires_at@ == expires_at@,
{
    CreatedInvitation {
        id: string_of_str(id),
        email: string_of_str(email),
        role,
        expires_at: string_of_str(expires_at),
    }
}

/// What cancelling an invitation has learnt so far.
#[derive(Debug, Clone, Copy)]
pub struct CancelInvitationFacts {
    pub org_id: Option<u128>,
    pub org: Option<Lookup<()>>,
    pub authorized: Option<bool>,
    /// The organization of the invitation, once looked up.
    pub invitation_org: Option<Lookup<u128>>,
    /// Whether deleting it succeeded, once tried.
    pub deleted: Option<bool>,
}

/// The reply to an invitation that does not exist in the organization.
pub open spec fn invitation_not_found() -> ReplyView {
    keyed(404, "not_found"@, "server.api.invitation.not_found"@)
}

/// The next step of cancelling an invitation: the `ManageOrg` permission,
/// and an invitation of that organization, which is deleted.
pub open spec fn cancel_invitation_step_of(f: CancelInvitationFacts) -> InviteStepView {
    if manage_gate(f.org_id, f.org, f.authorized, internal_error()) is Some {
        manage_gate(f.org_id, f.org, f.authorized, internal_error())->0
    } else {
        match f.invitation_org {
            None => InviteStepView::LoadInvitation,
            Some(Lookup::Missing) => InviteStepView::Reply(invitation_not_found()),
            Some(Lookup::Failed) => InviteStepView::Reply(internal_error()),
            Some(Lookup::Found(o)) => if f.org_id != Some(o) {
                InviteStepView::Reply(invitation_not_found())
            } else {
                match f.deleted {
                    None => InviteStepView::DeleteInvitation,
                    Some(false) => InviteStepView::Reply(internal_error()),
                    Some(true) => InviteStepView::Reply(keyed(200, ""@, "server.api.invitation.cancelled"@)),
                }
            },
        }
    }
}

/// The next step of cancelling an invitation.
pub fn cancel_invitation_step(f: &CancelInvitationFacts) -> (r: InviteStep)
    ensures
        r@ == cancel_invitation_step_of(*f),
{
    if let Some(s) = manage_gate_step(f.org_id, f.org, f.authorized, internal_error_reply()) {
        return s;
    }
    match f.invitation_org {
        None => InviteStep::LoadInvitation,
        Some(Lookup::Missing) => InviteStep::Reply(keyed_reply(404, "not_found", "server.api.invitation.not_found")),
        Some(Lookup::Failed) => InviteStep::Reply(internal_error_reply()),
        Some(Lookup::Found(o)) => {
            let same = match f.org_id {
                Some(p) => p == o,
                None => false,
            };
            if !same {
                InviteStep::Reply(keyed_reply(404, "not_found", "server.api.invitation.not_found"))
            } else {
                match f.deleted {
                    None => InviteStep::DeleteInvitation,
                    Some(false) => InviteStep::Reply(internal_error_reply()),
                    Some(true) => InviteStep::Reply(keyed_reply(200, "", "server.api.invitation.cancelled")),
                }
            }
        },
    }
}

/// An invitation is deleted only with the `ManageOrg` permission on the
/// organization it belongs to.
pub proof fn law_cancel_invitation_guards(f: CancelInvitationFacts)
    requires
        cancel_invitation_step_of(f) is DeleteInvitation,
    ensures
        f.authorized == Some(true),
        f.invitation_org matches Some(Lookup::Found(o)) && f.org_id == Some(o),
{
}

/// An invitation, as accepting it reads it.
#[derive(Debug, Clone)]
pub struct InvitationState {
    pub org_id: u128,
    /// The address the invitation was sent to.
    pub email: String,
    pub role: OrgRole,
    /// Whether it can still be accepted.
    pub valid: bool,
    /// Whether it has expired.
    pub expired: bool,
}

/// What accepting an invitation has learnt so far.
#[derive(Debug, Clone)]
pub struct AcceptInvitationFacts {
    /// The signed-in user who accepts.
    pub caller_id: u128,
    /// The caller's e-mail address.
    pub caller_email: String,
    /// The invitation whose token hash matches, once looked up.
    pub invitation: Option<Lookup<InvitationState>>,
    /// Whether the caller already belongs to its organization, once asked
    /// (a failed lookup counts as no).
    pub already_member: Option<bool>,
    /// Whether its organization exists, once looked up.
    pub org: Option<Lookup<()>>,
    /// Whether adding the caller succeeded, once tried.
    pub added: Option<bool>,
    /// Whether marking the invitation accepted was tried (its failure is
    /// only logged).
    pub marked: bool,
}

/// Whether an invitation sent to `invited` is for the owner of `caller`:
/// the two addresses agree once lowercased.
pub open spec fn sent_to(invited: Seq<char>, caller: Seq<char>) -> bool {
    lowercase_text(invited) == lowercase_text(caller)
}

/// Whether an invitation sent to `invited` is for the owner of `caller`.
pub fn invitation_sent_to(invited: &str, caller: &str) -> (r: bool)
    ensures
        r == sent_to(invited@, caller@),
{
    let a = to_lowercase(invited);
    let b = to_lowercase(caller);
    str_eq(a.as_str(), b.as_str())
}

/// The next step of accepting an invitation: a known token of an invitation
/// sent to the caller's address (to anyone else it does not exist), still
/// valid, a caller not yet a member of its organization, which must exist;
/// the caller joins it with the invitation's role.
pub open spec fn accept_invitation_step_of(f: AcceptInvitationFacts) -> InviteStepView {
    match f.invitation {
        None => InviteStepView::LoadInvitation,
        Some(Lookup::Missing) => InviteStepView::Reply(keyed(404, "not_found"@, "server.api.invitation.invalid_token"@)),
        Some(Lookup::Failed) => InviteStepView::Reply(internal_error()),
        Some(Lookup::Found(inv)) => if !sent_to(inv.email@, f.caller_email@) {
            InviteStepView::Reply(invitation_not_found())
        } else if !inv.valid {
            InviteStepView::Reply(
                keyed(
                    400,
                    "invalid_invitation"@,
                    if inv.expired {
                        "server.api.invitation.expired"@
                    } else {
                        "server.api.invitation.already_accepted"@
                    },
                ),
            )
        } else {
            match f.already_member {
                None => InviteStepView::CheckMembership,
                Some(true) => InviteStepView::Reply(
                    keyed(409, "already_member"@, "server.api.join_request.already_member"@),
                ),
                Some(false) => match f.org {
                    None => InviteStepView::LoadOrg,
                    Some(Lookup::Missing) => InviteStepView::Reply(org_not_found()),
                    Some(Lookup::Failed) => InviteStepView::Reply(internal_error()),
                    Some(Lookup::Found(_)) => match f.added {
                        None => InviteStepView::AddMember(inv.org_id, f.caller_id, inv.role),
                        Some(false) => InviteStepView::Reply(internal_error()),
                        Some(true) => if !f.marked {
                            InviteStepView::MarkAccepted
                        } else {
                            InviteStepView::Done
                        },
                    },
                },
            }
        },
    }
}

/// The next step of accepting an invitation.
pub fn accept_invitation_step(f: &AcceptInvitationFacts) -> (r: InviteStep)
    ensures
        r@ == accept_invitation_step_of(*f),
{
    let inv = match &f.invitation {
        None => return InviteStep::LoadInvitation,
        Some(Lookup::Missing) => return InviteStep::Reply(
            keyed_reply(404, "not_found", "server.api.invitation.invalid_token"),
        ),
        Some(Lookup::Failed) => return InviteStep::Reply(internal_error_reply()),
        Some(Lookup::Found(inv)) => inv,
    };
    if !invitation_sent_to(inv.email.as_str(), f.caller_email.as_str()) {
        return InviteStep::Reply(keyed_reply(404, "not_found", "server.api.invitation.not_found"));
    }
    if !inv.valid {
        let r = if inv.expired {
            keyed_reply(400, "invalid_invitation", "server.api.invitation.expired")
        } else {
            keyed_reply(400, "invalid_invitation", "server.api.invitation.already_accepted")
        };
        return InviteStep::Reply(r);
    }
    match f.already_member {
        None => InviteStep::CheckMembership,
        Some(true) => InviteStep::Reply(keyed_reply(409, "already_member", "server.api.join_request.already_member")),
        Some(false) => match f.org {
            None => InviteStep::LoadOrg,
            Some(Lookup::Missing) => InviteStep::Reply(keyed_reply(404, "not_found", "server.api.org.not_found")),
            Some(Lookup::Failed) => InviteStep::Reply(internal_error_reply()),
            Some(Lookup::Found(_)) => match f.added {
                None => InviteStep::AddMember(inv.org_id, f.caller_id, inv.role),
                Some(false) => InviteStep::Reply(internal_error_reply()),
                Some(true) => if !f.marked {
                    InviteStep::MarkAccepted
                } else {
                    InviteStep::Done
                },
            },
        },
    }
}

/// Accepting adds the caller, and nobody else, to an organization only
/// through a valid invitation sent to the caller's address, of an existing
/// organization they do not belong to yet, and with the role the invitation
/// grants.
pub proof fn law_accept_invitation_guards(f: AcceptInvitationFacts)
    requires
        accept_invitation_step_of(f) is AddMember,
    ensures
        f.invitation matches Some(Lookup::Found(inv)) && inv.valid && sent_to(inv.email@, f.caller_email@)
            && accept_invitation_step_of(f) == InviteStepView::AddMember(inv.org_id, f.caller_id, inv.role),
        f.already_member == Some(false),
        f.org matches Some(Lookup::Found(_)),
{
}

/// An invitation sent to another address is answered as if it did not
/// exist, whatever else holds of it, and nobody is added.
pub proof fn law_accept_invitation_only_invitee(f: AcceptInvitationFacts)
    requires
        f.invitation matches Some(Lookup::Found(inv)) && !sent_to(inv.email@, f.caller_email@),
    ensures
        accept_invitation_step_of(f) == InviteStepView::Reply(invitation_not_found()),
{
}

/// What reading an invitation by its token has learnt so far.
#[derive(Debug, Clone, Copy)]
pub struct GetInvitationFacts {
    /// Whether an invitation has the token's hash, once looked up.
    pub invitation: Option<Lookup<()>>,
    /// Whether its organization exists, once looked up.
    pub org: Option<Lookup<()>>,
}

/// The next step of reading an invitation by its token.
pub open spec fn get_invitation_step_of(f: GetInvitationFacts) -> InviteStepView {
    match f.invitation {
        None => InviteStepView::LoadInvitation,
        Some(Lookup::Missing) => InviteStepView::Reply(keyed(404, "not_found"@, "server.api.invitation.invalid_token"@)),
        Some(Lookup::Failed) => InviteStepView::Reply(list_failed()),
        Some(Lookup::Found(_)) => match f.org {
            None => InviteStepView::LoadOrg,
            Some(Lookup::Missing) => InviteStepView::Reply(org_not_found()),
            Some(Lookup::Failed) => InviteStepView::Reply(list_failed()),
            Some(Lookup::Found(_)) => InviteStepView::Done,
        },
    }
}

/// The next step of reading an invitation by its token.
pub fn get_invitation_step(f: &GetInvitationFacts) -> (r: InviteStep)
    ensures
        r@ == get_invitation_step_of(*f),
{
    match f.invitation {
        None => InviteStep::LoadInvitation,
        Some(Lookup::Missing) => InviteStep::Reply(keyed_reply(404, "not_found", "server.api.invitation.invalid_token")),
        Some(Lookup::Failed) => InviteStep::Reply(keyed_reply(500, "internal_error", "server.api.invitation.list_failed")),
        Some(Lookup::Found(_)) => match f.org {
            None => InviteStep::LoadOrg,
            Some(Lookup::Missing) => InviteStep::Reply(keyed_reply(404, "not_found", "server.api.org.not_found")),
            Some(Lookup::Failed) => InviteStep::Reply(
                keyed_reply(500, "internal_error", "server.api.invitation.list_failed"),
            ),
            Some(Lookup::Found(_)) => InviteStep::Done,
        },
    }
}

/// The name shown for the user who sent an invitation or asked to join:
/// their display name, or "Unknown" when they could not be read.
pub fn display_name_or_unknown(name: Option<String>) -> (r: String)
    ensures
        r@ == (match name {
            Some(n) => n@,
            None => "Unknown"@,
        }),
{
    match name {
        Some(n) => n,
        None => string_of_str("Unknown"),
    }
}

/// What asking to join an organization has learnt so far.
#[derive(Debug, Clone, Copy)]
pub struct CreateJoinRequestFacts {
    pub org_id: Option<u128>,
    /// The organization's visibility, once looked up.
    pub org: Option<Lookup<OrgVisibility>>,
    /// Whether the caller already belongs to it, once asked (a failed
    /// lookup counts as no).
    pub already_member: Option<bool>,
    /// Whether storing the request succeeded, once tried.
    pub created: Option<bool>,
}

/// The next step of asking to join an organization: it must exist and not
/// be private, and the caller must not belong to it yet.
pub open spec fn create_join_request_step_of(f: CreateJoinRequestFacts) -> InviteStepView {
    if f.org_id is None {
        InviteStepView::BadInput("server.api.org.invalid_id"@)
    } else {
        match f.org {
            None => InviteStepView::LoadOrg,
            Some(Lookup::Missing) => InviteStepView::Reply(org_not_found()),
            Some(Lookup::Failed) => InviteStepView::Reply(internal_error()),
            Some(Lookup::Found(vis)) => if vis == OrgVisibility::Private {
                InviteStepView::Reply(keyed(403, "forbidden"@, "server.api.join_request.private_org"@))
            } else {
                match f.already_member {
                    None => InviteStepView::CheckMembership,
                    Some(true) => InviteStepView::Reply(
                        keyed(409, "already_member"@, "server.api.join_request.already_member"@),
                    ),
                    Some(false) => match f.created {
                        None => InviteStepView::CreateJoinRequest,
                        Some(false) => InviteStepView::Reply(internal_error()),
                        Some(true) => InviteStepView::Reply(keyed(201, ""@, "server.api.join_request.created"@)),
                    },
                }
            },
        }
    }
}

/// The next step of asking to join an organization.
pub fn create_join_request_step(f: &CreateJoinRequestFacts) -> (r: InviteStep)
    ensures
        r@ == create_join_request_step_of(*f),
{
    if f.org_id.is_none() {
        return InviteStep::BadInput(string_of_str("server.api.org.invalid_id"));
    }
    match f.org {
        None => InviteStep::LoadOrg,
        Some(Lookup::Missing) => InviteStep::Reply(keyed_reply(404, "not_found", "server.api.org.not_found")),
        Some(Lookup::Failed) => InviteStep::Reply(internal_error_reply()),
        Some(Lookup::Found(vis)) => if vis == OrgVisibility::Private {
            InviteStep::Reply(keyed_reply(403, "forbidden", "server.api.join_request.private_org"))
        } else {
            match f.already_member {
                None => InviteStep::CheckMembership,
                Some(true) => InviteStep::Reply(
                    keyed_reply(409, "already_member", "server.api.join_request.already_member"),
                ),
                Some(false) => match f.created {
                    None => InviteStep::CreateJoinRequest,
                    Some(false) => InviteStep::Reply(internal_error_reply()),
                    Some(true) => InviteStep::Reply(keyed_reply(201, "", "server.api.join_request.created")),
                },
            }
        },
    }
}

/// Nobody can ask to join a private organization, nor one they belong to.
pub proof fn law_join_request_guards(f: CreateJoinRequestFacts)
    requires
        create_join_request_step_of(f) is CreateJoinRequest,
    ensures
        f.org matches Some(Lookup::Found(vis)) && vis != OrgVisibility::Private,
        f.already_member == Some(false),
{
}

/// A join request, as handling it reads it.
#[derive(Debug, Clone, Copy, PartialEq, Eq, Structural)]
pub struct JoinRequestState {
    pub org_id: u128,
    /// The user who asked to join.
    pub user_id: u128,
    /// Whether it was approved or rejected already.
    pub handled: bool,
}

/// What approving or rejecting a join request has learnt so far.
#[derive(Debug, Clone, Copy)]
pub struct HandleJoinRequestFacts {
    pub org_id: Option<u128>,
    pub org: Option<Lookup<()>>,
    pub authorized: Option<bool>,
    /// The join request, once looked up.
    pub request: Option<Lookup<JoinRequestState>>,
    /// Whether the handler's store call (adding the member when
    /// approving, recording the rejection when rejecting) succeeded, once
    /// made.
    pub done: Option<bool>,
    /// Whether marking an approved request was tried (its failure is only
    /// logged).
    pub marked: bool,
}

/// The reply to a join request that does not exist in the organization.
pub open spec fn join_request_not_found() -> ReplyView {
    keyed(404, "not_found"@, "server.api.join_request.not_found"@)
}

/// The checks shared by approving and rejecting: the `ManageOrg`
/// permission, and a pending request of that organization.
pub open spec fn join_request_gate(f: HandleJoinRequestFacts) -> Option<InviteStepView> {
    if manage_gate(f.org_id, f.org, f.authorized, internal_error()) is Some {
        manage_gate(f.org_id, f.org, f.authorized, internal_error())
    } else {
        match f.request {
            None => Some(InviteStepView::LoadJoinRequest),
            Some(Lookup::Missing) => Some(InviteStepView::Reply(join_request_not_found())),
            Some(Lookup::Failed) => Some(InviteStepView::Reply(internal_error())),
            Some(Lookup::Found(req)) => if f.org_id != Some(req.org_id) {
                Some(InviteStepView::Reply(join_request_not_found()))
            } else if req.handled {
                Some(InviteStepView::Reply(keyed(400, "already_handled"@, "server.api.join_request.already_pending"@)))
            } else {
                None
            },
        }
    }
}

fn join_request_gate_step(f: &HandleJoinRequestFacts) -> (r: Option<InviteStep>)
    ensures
        r is None <==> join_request_gate(*f) is None,
        r matches Some(s) ==> join_request_gate(*f) == Some(s@),
{
    if let Some(s) = manage_gate_step(f.org_id, f.org, f.authorized, internal_error_reply()) {
        return Some(s);
    }
    match f.request {
        None => Some(InviteStep::LoadJoinRequest),
        Some(Lookup::Missing) => Some(
            InviteStep::Reply(keyed_reply(404, "not_found", "server.api.join_request.not_found")),
        ),
        Some(Lookup::Failed) => Some(InviteStep::Reply(internal_error_reply())),
        Some(Lookup::Found(req)) => {
            let same = match f.org_id {
                Some(p) => p == req.org_id,
                None => false,
            };
            if !same {
                Some(InviteStep::Reply(keyed_reply(404, "not_found", "server.api.join_request.not_found")))
            } else if req.handled {
                Some(
                    InviteStep::Reply(
                        keyed_reply(400, "already_handled", "server.api.join_request.already_pending"),
                    ),
                )
            } else {
                None
            }
        },
    }
}

/// The next step of approving a join request: the requester joins the
/// organization as a member, then the request is marked approved.
pub open spec fn approve_join_request_step_of(f: HandleJoinRequestFacts) -> InviteStepView {
    if join_request_gate(f) is Some {
        join_request_gate(f)->0
    } else {
        match f.done {
            None => match f.request {
                Some(Lookup::Found(req)) => InviteStepView::AddMember(req.org_id, req.user_id, OrgRole::Member),
                _ => InviteStepView::Reply(internal_error()),
            },
            Some(false) => InviteStepView::Reply(internal_error()),
            Some(true) => if !f.marked {
                InviteStepView::MarkApproved
            } else {
                InviteStepView::Reply(keyed(200, ""@, "server.api.join_request.approved"@))
            },
        }
    }
}

/// The next step of approving a join request.
pub fn approve_join_request_step(f: &HandleJoinRequestFacts) -> (r: InviteStep)
    ensures
        r@ == approve_join_request_step_of(*f),
{
    if let Some(s) = join_request_gate_step(f) {
        return s;
    }
    match f.done {
        None => match f.request {
            Some(Lookup::Found(req)) => InviteStep::AddMember(req.org_id, req.user_id, OrgRole::Member),
            _ => InviteStep::Reply(internal_error_reply()),
        },
        Some(false) => InviteStep::Reply(internal_error_reply()),
        Some(true) => if !f.marked {
            InviteStep::MarkApproved
        } else {
            InviteStep::Reply(keyed_reply(200, "", "server.api.join_request.approved"))
        },
    }
}

/// The next step of rejecting a join request: the rejection is recorded.
pub open spec fn reject_join_request_step_of(f: HandleJoinRequestFacts) -> InviteStepView {
    if join_request_gate(f) is Some {
        join_request_gate(f)->0
    } else {
        match f.done {
            None => InviteStepView::RecordRejection,
            Some(false) => InviteStepView::Reply(internal_error()),
            Some(true) => InviteStepView::Reply(keyed(200, ""@, "server.api.join_request.rejected"@)),
        }
    }
}

/// The next step of rejecting a join request.
pub fn reject_join_request_step(f: &HandleJoinRequestFacts) -> (r: InviteStep)
    ensures
        r@ == reject_join_request_step_of(*f),
{
    if let Some(s) = join_request_gate_step(f) {
        return s;
    }
    match f.done {
        None => InviteStep::RecordRejection,
        Some(false) => InviteStep::Reply(internal_error_reply()),
        Some(true) => InviteStep::Reply(keyed_reply(200, "", "server.api.join_request.rejected")),
    }
}

/// A join request is approved or rejected only with the `ManageOrg`
/// permission, only when it belongs to that organization and is still
/// pending; approving makes the user who asked, and nobody else, a plain
/// member of that organization.
pub proof fn law_join_request_handling_guards(f: HandleJoinRequestFacts)
    requires
        approve_join_request_step_of(f) is AddMember || reject_join_request_step_of(f) is RecordRejection,
    ensures
        f.authorized == Some(true),
        f.request matches Some(Lookup::Found(req)) && f.org_id == Some(req.org_id) && !req.handled
            && (approve_join_request_step_of(f) is AddMember ==> approve_join_request_step_of(f)
            == InviteStepView::AddMember(req.org_id, req.user_id, OrgRole::Member)),
{
}

} // verus!
