//! Decisions of the team endpoints of an organization: listing, creating,
//! reading, updating and deleting teams, and adding and removing members.
//!
//! Each handler is a step function over what it has learnt so far (see
//! `replies`). Ids arrive already parsed: `None` stands for a path or body
//! id that is no UUID. The authorization outcome comes from the server's
//! attribute-based access control, asked with `Authorize`.
use vstd::prelude::*;
use vstd::utf8::encode_utf8;
use crate::replies::{internal_error, internal_error_reply, keyed, keyed_reply, Lookup, Reply, ReplyView};
use crate::text::string_of_str;

verus! {

/// The role of a member within a team.
#[derive(Debug, Clone, Copy, PartialEq, Eq, Structural)]
pub enum TeamRole {
    Maintainer,
    Member,
}

/// What the access control is asked to allow on a team.
#[derive(Debug, Clone, Copy, PartialEq, Eq, Structural)]
pub enum TeamAction {
    Read,
    Write,
    Delete,
    ManageTeam,
}

/// The next step of a team handler.
#[derive(Debug, Clone)]
pub enum TeamStep {
    /// Reject the input as the shared id and slug validation does (400),
    /// with this message key.
    BadInput(String),
    LoadOrg,
    CheckActorMembership,
    ListTeams,
    LoadTeam,
    /// Ask the access control for this action on the team.
    Authorize(TeamAction),
    /// The access control refused: send its reply.
    Denied,
    FindSlug,
    CreateTeam,
    AddCreatorAsMaintainer,
    SaveTeam(String, String),
    DeleteTeam,
    ListMembers,
    CheckTargetOrgMembership,
    CheckTargetTeamMembership,
    LoadTargetMembership,
    AddMember(TeamRole),
    RemoveMember,
    Reply(Reply),
    /// Success: the handler answers with the data it gathered.
    Done,
}

/// The next step of a team handler, as plain values.
pub enum TeamStepView {
    BadInput(Seq<char>),
    LoadOrg,
    CheckActorMembership,
    ListTeams,
    LoadTeam,
    Authorize(TeamAction),
    Denied,
    FindSlug,
    CreateTeam,
    AddCreatorAsMaintainer,
    SaveTeam(Seq<char>, Seq<char>),
    DeleteTeam,
    ListMembers,
    CheckTargetOrgMembership,
    CheckTargetTeamMembership,
    LoadTargetMembership,
    AddMember(TeamRole),
    RemoveMember,
    Reply(ReplyView),
    Done,
}

impl View for TeamStep {
    type V = TeamStepView;

    open spec fn view(&self) -> TeamStepView {
        match self {
            TeamStep::BadInput(k) => TeamStepView::BadInput(k@),
            TeamStep::LoadOrg => TeamStepView::LoadOrg,
            TeamStep::CheckActorMembership => TeamStepView::CheckActorMembership,
            TeamStep::ListTeams => TeamStepView::ListTeams,
            TeamStep::LoadTeam => TeamStepView::LoadTeam,
            TeamStep::Authorize(a) => TeamStepView::Authorize(*a),
            TeamStep::Denied => TeamStepView::Denied,
            TeamStep::FindSlug => TeamStepView::FindSlug,
            TeamStep::CreateTeam => TeamStepView::CreateTeam,
            TeamStep::AddCreatorAsMaintainer => TeamStepView::AddCreatorAsMaintainer,
            TeamStep::SaveTeam(n, s) => TeamStepView::SaveTeam(n@, s@),
            TeamStep::DeleteTeam => TeamStepView::DeleteTeam,
            TeamStep::ListMembers => TeamStepView::ListMembers,
            TeamStep::CheckTargetOrgMembership => TeamStepView::CheckTargetOrgMembership,
            TeamStep::CheckTargetTeamMembership => TeamStepView::CheckTargetTeamMembership,
            TeamStep::LoadTargetMembership => TeamStepView::LoadTargetMembership,
            TeamStep::AddMember(r) => TeamStepView::AddMember(*r),
            TeamStep::RemoveMember => TeamStepView::RemoveMember,
            TeamStep::Reply(r) => TeamStepView::Reply(r@),
            TeamStep::Done => TeamStepView::Done,
        }
    }
}

fn bad_input(key: &str) -> (r: TeamStep)
    ensures
        r@ == TeamStepView::BadInput(key@),
{
    TeamStep::BadInput(string_of_str(key))
}

/// The reply to a team that does not exist.
pub open spec fn team_not_found() -> ReplyView {
    keyed(404, "not_found"@, "server.api.team.not_found"@)
}

/// The reply to a team of another organization than the one in the path.
pub open spec fn team_not_in_org() -> ReplyView {
    keyed(404, "not_found"@, "server.api.team.not_found_in_org"@)
}

/// The checks that open every handler on one team: both ids are UUIDs,
/// the team exists and belongs to the organization of the path. `None`
/// when they all passed.
pub open spec fn team_gate(org_id: Option<u128>, team_id: Option<u128>, team_org: Option<Lookup<u128>>) -> Option<
    TeamStepView,
> {
    if org_id is None {
        Some(TeamStepView::BadInput("server.api.org.invalid_id"@))
    } else if team_id is None {
        Some(TeamStepView::BadInput("server.api.team.invalid_id"@))
    } else {
        match team_org {
            None => Some(TeamStepView::LoadTeam),
            Some(Lookup::Missing) => Some(TeamStepView::Reply(team_not_found())),
            Some(Lookup::Failed) => Some(TeamStepView::Reply(internal_error())),
            Some(Lookup::Found(o)) => if Some(o) != org_id {
                Some(TeamStepView::Reply(team_not_in_org()))
            } else {
                None
            },
        }
    }
}

fn team_gate_step(org_id: Option<u128>, team_id: Option<u128>, team_org: Option<Lookup<u128>>) -> (r: Option<
    TeamStep,
>)
    ensures
        r is None <==> team_gate(org_id, team_id, team_org) is None,
        r matches Some(s) ==> team_gate(org_id, team_id, team_org) == Some(s@),
{
    if org_id.is_none() {
        return Some(bad_input("server.api.org.invalid_id"));
    }
    if team_id.is_none() {
        return Some(bad_input("server.api.team.invalid_id"));
    }
    match team_org {
        None => Some(TeamStep::LoadTeam),
        Some(Lookup::Missing) => Some(TeamStep::Reply(keyed_reply(404, "not_found", "server.api.team.not_found"))),
        Some(Lookup::Failed) => Some(TeamStep::Reply(internal_error_reply())),
        Some(Lookup::Found(o)) => {
            let same = match org_id {
                Some(p) => p == o,
                None => false,
            };
            if !same {
                Some(TeamStep::Reply(keyed_reply(404, "not_found", "server.api.team.not_found_in_org")))
            } else {
                None
            }
        },
    }
}

/// The number of maintainers among the roles.
pub open spec fn maintainer_count(roles: Seq<TeamRole>) -> nat
    decreases roles.len(),
{
    if roles.len() == 0 {
        0
    } else {
        maintainer_count(roles.drop_last()) + if roles.last() == TeamRole::Maintainer {
            1nat
        } else {
            0nat
        }
    }
}

/// The number of maintainers among the roles.
pub fn count_maintainers(roles: &Vec<TeamRole>) -> (n: usize)
    ensures
        n == maintainer_count(roles@),
{
    let mut n: usize = 0;
    let mut i: usize = 0;
    while i < roles.len()
        invariant
            i <= roles.len(),
            n == maintainer_count(roles@.take(i as int)),
            n <= i,
        decreases roles.len() - i,
    {
        assert(roles@.take(i as int + 1).drop_last() =~= roles@.take(i as int));
        if roles[i] == TeamRole::Maintainer {
            n = n + 1;
        }
        i = i + 1;
    }
    assert(roles@.take(roles.len() as int) =~= roles@);
    n
}

/// What removing a member has learnt so far.
#[derive(Debug, Clone)]
pub struct RemoveMemberFacts {
    pub actor: u128,
    pub org_id: Option<u128>,
    pub team_id: Option<u128>,
    pub target: Option<u128>,
    /// The organization of the team, once looked up.
    pub team_org: Option<Lookup<u128>>,
    /// The access control's answer for `ManageTeam`, once asked.
    pub authorized: Option<bool>,
    /// The target's role in the team, once looked up.
    pub membership: Option<Lookup<TeamRole>>,
    /// The roles of all members, once listed (`Err` when listing failed).
    pub members: Option<Result<Vec<TeamRole>, ()>>,
    /// Whether the removal succeeded, once tried.
    pub removed: Option<bool>,
}

/// The next step of removing a member: a member may remove themselves
/// without the `ManageTeam` permission; the target must be a member; the
/// last maintainer of a team is never removed.
pub open spec fn remove_member_step_of(f: RemoveMemberFacts) -> TeamStepView {
    if f.org_id is None {
        TeamStepView::BadInput("server.api.org.invalid_id"@)
    } else if f.team_id is None {
        TeamStepView::BadInput("server.api.team.invalid_id"@)
    } else if f.target is None {
        TeamStepView::BadInput("server.api.user.invalid_id"@)
    } else if team_gate(f.org_id, f.team_id, f.team_org) is Some {
        team_gate(f.org_id, f.team_id, f.team_org)->0
    } else if f.target != Some(f.actor) && f.authorized is None {
        TeamStepView::Authorize(TeamAction::ManageTeam)
    } else if f.target != Some(f.actor) && f.authorized == Some(false) {
        TeamStepView::Denied
    } else {
        match f.membership {
            None => TeamStepView::LoadTargetMembership,
            Some(Lookup::Missing) => TeamStepView::Reply(keyed(404, "not_found"@, "server.api.team.user_not_member"@)),
            Some(Lookup::Failed) => TeamStepView::Reply(internal_error()),
            Some(Lookup::Found(role)) => {
                if role == TeamRole::Maintainer && f.members is None {
                    TeamStepView::ListMembers
                } else if role == TeamRole::Maintainer && f.members matches Some(Err(_)) {
                    TeamStepView::Reply(internal_error())
                } else if role == TeamRole::Maintainer && (f.members matches Some(Ok(v)) && maintainer_count(v@)
                    <= 1) {
                    TeamStepView::Reply(keyed(400, "last_maintainer"@, "server.api.team.last_maintainer"@))
                } else {
                    match f.removed {
                        None => TeamStepView::RemoveMember,
                        Some(false) => TeamStepView::Reply(internal_error()),
                        Some(true) => TeamStepView::Reply(keyed(200, ""@, "server.api.team.member_removed"@)),
                    }
                }
            },
        }
    }
}

/// The next step of removing a member.
pub fn remove_member_step(f: &RemoveMemberFacts) -> (r: TeamStep)
    ensures
        r@ == remove_member_step_of(*f),
{
    if f.org_id.is_none() {
        return bad_input("server.api.org.invalid_id");
    }
    if f.team_id.is_none() {
        return bad_input("server.api.team.invalid_id");
    }
    let target = match f.target {
        None => return bad_input("server.api.user.invalid_id"),
        Some(t) => t,
    };
    if let Some(s) = team_gate_step(f.org_id, f.team_id, f.team_org) {
        return s;
    }
    if target != f.actor {
        match f.authorized {
            None => return TeamStep::Authorize(TeamAction::ManageTeam),
            Some(false) => return TeamStep::Denied,
            Some(true) => {},
        }
    }
    let role = match f.membership {
        None => return TeamStep::LoadTargetMembership,
        Some(Lookup::Missing) => return TeamStep::Reply(
            keyed_reply(404, "not_found", "server.api.team.user_not_member"),
        ),
        Some(Lookup::Failed) => return TeamStep::Reply(internal_error_reply()),
        Some(Lookup::Found(role)) => role,
    };
    if role == TeamRole::Maintainer {
        match &f.members {
            None => return TeamStep::ListMembers,
            Some(Err(_)) => return TeamStep::Reply(internal_error_reply()),
            Some(Ok(v)) => {
                if count_maintainers(v) <= 1 {
                    return TeamStep::Reply(keyed_reply(400, "last_maintainer", "server.api.team.last_maintainer"));
                }
            },
        }
    }
    match f.removed {
        None => TeamStep::RemoveMember,
        Some(false) => TeamStep::Reply(internal_error_reply()),
        Some(true) => TeamStep::Reply(keyed_reply(200, "", "server.api.team.member_removed")),
    }
}

/// A member is removed only from a team of the organization in the path,
/// only when they are a member, only by themselves or with the
/// `ManageTeam` permission, and a maintainer only while another maintainer
/// remains.
pub proof fn law_remove_member_guards(f: RemoveMemberFacts)
    requires
        remove_member_step_of(f) is RemoveMember,
    ensures
        f.team_org matches Some(Lookup::Found(o)) && f.org_id == Some(o),
        f.target is Some,
        f.target != Some(f.actor) ==> f.authorized == Some(true),
        f.membership matches Some(Lookup::Found(role)) && (role == TeamRole::Maintainer ==> (
        f.members matches Some(Ok(v)) && maintainer_count(v@) >= 2)),
{
}

/// Whether a team name is acceptable: 1 to 100 bytes.
pub open spec fn team_name_ok(name: Seq<char>) -> bool {
    1 <= encode_utf8(name).len() <= 100
}

/// Whether a team name is acceptable: 1 to 100 bytes.
pub fn check_team_name(name: &str) -> (r: bool)
    ensures
        r == team_name_ok(name@),
{
    let n = name.as_bytes().len();
    1 <= n && n <= 100
}

/// The reply to an unacceptable team name.
pub open spec fn invalid_team_name() -> ReplyView {
    keyed(400, "invalid_name"@, "server.api.team.invalid_name_length"@)
}

/// What is wrong with a slug.
#[derive(Debug, Clone, Copy, PartialEq, Eq, Structural)]
pub enum SlugProblem {
    Length,
    Format,
}

/// The characters a slug is made of: lowercase ASCII letters, digits and
/// hyphens.
pub open spec fn slug_char(c: char) -> bool {
    ('a' <= c && c <= 'z') || ('0' <= c && c <= '9') || c == '-'
}

/// What is wrong with a slug of a team: a length outside 2 to 50
/// characters, or a character outside lowercase letters, digits and
/// hyphens.
pub open spec fn slug_problem(slug: Seq<char>) -> Option<SlugProblem> {
    if slug.len() < 2 || slug.len() > 50 {
        Some(SlugProblem::Length)
    } else if exists|i: int| 0 <= i < slug.len() && !slug_char(#[trigger] slug[i]) {
        Some(SlugProblem::Format)
    } else {
        None
    }
}

/// What is wrong with a slug of a team, if anything.
pub fn check_slug(slug: &str) -> (r: Option<SlugProblem>)
    ensures
        r == slug_problem(slug@),
{
    let v = crate::text::chars_of(slug);
    if v.len() < 2 || v.len() > 50 {
        return Some(SlugProblem::Length);
    }
    let mut i: usize = 0;
    while i < v.len()
        invariant
            i <= v.len(),
            2 <= v.len() <= 50,
            v@ == slug@,
            forall|j: int| 0 <= j < i ==> slug_char(#[trigger] v@[j]),
        decreases v.len() - i,
    {
        let c = v[i];
        if !(('a' <= c && c <= 'z') || ('0' <= c && c <= '9') || c == '-') {
            assert(!slug_char(slug@[i as int]));
            return Some(SlugProblem::Format);
        }
        i = i + 1;
    }
    None
}

/// The step for a slug's problem: the shared validation's reply.
pub open spec fn slug_rejection(p: SlugProblem) -> TeamStepView {
    match p {
        SlugProblem::Length => TeamStepView::BadInput("server.api.team.invalid_slug_length"@),
        SlugProblem::Format => TeamStepView::BadInput("server.api.team.invalid_slug_format"@),
    }
}

fn slug_rejection_step(p: SlugProblem) -> (r: TeamStep)
    ensures
        r@ == slug_rejection(p),
{
    match p {
        SlugProblem::Length => bad_input("server.api.team.invalid_slug_length"),
        SlugProblem::Format => bad_input("server.api.team.invalid_slug_format"),
    }
}

/// The reply to an organization that does not exist.
pub open spec fn org_not_found() -> ReplyView {
    keyed(404, "not_found"@, "server.api.org.not_found"@)
}

/// What creating a team has learnt so far.
#[derive(Debug, Clone)]
pub struct CreateTeamFacts {
    pub org_id: Option<u128>,
    pub name: String,
    pub slug: String,
    /// Whether the organization exists, once looked up.
    pub org: Option<Lookup<()>>,
    /// The access control's answer for `ManageTeam`, once asked.
    pub authorized: Option<bool>,
    /// Whether another team of the organization has the slug, once asked
    /// (a failed lookup counts as no).
    pub slug_taken: Option<bool>,
    /// Whether storing the team succeeded, once tried.
    pub created: Option<bool>,
    /// Whether adding the creator as maintainer was tried (its failure is
    /// only logged).
    pub creator_added: bool,
}

/// The next step of creating a team: a valid slug and name, an existing
/// organization, the `ManageTeam` permission and a free slug; then the
/// team is stored and its creator becomes its maintainer.
pub open spec fn create_team_step_of(f: CreateTeamFacts) -> TeamStepView {
    if f.org_id is None {
        TeamStepView::BadInput("server.api.org.invalid_id"@)
    } else if slug_problem(f.slug@) is Some {
        slug_rejection(slug_problem(f.slug@)->0)
    } else if !team_name_ok(f.name@) {
        TeamStepView::Reply(invalid_team_name())
    } else {
        match f.org {
            None => TeamStepView::LoadOrg,
            Some(Lookup::Missing) => TeamStepView::Reply(org_not_found()),
            Some(Lookup::Failed) => TeamStepView::Reply(internal_error()),
            Some(Lookup::Found(_)) => match f.authorized {
                None => TeamStepView::Authorize(TeamAction::ManageTeam),
                Some(false) => TeamStepView::Denied,
                Some(true) => match f.slug_taken {
                    None => TeamStepView::FindSlug,
                    Some(true) => TeamStepView::Reply(keyed(409, "slug_exists"@, "server.api.team.slug_exists"@)),
                    Some(false) => match f.created {
                        None => TeamStepView::CreateTeam,
                        Some(false) => TeamStepView::Reply(internal_error()),
                        Some(true) => if !f.creator_added {
                            TeamStepView::AddCreatorAsMaintainer
                        } else {
                            TeamStepView::Done
                        },
                    },
                },
            },
        }
    }
}

/// The next step of creating a team.
pub fn create_team_step(f: &CreateTeamFacts) -> (r: TeamStep)
    ensures
        r@ == create_team_step_of(*f),
{
    if f.org_id.is_none() {
        return bad_input("server.api.org.invalid_id");
    }
    if let Some(p) = check_slug(f.slug.as_str()) {
        return slug_rejection_step(p);
    }
    if !check_team_name(f.name.as_str()) {
        return TeamStep::Reply(keyed_reply(400, "invalid_name", "server.api.team.invalid_name_length"));
    }
    match f.org {
        None => TeamStep::LoadOrg,
        Some(Lookup::Missing) => TeamStep::Reply(keyed_reply(404, "not_found", "server.api.org.not_found")),
        Some(Lookup::Failed) => TeamStep::Reply(internal_error_reply()),
        Some(Lookup::Found(_)) => match f.authorized {
            None => TeamStep::Authorize(TeamAction::ManageTeam),
            Some(false) => TeamStep::Denied,
            Some(true) => match f.slug_taken {
                None => TeamStep::FindSlug,
                Some(true) => TeamStep::Reply(keyed_reply(409, "slug_exists", "server.api.team.slug_exists")),
                Some(false) => match f.created {
                    None => TeamStep::CreateTeam,
                    Some(false) => TeamStep::Reply(internal_error_reply()),
                    Some(true) => if !f.creator_added {
                        TeamStep::AddCreatorAsMaintainer
                    } else {
                        TeamStep::Done
                    },
                },
            },
        },
    }
}

/// A team is stored only with a valid slug and name, in an existing
/// organization, with the `ManageTeam` permission, and under a slug that
/// no other team of the organization has.
pub proof fn law_create_team_guards(f: CreateTeamFacts)
    requires
        create_team_step_of(f) is CreateTeam,
    ensures
        f.org_id is Some,
        slug_problem(f.slug@) is None,
        team_name_ok(f.name@),
        f.org matches Some(Lookup::Found(_)),
        f.authorized == Some(true),
        f.slug_taken == Some(false),
{
}

/// What reading, deleting or listing the members of a team has learnt so
/// far.
#[derive(Debug, Clone, Copy)]
pub struct TeamAccessFacts {
    pub org_id: Option<u128>,
    pub team_id: Option<u128>,
    /// The organization of the team, once looked up.
    pub team_org: Option<Lookup<u128>>,
    /// The access control's answer, once asked.
    pub authorized: Option<bool>,
    /// Whether the handler's own store call succeeded, once made.
    pub done: Option<bool>,
}

/// The handlers that read or delete one team.
#[derive(Debug, Clone, Copy, PartialEq, Eq, Structural)]
pub enum TeamAccess {
    /// `get_team`: read permission, then the team's details.
    Get,
    /// `list_team_members`: read permission, then its members.
    ListMembers,
    /// `delete_team`: delete permission, then the deletion.
    Delete,
}

/// The action each of these handlers asks the access control for.
pub open spec fn access_action(h: TeamAccess) -> TeamAction {
    match h {
        TeamAccess::Get => TeamAction::Read,
        TeamAccess::ListMembers => TeamAction::Read,
        TeamAccess::Delete => TeamAction::Delete,
    }
}

/// The next step of reading, deleting or listing the members of a team.
pub open spec fn team_access_step_of(h: TeamAccess, f: TeamAccessFacts) -> TeamStepView {
    if team_gate(f.org_id, f.team_id, f.team_org) is Some {
        team_gate(f.org_id, f.team_id, f.team_org)->0
    } else {
        match f.authorized {
            None => TeamStepView::Authorize(access_action(h)),
            Some(false) => TeamStepView::Denied,
            Some(true) => match h {
                TeamAccess::Get => TeamStepView::Done,
                TeamAccess::ListMembers => match f.done {
                    None => TeamStepView::ListMembers,
                    Some(false) => TeamStepView::Reply(internal_error()),
                    Some(true) => TeamStepView::Done,
                },
                TeamAccess::Delete => match f.done {
                    None => TeamStepView::DeleteTeam,
                    Some(false) => TeamStepView::Reply(internal_error()),
                    Some(true) => TeamStepView::Reply(keyed(200, ""@, "server.api.team.deleted"@)),
                },
            },
        }
    }
}

/// The next step of reading, deleting or listing the members of a team.
pub fn team_access_step(h: TeamAccess, f: &TeamAccessFacts) -> (r: TeamStep)
    ensures
        r@ == team_access_step_of(h, *f),
{
    if let Some(s) = team_gate_step(f.org_id, f.team_id, f.team_org) {
        return s;
    }
    match f.authorized {
        None => TeamStep::Authorize(
            match h {
                TeamAccess::Get => TeamAction::Read,
                TeamAccess::ListMembers => TeamAction::Read,
                TeamAccess::Delete => TeamAction::Delete,
            },
        ),
        Some(false) => TeamStep::Denied,
        Some(true) => match h {
            TeamAccess::Get => TeamStep::Done,
            TeamAccess::ListMembers => match f.done {
                None => TeamStep::ListMembers,
                Some(false) => TeamStep::Reply(internal_error_reply()),
                Some(true) => TeamStep::Done,
            },
            TeamAccess::Delete => match f.done {
                None => TeamStep::DeleteTeam,
                Some(false) => TeamStep::Reply(internal_error_reply()),
                Some(true) => TeamStep::Reply(keyed_reply(200, "", "server.api.team.deleted")),
            },
        },
    }
}

/// A team is deleted only when it belongs to the organization in the path
/// and the access control allows its deletion.
pub proof fn law_delete_team_guards(f: TeamAccessFacts)
    requires
        team_access_step_of(TeamAccess::Delete, f) is DeleteTeam,
    ensures
        f.team_org matches Some(Lookup::Found(o)) && f.org_id == Some(o),
        f.authorized == Some(true),
{
}

/// What updating a team has learnt so far.
#[derive(Debug, Clone)]
pub struct UpdateTeamFacts {
    pub org_id: Option<u128>,
    pub team_id: Option<u128>,
    /// The organization of the team, once looked up.
    pub team_org: Option<Lookup<u128>>,
    /// The team's current name and slug (meaningful once it is found).
    pub current_name: String,
    pub current_slug: String,
    /// The requested name and slug.
    pub name: Option<String>,
    pub slug: Option<String>,
    /// The access control's answer for `Write`, once asked.
    pub authorized: Option<bool>,
    /// Whether another team of the organization has the new slug, once
    /// asked (a failed lookup counts as no).
    pub slug_taken: Option<bool>,
    /// Whether saving succeeded, once tried.
    pub saved: Option<bool>,
}

/// The name a team gets from an update.
pub open spec fn updated_name(f: UpdateTeamFacts) -> Seq<char> {
    match f.name {
        Some(n) => n@,
        None => f.current_name@,
    }
}

/// The slug a team gets from an update.
pub open spec fn updated_slug(f: UpdateTeamFacts) -> Seq<char> {
    match f.slug {
        Some(s) => s@,
        None => f.current_slug@,
    }
}

/// Whether an update changes the team's slug.
pub open spec fn changes_slug(f: UpdateTeamFacts) -> bool {
    f.slug matches Some(s) && s@ != f.current_slug@
}

/// The next step of updating a team: the `Write` permission, a valid new
/// name, a valid new slug that no other team of the organization has; then
/// the team is saved with the given fields replaced.
pub open spec fn update_team_step_of(f: UpdateTeamFacts) -> TeamStepView {
    if team_gate(f.org_id, f.team_id, f.team_org) is Some {
        team_gate(f.org_id, f.team_id, f.team_org)->0
    } else if f.authorized is None {
        TeamStepView::Authorize(TeamAction::Write)
    } else if f.authorized == Some(false) {
        TeamStepView::Denied
    } else if f.name matches Some(n) && !team_name_ok(n@) {
        TeamStepView::Reply(invalid_team_name())
    } else if f.slug matches Some(s) && slug_problem(s@) is Some {
        slug_rejection(slug_problem(f.slug->0@)->0)
    } else if changes_slug(f) && f.slug_taken is None {
        TeamStepView::FindSlug
    } else if changes_slug(f) && f.slug_taken == Some(true) {
        TeamStepView::Reply(keyed(409, "slug_exists"@, "server.api.team.slug_exists"@))
    } else {
        match f.saved {
            None => TeamStepView::SaveTeam(updated_name(f), updated_slug(f)),
            Some(false) => TeamStepView::Reply(internal_error()),
            Some(true) => TeamStepView::Done,
        }
    }
}

/// The next step of updating a team.
pub fn update_team_step(f: &UpdateTeamFacts) -> (r: TeamStep)
    ensures
        r@ == update_team_step_of(*f),
{
    if let Some(s) = team_gate_step(f.org_id, f.team_id, f.team_org) {
        return s;
    }
    match f.authorized {
        None => return TeamStep::Authorize(TeamAction::Write),
        Some(false) => return TeamStep::Denied,
        Some(true) => {},
    }
    let name = match &f.name {
        Some(n) => {
            if !check_team_name(n.as_str()) {
                return TeamStep::Reply(keyed_reply(400, "invalid_name", "server.api.team.invalid_name_length"));
            }
            n.clone()
        },
        None => f.current_name.clone(),
    };
    let slug = match &f.slug {
        Some(s) => {
            if let Some(p) = check_slug(s.as_str()) {
                return slug_rejection_step(p);
            }
            if !crate::text::str_eq(s.as_str(), f.current_slug.as_str()) {
                match f.slug_taken {
                    None => return TeamStep::FindSlug,
                    Some(true) => return TeamStep::Reply(
                        keyed_reply(409, "slug_exists", "server.api.team.slug_exists"),
                    ),
                    Some(false) => {},
                }
            }
            s.clone()
        },
        None => f.current_slug.clone(),
    };
    match f.saved {
        None => TeamStep::SaveTeam(name, slug),
        Some(false) => TeamStep::Reply(internal_error_reply()),
        Some(true) => TeamStep::Done,
    }
}

/// A team is saved only with the `Write` permission, and a changed slug
/// only when it is valid and no other team of the organization has it;
/// what is saved is the current team with the given fields replaced.
pub proof fn law_update_team_guards(f: UpdateTeamFacts)
    requires
        update_team_step_of(f) is SaveTeam,
    ensures
        f.team_org matches Some(Lookup::Found(o)) && f.org_id == Some(o),
        f.authorized == Some(true),
        team_name_ok(updated_name(f)) || f.name is None,
        f.slug is Some ==> slug_problem(updated_slug(f)) is None,
        changes_slug(f) ==> f.slug_taken == Some(false),
        update_team_step_of(f) == TeamStepView::SaveTeam(updated_name(f), updated_slug(f)),
{
}

/// What adding a member has learnt so far.
#[derive(Debug, Clone, Copy)]
pub struct AddMemberFacts {
    pub org_id: Option<u128>,
    pub team_id: Option<u128>,
    pub target: Option<u128>,
    /// The requested role.
    pub role: TeamRole,
    /// The organization of the team, once looked up.
    pub team_org: Option<Lookup<u128>>,
    /// The access control's answer for `ManageTeam`, once asked.
    pub authorized: Option<bool>,
    /// Whether the target belongs to the organization, once looked up.
    pub target_in_org: Option<Lookup<()>>,
    /// Whether the target already belongs to the team, once asked (a failed
    /// lookup counts as no).
    pub already_member: Option<bool>,
    /// Whether adding succeeded, once tried.
    pub added: Option<bool>,
}

/// The next step of adding a member: the `ManageTeam` permission, a target
/// who belongs to the organization and not yet to the team.
pub open spec fn add_member_step_of(f: AddMemberFacts) -> TeamStepView {
    if f.org_id is None {
        TeamStepView::BadInput("server.api.org.invalid_id"@)
    } else if f.team_id is None {
        TeamStepView::BadInput("server.api.team.invalid_id"@)
    } else if f.target is None {
        TeamStepView::BadInput("server.api.user.invalid_id"@)
    } else if team_gate(f.org_id, f.team_id, f.team_org) is Some {
        team_gate(f.org_id, f.team_id, f.team_org)->0
    } else {
        match f.authorized {
            None => TeamStepView::Authorize(TeamAction::ManageTeam),
            Some(false) => TeamStepView::Denied,
            Some(true) => match f.target_in_org {
                None => TeamStepView::CheckTargetOrgMembership,
                Some(Lookup::Missing) => TeamStepView::Reply(
                    keyed(400, "not_org_member"@, "server.api.team.user_not_org_member"@),
                ),
                Some(Lookup::Failed) => TeamStepView::Reply(
                    keyed(500, "internal_error"@, "server.api.team.membership_check_failed"@),
                ),
                Some(Lookup::Found(_)) => match f.already_member {
                    None => TeamStepView::CheckTargetTeamMembership,
                    Some(true) => TeamStepView::Reply(keyed(409, "already_member"@, "server.api.team.already_member"@)),
                    Some(false) => match f.added {
                        None => TeamStepView::AddMember(f.role),
                        Some(false) => TeamStepView::Reply(internal_error()),
                        Some(true) => TeamStepView::Reply(keyed(200, ""@, "server.api.team.member_added"@)),
                    },
                },
            },
        }
    }
}

/// The next step of adding a member.
pub fn add_member_step(f: &AddMemberFacts) -> (r: TeamStep)
    ensures
        r@ == add_member_step_of(*f),
{
    if f.org_id.is_none() {
        return bad_input("server.api.org.invalid_id");
    }
    if f.team_id.is_none() {
        return bad_input("server.api.team.invalid_id");
    }
    if f.target.is_none() {
        return bad_input("server.api.user.invalid_id");
    }
    if let Some(s) = team_gate_step(f.org_id, f.team_id, f.team_org) {
        return s;
    }
    match f.authorized {
        None => TeamStep::Authorize(TeamAction::ManageTeam),
        Some(false) => TeamStep::Denied,
        Some(true) => match f.target_in_org {
            None => TeamStep::CheckTargetOrgMembership,
            Some(Lookup::Missing) => TeamStep::Reply(
                keyed_reply(400, "not_org_member", "server.api.team.user_not_org_member"),
            ),
            Some(Lookup::Failed) => TeamStep::Reply(
                keyed_reply(500, "internal_error", "server.api.team.membership_check_failed"),
            ),
            Some(Lookup::Found(_)) => match f.already_member {
                None => TeamStep::CheckTargetTeamMembership,
                Some(true) => TeamStep::Reply(keyed_reply(409, "already_member", "server.api.team.already_member")),
                Some(false) => match f.added {
                    None => TeamStep::AddMember(f.role),
                    Some(false) => TeamStep::Reply(internal_error_reply()),
                    Some(true) => TeamStep::Reply(keyed_reply(200, "", "server.api.team.member_added")),
                },
            },
        },
    }
}

/// A member is added only to a team of the organization in the path, with
/// the `ManageTeam` permission, when they belong to the organization and
/// not yet to the team, and with the requested role.
pub proof fn law_add_member_guards(f: AddMemberFacts)
    requires
        add_member_step_of(f) is AddMember,
    ensures
        f.team_org matches Some(Lookup::Found(o)) && f.org_id == Some(o),
        f.target is Some,
        f.authorized == Some(true),
        f.target_in_org matches Some(Lookup::Found(_)),
        f.already_member == Some(false),
        add_member_step_of(f) == TeamStepView::AddMember(f.role),
{
}

/// What listing the teams of an organization has learnt so far.
#[derive(Debug, Clone, Copy)]
pub struct ListTeamsFacts {
    pub org_id: Option<u128>,
    /// Whether the organization exists, once looked up.
    pub org: Option<Lookup<()>>,
    /// Whether the caller belongs to it, once looked up.
    pub membership: Option<Lookup<()>>,
    /// Whether listing succeeded, once tried.
    pub listed: Option<bool>,
}

/// The next step of listing the teams of an organization: only its members
/// see them.
pub open spec fn list_teams_step_of(f: ListTeamsFacts) -> TeamStepView {
    if f.org_id is None {
        TeamStepView::BadInput("server.api.org.invalid_id"@)
    } else {
        match f.org {
            None => TeamStepView::LoadOrg,
            Some(Lookup::Missing) => TeamStepView::Reply(org_not_found()),
            Some(Lookup::Failed) => TeamStepView::Reply(internal_error()),
            Some(Lookup::Found(_)) => match f.membership {
                None => TeamStepView::CheckActorMembership,
                Some(Lookup::Missing) => TeamStepView::Reply(keyed(403, "forbidden"@, "server.api.org.not_a_member"@)),
                Some(Lookup::Failed) => TeamStepView::Reply(
                    keyed(500, "internal_error"@, "server.api.team.membership_check_failed"@),
                ),
                Some(Lookup::Found(_)) => match f.listed {
                    None => TeamStepView::ListTeams,
                    Some(false) => TeamStepView::Reply(keyed(500, "internal_error"@, "server.api.team.list_failed"@)),
                    Some(true) => TeamStepView::Done,
                },
            },
        }
    }
}

/// The next step of listing the teams of an organization.
pub fn list_teams_step(f: &ListTeamsFacts) -> (r: TeamStep)
    ensures
        r@ == list_teams_step_of(*f),
{
    if f.org_id.is_none() {
        return bad_input("server.api.org.invalid_id");
    }
    match f.org {
        None => TeamStep::LoadOrg,
        Some(Lookup::Missing) => TeamStep::Reply(keyed_reply(404, "not_found", "server.api.org.not_found")),
        Some(Lookup::Failed) => TeamStep::Reply(internal_error_reply()),
        Some(Lookup::Found(_)) => match f.membership {
            None => TeamStep::CheckActorMembership,
            Some(Lookup::Missing) => TeamStep::Reply(keyed_reply(403, "forbidden", "server.api.org.not_a_member")),
            Some(Lookup::Failed) => TeamStep::Reply(
                keyed_reply(500, "internal_error", "server.api.team.membership_check_failed"),
            ),
            Some(Lookup::Found(_)) => match f.listed {
                None => TeamStep::ListTeams,
                Some(false) => TeamStep::Reply(keyed_reply(500, "internal_error", "server.api.team.list_failed")),
                Some(true) => TeamStep::Done,
            },
        },
    }
}

/// The e-mail address a member listing shows: only one its owner made
/// visible.
pub fn visible_email(email: Option<String>, email_visible: bool) -> (r: Option<String>)
    ensures
        r == (if email_visible { email } else { None }),
{
    if email_visible {
        email
    } else {
        None
    }
}

} // verus!
