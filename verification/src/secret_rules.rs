//! Decisions of the secrets endpoints: secrets scoped to an organization or
//! to a repository. The endpoints handle metadata only, never values.
//!
//! Members of an organization read its secrets; only its owners and admins
//! create, rotate or delete them. Every operation on a repository's secrets
//! needs an owner or admin of the organization that owns the repository.
use vstd::prelude::*;
use crate::invitation_rules::OrgRole;
use crate::replies::{internal_error, internal_error_reply, keyed, keyed_reply, literal, Lookup, Reply, ReplyView};
use crate::text::string_of_str;

verus! {

/// Where a secret lives.
#[derive(Debug, Clone, Copy, PartialEq, Eq, Structural)]
pub enum SecretScopeKind {
    Org,
    Repo,
}

/// What is done with secrets.
#[derive(Debug, Clone, Copy, PartialEq, Eq, Structural)]
pub enum SecretOp {
    List,
    Create,
    Get,
    /// Store a new version of the value.
    Rotate,
    Delete,
}

/// Whether an operation changes secrets.
pub open spec fn is_write(op: SecretOp) -> bool {
    op == SecretOp::Create || op == SecretOp::Rotate || op == SecretOp::Delete
}

/// Whether a role administers its organization.
pub open spec fn is_org_admin(role: OrgRole) -> bool {
    role == OrgRole::Owner || role == OrgRole::Admin
}

/// How the secrets service answered a creation.
#[derive(Debug, Clone, PartialEq, Eq)]
pub enum CreateOutcome {
    Created,
    AlreadyExists,
    /// The name was refused, with the service's own message.
    InvalidName(String),
    Failed,
}

/// What a secrets handler has learnt so far.
#[derive(Debug, Clone)]
pub struct SecretFacts {
    pub scope: SecretScopeKind,
    pub op: SecretOp,
    /// Whether the organization or repository id of the path is a UUID.
    pub id_valid: bool,
    /// Whether the repository store is configured (repository scope).
    pub scm_configured: bool,
    /// Whether the repository exists, once looked up (repository scope).
    pub repo: Option<Lookup<()>>,
    /// The caller's role in the organization (for a repository, the one
    /// owning it), once looked up.
    pub role: Option<Lookup<OrgRole>>,
    /// Whether the secrets service is configured.
    pub service_configured: bool,
    /// Whether the named secret exists, once looked up (reading, rotating,
    /// deleting).
    pub secret: Option<Lookup<()>>,
    /// How creating went, once tried.
    pub created: Option<CreateOutcome>,
    /// Whether the handler's other store call (listing, rotating, deleting)
    /// succeeded, once made.
    pub done: Option<bool>,
}

/// The next step of a secrets handler.
#[derive(Debug, Clone)]
pub enum SecretStep {
    /// Reject the id as the shared validation does (400), with this key.
    BadInput(String),
    LoadRepo,
    LoadRole,
    ListSecrets,
    CreateSecret,
    LoadSecret,
    RotateSecret,
    DeleteSecret,
    Reply(Reply),
    /// Success: the handler answers with the secret's metadata or the
    /// listing (201 for a creation).
    Done,
}

/// The next step of a secrets handler, as plain values.
pub enum SecretStepView {
    BadInput(Seq<char>),
    LoadRepo,
    LoadRole,
    ListSecrets,
    CreateSecret,
    LoadSecret,
    RotateSecret,
    DeleteSecret,
    Reply(ReplyView),
    Done,
}

impl View for SecretStep {
    type V = SecretStepView;

    open spec fn view(&self) -> SecretStepView {
        match self {
            SecretStep::BadInput(k) => SecretStepView::BadInput(k@),
            SecretStep::LoadRepo => SecretStepView::LoadRepo,
            SecretStep::LoadRole => SecretStepView::LoadRole,
            SecretStep::ListSecrets => SecretStepView::ListSecrets,
            SecretStep::CreateSecret => SecretStepView::CreateSecret,
            SecretStep::LoadSecret => SecretStepView::LoadSecret,
            SecretStep::RotateSecret => SecretStepView::RotateSecret,
            SecretStep::DeleteSecret => SecretStepView::DeleteSecret,
            SecretStep::Reply(r) => SecretStepView::Reply(r@),
            SecretStep::Done => SecretStepView::Done,
        }
    }
}

/// Whether the caller's role lets them do the operation: a repository's
/// secrets and any change need an owner or admin; reading an
/// organization's secrets needs a member.
pub open spec fn role_allows(scope: SecretScopeKind, op: SecretOp, role: OrgRole) -> bool {
    if scope == SecretScopeKind::Repo || is_write(op) {
        is_org_admin(role)
    } else {
        true
    }
}

/// The checks before the secrets service is used: the id, for a repository
/// the store and the repository, the caller's role. `None` when they
/// passed.
pub open spec fn secret_access_gate(f: SecretFacts) -> Option<SecretStepView> {
    if !f.id_valid {
        Some(
            SecretStepView::BadInput(
                if f.scope == SecretScopeKind::Org {
                    "server.api.org.invalid_id"@
                } else {
                    "server.api.repo.invalid_id"@
                },
            ),
        )
    } else if f.scope == SecretScopeKind::Repo && !f.scm_configured {
        Some(SecretStepView::Reply(keyed(503, "not_configured"@, "server.api.scm.not_configured"@)))
    } else if f.scope == SecretScopeKind::Repo && f.repo is None {
        Some(SecretStepView::LoadRepo)
    } else if f.scope == SecretScopeKind::Repo && f.repo == Some(Lookup::<()>::Missing) {
        Some(SecretStepView::Reply(keyed(404, "not_found"@, "server.api.repo.not_found"@)))
    } else if f.scope == SecretScopeKind::Repo && f.repo == Some(Lookup::<()>::Failed) {
        Some(SecretStepView::Reply(internal_error()))
    } else {
        match f.role {
            None => Some(SecretStepView::LoadRole),
            Some(Lookup::Missing) => Some(SecretStepView::Reply(keyed(403, "forbidden"@, "server.api.org.not_a_member"@))),
            Some(Lookup::Failed) => Some(SecretStepView::Reply(internal_error())),
            Some(Lookup::Found(role)) => if !role_allows(f.scope, f.op, role) {
                Some(SecretStepView::Reply(keyed(403, "forbidden"@, "server.api.org.admin_required"@)))
            } else {
                None
            },
        }
    }
}

/// The reply to a secret that does not exist.
pub open spec fn secret_not_found() -> ReplyView {
    keyed(404, "not_found"@, "server.api.secrets.not_found"@)
}

/// The next step of a secrets handler: after the access checks, the
/// service must be configured; then the operation runs.
pub open spec fn secret_step_of(f: SecretFacts) -> SecretStepView {
    if secret_access_gate(f) is Some {
        secret_access_gate(f)->0
    } else if !f.service_configured {
        SecretStepView::Reply(keyed(503, "not_configured"@, "server.api.secrets.not_configured"@))
    } else {
        match f.op {
            SecretOp::List => match f.done {
                None => SecretStepView::ListSecrets,
                Some(false) => SecretStepView::Reply(internal_error()),
                Some(true) => SecretStepView::Done,
            },
            SecretOp::Create => match f.created {
                None => SecretStepView::CreateSecret,
                Some(CreateOutcome::Created) => SecretStepView::Done,
                Some(CreateOutcome::AlreadyExists) => SecretStepView::Reply(
                    keyed(409, "already_exists"@, "server.api.secrets.already_exists"@),
                ),
                Some(CreateOutcome::InvalidName(msg)) => SecretStepView::Reply(literal(400, "invalid_name"@, msg@)),
                Some(CreateOutcome::Failed) => SecretStepView::Reply(internal_error()),
            },
            _ => match f.secret {
                None => SecretStepView::LoadSecret,
                Some(Lookup::Missing) => SecretStepView::Reply(secret_not_found()),
                Some(Lookup::Failed) => SecretStepView::Reply(internal_error()),
                Some(Lookup::Found(_)) => match f.op {
                    SecretOp::Rotate => match f.done {
                        None => SecretStepView::RotateSecret,
                        Some(false) => SecretStepView::Reply(internal_error()),
                        Some(true) => SecretStepView::Done,
                    },
                    SecretOp::Delete => match f.done {
                        None => SecretStepView::DeleteSecret,
                        Some(false) => SecretStepView::Reply(internal_error()),
                        Some(true) => SecretStepView::Reply(keyed(200, ""@, "server.api.secrets.deleted"@)),
                    },
                    _ => SecretStepView::Done,
                },
            },
        }
    }
}

fn secret_access_gate_step(f: &SecretFacts) -> (r: Option<SecretStep>)
    ensures
        r is None <==> secret_access_gate(*f) is None,
        r matches Some(s) ==> secret_access_gate(*f) == Some(s@),
{
    let is_repo = f.scope == SecretScopeKind::Repo;
    if !f.id_valid {
        return Some(
            SecretStep::BadInput(
                if is_repo {
                    string_of_str("server.api.repo.invalid_id")
                } else {
                    string_of_str("server.api.org.invalid_id")
                },
            ),
        );
    }
    if is_repo {
        if !f.scm_configured {
            return Some(SecretStep::Reply(keyed_reply(503, "not_configured", "server.api.scm.not_configured")));
        }
        match f.repo {
            None => return Some(SecretStep::LoadRepo),
            Some(Lookup::Missing) => return Some(
                SecretStep::Reply(keyed_reply(404, "not_found", "server.api.repo.not_found")),
            ),
            Some(Lookup::Failed) => return Some(SecretStep::Reply(internal_error_reply())),
            Some(Lookup::Found(_)) => {},
        }
    }
    match f.role {
        None => Some(SecretStep::LoadRole),
        Some(Lookup::Missing) => Some(SecretStep::Reply(keyed_reply(403, "forbidden", "server.api.org.not_a_member"))),
        Some(Lookup::Failed) => Some(SecretStep::Reply(internal_error_reply())),
        Some(Lookup::Found(role)) => {
            let write = match f.op {
                SecretOp::Create | SecretOp::Rotate | SecretOp::Delete => true,
                _ => false,
            };
            let admin = role == OrgRole::Owner || role == OrgRole::Admin;
            if (is_repo || write) && !admin {
                Some(SecretStep::Reply(keyed_reply(403, "forbidden", "server.api.org.admin_required")))
            } else {
                None
            }
        },
    }
}

/// The next step of a secrets handler.
pub fn secret_step(f: &SecretFacts) -> (r: SecretStep)
    ensures
        r@ == secret_step_of(*f),
{
    if let Some(s) = secret_access_gate_step(f) {
        return s;
    }
    if !f.service_configured {
        return SecretStep::Reply(keyed_reply(503, "not_configured", "server.api.secrets.not_configured"));
    }
    match f.op {
        SecretOp::List => match f.done {
            None => SecretStep::ListSecrets,
            Some(false) => SecretStep::Reply(internal_error_reply()),
            Some(true) => SecretStep::Done,
        },
        SecretOp::Create => match &f.created {
            None => SecretStep::CreateSecret,
            Some(CreateOutcome::Created) => SecretStep::Done,
            Some(CreateOutcome::AlreadyExists) => SecretStep::Reply(
                keyed_reply(409, "already_exists", "server.api.secrets.already_exists"),
            ),
            Some(CreateOutcome::InvalidName(msg)) => SecretStep::Reply(
                Reply { status: 400, error: string_of_str("invalid_name"), message: msg.clone(), translate: false },
            ),
            Some(CreateOutcome::Failed) => SecretStep::Reply(internal_error_reply()),
        },
        _ => match f.secret {
            None => SecretStep::LoadSecret,
            Some(Lookup::Missing) => SecretStep::Reply(keyed_reply(404, "not_found", "server.api.secrets.not_found")),
            Some(Lookup::Failed) => SecretStep::Reply(internal_error_reply()),
            Some(Lookup::Found(_)) => match f.op {
                SecretOp::Rotate => match f.done {
                    None => SecretStep::RotateSecret,
                    Some(false) => SecretStep::Reply(internal_error_reply()),
                    Some(true) => SecretStep::Done,
                },
                SecretOp::Delete => match f.done {
                    None => SecretStep::DeleteSecret,
                    Some(false) => SecretStep::Reply(internal_error_reply()),
                    Some(true) => SecretStep::Reply(keyed_reply(200, "", "server.api.secrets.deleted")),
                },
                _ => SecretStep::Done,
            },
        },
    }
}

/// The secrets service is reached only by a caller with a role in the
/// organization; a change of any secret, and any operation on a
/// repository's secrets, only by an owner or admin of it.
pub proof fn law_secret_access(f: SecretFacts)
    requires
        secret_step_of(f) is ListSecrets || secret_step_of(f) is CreateSecret || secret_step_of(f) is LoadSecret
            || secret_step_of(f) is RotateSecret || secret_step_of(f) is DeleteSecret,
    ensures
        f.id_valid,
        f.service_configured,
        f.role matches Some(Lookup::Found(role)) && ((is_write(f.op) || f.scope == SecretScopeKind::Repo)
            ==> is_org_admin(role)),
        f.scope == SecretScopeKind::Repo ==> (f.repo matches Some(Lookup::Found(_))),
{
}

} // verus!
