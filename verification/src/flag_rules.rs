//! Decisions of the administration endpoints for platform feature flags and
//! kill switches.
//!
//! Only system administrators use them. A flag needs at least one variant,
//! and its default variant must be one of them. A kill switch is activated
//! with a reason, which it keeps, with the time and the administrator, until
//! it is deactivated.
use vstd::prelude::*;
use crate::admin_rules::admin_required;
use crate::replies::{keyed, keyed_reply, Lookup, Reply, ReplyView};
use crate::text::{chars_of, string_of_str, trim, trim_chars, str_eq};

verus! {

/// The next step of a flag or kill-switch handler.
#[derive(Debug, Clone)]
pub enum FlagStep {
    LoadFlag,
    LoadKillSwitch,
    /// Ask whether a platform flag or kill switch already has the key.
    FindKey,
    ListFlags,
    ListKillSwitches,
    ListStrategies,
    CreateFlag,
    SaveFlag(FlagFields),
    ArchiveFlag,
    RestoreFlag,
    CreateKillSwitch,
    SaveKillSwitch(KillSwitchState),
    DeleteKillSwitch,
    /// Tell the connected clients of the kill switch's new state.
    Broadcast,
    /// Answer 404 through the shared helper, with this message key.
    NotFound(String),
    /// Answer 500 through the shared helper.
    InternalError,
    Reply(Reply),
    /// Success: the handler answers with what it gathered.
    Done,
}

/// The next step of a flag or kill-switch handler, as plain values.
pub enum FlagStepView {
    LoadFlag,
    LoadKillSwitch,
    FindKey,
    ListFlags,
    ListKillSwitches,
    ListStrategies,
    CreateFlag,
    SaveFlag(FlagFieldsView),
    ArchiveFlag,
    RestoreFlag,
    CreateKillSwitch,
    SaveKillSwitch(KillSwitchView),
    DeleteKillSwitch,
    Broadcast,
    NotFound(Seq<char>),
    InternalError,
    Reply(ReplyView),
    Done,
}

impl View for FlagStep {
    type V = FlagStepView;

    open spec fn view(&self) -> FlagStepView {
        match self {
            FlagStep::LoadFlag => FlagStepView::LoadFlag,
            FlagStep::LoadKillSwitch => FlagStepView::LoadKillSwitch,
            FlagStep::FindKey => FlagStepView::FindKey,
            FlagStep::ListFlags => FlagStepView::ListFlags,
            FlagStep::ListKillSwitches => FlagStepView::ListKillSwitches,
            FlagStep::ListStrategies => FlagStepView::ListStrategies,
            FlagStep::CreateFlag => FlagStepView::CreateFlag,
            FlagStep::SaveFlag(f) => FlagStepView::SaveFlag(f@),
            FlagStep::ArchiveFlag => FlagStepView::ArchiveFlag,
            FlagStep::RestoreFlag => FlagStepView::RestoreFlag,
            FlagStep::CreateKillSwitch => FlagStepView::CreateKillSwitch,
            FlagStep::SaveKillSwitch(k) => FlagStepView::SaveKillSwitch(k@),
            FlagStep::DeleteKillSwitch => FlagStepView::DeleteKillSwitch,
            FlagStep::Broadcast => FlagStepView::Broadcast,
            FlagStep::NotFound(k) => FlagStepView::NotFound(k@),
            FlagStep::InternalError => FlagStepView::InternalError,
            FlagStep::Reply(r) => FlagStepView::Reply(r@),
            FlagStep::Done => FlagStepView::Done,
        }
    }
}

/// The views of a list of strings.
pub open spec fn strings_view(v: Seq<String>) -> Seq<Seq<char>> {
    v.map_values(|s: String| s@)
}

/// Whether `name` is among `names`.
pub open spec fn names_contain(names: Seq<Seq<char>>, name: Seq<char>) -> bool {
    exists|i: int| 0 <= i < names.len() && names[i] == name
}

/// Whether `name` is among `names`.
pub fn contains_name(names: &Vec<String>, name: &str) -> (r: bool)
    ensures
        r == names_contain(strings_view(names@), name@),
{
    let mut i: usize = 0;
    while i < names.len()
        invariant
            i <= names.len(),
            forall|j: int| 0 <= j < i ==> names@[j]@ != name@,
        decreases names.len() - i,
    {
        if str_eq(names[i].as_str(), name) {
            assert(strings_view(names@)[i as int] == name@);
            return true;
        }
        i = i + 1;
    }
    assert forall|j: int| 0 <= j < strings_view(names@).len() implies strings_view(names@)[j] != name@ by {
        assert(strings_view(names@)[j] == names@[j]@);
    }
    false
}

/// What creating a platform flag has learnt so far.
#[derive(Debug, Clone)]
pub struct CreateFlagFacts {
    pub is_admin: bool,
    /// Whether the key passes the flags' key rule.
    pub key_valid: bool,
    /// Whether a platform flag has the key, once asked (a failed lookup
    /// counts as no).
    pub duplicate: Option<bool>,
    /// The names of the requested variants.
    pub variant_names: Vec<String>,
    pub default_variant: String,
    pub created: Option<bool>,
}

/// The next step of creating a platform flag: an administrator, a valid
/// and unused key, at least one variant, and a default variant among them;
/// the answer is 201.
pub open spec fn create_flag_step_of(f: CreateFlagFacts) -> FlagStepView {
    if !f.is_admin {
        FlagStepView::Reply(admin_required())
    } else if !f.key_valid {
        FlagStepView::Reply(keyed(400, "invalid_key"@, "server.api.flags.invalid_flag_key"@))
    } else if f.duplicate is None {
        FlagStepView::FindKey
    } else if f.duplicate == Some(true) {
        FlagStepView::Reply(keyed(409, "duplicate_key"@, "server.api.flags.duplicate_flag_key"@))
    } else if f.variant_names@.len() == 0 {
        FlagStepView::Reply(keyed(400, "no_variants"@, "server.api.flags.variant_not_found"@))
    } else if !names_contain(strings_view(f.variant_names@), f.default_variant@) {
        FlagStepView::Reply(keyed(400, "invalid_default"@, "server.api.flags.default_variant_missing"@))
    } else {
        match f.created {
            None => FlagStepView::CreateFlag,
            Some(false) => FlagStepView::InternalError,
            Some(true) => FlagStepView::Done,
        }
    }
}

fn admin_required_reply() -> (r: Reply)
    ensures
        r@ == admin_required(),
{
    keyed_reply(403, "forbidden", "server.api.admin.system_admin_required")
}

/// The next step of creating a platform flag.
pub fn create_flag_step(f: &CreateFlagFacts) -> (r: FlagStep)
    ensures
        r@ == create_flag_step_of(*f),
{
    if !f.is_admin {
        return FlagStep::Reply(admin_required_reply());
    }
    if !f.key_valid {
        return FlagStep::Reply(keyed_reply(400, "invalid_key", "server.api.flags.invalid_flag_key"));
    }
    match f.duplicate {
        None => return FlagStep::FindKey,
        Some(true) => return FlagStep::Reply(keyed_reply(409, "duplicate_key", "server.api.flags.duplicate_flag_key")),
        Some(false) => {},
    }
    if f.variant_names.len() == 0 {
        return FlagStep::Reply(keyed_reply(400, "no_variants", "server.api.flags.variant_not_found"));
    }
    if !contains_name(&f.variant_names, f.default_variant.as_str()) {
        return FlagStep::Reply(keyed_reply(400, "invalid_default", "server.api.flags.default_variant_missing"));
    }
    match f.created {
        None => FlagStep::CreateFlag,
        Some(false) => FlagStep::InternalError,
        Some(true) => FlagStep::Done,
    }
}

/// The fields of a flag that an update can change (variants by their
/// names, the rest of them kept by the caller).
#[derive(Debug, Clone)]
pub struct FlagFields {
    pub name: String,
    pub description: Option<String>,
    pub tags: Vec<String>,
    pub maintainer: Option<u128>,
    pub variant_names: Vec<String>,
    pub default_variant: String,
}

/// The fields of a flag, as plain values.
pub struct FlagFieldsView {
    pub name: Seq<char>,
    pub description: Option<Seq<char>>,
    pub tags: Seq<Seq<char>>,
    pub maintainer: Option<u128>,
    pub variant_names: Seq<Seq<char>>,
    pub default_variant: Seq<char>,
}

/// The view of an optional string.
pub open spec fn opt_string_view(s: Option<String>) -> Option<Seq<char>> {
    match s {
        Some(t) => Some(t@),
        None => None,
    }
}

impl View for FlagFields {
    type V = FlagFieldsView;

    open spec fn view(&self) -> FlagFieldsView {
        FlagFieldsView {
            name: self.name@,
            description: opt_string_view(self.description),
            tags: strings_view(self.tags@),
            maintainer: self.maintainer,
            variant_names: strings_view(self.variant_names@),
            default_variant: self.default_variant@,
        }
    }
}

/// A requested update of a flag. The maintainer, when given, is the id it
/// names, or `None` when the text was no user id (which clears it).
#[derive(Debug, Clone)]
pub struct FlagPatch {
    pub name: Option<String>,
    pub description: Option<String>,
    pub tags: Option<Vec<String>>,
    pub maintainer: Option<Option<u128>>,
    pub variant_names: Option<Vec<String>>,
    pub default_variant: Option<String>,
    /// Whether prerequisites are given (they are replaced, unchecked).
    pub prerequisites_given: bool,
}

/// A flag's fields after an update: each given field replaces the old one.
pub open spec fn patched_flag(old: FlagFieldsView, p: FlagPatch) -> FlagFieldsView {
    FlagFieldsView {
        name: match p.name {
            Some(n) => n@,
            None => old.name,
        },
        description: match p.description {
            Some(d) => Some(d@),
            None => old.description,
        },
        tags: match p.tags {
            Some(t) => strings_view(t@),
            None => old.tags,
        },
        maintainer: match p.maintainer {
            Some(m) => m,
            None => old.maintainer,
        },
        variant_names: match p.variant_names {
            Some(v) => strings_view(v@),
            None => old.variant_names,
        },
        default_variant: match p.default_variant {
            Some(d) => d@,
            None => old.default_variant,
        },
    }
}

/// A copy of a list of strings.
pub fn copy_strings(v: &Vec<String>) -> (r: Vec<String>)
    ensures
        strings_view(r@) == strings_view(v@),
{
    let mut r: Vec<String> = Vec::new();
    let mut i: usize = 0;
    while i < v.len()
        invariant
            i <= v.len(),
            r@.len() == i,
            forall|j: int| 0 <= j < i ==> r@[j]@ == v@[j]@,
        decreases v.len() - i,
    {
        r.push(v[i].clone());
        i = i + 1;
    }
    assert(strings_view(r@) =~= strings_view(v@));
    r
}

fn copy_opt_string(s: &Option<String>) -> (r: Option<String>)
    ensures
        opt_string_view(r) == opt_string_view(*s),
{
    match s {
        Some(t) => Some(t.clone()),
        None => None,
    }
}

/// A flag's fields after an update.
pub fn patch_flag(old: &FlagFields, p: &FlagPatch) -> (r: FlagFields)
    ensures
        r@ == patched_flag(old@, *p),
{
    FlagFields {
        name: match &p.name {
            Some(n) => n.clone(),
            None => old.name.clone(),
        },
        description: match &p.description {
            Some(d) => Some(d.clone()),
            None => copy_opt_string(&old.description),
        },
        tags: match &p.tags {
            Some(t) => copy_strings(t),
            None => copy_strings(&old.tags),
        },
        maintainer: match p.maintainer {
            Some(m) => m,
            None => old.maintainer,
        },
        variant_names: match &p.variant_names {
            Some(v) => copy_strings(v),
            None => copy_strings(&old.variant_names),
        },
        default_variant: match &p.default_variant {
            Some(d) => d.clone(),
            None => old.default_variant.clone(),
        },
    }
}

/// What updating a platform flag has learnt so far.
#[derive(Debug, Clone)]
pub struct UpdateFlagFacts {
    pub is_admin: bool,
    pub patch: FlagPatch,
    /// The flag's fields, once looked up by its key.
    pub flag: Option<Lookup<FlagFields>>,
    pub saved: Option<bool>,
}

/// The next step of updating a platform flag: an administrator, an
/// existing flag; a new default variant must be among the variants the
/// flag has after the update; then the patched flag is saved.
pub open spec fn update_flag_step_of(f: UpdateFlagFacts) -> FlagStepView {
    if !f.is_admin {
        FlagStepView::Reply(admin_required())
    } else {
        match f.flag {
            None => FlagStepView::LoadFlag,
            Some(Lookup::Missing) => FlagStepView::NotFound("server.api.flags.flag_not_found"@),
            Some(Lookup::Failed) => FlagStepView::InternalError,
            Some(Lookup::Found(old)) => {
                let new = patched_flag(old@, f.patch);
                if f.patch.default_variant is Some && !names_contain(new.variant_names, new.default_variant) {
                    FlagStepView::Reply(keyed(400, "invalid_default"@, "server.api.flags.default_variant_missing"@))
                } else {
                    match f.saved {
                        None => FlagStepView::SaveFlag(new),
                        Some(false) => FlagStepView::InternalError,
                        Some(true) => FlagStepView::Done,
                    }
                }
            },
        }
    }
}

/// The next step of updating a platform flag.
pub fn update_flag_step(f: &UpdateFlagFacts) -> (r: FlagStep)
    ensures
        r@ == update_flag_step_of(*f),
{
    if !f.is_admin {
        return FlagStep::Reply(admin_required_reply());
    }
    let old = match &f.flag {
        None => return FlagStep::LoadFlag,
        Some(Lookup::Missing) => return FlagStep::NotFound(string_of_str("server.api.flags.flag_not_found")),
        Some(Lookup::Failed) => return FlagStep::InternalError,
        Some(Lookup::Found(old)) => old,
    };
    let new = patch_flag(old, &f.patch);
    if f.patch.default_variant.is_some() && !contains_name(&new.variant_names, new.default_variant.as_str()) {
        return FlagStep::Reply(keyed_reply(400, "invalid_default", "server.api.flags.default_variant_missing"));
    }
    match f.saved {
        None => FlagStep::SaveFlag(new),
        Some(false) => FlagStep::InternalError,
        Some(true) => FlagStep::Done,
    }
}

/// A created flag has a variant, and its default is one of its variants;
/// an update that names a default keeps it among the variants.
pub proof fn law_default_variant_is_a_variant(c: CreateFlagFacts, u: UpdateFlagFacts)
    ensures
        create_flag_step_of(c) is CreateFlag ==> c.variant_names@.len() > 0 && names_contain(
            strings_view(c.variant_names@),
            c.default_variant@,
        ),
        update_flag_step_of(u) matches FlagStepView::SaveFlag(new) ==> (u.patch.default_variant is Some
            ==> names_contain(new.variant_names, new.default_variant)),
{
}

/// The handlers that act on one flag found by its key, or list the
/// platform's flags, kill switches or strategies.
#[derive(Debug, Clone, Copy, PartialEq, Eq, Structural)]
pub enum FlagHandler {
    ListFlags,
    ListKillSwitches,
    ListStrategies,
    GetFlag,
    ArchiveFlag,
    RestoreFlag,
    GetKillSwitch,
    DeleteKillSwitch,
}

/// What such a handler has learnt so far.
#[derive(Debug, Clone, Copy)]
pub struct FlagAccessFacts {
    pub is_admin: bool,
    /// Whether the flag or kill switch of the key exists, once looked up.
    pub target: Option<Lookup<()>>,
    /// Whether the handler's own store call succeeded, once made.
    pub done: Option<bool>,
}

/// The next step of such a handler: an administrator; the listings list;
/// the others find their flag or kill switch, then read, archive, restore
/// or delete it.
pub open spec fn flag_access_step_of(h: FlagHandler, f: FlagAccessFacts) -> FlagStepView {
    if !f.is_admin {
        FlagStepView::Reply(admin_required())
    } else {
        match h {
            FlagHandler::ListFlags => match f.done {
                None => FlagStepView::ListFlags,
                Some(false) => FlagStepView::InternalError,
                Some(true) => FlagStepView::Done,
            },
            FlagHandler::ListKillSwitches => match f.done {
                None => FlagStepView::ListKillSwitches,
                Some(false) => FlagStepView::InternalError,
                Some(true) => FlagStepView::Done,
            },
            FlagHandler::ListStrategies => match f.done {
                None => FlagStepView::ListStrategies,
                Some(false) => FlagStepView::InternalError,
                Some(true) => FlagStepView::Done,
            },
            FlagHandler::GetFlag | FlagHandler::ArchiveFlag | FlagHandler::RestoreFlag => match f.target {
                None => FlagStepView::LoadFlag,
                Some(Lookup::Missing) => FlagStepView::NotFound("server.api.flags.flag_not_found"@),
                Some(Lookup::Failed) => FlagStepView::InternalError,
                Some(Lookup::Found(_)) => match h {
                    FlagHandler::ArchiveFlag => match f.done {
                        None => FlagStepView::ArchiveFlag,
                        Some(false) => FlagStepView::InternalError,
                        Some(true) => FlagStepView::Reply(keyed(200, ""@, "server.api.flags.flag_archived"@)),
                    },
                    FlagHandler::RestoreFlag => match f.done {
                        None => FlagStepView::RestoreFlag,
                        Some(false) => FlagStepView::InternalError,
                        Some(true) => FlagStepView::Reply(keyed(200, ""@, "server.api.flags.flag_restored"@)),
                    },
                    _ => FlagStepView::Done,
                },
            },
            _ => match f.target {
                None => FlagStepView::LoadKillSwitch,
                Some(Lookup::Missing) => FlagStepView::NotFound("server.api.flags.kill_switch_not_found"@),
                Some(Lookup::Failed) => FlagStepView::InternalError,
                Some(Lookup::Found(_)) => match h {
                    FlagHandler::DeleteKillSwitch => match f.done {
                        None => FlagStepView::DeleteKillSwitch,
                        Some(false) => FlagStepView::InternalError,
                        Some(true) => FlagStepView::Reply(keyed(200, ""@, "server.api.flags.kill_switch_deleted"@)),
                    },
                    _ => FlagStepView::Done,
                },
            },
        }
    }
}

/// The next step of such a handler.
pub fn flag_access_step(h: FlagHandler, f: &FlagAccessFacts) -> (r: FlagStep)
    ensures
        r@ == flag_access_step_of(h, *f),
{
    if !f.is_admin {
        return FlagStep::Reply(admin_required_reply());
    }
    match h {
        FlagHandler::ListFlags => match f.done {
            None => FlagStep::ListFlags,
            Some(false) => FlagStep::InternalError,
            Some(true) => FlagStep::Done,
        },
        FlagHandler::ListKillSwitches => match f.done {
            None => FlagStep::ListKillSwitches,
            Some(false) => FlagStep::InternalError,
            Some(true) => FlagStep::Done,
        },
        FlagHandler::ListStrategies => match f.done {
            None => FlagStep::ListStrategies,
            Some(false) => FlagStep::InternalError,
            Some(true) => FlagStep::Done,
        },
        FlagHandler::GetFlag | FlagHandler::ArchiveFlag | FlagHandler::RestoreFlag => match f.target {
            None => FlagStep::LoadFlag,
            Some(Lookup::Missing) => FlagStep::NotFound(string_of_str("server.api.flags.flag_not_found")),
            Some(Lookup::Failed) => FlagStep::InternalError,
            Some(Lookup::Found(_)) => match h {
                FlagHandler::ArchiveFlag => match f.done {
                    None => FlagStep::ArchiveFlag,
                    Some(false) => FlagStep::InternalError,
                    Some(true) => FlagStep::Reply(keyed_reply(200, "", "server.api.flags.flag_archived")),
                },
                FlagHandler::RestoreFlag => match f.done {
                    None => FlagStep::RestoreFlag,
                    Some(false) => FlagStep::InternalError,
                    Some(true) => FlagStep::Reply(keyed_reply(200, "", "server.api.flags.flag_restored")),
                },
                _ => FlagStep::Done,
            },
        },
        _ => match f.target {
            None => FlagStep::LoadKillSwitch,
            Some(Lookup::Missing) => FlagStep::NotFound(string_of_str("server.api.flags.kill_switch_not_found")),
            Some(Lookup::Failed) => FlagStep::InternalError,
            Some(Lookup::Found(_)) => match h {
                FlagHandler::DeleteKillSwitch => match f.done {
                    None => FlagStep::DeleteKillSwitch,
                    Some(false) => FlagStep::InternalError,
                    Some(true) => FlagStep::Reply(keyed_reply(200, "", "server.api.flags.kill_switch_deleted")),
                },
                _ => FlagStep::Done,
            },
        },
    }
}

/// The state of a kill switch that its handlers change.
#[derive(Debug, Clone)]
pub struct KillSwitchState {
    pub name: String,
    pub description: Option<String>,
    pub linked_flag_keys: Vec<String>,
    pub is_active: bool,
    pub activated_at: Option<i64>,
    pub activated_by: Option<u128>,
    pub activation_reason: Option<String>,
    pub updated_at: i64,
}

/// The state of a kill switch, as plain values.
pub struct KillSwitchView {
    pub name: Seq<char>,
    pub description: Option<Seq<char>>,
    pub linked_flag_keys: Seq<Seq<char>>,
    pub is_active: bool,
    pub activated_at: Option<i64>,
    pub activated_by: Option<u128>,
    pub activation_reason: Option<Seq<char>>,
    pub updated_at: i64,
}

impl View for KillSwitchState {
    type V = KillSwitchView;

    open spec fn view(&self) -> KillSwitchView {
        KillSwitchView {
            name: self.name@,
            description: opt_string_view(self.description),
            linked_flag_keys: strings_view(self.linked_flag_keys@),
            is_active: self.is_active,
            activated_at: self.activated_at,
            activated_by: self.activated_by,
            activation_reason: opt_string_view(self.activation_reason),
            updated_at: self.updated_at,
        }
    }
}

/// A new platform kill switch at time `now`: inactive.
pub fn new_kill_switch(name: String, description: Option<String>, linked_flag_keys: Vec<String>, now: i64) -> (r:
    KillSwitchState)
    ensures
        r@ == (KillSwitchView {
            name: name@,
            description: opt_string_view(description),
            linked_flag_keys: strings_view(linked_flag_keys@),
            is_active: false,
            activated_at: None,
            activated_by: None,
            activation_reason: None,
            updated_at: now,
        }),
{
    KillSwitchState {
        name,
        description,
        linked_flag_keys,
        is_active: false,
        activated_at: None,
        activated_by: None,
        activation_reason: None,
        updated_at: now,
    }
}

/// A kill switch activated at `now` by `actor` for `reason`.
pub open spec fn activated(k: KillSwitchView, actor: u128, reason: Seq<char>, now: i64) -> KillSwitchView {
    KillSwitchView {
        is_active: true,
        activated_at: Some(now),
        activated_by: Some(actor),
        activation_reason: Some(reason),
        updated_at: now,
        ..k
    }
}

/// A kill switch deactivated at `now`.
pub open spec fn deactivated(k: KillSwitchView, now: i64) -> KillSwitchView {
    KillSwitchView { is_active: false, activated_at: None, activated_by: None, activation_reason: None, updated_at: now, ..k }
}

/// A copy of a kill switch's state.
fn copy_kill_switch(k: &KillSwitchState) -> (r: KillSwitchState)
    ensures
        r@ == k@,
{
    KillSwitchState {
        name: k.name.clone(),
        description: copy_opt_string(&k.description),
        linked_flag_keys: copy_strings(&k.linked_flag_keys),
        is_active: k.is_active,
        activated_at: k.activated_at,
        activated_by: k.activated_by,
        activation_reason: copy_opt_string(&k.activation_reason),
        updated_at: k.updated_at,
    }
}

/// A kill switch activated at `now` by `actor` for `reason`.
pub fn activate_kill_switch(k: &KillSwitchState, actor: u128, reason: &str, now: i64) -> (r: KillSwitchState)
    ensures
        r@ == activated(k@, actor, reason@, now),
{
    let mut r = copy_kill_switch(k);
    r.is_active = true;
    r.activated_at = Some(now);
    r.activated_by = Some(actor);
    r.activation_reason = Some(string_of_str(reason));
    r.updated_at = now;
    r
}

/// A kill switch deactivated at `now`.
pub fn deactivate_kill_switch(k: &KillSwitchState, now: i64) -> (r: KillSwitchState)
    ensures
        r@ == deactivated(k@, now),
{
    let mut r = copy_kill_switch(k);
    r.is_active = false;
    r.activated_at = None;
    r.activated_by = None;
    r.activation_reason = None;
    r.updated_at = now;
    r
}

/// A requested update of a kill switch.
#[derive(Debug, Clone)]
pub struct KillSwitchPatch {
    pub name: Option<String>,
    pub description: Option<String>,
    pub linked_flag_keys: Option<Vec<String>>,
}

/// A kill switch after an update at `now`: each given field replaces the
/// old one; its activation is untouched.
pub open spec fn patched_kill_switch(k: KillSwitchView, p: KillSwitchPatch, now: i64) -> KillSwitchView {
    KillSwitchView {
        name: match p.name {
            Some(n) => n@,
            None => k.name,
        },
        description: match p.description {
            Some(d) => Some(d@),
            None => k.description,
        },
        linked_flag_keys: match p.linked_flag_keys {
            Some(l) => strings_view(l@),
            None => k.linked_flag_keys,
        },
        updated_at: now,
        ..k
    }
}

/// A kill switch after an update at `now`.
pub fn patch_kill_switch(k: &KillSwitchState, p: &KillSwitchPatch, now: i64) -> (r: KillSwitchState)
    ensures
        r@ == patched_kill_switch(k@, *p, now),
{
    let mut r = copy_kill_switch(k);
    if let Some(n) = &p.name {
        r.name = n.clone();
    }
    if let Some(d) = &p.description {
        r.description = Some(d.clone());
    }
    if let Some(l) = &p.linked_flag_keys {
        r.linked_flag_keys = copy_strings(l);
    }
    r.updated_at = now;
    r
}

/// What creating a platform kill switch has learnt so far.
#[derive(Debug, Clone, Copy)]
pub struct CreateKillSwitchFacts {
    pub is_admin: bool,
    /// Whether the key passes the kill switches' key rule.
    pub key_valid: bool,
    /// Whether a platform kill switch has the key, once asked (a failed
    /// lookup counts as no).
    pub duplicate: Option<bool>,
    pub created: Option<bool>,
}

/// The next step of creating a platform kill switch: an administrator and
/// a valid, unused key; the answer is 201.
pub open spec fn create_kill_switch_step_of(f: CreateKillSwitchFacts) -> FlagStepView {
    if !f.is_admin {
        FlagStepView::Reply(admin_required())
    } else if !f.key_valid {
        FlagStepView::Reply(keyed(400, "invalid_key"@, "server.api.flags.invalid_kill_switch_key"@))
    } else {
        match f.duplicate {
            None => FlagStepView::FindKey,
            Some(true) => FlagStepView::Reply(keyed(409, "duplicate_key"@, "server.api.flags.duplicate_kill_switch_key"@)),
            Some(false) => match f.created {
                None => FlagStepView::CreateKillSwitch,
                Some(false) => FlagStepView::InternalError,
                Some(true) => FlagStepView::Done,
            },
        }
    }
}

/// The next step of creating a platform kill switch.
pub fn create_kill_switch_step(f: &CreateKillSwitchFacts) -> (r: FlagStep)
    ensures
        r@ == create_kill_switch_step_of(*f),
{
    if !f.is_admin {
        return FlagStep::Reply(admin_required_reply());
    }
    if !f.key_valid {
        return FlagStep::Reply(keyed_reply(400, "invalid_key", "server.api.flags.invalid_kill_switch_key"));
    }
    match f.duplicate {
        None => FlagStep::FindKey,
        Some(true) => FlagStep::Reply(keyed_reply(409, "duplicate_key", "server.api.flags.duplicate_kill_switch_key")),
        Some(false) => match f.created {
            None => FlagStep::CreateKillSwitch,
            Some(false) => FlagStep::InternalError,
            Some(true) => FlagStep::Done,
        },
    }
}

/// How a kill switch handler changes it.
#[derive(Debug, Clone)]
pub enum KillSwitchChange {
    Update(KillSwitchPatch),
    Activate(String),
    Deactivate,
}

/// What updating, activating or deactivating a kill switch has learnt so
/// far.
#[derive(Debug, Clone)]
pub struct KillSwitchChangeFacts {
    pub is_admin: bool,
    pub actor: u128,
    pub now: i64,
    pub change: KillSwitchChange,
    /// The kill switch, once looked up by its key.
    pub kill_switch: Option<Lookup<KillSwitchState>>,
    pub saved: Option<bool>,
    /// Whether the clients were told (activation and deactivation only).
    pub broadcast: bool,
}

/// The kill switch a change makes.
pub open spec fn changed_kill_switch(k: KillSwitchView, c: KillSwitchChange, actor: u128, now: i64) -> KillSwitchView {
    match c {
        KillSwitchChange::Update(p) => patched_kill_switch(k, p, now),
        KillSwitchChange::Activate(reason) => activated(k, actor, reason@, now),
        KillSwitchChange::Deactivate => deactivated(k, now),
    }
}

/// The next step of changing a kill switch: an administrator; an
/// activation needs a reason that is not blank; an existing kill switch is
/// saved changed; an activation or deactivation is then broadcast.
pub open spec fn kill_switch_change_step_of(f: KillSwitchChangeFacts) -> FlagStepView {
    if !f.is_admin {
        FlagStepView::Reply(admin_required())
    } else if f.change matches KillSwitchChange::Activate(reason) && trim(reason@).len() == 0 {
        FlagStepView::Reply(keyed(400, "reason_required"@, "server.api.flags.activation_reason_required"@))
    } else {
        match f.kill_switch {
            None => FlagStepView::LoadKillSwitch,
            Some(Lookup::Missing) => FlagStepView::NotFound("server.api.flags.kill_switch_not_found"@),
            Some(Lookup::Failed) => FlagStepView::InternalError,
            Some(Lookup::Found(k)) => match f.saved {
                None => FlagStepView::SaveKillSwitch(changed_kill_switch(k@, f.change, f.actor, f.now)),
                Some(false) => FlagStepView::InternalError,
                Some(true) => if !(f.change is Update) && !f.broadcast {
                    FlagStepView::Broadcast
                } else {
                    FlagStepView::Done
                },
            },
        }
    }
}

/// The next step of changing a kill switch.
pub fn kill_switch_change_step(f: &KillSwitchChangeFacts) -> (r: FlagStep)
    ensures
        r@ == kill_switch_change_step_of(*f),
{
    if !f.is_admin {
        return FlagStep::Reply(admin_required_reply());
    }
    if let KillSwitchChange::Activate(reason) = &f.change {
        let rv = chars_of(reason.as_str());
        let t = trim_chars(&rv);
        if t.len() == 0 {
            return FlagStep::Reply(keyed_reply(400, "reason_required", "server.api.flags.activation_reason_required"));
        }
    }
    let k = match &f.kill_switch {
        None => return FlagStep::LoadKillSwitch,
        Some(Lookup::Missing) => return FlagStep::NotFound(string_of_str("server.api.flags.kill_switch_not_found")),
        Some(Lookup::Failed) => return FlagStep::InternalError,
        Some(Lookup::Found(k)) => k,
    };
    match f.saved {
        None => {
            let changed = match &f.change {
                KillSwitchChange::Update(p) => patch_kill_switch(k, p, f.now),
                KillSwitchChange::Activate(reason) => activate_kill_switch(k, f.actor, reason.as_str(), f.now),
                KillSwitchChange::Deactivate => deactivate_kill_switch(k, f.now),
            };
            FlagStep::SaveKillSwitch(changed)
        },
        Some(false) => FlagStep::InternalError,
        Some(true) => {
            let is_update = match &f.change {
                KillSwitchChange::Update(_) => true,
                _ => false,
            };
            if !is_update && !f.broadcast {
                FlagStep::Broadcast
            } else {
                FlagStep::Done
            }
        },
    }
}

/// An activated kill switch is active and records when, by whom and why;
/// deactivating it clears all of that and leaves its name, description and
/// linked flags as they were; an update never touches its activation.
pub proof fn law_kill_switch_activation(k: KillSwitchView, p: KillSwitchPatch, actor: u128, reason: Seq<char>, t1: i64, t2: i64)
    ensures
        activated(k, actor, reason, t1).is_active,
        activated(k, actor, reason, t1).activated_at == Some(t1),
        activated(k, actor, reason, t1).activated_by == Some(actor),
        activated(k, actor, reason, t1).activation_reason == Some(reason),
        deactivated(activated(k, actor, reason, t1), t2) == deactivated(k, t2),
        !deactivated(k, t2).is_active && deactivated(k, t2).activated_at is None && deactivated(k, t2).activated_by
            is None && deactivated(k, t2).activation_reason is None,
        deactivated(k, t2).name == k.name && deactivated(k, t2).description == k.description
            && deactivated(k, t2).linked_flag_keys == k.linked_flag_keys,
        patched_kill_switch(k, p, t1).is_active == k.is_active,
        patched_kill_switch(k, p, t1).activation_reason == k.activation_reason,
        patched_kill_switch(k, p, t1).activated_by == k.activated_by,
        patched_kill_switch(k, p, t1).activated_at == k.activated_at,
{
}

/// A kill switch is saved activated only with a reason that is not blank.
pub proof fn law_activation_needs_reason(f: KillSwitchChangeFacts)
    requires
        kill_switch_change_step_of(f) is SaveKillSwitch,
        f.change is Activate,
    ensures
        f.is_admin,
        trim(f.change->Activate_0@).len() > 0,
{
}

/// The query of the platform flag listing.
#[derive(Debug, Clone, Copy)]
pub struct PlatformFlagsQuery {
    /// Whether archived flags are listed too.
    pub include_archived: bool,
}

impl Default for PlatformFlagsQuery {
    /// Archived flags are left out.
    fn default() -> (r: PlatformFlagsQuery)
        ensures
            !r.include_archived,
    {
        PlatformFlagsQuery { include_archived: false }
    }
}

} // verus!
