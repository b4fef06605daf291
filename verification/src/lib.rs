//! Maestro: verified core logic of an agent-orchestration desktop app and of
//! the git-hosting routes of its server.
use vstd::prelude::*;

pub mod admin_rules;
pub mod agent_state;
pub mod audit;
pub mod claudecode_adapter;
pub mod cron_rules;
pub mod daemon;
pub mod flag_rules;
pub mod git_browser;
pub mod git_http;
pub mod hooks;
pub mod invitation_rules;
pub mod opencode_adapter;
pub mod order;
pub mod replies;
pub mod repo_access;
pub mod secret_rules;
pub mod session_registry;
pub mod sessions;
pub mod storage;
pub mod team_rules;
pub mod stream;
pub mod sys;
pub mod text;
pub mod tools;

verus! {

} // verus!
