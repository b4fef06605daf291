use maestro::git_http::{
    basic_auth_password, check_request_content_type, credential_hash, extract_branch_name, get_repo_path_by_id,
    git_command_args, info_refs_body, is_mirror_path, join_path, may_be_force_push, mirror_endpoint, mirror_fallback,
    mirror_repo_name, parse_mirror_git_path, parse_mirror_path, parse_push_commands, pkt_flush, pkt_line,
    push_body_well_framed, repos_base_dir, on_demand_mirror_step, GitService, MirrorEndpoint, MirrorFailure,
    MirrorFallback, MirrorInfo, MirrorPlatform, MirrorStep, OnDemandMirrorFacts, ZERO_SHA,
};
use maestro::replies::Lookup;

#[test]
fn test_pkt_line() {
    let line = pkt_line("# service=git-upload-pack\n");
    assert_eq!(line, b"001e# service=git-upload-pack\n");
}

#[test]
fn pkt_line_of_empty_data_is_header_only() {
    assert_eq!(pkt_line(""), b"0004");
}

#[test]
fn pkt_line_length_counts_utf8_bytes() {
    // "é" is two bytes in UTF-8: 4 + 2 = 6.
    assert_eq!(pkt_line("é"), "0006é".as_bytes());
}

#[test]
fn test_pkt_flush() {
    assert_eq!(pkt_flush(), b"0000");
}

#[test]
fn info_refs_body_frames_announcement() {
    let body = info_refs_body(GitService::UploadPack, &b"XYZ".to_vec());
    assert_eq!(body, b"001e# service=git-upload-pack\n0000XYZ".to_vec());
}

#[test]
fn test_git_service_from_str() {
    assert_eq!(GitService::from_str("git-upload-pack"), Some(GitService::UploadPack));
    assert_eq!(GitService::from_str("git-receive-pack"), Some(GitService::ReceivePack));
    assert_eq!(GitService::from_str("invalid"), None);
}

#[test]
fn test_git_service_content_types() {
    assert_eq!(GitService::UploadPack.content_type(), "application/x-git-upload-pack-advertisement");
    assert_eq!(GitService::ReceivePack.content_type(), "application/x-git-receive-pack-advertisement");
    assert_eq!(GitService::UploadPack.result_content_type(), "application/x-git-upload-pack-result");
    assert_eq!(GitService::ReceivePack.result_content_type(), "application/x-git-receive-pack-result");
}

#[test]
fn git_service_names_and_subcommands() {
    assert_eq!(GitService::UploadPack.as_str(), "git-upload-pack");
    assert_eq!(GitService::ReceivePack.as_git_subcommand(), "receive-pack");
}

#[test]
fn test_get_repos_base_dir() {
    let path = repos_base_dir(None);
    assert!(path.contains("repos"));
    assert_eq!(path, "/var/lib/loom/repos");
    assert_eq!(repos_base_dir(Some("/data/")), "/data/repos");
}

#[test]
fn test_parse_push_commands_empty() {
    let commands = parse_push_commands(b"");
    assert!(commands.is_empty());
}

#[test]
fn test_parse_push_commands_flush() {
    let commands = parse_push_commands(b"0000");
    assert!(commands.is_empty());
}

#[test]
fn test_parse_push_commands_single() {
    let old = "0000000000000000000000000000000000000000";
    let new = "1234567890abcdef1234567890abcdef12345678";
    let refname = "refs/heads/main";
    let line = format!("{} {} {}\n", old, new, refname);
    let pkt = format!("{:04x}{}", line.len() + 4, line);
    let data = format!("{}0000", pkt);
    let commands = parse_push_commands(data.as_bytes());
    assert_eq!(commands.len(), 1);
    assert_eq!(commands[0].old_sha, old);
    assert_eq!(commands[0].new_sha, new);
    assert_eq!(commands[0].ref_name, refname);
    assert!(!commands[0].is_deletion());
}

#[test]
fn push_commands_drop_capabilities_after_nul() {
    let line = format!("{} {} refs/heads/dev\0report-status side-band\n", ZERO_SHA, ZERO_SHA);
    let data = format!("{:04x}{}0000", line.len() + 4, line);
    let commands = parse_push_commands(data.as_bytes());
    assert_eq!(commands.len(), 1);
    assert_eq!(commands[0].ref_name, "refs/heads/dev");
    assert!(commands[0].is_deletion());
}

#[test]
fn push_commands_skip_lines_with_few_fields() {
    let bad = "onlyone\n";
    let good = format!("a b refs/heads/x\n");
    let data = format!("{:04x}{}{:04x}{}0000", bad.len() + 4, bad, good.len() + 4, good);
    let commands = parse_push_commands(data.as_bytes());
    assert_eq!(commands.len(), 1);
    assert_eq!(commands[0].old_sha, "a");
}

#[test]
fn push_body_framing_check() {
    assert!(push_body_well_framed(b""));
    assert!(push_body_well_framed(b"0000"));
    assert!(!push_body_well_framed(b"0002xx"));
    assert!(push_body_well_framed(b"zzzz"));
}

#[test]
fn test_extract_branch_name() {
    assert_eq!(extract_branch_name("refs/heads/main").as_deref(), Some("main"));
    assert_eq!(extract_branch_name("refs/heads/feature/test").as_deref(), Some("feature/test"));
    assert_eq!(extract_branch_name("refs/tags/v1.0"), None);
    assert_eq!(extract_branch_name("main"), None);
}

#[test]
fn test_zero_sha_constant() {
    assert_eq!(ZERO_SHA.len(), 40);
    assert!(ZERO_SHA.chars().all(|c| c == '0'));
}

#[test]
fn force_push_needs_two_real_ids() {
    assert!(!may_be_force_push(ZERO_SHA, "abc"));
    assert!(!may_be_force_push("abc", ZERO_SHA));
    assert!(may_be_force_push("abc", "def"));
}

#[test]
fn test_parse_mirror_path_github() {
    let result = parse_mirror_path("mirrors/github/torvalds", "linux.git");
    assert!(result.is_some());
    let info = result.unwrap();
    assert_eq!(info.platform, MirrorPlatform::GitHub);
    assert_eq!(info.external_owner, "torvalds");
    assert_eq!(info.external_repo, "linux");
}

#[test]
fn test_parse_mirror_path_gitlab() {
    let result = parse_mirror_path("mirrors/gitlab/gitlab-org", "gitlab");
    assert!(result.is_some());
    let info = result.unwrap();
    assert_eq!(info.platform, MirrorPlatform::GitLab);
    assert_eq!(info.external_owner, "gitlab-org");
    assert_eq!(info.external_repo, "gitlab");
}

#[test]
fn test_parse_mirror_path_invalid_prefix() {
    let result = parse_mirror_path("repos/github/owner", "repo");
    assert!(result.is_none());
}

#[test]
fn test_parse_mirror_path_invalid_platform() {
    let result = parse_mirror_path("mirrors/bitbucket/owner", "repo");
    assert!(result.is_none());
}

#[test]
fn test_parse_mirror_path_missing_parts() {
    let result = parse_mirror_path("mirrors/github", "repo");
    assert!(result.is_none());
}

#[test]
fn test_is_mirror_path() {
    assert!(is_mirror_path("mirrors/github/owner"));
    assert!(is_mirror_path("mirrors/gitlab/owner"));
    assert!(!is_mirror_path("org/owner"));
    assert!(!is_mirror_path("user"));
}

#[test]
fn valid_mirror_path_parses_for_both_platforms() {
    for platform in ["github", "gitlab"] {
        let owner_path = format!("mirrors/{}/abc_def", platform);
        let info = parse_mirror_path(&owner_path, "xyz-9.git").unwrap();
        assert_eq!(info.external_owner, "abc_def");
        assert_eq!(info.external_repo, "xyz-9");
        assert!(is_mirror_path(&owner_path));
    }
}

#[test]
fn test_parse_mirror_git_path_info_refs() {
    let (owner, repo) = parse_mirror_git_path("github/torvalds/linux.git/info/refs").unwrap();
    assert_eq!(owner, "mirrors/github/torvalds");
    assert_eq!(repo, "linux.git");
}

#[test]
fn test_parse_mirror_git_path_upload_pack() {
    let (owner, repo) = parse_mirror_git_path("github/torvalds/linux.git/git-upload-pack").unwrap();
    assert_eq!(owner, "mirrors/github/torvalds");
    assert_eq!(repo, "linux.git");
}

#[test]
fn test_parse_mirror_git_path_receive_pack() {
    let (owner, repo) = parse_mirror_git_path("gitlab/gitlab-org/gitlab/git-receive-pack").unwrap();
    assert_eq!(owner, "mirrors/gitlab/gitlab-org");
    assert_eq!(repo, "gitlab");
}

#[test]
fn test_parse_mirror_git_path_with_leading_slash() {
    let (owner, repo) = parse_mirror_git_path("/github/rust-lang/rust.git/info/refs").unwrap();
    assert_eq!(owner, "mirrors/github/rust-lang");
    assert_eq!(repo, "rust.git");
}

#[test]
fn test_parse_mirror_git_path_invalid() {
    assert!(parse_mirror_git_path("github/torvalds").is_none());
    assert!(parse_mirror_git_path("").is_none());
    assert!(parse_mirror_git_path("github/torvalds/linux.git").is_none());
}

#[test]
fn mirror_endpoints_by_suffix() {
    assert_eq!(mirror_endpoint("a/b/c/info/refs"), Some(MirrorEndpoint::InfoRefs));
    assert_eq!(mirror_endpoint("a/b/c/git-upload-pack"), Some(MirrorEndpoint::UploadPack));
    assert_eq!(mirror_endpoint("a/b/c/git-receive-pack"), Some(MirrorEndpoint::ReceivePack));
    assert_eq!(mirror_endpoint("a/b/c"), None);
}

#[test]
fn test_get_repo_path_by_id() {
    let id = uuid::Uuid::parse_str("12345678-1234-1234-1234-123456789012").unwrap();
    let path = get_repo_path_by_id("/var/lib/loom/repos", id.as_u128());
    assert!(path.contains("12"));
    assert!(path.contains("12345678-1234-1234-1234-123456789012"));
    assert!(path.ends_with("git"));
    assert_eq!(path, "/var/lib/loom/repos/12/12345678-1234-1234-1234-123456789012/git");
}

#[test]
fn path_join_adds_one_separator() {
    assert_eq!(join_path("a", "b"), "a/b");
    assert_eq!(join_path("a/", "b"), "a/b");
    assert_eq!(join_path("", "b"), "b");
}

#[test]
fn mirror_repo_names_join_parts() {
    let info = parse_mirror_path("mirrors/github/torvalds", "linux.git").unwrap();
    assert_eq!(mirror_repo_name(&info), "github-torvalds-linux");
}

#[test]
fn mirror_fallback_decisions() {
    assert!(mirror_fallback("org", "repo", GitService::UploadPack).is_none());
    assert!(matches!(
        mirror_fallback("mirrors/bitbucket/x", "repo", GitService::UploadPack),
        Some(MirrorFallback::InvalidPath)
    ));
    assert!(matches!(
        mirror_fallback("mirrors/github/x", "repo", GitService::ReceivePack),
        Some(MirrorFallback::PushNotAllowed)
    ));
    match mirror_fallback("mirrors/github/x", "repo.git", GitService::UploadPack) {
        Some(MirrorFallback::Mirror(info)) => assert_eq!(info.external_repo, "repo"),
        _ => panic!("expected a mirror"),
    }
}

#[test]
fn request_content_type_is_checked() {
    assert!(check_request_content_type(GitService::UploadPack, "application/x-git-upload-pack-request").is_ok());
    assert_eq!(
        check_request_content_type(GitService::ReceivePack, "text/plain"),
        Err("Invalid content type: text/plain".to_string())
    );
}

#[test]
fn git_command_arguments() {
    assert_eq!(
        git_command_args(GitService::UploadPack, true),
        vec!["upload-pack".to_string(), "--advertise-refs".to_string(), "--stateless-rpc".to_string()]
    );
    assert_eq!(
        git_command_args(GitService::ReceivePack, false),
        vec!["receive-pack".to_string(), "--stateless-rpc".to_string()]
    );
}

#[test]
fn basic_auth_password_is_after_first_colon() {
    // base64("user:pa:ss")
    assert_eq!(basic_auth_password("Basic dXNlcjpwYTpzcw==").as_deref(), Some("pa:ss"));
    assert_eq!(basic_auth_password("Bearer abc"), None);
    assert_eq!(basic_auth_password("Basic !!!"), None);
    // base64("nocolon")
    assert_eq!(basic_auth_password("Basic bm9jb2xvbg=="), None);
}

#[test]
fn credential_hash_is_hex_sha256() {
    assert_eq!(
        credential_hash("abc"),
        "ba7816bf8f01cfea414140de5dae2223b00361a396177a9cb410ff61f20015ad"
    );
}

fn mirror_facts() -> OnDemandMirrorFacts {
    OnDemandMirrorFacts {
        info: MirrorInfo {
            platform: MirrorPlatform::GitHub,
            external_owner: "rust-lang".to_string(),
            external_repo: "rust".to_string(),
        },
        base_dir: "/var/lib/loom/repos".to_string(),
        configured: true,
        existing_mirror: None,
        existing_repo: None,
        remote_exists: None,
        mirrors_org: None,
        created_repo: None,
        mirror_entry: None,
        cloned: None,
        synced: false,
    }
}

#[test]
fn test_on_demand_mirror_uses_existing_repo() {
    let mut f = mirror_facts();
    assert!(matches!(on_demand_mirror_step(&f), MirrorStep::FindExistingMirror));
    f.existing_mirror = Some(Some(42));
    assert!(matches!(on_demand_mirror_step(&f), MirrorStep::LoadRepo(42)));
    f.existing_repo = Some(true);
    assert!(matches!(on_demand_mirror_step(&f), MirrorStep::Done(42)));
    f.existing_repo = Some(false);
    assert!(matches!(on_demand_mirror_step(&f), MirrorStep::CheckRemote));
    f.configured = false;
    assert!(matches!(on_demand_mirror_step(&f), MirrorStep::Fail(MirrorFailure::NotConfigured)));
}

#[test]
fn test_on_demand_mirror_creates_and_clones() {
    let id = uuid::Uuid::parse_str("12345678-1234-1234-1234-123456789012").unwrap().as_u128();
    let mut f = mirror_facts();
    f.existing_mirror = Some(None);
    f.remote_exists = Some(Lookup::Found(false));
    assert!(matches!(on_demand_mirror_step(&f), MirrorStep::Fail(MirrorFailure::RemoteNotFound)));
    f.remote_exists = Some(Lookup::Failed);
    assert!(matches!(on_demand_mirror_step(&f), MirrorStep::Fail(MirrorFailure::RemoteCheckFailed)));
    f.remote_exists = Some(Lookup::Found(true));
    assert!(matches!(on_demand_mirror_step(&f), MirrorStep::LoadMirrorsOrg));
    f.mirrors_org = Some(Lookup::Missing);
    assert!(matches!(on_demand_mirror_step(&f), MirrorStep::Fail(MirrorFailure::MirrorsOrgMissing)));
    f.mirrors_org = Some(Lookup::Found(7));
    match on_demand_mirror_step(&f) {
        MirrorStep::CreateRepo { org_id, name } => {
            assert_eq!(org_id, 7);
            assert_eq!(name, "github-rust-lang-rust");
        },
        other => panic!("unexpected {:?}", other),
    }
    f.created_repo = Some(None);
    assert!(matches!(on_demand_mirror_step(&f), MirrorStep::Fail(MirrorFailure::RepoCreateFailed)));
    f.created_repo = Some(Some(id));
    assert!(matches!(on_demand_mirror_step(&f), MirrorStep::CreateMirrorEntry(x) if x == id));
    f.mirror_entry = Some(true);
    match on_demand_mirror_step(&f) {
        MirrorStep::Clone { repo_id, path } => {
            assert_eq!(repo_id, id);
            assert_eq!(path, "/var/lib/loom/repos/12/12345678-1234-1234-1234-123456789012/git");
        },
        other => panic!("unexpected {:?}", other),
    }
    f.cloned = Some(false);
    assert!(matches!(on_demand_mirror_step(&f), MirrorStep::Fail(MirrorFailure::CloneFailed)));
    f.cloned = Some(true);
    assert!(matches!(on_demand_mirror_step(&f), MirrorStep::MarkSynced(x) if x == id));
    f.synced = true;
    assert!(matches!(on_demand_mirror_step(&f), MirrorStep::Done(x) if x == id));
}
