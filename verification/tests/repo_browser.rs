use maestro::git_browser::{
    build_clone_url, choose_ref_and_path, commit_page_limit, content_type_for_extension, format_git_time,
    get_content_type_for_path, inline_disposition, left_right_counts_of_text, page_bounds, parse_blame_output,
    parse_blame_records, parse_commit_show, parse_compare_log, sort_branches, sort_tree_entries, split_compare_refs,
    tree_entry_kind, tree_entry_path, Branch, TreeEntry, TreeEntryMode,
};

fn owner() -> u128 {
    uuid::Uuid::parse_str("12345678-1234-1234-1234-123456789abc").unwrap().as_u128()
}

#[test]
fn test_parse_blame_output_single_line() {
    let input = r#"abc123def456789012345678901234567890abcd 1 1 1
author John Doe
author-mail <john@example.com>
author-time 1609459200
author-tz +0000
committer John Doe
committer-mail <john@example.com>
committer-time 1609459200
committer-tz +0000
summary Initial commit
filename test.txt
	Hello, World!"#;
    let result = parse_blame_output(input).unwrap();
    assert_eq!(result.len(), 1);
    assert_eq!(result[0].line_number, 1);
    assert_eq!(result[0].commit_sha, "abc123def456789012345678901234567890abcd");
    assert_eq!(result[0].author_name, "John Doe");
    assert_eq!(result[0].author_email, "john@example.com");
    assert_eq!(result[0].content, "Hello, World!");
}

#[test]
fn test_parse_blame_output_multiple_lines_same_commit() {
    let input = r#"abc123def456789012345678901234567890abcd 1 1 2
author Alice
author-mail <alice@example.com>
author-time 1609459200
author-tz +0000
summary Initial commit
filename test.txt
	Line 1
abc123def456789012345678901234567890abcd 2 2
	Line 2"#;
    let result = parse_blame_output(input).unwrap();
    assert_eq!(result.len(), 2);
    assert_eq!(result[0].line_number, 1);
    assert_eq!(result[0].content, "Line 1");
    assert_eq!(result[0].author_name, "Alice");
    assert_eq!(result[1].line_number, 2);
    assert_eq!(result[1].content, "Line 2");
    assert_eq!(result[1].author_name, "Alice");
}

#[test]
fn test_parse_blame_output_different_commits() {
    let input = r#"abc123def456789012345678901234567890abcd 1 1 1
author Alice
author-mail <alice@example.com>
author-time 1609459200
author-tz +0000
summary First commit
filename test.txt
	First line
def456789012345678901234567890abcdef0123 2 2 1
author Bob
author-mail <bob@example.com>
author-time 1609545600
author-tz +0000
summary Second commit
filename test.txt
	Second line"#;
    let result = parse_blame_output(input).unwrap();
    assert_eq!(result.len(), 2);
    assert_eq!(result[0].author_name, "Alice");
    assert_eq!(result[0].commit_sha, "abc123def456789012345678901234567890abcd");
    assert_eq!(result[1].author_name, "Bob");
    assert_eq!(result[1].commit_sha, "def456789012345678901234567890abcdef0123");
}

#[test]
fn test_parse_blame_output_empty_lines() {
    let input = "abc123def456789012345678901234567890abcd 1 1 1\nauthor Test\nauthor-mail <test@example.com>\nauthor-time 1609459200\nauthor-tz +0000\nfilename test.txt\n\t";
    let result = parse_blame_output(input).unwrap();
    assert_eq!(result.len(), 1);
    assert_eq!(result[0].content, "");
}

#[test]
fn test_parse_blame_output_special_characters() {
    let input = r#"abc123def456789012345678901234567890abcd 1 1 1
author Test
author-mail <test@example.com>
author-time 1609459200
author-tz +0000
filename test.txt
	fn main() { println!("Hello, <World>!"); }"#;
    let result = parse_blame_output(input).unwrap();
    assert_eq!(result.len(), 1);
    assert_eq!(result[0].content, "fn main() { println!(\"Hello, <World>!\"); }");
}

#[test]
fn test_parse_blame_output_empty() {
    let result = parse_blame_output("").unwrap();
    assert!(result.is_empty());
}

#[test]
fn test_parse_blame_author_email_strips_brackets() {
    let input = r#"abc123def456789012345678901234567890abcd 1 1 1
author Test
author-mail <user@domain.com>
author-time 1609459200
author-tz +0000
filename test.txt
	content"#;
    let result = parse_blame_output(input).unwrap();
    assert_eq!(result[0].author_email, "user@domain.com");
}

#[test]
fn test_parse_blame_author_time_format() {
    let input = r#"abc123def456789012345678901234567890abcd 1 1 1
author Test
author-mail <test@example.com>
author-time 1609459200
author-tz +0000
filename test.txt
	content"#;
    let result = parse_blame_output(input).unwrap();
    assert!(result[0].author_date.starts_with("2021-01-01"));
}

#[test]
fn blame_records_keep_raw_author_time() {
    let input = "abc123def456789012345678901234567890abcd 1 7 1\nauthor-time 42\n\tx";
    let records = parse_blame_records(input);
    assert_eq!(records.len(), 1);
    assert_eq!(records[0].author_secs, Some(42));
    assert_eq!(records[0].line_number, 7);
}

#[test]
fn blame_line_before_any_header_has_no_commit() {
    let result = parse_blame_output("\torphan").unwrap();
    assert_eq!(result.len(), 1);
    assert_eq!(result[0].commit_sha, "");
    assert_eq!(result[0].line_number, 0);
    assert_eq!(result[0].author_date, "");
}

#[test]
fn test_blame_output_line_count_property() {
    let inputs = vec![
        "",
        "abc123def456789012345678901234567890abcd 1 1 1\nauthor Test\nauthor-mail <t@t.com>\nauthor-time 1609459200\nfilename f\n\tline",
        "abc123def456789012345678901234567890abcd 1 1 2\nauthor A\nauthor-mail <a@a.com>\nauthor-time 1609459200\nfilename f\n\tl1\nabc123def456789012345678901234567890abcd 2 2\n\tl2",
    ];
    for input in inputs {
        let tab_lines = input.lines().filter(|l| l.starts_with('\t')).count();
        let result = parse_blame_output(input).unwrap();
        assert!(result.len() <= tab_lines);
        assert_eq!(result.len(), tab_lines);
    }
}

#[test]
fn test_blame_line_numbers_positive() {
    let input = r#"abc123def456789012345678901234567890abcd 1 5 1
author Test
author-mail <t@t.com>
author-time 1609459200
filename f
	content"#;
    let result = parse_blame_output(input).unwrap();
    for line in &result {
        assert!(line.line_number > 0);
    }
}

#[test]
fn test_blame_commit_sha_format() {
    let input = r#"abc123def456789012345678901234567890abcd 1 1 1
author Test
author-mail <t@t.com>
author-time 1609459200
filename f
	content"#;
    let result = parse_blame_output(input).unwrap();
    for line in &result {
        assert_eq!(line.commit_sha.len(), 40);
        assert!(line.commit_sha.chars().all(|c| c.is_ascii_hexdigit()));
    }
}

#[test]
fn git_time_renders_rfc3339() {
    assert_eq!(format_git_time(1609459200), "2021-01-01T00:00:00+00:00");
    assert_eq!(format_git_time(0), "1970-01-01T00:00:00+00:00");
    assert_eq!(format_git_time(i64::MAX), "1970-01-01T00:00:00+00:00");
}

#[test]
fn test_compare_refs_parse_valid() {
    let result = split_compare_refs("main...feature-branch");
    assert!(result.is_some());
    let (base, head) = result.unwrap();
    assert_eq!(base, "main");
    assert_eq!(head, "feature-branch");
}

#[test]
fn test_compare_refs_parse_shas() {
    let result = split_compare_refs("abc123...def456");
    assert!(result.is_some());
    let (base, head) = result.unwrap();
    assert_eq!(base, "abc123");
    assert_eq!(head, "def456");
}

#[test]
fn test_compare_refs_parse_with_slashes() {
    let result = split_compare_refs("main...feature/my-feature");
    assert!(result.is_some());
    let (base, head) = result.unwrap();
    assert_eq!(base, "main");
    assert_eq!(head, "feature/my-feature");
}

#[test]
fn test_compare_refs_invalid_two_dots() {
    let result = split_compare_refs("main..feature");
    assert!(result.is_none());
}

#[test]
fn test_compare_refs_invalid_no_separator() {
    let result = split_compare_refs("main-feature");
    assert!(result.is_none());
}

#[test]
fn compare_refs_split_at_first_separator() {
    let (base, head) = split_compare_refs("a....b").unwrap();
    assert_eq!(base, "a");
    assert_eq!(head, ".b");
}

#[test]
fn test_get_content_type_rust() {
    assert_eq!(get_content_type_for_path("main.rs"), "text/x-rust; charset=utf-8");
}

#[test]
fn test_get_content_type_python() {
    assert_eq!(get_content_type_for_path("script.py"), "text/x-python; charset=utf-8");
}

#[test]
fn test_get_content_type_json() {
    assert_eq!(get_content_type_for_path("config.json"), "application/json; charset=utf-8");
}

#[test]
fn test_get_content_type_image() {
    assert_eq!(get_content_type_for_path("logo.png"), "image/png");
    assert_eq!(get_content_type_for_path("photo.jpg"), "image/jpeg");
    assert_eq!(get_content_type_for_path("icon.svg"), "image/svg+xml");
}

#[test]
fn test_get_content_type_unknown() {
    assert_eq!(get_content_type_for_path("file.unknown"), "application/octet-stream");
    assert_eq!(get_content_type_for_path("noextension"), "application/octet-stream");
}

#[test]
fn test_get_content_type_nested_path() {
    assert_eq!(get_content_type_for_path("src/lib/module.rs"), "text/x-rust; charset=utf-8");
}

#[test]
fn content_type_extension_is_lowercased() {
    assert_eq!(get_content_type_for_path("README.MD"), "text/markdown; charset=utf-8");
    assert_eq!(content_type_for_extension("wasm"), "application/wasm");
}

#[test]
fn test_build_clone_url_basic() {
    let url = build_clone_url("https://loom.example.com", owner(), "my-repo");
    assert_eq!(url, "https://loom.example.com/git/12345678-1234-1234-1234-123456789abc/my-repo.git");
}

#[test]
fn test_build_clone_url_strips_trailing_slash() {
    let url = build_clone_url("https://loom.example.com/", owner(), "my-repo");
    assert_eq!(url, "https://loom.example.com/git/12345678-1234-1234-1234-123456789abc/my-repo.git");
}

#[test]
fn clone_url_strips_every_trailing_slash() {
    let url = build_clone_url("https://x///", owner(), "r");
    assert_eq!(url, "https://x/git/12345678-1234-1234-1234-123456789abc/r.git");
}

#[test]
fn inline_disposition_uses_file_name() {
    assert_eq!(inline_disposition("src/main.rs"), "inline; filename=\"main.rs\"");
}

#[test]
fn compare_log_reads_nonempty_lines() {
    let log = "aaa|Fix|Ann|ann@x|2024-01-01T00:00:00Z|p1 p2\n\nbbb|Msg|with|pipes|date|\n";
    let commits = parse_compare_log(log);
    assert_eq!(commits.len(), 2);
    assert_eq!(commits[0].sha, "aaa");
    assert_eq!(commits[0].parent_shas, vec!["p1".to_string(), "p2".to_string()]);
    assert_eq!(commits[1].author_email, "pipes");
    assert!(commits[1].parent_shas.is_empty());
}

#[test]
fn compare_log_keeps_pipes_in_last_field() {
    let commits = parse_compare_log("s|m|n|e|d|x|y");
    assert_eq!(commits[0].parent_shas, vec!["x|y".to_string()]);
}

#[test]
fn commit_show_splits_header_and_diff() {
    let text = "sha1\nsubject\nname\nmail\n2024\np1 p2\n\ndiff --git a b\n+x\n";
    let shown = parse_commit_show(text);
    assert_eq!(shown.commit.sha, "sha1");
    assert_eq!(shown.commit.message, "subject");
    assert_eq!(shown.commit.parent_shas, vec!["p1".to_string(), "p2".to_string()]);
    assert_eq!(shown.diff, "diff --git a b\n+x\n");
}

#[test]
fn commit_show_without_diff() {
    let shown = parse_commit_show("only");
    assert_eq!(shown.commit.sha, "only");
    assert_eq!(shown.commit.message, "");
    assert_eq!(shown.diff, "");
}

#[test]
fn left_right_counts_read_behind_then_ahead() {
    assert_eq!(left_right_counts_of_text("3\t5\n"), (3, 5));
    assert_eq!(left_right_counts_of_text("x"), (0, 0));
}

#[test]
fn ref_and_path_choice() {
    assert_eq!(choose_ref_and_path("main/src/lib.rs", true, false), ("main".to_string(), "src/lib.rs".to_string()));
    assert_eq!(choose_ref_and_path("feature/x", false, true), ("feature/x".to_string(), String::new()));
    assert_eq!(choose_ref_and_path("nope", false, false), ("nope".to_string(), String::new()));
}

#[test]
fn commit_pages() {
    assert_eq!(commit_page_limit(None), 50);
    assert_eq!(commit_page_limit(Some(500)), 100);
    assert_eq!(page_bounds(10, 4, 3), (4, 7));
    assert_eq!(page_bounds(10, 9, 3), (9, 10));
    assert_eq!(page_bounds(10, 20, 3), (10, 10));
}

#[test]
fn tree_entries_kinds_and_paths() {
    assert_eq!(tree_entry_kind(TreeEntryMode::BlobExecutable), "file");
    assert_eq!(tree_entry_kind(TreeEntryMode::Commit), "submodule");
    assert_eq!(tree_entry_path("", "a"), "a");
    assert_eq!(tree_entry_path("src", "a"), "src/a");
}

fn branch(name: &str, is_default: bool) -> Branch {
    Branch { name: name.to_string(), sha: format!("sha_{}", name), is_default }
}

#[test]
fn branches_list_default_first_then_by_name() {
    let sorted = sort_branches(&vec![branch("zeta", false), branch("main", true), branch("alpha", false)]);
    let names: Vec<&str> = sorted.iter().map(|b| b.name.as_str()).collect();
    assert_eq!(names, vec!["main", "alpha", "zeta"]);
}

fn entry(name: &str, kind: &str) -> TreeEntry {
    TreeEntry { name: name.to_string(), path: name.to_string(), kind: kind.to_string(), sha: String::new(), size: None }
}

#[test]
fn tree_entries_list_directories_first_case_insensitively() {
    let sorted = sort_tree_entries(&vec![
        entry("b.txt", "file"),
        entry("Src", "directory"),
        entry("A.txt", "file"),
        entry("docs", "directory"),
    ]);
    let names: Vec<&str> = sorted.iter().map(|e| e.name.as_str()).collect();
    assert_eq!(names, vec!["docs", "Src", "A.txt", "b.txt"]);
}
