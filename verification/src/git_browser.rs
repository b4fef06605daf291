//! What the repository browser makes of `git` output and of request paths:
//! clone URLs, content types, compare ranges, commit logs, `git show`
//! output, blame porcelain and ahead/behind counts.
use vstd::prelude::*;
use crate::order::{keys_of, sort_order, sort_positions, KeyView};
use crate::sys::{rfc3339_at, rfc3339_of_secs, to_lowercase, lowercase_text, utf8_lossy, utf8_lossy_text, uuid_string, uuid_text};
use crate::text::{
    after_last, chars_match_at, chars_of, concat2, drop_prefix, has_prefix, is_whitespace, lines_chars, lines_of,
    parse_i64_chars, parse_signed, parse_u64_chars, parse_unsigned, push_piece, push_str, rfind_pos, slice_chars,
    split_chars, split_on, splitn_chars, splitn_on, starts_with_str, string_of, string_of_range, string_of_str,
    str_eq, trim, trim_chars, words_chars, words_of,
};

verus! {

/// `s` without its trailing `/`s.
pub open spec fn trim_trailing_slashes(s: Seq<char>) -> Seq<char>
    decreases s.len(),
{
    if s.len() > 0 && s.last() == '/' {
        trim_trailing_slashes(s.drop_last())
    } else {
        s
    }
}

/// The HTTPS clone URL of a repository: the base URL without trailing
/// `/`s, then `/git/<owner id>/<name>.git`, the owner id hyphenated.
pub fn build_clone_url(base_url: &str, owner_id: u128, repo_name: &str) -> (r: String)
    ensures
        r@ == trim_trailing_slashes(base_url@) + "/git/"@ + uuid_text(owner_id) + "/"@ + repo_name@ + ".git"@,
{
    let v = chars_of(base_url);
    let mut n = v.len();
    assert(v@.subrange(0, n as int) =~= v@);
    while n > 0 && v[n - 1] == '/'
        invariant
            n <= v.len(),
            trim_trailing_slashes(v@.subrange(0, n as int)) == trim_trailing_slashes(v@),
        decreases n,
    {
        assert(v@.subrange(0, n as int).drop_last() =~= v@.subrange(0, n - 1));
        n = n - 1;
    }
    let mut out = string_of_range(&v, 0, n);
    push_str(&mut out, "/git/");
    let id = uuid_string(owner_id);
    push_str(&mut out, id.as_str());
    push_str(&mut out, "/");
    push_str(&mut out, repo_name);
    push_str(&mut out, ".git");
    out
}

/// The content type served for a (lowercase) file extension.
pub open spec fn content_type_of_extension(ext: Seq<char>) -> Seq<char> {
    if ext == "txt"@ {
        "text/plain; charset=utf-8"@
    } else if ext == "md"@ || ext == "markdown"@ {
        "text/markdown; charset=utf-8"@
    } else if ext == "html"@ || ext == "htm"@ {
        "text/html; charset=utf-8"@
    } else if ext == "css"@ {
        "text/css; charset=utf-8"@
    } else if ext == "js"@ || ext == "mjs"@ {
        "text/javascript; charset=utf-8"@
    } else if ext == "json"@ {
        "application/json; charset=utf-8"@
    } else if ext == "xml"@ {
        "application/xml; charset=utf-8"@
    } else if ext == "yaml"@ || ext == "yml"@ {
        "text/yaml; charset=utf-8"@
    } else if ext == "toml"@ {
        "text/toml; charset=utf-8"@
    } else if ext == "csv"@ {
        "text/csv; charset=utf-8"@
    } else if ext == "rs"@ {
        "text/x-rust; charset=utf-8"@
    } else if ext == "py"@ {
        "text/x-python; charset=utf-8"@
    } else if ext == "rb"@ {
        "text/x-ruby; charset=utf-8"@
    } else if ext == "go"@ {
        "text/x-go; charset=utf-8"@
    } else if ext == "java"@ {
        "text/x-java; charset=utf-8"@
    } else if ext == "c"@ || ext == "h"@ {
        "text/x-c; charset=utf-8"@
    } else if ext == "cpp"@ || ext == "hpp"@ || ext == "cc"@ || ext == "cxx"@ {
        "text/x-c++; charset=utf-8"@
    } else if ext == "ts"@ || ext == "tsx"@ {
        "text/typescript; charset=utf-8"@
    } else if ext == "jsx"@ {
        "text/jsx; charset=utf-8"@
    } else if ext == "sh"@ || ext == "bash"@ || ext == "zsh"@ {
        "text/x-shellscript; charset=utf-8"@
    } else if ext == "sql"@ {
        "text/x-sql; charset=utf-8"@
    } else if ext == "nix"@ {
        "text/x-nix; charset=utf-8"@
    } else if ext == "svelte"@ {
        "text/x-svelte; charset=utf-8"@
    } else if ext == "vue"@ {
        "text/x-vue; charset=utf-8"@
    } else if ext == "png"@ {
        "image/png"@
    } else if ext == "jpg"@ || ext == "jpeg"@ {
        "image/jpeg"@
    } else if ext == "gif"@ {
        "image/gif"@
    } else if ext == "svg"@ {
        "image/svg+xml"@
    } else if ext == "webp"@ {
        "image/webp"@
    } else if ext == "ico"@ {
        "image/x-icon"@
    } else if ext == "pdf"@ {
        "application/pdf"@
    } else if ext == "zip"@ {
        "application/zip"@
    } else if ext == "gz"@ || ext == "gzip"@ {
        "application/gzip"@
    } else if ext == "tar"@ {
        "application/x-tar"@
    } else if ext == "wasm"@ {
        "application/wasm"@
    } else {
        "application/octet-stream"@
    }
}

/// The content type served for a lowercase file extension.
pub fn content_type_for_extension(ext: &str) -> (r: String)
    ensures
        r@ == content_type_of_extension(ext@),
{
    let t = if str_eq(ext, "txt") {
        "text/plain; charset=utf-8"
    } else if str_eq(ext, "md") || str_eq(ext, "markdown") {
        "text/markdown; charset=utf-8"
    } else if str_eq(ext, "html") || str_eq(ext, "htm") {
        "text/html; charset=utf-8"
    } else if str_eq(ext, "css") {
        "text/css; charset=utf-8"
    } else if str_eq(ext, "js") || str_eq(ext, "mjs") {
        "text/javascript; charset=utf-8"
    } else if str_eq(ext, "json") {
        "application/json; charset=utf-8"
    } else if str_eq(ext, "xml") {
        "application/xml; charset=utf-8"
    } else if str_eq(ext, "yaml") || str_eq(ext, "yml") {
        "text/yaml; charset=utf-8"
    } else if str_eq(ext, "toml") {
        "text/toml; charset=utf-8"
    } else if str_eq(ext, "csv") {
        "text/csv; charset=utf-8"
    } else if str_eq(ext, "rs") {
        "text/x-rust; charset=utf-8"
    } else if str_eq(ext, "py") {
        "text/x-python; charset=utf-8"
    } else if str_eq(ext, "rb") {
        "text/x-ruby; charset=utf-8"
    } else if str_eq(ext, "go") {
        "text/x-go; charset=utf-8"
    } else if str_eq(ext, "java") {
        "text/x-java; charset=utf-8"
    } else if str_eq(ext, "c") || str_eq(ext, "h") {
        "text/x-c; charset=utf-8"
    } else if str_eq(ext, "cpp") || str_eq(ext, "hpp") || str_eq(ext, "cc") || str_eq(ext, "cxx") {
        "text/x-c++; charset=utf-8"
    } else if str_eq(ext, "ts") || str_eq(ext, "tsx") {
        "text/typescript; charset=utf-8"
    } else if str_eq(ext, "jsx") {
        "text/jsx; charset=utf-8"
    } else if str_eq(ext, "sh") || str_eq(ext, "bash") || str_eq(ext, "zsh") {
        "text/x-shellscript; charset=utf-8"
    } else if str_eq(ext, "sql") {
        "text/x-sql; charset=utf-8"
    } else if str_eq(ext, "nix") {
        "text/x-nix; charset=utf-8"
    } else if str_eq(ext, "svelte") {
        "text/x-svelte; charset=utf-8"
    } else if str_eq(ext, "vue") {
        "text/x-vue; charset=utf-8"
    } else if str_eq(ext, "png") {
        "image/png"
    } else if str_eq(ext, "jpg") || str_eq(ext, "jpeg") {
        "image/jpeg"
    } else if str_eq(ext, "gif") {
        "image/gif"
    } else if str_eq(ext, "svg") {
        "image/svg+xml"
    } else if str_eq(ext, "webp") {
        "image/webp"
    } else if str_eq(ext, "ico") {
        "image/x-icon"
    } else if str_eq(ext, "pdf") {
        "application/pdf"
    } else if str_eq(ext, "zip") {
        "application/zip"
    } else if str_eq(ext, "gz") || str_eq(ext, "gzip") {
        "application/gzip"
    } else if str_eq(ext, "tar") {
        "application/x-tar"
    } else if str_eq(ext, "wasm") {
        "application/wasm"
    } else {
        "application/octet-stream"
    };
    string_of_str(t)
}

/// The content type served for a file: by the lowercased text after its
/// last `.` (all of the path when it has none).
pub fn get_content_type_for_path(path: &str) -> (r: String)
    ensures
        r@ == content_type_of_extension(lowercase_text(after_last(path@, '.'))),
{
    let v = chars_of(path);
    let start = match rfind_pos(&v, '.') {
        Some(i) => i + 1,
        None => 0,
    };
    proof {
        if start == 0 {
            assert(v@.subrange(0, v@.len() as int) =~= v@);
        }
    }
    let ext = string_of_range(&v, start, v.len());
    let lower = to_lowercase(ext.as_str());
    content_type_for_extension(lower.as_str())
}

/// The `Content-Disposition` value that serves a file inline under the
/// last `/`-separated part of its path.
pub fn inline_disposition(file_path: &str) -> (r: String)
    ensures
        r@ == "inline; filename=\""@ + after_last(file_path@, '/') + "\""@,
{
    let v = chars_of(file_path);
    let start = match rfind_pos(&v, '/') {
        Some(i) => i + 1,
        None => 0,
    };
    proof {
        if start == 0 {
            assert(v@.subrange(0, v@.len() as int) =~= v@);
        }
    }
    let name = string_of_range(&v, start, v.len());
    let mut out = string_of_str("inline; filename=\"");
    push_str(&mut out, name.as_str());
    push_str(&mut out, "\"");
    out
}

/// Whether `p` occurs in `s` at `i`.
pub open spec fn occurs_at(s: Seq<char>, p: Seq<char>, i: int) -> bool {
    0 <= i && i + p.len() <= s.len() && s.subrange(i, i + p.len()) == p
}

/// The first position at or after `i` where `p` occurs in `s`.
pub open spec fn first_occurrence_from(s: Seq<char>, p: Seq<char>, i: int) -> Option<int>
    decreases s.len() + 1 - i,
{
    if i < 0 || i + p.len() > s.len() {
        None
    } else if occurs_at(s, p, i) {
        Some(i)
    } else {
        first_occurrence_from(s, p, i + 1)
    }
}

fn find_text(v: &Vec<char>, p: &str) -> (r: Option<usize>)
    ensures
        match r {
            Some(i) => first_occurrence_from(v@, p@, 0) == Some(i as int),
            None => first_occurrence_from(v@, p@, 0) is None,
        },
{
    let pv = chars_of(p);
    let mut i: usize = 0;
    while i < v.len() && !(chars_match_at(v, i, &pv))
        invariant
            i <= v.len(),
            pv@ == p@,
            first_occurrence_from(v@, p@, i as int) == first_occurrence_from(v@, p@, 0),
        decreases v.len() - i,
    {
        proof {
            if i + pv@.len() <= v.len() {
                assert(v@.subrange(i as int, v.len() as int).subrange(0, pv@.len() as int) =~= v@.subrange(
                    i as int,
                    i + pv@.len(),
                ));
            }
        }
        i = i + 1;
    }
    if i < v.len() {
        assert(v@.subrange(i as int, v.len() as int).subrange(0, pv@.len() as int) =~= v@.subrange(
            i as int,
            i + pv@.len(),
        ));
        Some(i)
    } else {
        proof {
            if pv@.len() == 0 {
                assert(v@.subrange(i as int, i as int) =~= pv@);
            }
        }
        if pv.len() == 0 {
            Some(i)
        } else {
            None
        }
    }
}

/// The base and head of a `base...head` range, split at the first `...`.
pub open spec fn compare_refs_of(refs: Seq<char>) -> Option<(Seq<char>, Seq<char>)> {
    match first_occurrence_from(refs, "..."@, 0) {
        Some(i) => Some((refs.subrange(0, i), refs.subrange(i + 3, refs.len() as int))),
        None => None,
    }
}

/// Splits a `base...head` range at its first `...`.
pub fn split_compare_refs(refs: &str) -> (r: Option<(String, String)>)
    ensures
        match r {
            Some((base, head)) => compare_refs_of(refs@) == Some((base@, head@)),
            None => compare_refs_of(refs@) is None,
        },
{
    proof {
        reveal_strlit("...");
    }
    let v = chars_of(refs);
    match find_text(&v, "...") {
        Some(i) => {
            proof {
                lemma_first_occurrence_bound(v@, "..."@, 0);
                reveal_strlit("...");
            }
            assert(i + 3 <= v.len());
            let base = string_of_range(&v, 0, i);
            let head = string_of_range(&v, i + 3, v.len());
            Some((base, head))
        },
        None => None,
    }
}

/// An occurrence found is within the text.
pub proof fn lemma_first_occurrence_bound(s: Seq<char>, p: Seq<char>, i: int)
    ensures
        first_occurrence_from(s, p, i) matches Some(j) ==> i <= j && occurs_at(s, p, j),
    decreases s.len() + 1 - i,
{
    if !(i < 0 || i + p.len() > s.len()) && !occurs_at(s, p, i) {
        lemma_first_occurrence_bound(s, p, i + 1);
    }
}

/// A commit as the browser lists it.
#[derive(Debug, Clone)]
pub struct CommitInfo {
    pub sha: String,
    pub message: String,
    pub author_name: String,
    pub author_email: String,
    pub author_date: String,
    pub parent_shas: Vec<String>,
}

/// A commit as plain values.
pub struct CommitInfoView {
    pub sha: Seq<char>,
    pub message: Seq<char>,
    pub author_name: Seq<char>,
    pub author_email: Seq<char>,
    pub author_date: Seq<char>,
    pub parent_shas: Seq<Seq<char>>,
}

/// The views of a list of strings.
pub open spec fn strings_view(v: Seq<String>) -> Seq<Seq<char>> {
    v.map_values(|s: String| s@)
}

impl View for CommitInfo {
    type V = CommitInfoView;

    open spec fn view(&self) -> CommitInfoView {
        CommitInfoView {
            sha: self.sha@,
            message: self.message@,
            author_name: self.author_name@,
            author_email: self.author_email@,
            author_date: self.author_date@,
            parent_shas: strings_view(self.parent_shas@),
        }
    }
}

/// The views of a list of commits.
pub open spec fn commits_view(v: Seq<CommitInfo>) -> Seq<CommitInfoView> {
    v.map_values(|c: CommitInfo| c@)
}

/// The `i`-th piece, or empty text when there are fewer.
pub open spec fn piece_or_empty(parts: Seq<Seq<char>>, i: int) -> Seq<char> {
    if 0 <= i < parts.len() {
        parts[i]
    } else {
        Seq::empty()
    }
}

/// The commit of a `git log --format=%H|%s|%an|%ae|%aI|%P` line: its first
/// five `|`-separated fields and the whitespace-separated parents in the
/// rest; missing fields are empty.
pub open spec fn commit_of_log_line(line: Seq<char>) -> CommitInfoView {
    let parts = splitn_on(line, '|', 6);
    CommitInfoView {
        sha: piece_or_empty(parts, 0),
        message: piece_or_empty(parts, 1),
        author_name: piece_or_empty(parts, 2),
        author_email: piece_or_empty(parts, 3),
        author_date: piece_or_empty(parts, 4),
        parent_shas: words_of(piece_or_empty(parts, 5)),
    }
}

/// The commits of the nonempty lines of a log, in order.
pub open spec fn log_commits(lines: Seq<Seq<char>>) -> Seq<CommitInfoView>
    decreases lines.len(),
{
    if lines.len() == 0 {
        Seq::empty()
    } else {
        let prev = log_commits(lines.drop_last());
        if lines.last().len() == 0 {
            prev
        } else {
            prev.push(commit_of_log_line(lines.last()))
        }
    }
}

/// Whether `s` holds no `|`.
pub open spec fn no_bar(s: Seq<char>) -> bool {
    forall|i: int| 0 <= i < s.len() ==> s[i] != '|'
}

/// In a log line `<sha>|<subject>|<author name>...` whose first three
/// fields hold no `|`, the commit's sha is the text before the first `|`,
/// its message the text between the first and the second, and its author's
/// name the text after the second, up to the third `|` if there is one.
pub proof fn law_log_line_leading_fields(sha: Seq<char>, subject: Seq<char>, author: Seq<char>, tail: Seq<char>)
    requires
        no_bar(sha),
        no_bar(subject),
        no_bar(author),
        tail.len() == 0 || tail[0] == '|',
    ensures
        commit_of_log_line(sha + seq!['|'] + subject + seq!['|'] + author + tail).sha == sha,
        commit_of_log_line(sha + seq!['|'] + subject + seq!['|'] + author + tail).message == subject,
        commit_of_log_line(sha + seq!['|'] + subject + seq!['|'] + author + tail).author_name == author,
{
    let line = sha + seq!['|'] + subject + seq!['|'] + author + tail;
    assert(line =~= sha + seq!['|'] + (subject + seq!['|'] + (author + tail)));
    crate::text::lemma_splitn_first(sha, subject + seq!['|'] + (author + tail), '|', 6);
    crate::text::lemma_splitn_first(subject, author + tail, '|', 5);
    if tail.len() == 0 {
        assert(author + tail =~= author);
        crate::text::lemma_splitn_no_sep(author, '|', 4);
    } else {
        assert(author + tail =~= author + seq!['|'] + tail.drop_first());
        crate::text::lemma_splitn_first(author, tail.drop_first(), '|', 4);
    }
    let parts = splitn_on(line, '|', 6);
    assert(parts[0] == sha);
    assert(parts[1] == subject);
    assert(parts[2] == author);
}

/// A full log line `<sha>|<subject>|<name>|<email>|<date>|<parents>`,
/// whose first five fields hold no `|`, gives each field in its place and
/// the parents split at whitespace.
pub proof fn law_log_line_all_fields(
    sha: Seq<char>,
    subject: Seq<char>,
    name: Seq<char>,
    email: Seq<char>,
    date: Seq<char>,
    parents: Seq<char>,
)
    requires
        no_bar(sha),
        no_bar(subject),
        no_bar(name),
        no_bar(email),
        no_bar(date),
    ensures
        ({
            let c = commit_of_log_line(
                sha + seq!['|'] + subject + seq!['|'] + name + seq!['|'] + email + seq!['|'] + date + seq!['|']
                    + parents,
            );
            &&& c.sha == sha
            &&& c.message == subject
            &&& c.author_name == name
            &&& c.author_email == email
            &&& c.author_date == date
            &&& c.parent_shas == words_of(parents)
        }),
{
    let line = sha + seq!['|'] + subject + seq!['|'] + name + seq!['|'] + email + seq!['|'] + date + seq!['|'] + parents;
    let r4 = date + seq!['|'] + parents;
    let r3 = email + seq!['|'] + r4;
    let r2 = name + seq!['|'] + r3;
    let r1 = subject + seq!['|'] + r2;
    assert(line =~= sha + seq!['|'] + r1);
    crate::text::lemma_splitn_first(sha, r1, '|', 6);
    crate::text::lemma_splitn_first(subject, r2, '|', 5);
    crate::text::lemma_splitn_first(name, r3, '|', 4);
    crate::text::lemma_splitn_first(email, r4, '|', 3);
    crate::text::lemma_splitn_first(date, parents, '|', 2);
    let parts = splitn_on(line, '|', 6);
    assert(splitn_on(parents, '|', 1) == seq![parents]);
    assert(parts =~= seq![sha, subject, name, email, date, parents]);
}

fn piece_string(parts: &Vec<Vec<char>>, i: usize) -> (r: String)
    ensures
        r@ == piece_or_empty(parts.deep_view(), i as int),
{
    if i < parts.len() {
        assert(parts.deep_view()[i as int] == parts@[i as int]@);
        string_of(&parts[i])
    } else {
        String::new()
    }
}

fn strings_of_pieces(parts: &Vec<Vec<char>>) -> (r: Vec<String>)
    ensures
        strings_view(r@) == parts.deep_view(),
{
    let mut out: Vec<String> = Vec::new();
    let mut i: usize = 0;
    while i < parts.len()
        invariant
            i <= parts.len(),
            out@.len() == i,
            forall|j: int| 0 <= j < i ==> (#[trigger] out@[j])@ == parts.deep_view()[j],
        decreases parts.len() - i,
    {
        let piece = string_of(&parts[i]);
        assert(parts.deep_view()[i as int] == parts@[i as int]@);
        out.push(piece);
        i = i + 1;
    }
    assert(strings_view(out@) =~= parts.deep_view());
    out
}

/// The commit of one log line.
pub fn parse_log_line(line: &str) -> (r: CommitInfo)
    ensures
        r@ == commit_of_log_line(line@),
{
    let v = chars_of(line);
    let parts = splitn_chars(&v, '|', 6);
    let parents_field = piece_string(&parts, 5);
    let pv = chars_of(parents_field.as_str());
    let words = words_chars(&pv);
    CommitInfo {
        sha: piece_string(&parts, 0),
        message: piece_string(&parts, 1),
        author_name: piece_string(&parts, 2),
        author_email: piece_string(&parts, 3),
        author_date: piece_string(&parts, 4),
        parent_shas: strings_of_pieces(&words),
    }
}

/// The commits of a compare log: one per nonempty line.
pub fn parse_compare_log(text: &str) -> (r: Vec<CommitInfo>)
    ensures
        commits_view(r@) == log_commits(lines_of(text@)),
{
    let v = chars_of(text);
    let lines = lines_chars(&v);
    let ghost ls = lines.deep_view();
    let mut out: Vec<CommitInfo> = Vec::new();
    let mut i: usize = 0;
    while i < lines.len()
        invariant
            i <= lines.len(),
            ls == lines.deep_view(),
            ls == lines_of(text@),
            commits_view(out@) == log_commits(ls.take(i as int)),
        decreases lines.len() - i,
    {
        assert(ls.take(i + 1).drop_last() =~= ls.take(i as int));
        assert(ls[i as int] == lines@[i as int]@);
        if lines[i].len() > 0 {
            let s = string_of(&lines[i]);
            let c = parse_log_line(s.as_str());
            out.push(c);
            assert(commits_view(out@) =~= log_commits(ls.take(i as int)).push(c@));
        }
        i = i + 1;
    }
    assert(ls.take(lines.len() as int) =~= ls);
    out
}

/// The commits of a compare log as `git` wrote it (bytes read lossily as
/// UTF-8).
pub fn parse_compare_log_output(stdout: &[u8]) -> (r: Vec<CommitInfo>)
    ensures
        commits_view(r@) == log_commits(lines_of(utf8_lossy_text(stdout@))),
{
    let text = utf8_lossy(stdout);
    parse_compare_log(text.as_str())
}

/// A commit with its diff.
#[derive(Debug, Clone)]
pub struct CommitWithDiff {
    pub commit: CommitInfo,
    pub diff: String,
}

/// The commit that `git show --format=format:%H%n%s%n%an%n%ae%n%aI%n%P`
/// prints: its first six lines (missing ones empty), the parents split at
/// whitespace.
pub open spec fn commit_of_show(text: Seq<char>) -> CommitInfoView {
    let ls = lines_of(text);
    CommitInfoView {
        sha: piece_or_empty(ls, 0),
        message: piece_or_empty(ls, 1),
        author_name: piece_or_empty(ls, 2),
        author_email: piece_or_empty(ls, 3),
        author_date: piece_or_empty(ls, 4),
        parent_shas: words_of(piece_or_empty(ls, 5)),
    }
}

/// Whether `s` holds no newline and does not end with a carriage return:
/// one clean line.
pub open spec fn clean_line(s: Seq<char>) -> bool {
    (forall|i: int| 0 <= i < s.len() ==> s[i] != '\n') && !(s.len() > 0 && s.last() == '\r')
}

/// `git show` text that opens with the six lines sha, subject, author
/// name, author email, author date and parents (each one clean line), then
/// anything that starts a new line, gives the commit with those fields in
/// that order, the parents split at whitespace.
pub proof fn law_commit_show_fields(
    sha: Seq<char>,
    subject: Seq<char>,
    name: Seq<char>,
    email: Seq<char>,
    date: Seq<char>,
    parents: Seq<char>,
    rest: Seq<char>,
)
    requires
        clean_line(sha),
        clean_line(subject),
        clean_line(name),
        clean_line(email),
        clean_line(date),
        clean_line(parents),
        rest.len() == 0 || rest[0] == '\n',
    ensures
        ({
            let c = commit_of_show(
                sha + seq!['\n'] + subject + seq!['\n'] + name + seq!['\n'] + email + seq!['\n'] + date + seq!['\n']
                    + parents + rest,
            );
            &&& c.sha == sha
            &&& c.message == subject
            &&& c.author_name == name
            &&& c.author_email == email
            &&& c.author_date == date
            &&& c.parent_shas == words_of(parents)
        }),
{
    let nl = '\n';
    let tail = if rest.len() == 0 { Seq::<Seq<char>>::empty() } else { split_on(rest.drop_first(), nl) };
    let r5 = parents + rest;
    let r4 = date + seq![nl] + r5;
    let r3 = email + seq![nl] + r4;
    let r2 = name + seq![nl] + r3;
    let r1 = subject + seq![nl] + r2;
    let text = sha + seq![nl] + r1;
    assert(text =~= sha + seq!['\n'] + subject + seq!['\n'] + name + seq!['\n'] + email + seq!['\n'] + date
        + seq!['\n'] + parents + rest);
    crate::text::lemma_split_concat(sha, r1, nl);
    crate::text::lemma_split_concat(subject, r2, nl);
    crate::text::lemma_split_concat(name, r3, nl);
    crate::text::lemma_split_concat(email, r4, nl);
    crate::text::lemma_split_concat(date, r5, nl);
    crate::text::lemma_split_no_sep(sha, nl);
    crate::text::lemma_split_no_sep(subject, nl);
    crate::text::lemma_split_no_sep(name, nl);
    crate::text::lemma_split_no_sep(email, nl);
    crate::text::lemma_split_no_sep(date, nl);
    crate::text::lemma_split_no_sep(parents, nl);
    if rest.len() == 0 {
        assert(r5 =~= parents);
        assert(split_on(r5, nl) =~= seq![parents]);
    } else {
        assert(r5 =~= parents + seq![nl] + rest.drop_first());
        crate::text::lemma_split_concat(parents, rest.drop_first(), nl);
        crate::text::lemma_split_nonempty(rest.drop_first(), nl);
        assert(split_on(r5, nl) =~= seq![parents] + tail);
    }
    let parts = split_on(text, nl);
    assert(parts =~= seq![sha, subject, name, email, date] + split_on(r5, nl));
    let ls = lines_of(text);
    assert(parts.len() >= 6);
    assert(parts[5] == parents);
    if parts[parts.len() - 1].len() == 0 {
        assert(ls.len() == parts.len() - 1);
    }
    assert(ls[0] == sha);
    assert(ls[1] == subject);
    assert(ls[2] == name);
    assert(ls[3] == email);
    assert(ls[4] == date);
    assert(piece_or_empty(ls, 5) == parents) by {
        if ls.len() > 5 {
            assert(ls[5] == parents);
        } else {
            assert(parents.len() == 0);
        }
    }
}

/// The diff that `git show` prints: what follows the first empty line
/// (empty when there is none).
pub open spec fn diff_of_show(text: Seq<char>) -> Seq<char> {
    match first_occurrence_from(text, "\n\n"@, 0) {
        Some(i) => text.subrange(i + 2, text.len() as int),
        None => Seq::empty(),
    }
}

/// The commit and diff of `git show` text.
pub fn parse_commit_show(text: &str) -> (r: CommitWithDiff)
    ensures
        r.commit@ == commit_of_show(text@),
        r.diff@ == diff_of_show(text@),
{
    proof {
        reveal_strlit("\n\n");
    }
    let v = chars_of(text);
    let lines = lines_chars(&v);
    let parents_field = piece_string(&lines, 5);
    let pv = chars_of(parents_field.as_str());
    let words = words_chars(&pv);
    let commit = CommitInfo {
        sha: piece_string(&lines, 0),
        message: piece_string(&lines, 1),
        author_name: piece_string(&lines, 2),
        author_email: piece_string(&lines, 3),
        author_date: piece_string(&lines, 4),
        parent_shas: strings_of_pieces(&words),
    };
    let diff = match find_text(&v, "\n\n") {
        Some(i) => {
            proof {
                lemma_first_occurrence_bound(v@, "\n\n"@, 0);
                reveal_strlit("\n\n");
            }
            assert(i + 2 <= v.len());
            string_of_range(&v, i + 2, v.len())
        },
        None => String::new(),
    };
    CommitWithDiff { commit, diff }
}

/// The commit and diff of `git show` output (bytes read lossily as UTF-8).
pub fn parse_commit_show_output(stdout: &[u8]) -> (r: CommitWithDiff)
    ensures
        r.commit@ == commit_of_show(utf8_lossy_text(stdout@)),
        r.diff@ == diff_of_show(utf8_lossy_text(stdout@)),
{
    let text = utf8_lossy(stdout);
    parse_commit_show(text.as_str())
}

/// A count read as `str::parse::<usize>()` reads it, 0 when it is none.
pub open spec fn usize_or_zero(s: Seq<char>) -> usize {
    match parse_unsigned(s) {
        Some(v) => if v <= usize::MAX {
            v as usize
        } else {
            0
        },
        None => 0,
    }
}

fn parse_usize_or_zero(v: &Vec<char>) -> (r: usize)
    ensures
        r == usize_or_zero(v@),
{
    match parse_u64_chars(v) {
        Some(x) => {
            if x <= usize::MAX as u64 {
                x as usize
            } else {
                0
            }
        },
        None => 0,
    }
}

/// The behind and ahead counts that `git rev-list --left-right --count`
/// prints: the trimmed text split at tabs, the first field behind, the
/// second ahead, each 0 when missing or no count.
pub open spec fn left_right_counts(text: Seq<char>) -> (usize, usize) {
    let parts = split_on(trim(text), '\t');
    (usize_or_zero(piece_or_empty(parts, 0)), usize_or_zero(piece_or_empty(parts, 1)))
}

/// For `git rev-list --left-right --count <base>...<head>` output
/// `<b>\t<a>` (with or without a final newline), with decimal counts that
/// fit in `usize`, the commits behind are `b` and the commits ahead are `a`.
pub proof fn law_left_right_counts_fields(b: Seq<char>, a: Seq<char>, newline: bool)
    requires
        crate::text::all_digits(b),
        crate::text::all_digits(a),
        crate::text::digits_value(b) <= usize::MAX,
        crate::text::digits_value(a) <= usize::MAX,
    ensures
        left_right_counts(b + seq!['\t'] + a + if newline { seq!['\n'] } else { Seq::<char>::empty() }) == (
            crate::text::digits_value(b) as usize,
            crate::text::digits_value(a) as usize,
        ),
{
    let core = b + seq!['\t'] + a;
    let t = core + if newline { seq!['\n'] } else { Seq::<char>::empty() };
    assert(crate::text::is_digit(b[0]));
    assert(crate::text::is_digit(a[a.len() - 1]));
    assert(t[0] == b[0]);
    assert(crate::text::leading_ws(t) == 0);
    assert(core.last() == a[a.len() - 1]);
    assert(crate::text::trailing_ws(core) == 0);
    if newline {
        assert(t.last() == '\n');
        assert(t.drop_last() =~= core);
        assert(crate::text::trailing_ws(t) == 1);
    } else {
        assert(t =~= core);
    }
    assert(trim(t) =~= core);
    assert forall|i: int| 0 <= i < b.len() implies b[i] != '\t' by {
        assert(crate::text::is_digit(b[i]));
    }
    assert forall|i: int| 0 <= i < a.len() implies a[i] != '\t' by {
        assert(crate::text::is_digit(a[i]));
    }
    crate::text::lemma_split_concat(b, a, '\t');
    crate::text::lemma_split_no_sep(b, '\t');
    crate::text::lemma_split_no_sep(a, '\t');
    assert(split_on(core, '\t') =~= seq![b, a]);
    crate::text::lemma_digits_value_nonneg(a);
    crate::text::lemma_digits_value_nonneg(b);
    assert(a[0] != '+' && b[0] != '+');
}

/// The behind and ahead counts of `git rev-list --left-right --count`
/// output (bytes read lossily as UTF-8).
pub fn parse_left_right_counts(stdout: &[u8]) -> (r: (usize, usize))
    ensures
        r == left_right_counts(utf8_lossy_text(stdout@)),
{
    let text = utf8_lossy(stdout);
    left_right_counts_of_text(text.as_str())
}

/// The behind and ahead counts of `git rev-list --left-right --count` text.
pub fn left_right_counts_of_text(text: &str) -> (r: (usize, usize))
    ensures
        r == left_right_counts(text@),
{
    let v = chars_of(text);
    let t = trim_chars(&v);
    let parts = split_chars(&t, '\t');
    let first = piece_string(&parts, 0);
    let second = piece_string(&parts, 1);
    let fv = chars_of(first.as_str());
    let sv = chars_of(second.as_str());
    (parse_usize_or_zero(&fv), parse_usize_or_zero(&sv))
}

/// The ref and path that a `<ref>/<path>` segment names: its first
/// `/`-separated part and the rest after it (empty when there is no `/`).
pub open spec fn ref_and_path_split(combined: Seq<char>) -> (Seq<char>, Seq<char>) {
    let parts = splitn_on(combined, '/', 2);
    (piece_or_empty(parts, 0), piece_or_empty(parts, 1))
}

/// A `<ref>/<path>` segment whose ref holds no `/` gives the ref and the
/// whole rest as the path.
pub proof fn law_ref_and_path_split(r: Seq<char>, path: Seq<char>)
    requires
        forall|i: int| 0 <= i < r.len() ==> r[i] != '/',
    ensures
        ref_and_path_split(r + seq!['/'] + path) == (r, path),
{
    crate::text::lemma_splitn_first(r, path, '/', 2);
    assert(splitn_on(path, '/', 1) == seq![path]);
}

/// Chooses the ref and path of a `<ref>/<path>` segment given what the
/// repository resolves: the first part as the ref when it resolves, else
/// the whole segment as a ref without path when that resolves, else the
/// first part anyway.
pub fn choose_ref_and_path(combined: &str, first_resolves: bool, whole_resolves: bool) -> (r: (String, String))
    ensures
        (r.0@, r.1@) == if !first_resolves && whole_resolves {
            (combined@, Seq::<char>::empty())
        } else {
            ref_and_path_split(combined@)
        },
{
    if !first_resolves && whole_resolves {
        return (string_of_str(combined), String::new());
    }
    let (first, rest) = ref_and_path_candidates(combined);
    (first, rest)
}

/// The first `/`-separated part of a `<ref>/<path>` segment and the rest.
pub fn ref_and_path_candidates(combined: &str) -> (r: (String, String))
    ensures
        (r.0@, r.1@) == ref_and_path_split(combined@),
{
    let v = chars_of(combined);
    let parts = splitn_chars(&v, '/', 2);
    (piece_string(&parts, 0), piece_string(&parts, 1))
}

/// The page size of a commit listing: 50 unless asked, at most 100.
pub fn commit_page_limit(limit: Option<usize>) -> (r: usize)
    ensures
        r == match limit {
            Some(l) => if l < 100 {
                l
            } else {
                100
            },
            None => 50,
        },
{
    let l = match limit {
        Some(l) => l,
        None => 50,
    };
    if l < 100 {
        l
    } else {
        100
    }
}

/// The positions of a page within `total` commits: from `offset` (at most
/// `total`), at most `limit` of them.
pub fn page_bounds(total: usize, offset: usize, limit: usize) -> (r: (usize, usize))
    ensures
        r.0 == if offset < total {
            offset
        } else {
            total
        },
        r.1 == if r.0 + limit < total {
            r.0 + limit
        } else {
            total as int
        },
{
    let start = if offset < total {
        offset
    } else {
        total
    };
    let end = if limit < total - start {
        start + limit
    } else {
        total
    };
    (start, end)
}

/// The kind of a tree entry as `git` stores it.
#[derive(Debug, Clone, Copy, PartialEq, Eq, Structural)]
pub enum TreeEntryMode {
    Blob,
    BlobExecutable,
    Tree,
    Link,
    Commit,
}

/// The kind name the browser shows for a tree entry.
pub fn tree_entry_kind(mode: TreeEntryMode) -> (r: &'static str)
    ensures
        r@ == match mode {
            TreeEntryMode::Blob | TreeEntryMode::BlobExecutable => "file"@,
            TreeEntryMode::Tree => "directory"@,
            TreeEntryMode::Link => "symlink"@,
            TreeEntryMode::Commit => "submodule"@,
        },
{
    match mode {
        TreeEntryMode::Blob | TreeEntryMode::BlobExecutable => "file",
        TreeEntryMode::Tree => "directory",
        TreeEntryMode::Link => "symlink",
        TreeEntryMode::Commit => "submodule",
    }
}

/// The path of an entry of a listed tree: its name at the root, else the
/// tree's path, `/` and its name.
pub fn tree_entry_path(tree_path: &str, name: &str) -> (r: String)
    ensures
        r@ == if tree_path@.len() == 0 {
            name@
        } else {
            tree_path@ + "/"@ + name@
        },
{
    if tree_path.is_empty() {
        string_of_str(name)
    } else {
        let mut out = string_of_str(tree_path);
        push_str(&mut out, "/");
        push_str(&mut out, name);
        out
    }
}

/// The text of a commit time: RFC 3339 of the UTC time, the epoch's when
/// the time cannot be represented.
pub open spec fn git_time_text(secs: i64) -> Seq<char> {
    match rfc3339_at(secs) {
        Some(t) => t,
        None => rfc3339_at(0)->0,
    }
}

/// The RFC 3339 text of a commit time given in seconds since the epoch.
pub fn format_git_time(secs: i64) -> (r: String)
    ensures
        r@ == git_time_text(secs),
{
    match rfc3339_of_secs(secs) {
        Some(t) => t,
        None => match rfc3339_of_secs(0) {
            Some(t) => t,
            None => String::new(),
        },
    }
}


/// One line of a blame: the line number in the file at the ref, the commit
/// and author it comes from, and its content.
#[derive(Debug, Clone)]
pub struct BlameLine {
    pub line_number: usize,
    pub commit_sha: String,
    pub author_name: String,
    pub author_email: String,
    pub author_date: String,
    pub content: String,
}

/// A line of `git blame --line-porcelain` output with the author time as
/// it was read (seconds since the epoch, `None` when none was read yet).
#[derive(Debug, Clone)]
pub struct BlameRecord {
    pub line_number: usize,
    pub commit_sha: String,
    pub author_name: String,
    pub author_email: String,
    pub author_secs: Option<i64>,
    pub content: String,
}

/// A blame record as plain values.
pub struct BlameRecordView {
    pub line_number: usize,
    pub commit_sha: Seq<char>,
    pub author_name: Seq<char>,
    pub author_email: Seq<char>,
    pub author_secs: Option<i64>,
    pub content: Seq<char>,
}

impl View for BlameRecord {
    type V = BlameRecordView;

    open spec fn view(&self) -> BlameRecordView {
        BlameRecordView {
            line_number: self.line_number,
            commit_sha: self.commit_sha@,
            author_name: self.author_name@,
            author_email: self.author_email@,
            author_secs: self.author_secs,
            content: self.content@,
        }
    }
}

/// The views of a list of blame records.
pub open spec fn records_view(v: Seq<BlameRecord>) -> Seq<BlameRecordView> {
    v.map_values(|r: BlameRecord| r@)
}

/// What the blame reader carries from line to line: the current commit,
/// author, email, author time and line number.
pub struct BlameState {
    pub sha: Seq<char>,
    pub author: Seq<char>,
    pub email: Seq<char>,
    pub secs: Option<i64>,
    pub line_number: usize,
}

/// The state before the first line.
pub open spec fn blame_start() -> BlameState {
    BlameState { sha: Seq::empty(), author: Seq::empty(), email: Seq::empty(), secs: None, line_number: 0 }
}

/// An ASCII hexadecimal digit.
pub open spec fn is_ascii_hex(c: char) -> bool {
    ('0' <= c && c <= '9') || ('a' <= c && c <= 'f') || ('A' <= c && c <= 'F')
}

/// Whether a line starts a blame group: at least 40 characters, the first
/// 40 hexadecimal (a commit id).
pub open spec fn is_commit_header(line: Seq<char>) -> bool {
    line.len() >= 40 && forall|i: int| 0 <= i < 40 ==> is_ascii_hex(#[trigger] line[i])
}

/// `s` without its leading `<`s and `>`s.
pub open spec fn strip_leading_angles(s: Seq<char>) -> Seq<char>
    decreases s.len(),
{
    if s.len() > 0 && (s[0] == '<' || s[0] == '>') {
        strip_leading_angles(s.drop_first())
    } else {
        s
    }
}

/// `s` without its trailing `<`s and `>`s.
pub open spec fn strip_trailing_angles(s: Seq<char>) -> Seq<char>
    decreases s.len(),
{
    if s.len() > 0 && (s.last() == '<' || s.last() == '>') {
        strip_trailing_angles(s.drop_last())
    } else {
        s
    }
}

/// `s` without `<`s and `>`s at either end (`str::trim_matches`).
pub open spec fn trim_angles(s: Seq<char>) -> Seq<char> {
    strip_trailing_angles(strip_leading_angles(s))
}

/// The record that a content line (one that starts with a tab) makes.
pub open spec fn blame_record(st: BlameState, line: Seq<char>) -> BlameRecordView {
    BlameRecordView {
        line_number: st.line_number,
        commit_sha: st.sha,
        author_name: st.author,
        author_email: st.email,
        author_secs: st.secs,
        content: line.drop_first(),
    }
}

/// The state after a commit header: its commit and the final line number
/// (third field), when it has three whitespace-separated fields.
pub open spec fn after_header(st: BlameState, line: Seq<char>) -> BlameState {
    let parts = words_of(line);
    if parts.len() >= 3 {
        BlameState { sha: parts[0], line_number: usize_or_zero(parts[2]), ..st }
    } else {
        st
    }
}

/// The state after the author fields of a line.
pub open spec fn after_author_fields(st: BlameState, line: Seq<char>) -> BlameState {
    if has_prefix(line, "author "@) {
        BlameState { author: drop_prefix(line, "author "@), ..st }
    } else if has_prefix(line, "author-mail "@) {
        BlameState { email: trim_angles(drop_prefix(line, "author-mail "@)), ..st }
    } else if has_prefix(line, "author-time "@) {
        match parse_signed(drop_prefix(line, "author-time "@)) {
            Some(v) => if i64::MIN <= v <= i64::MAX {
                BlameState { secs: Some(v as i64), ..st }
            } else {
                st
            },
            None => st,
        }
    } else {
        st
    }
}

/// The state after a line, and the record it makes.
pub open spec fn blame_step(st: BlameState, line: Seq<char>) -> (BlameState, Option<BlameRecordView>) {
    let is_content = line.len() > 0 && line[0] == '\t';
    let rec = if is_content {
        Some(blame_record(st, line))
    } else {
        None
    };
    let st1 = if !is_content && is_commit_header(line) {
        after_header(st, line)
    } else {
        st
    };
    (after_author_fields(st1, line), rec)
}

/// The state after some lines, and the records they make.
pub open spec fn blame_run(lines: Seq<Seq<char>>) -> (BlameState, Seq<BlameRecordView>)
    decreases lines.len(),
{
    if lines.len() == 0 {
        (blame_start(), Seq::empty())
    } else {
        let (st, out) = blame_run(lines.drop_last());
        let (st2, rec) = blame_step(st, lines.last());
        (
            st2,
            match rec {
                Some(r) => out.push(r),
                None => out,
            },
        )
    }
}

fn trim_angles_chars(v: &Vec<char>) -> (r: String)
    ensures
        r@ == trim_angles(v@),
{
    let mut a: usize = 0;
    assert(v@.subrange(0, v.len() as int) =~= v@);
    while a < v.len() && (v[a] == '<' || v[a] == '>')
        invariant
            a <= v.len(),
            strip_leading_angles(v@.subrange(a as int, v.len() as int)) == strip_leading_angles(v@),
        decreases v.len() - a,
    {
        assert(v@.subrange(a as int, v.len() as int).drop_first() =~= v@.subrange(a + 1, v.len() as int));
        a = a + 1;
    }
    proof {
        if a == 0 {
            assert(v@.subrange(0, v.len() as int) =~= v@);
        }
    }
    let ghost lead = v@.subrange(a as int, v.len() as int);
    assert(strip_leading_angles(lead) == lead);
    let mut b: usize = v.len();
    assert(lead.subrange(0, (b - a) as int) =~= lead);
    while b > a && (v[b - 1] == '<' || v[b - 1] == '>')
        invariant
            a <= b <= v.len(),
            lead == v@.subrange(a as int, v.len() as int),
            strip_trailing_angles(v@.subrange(a as int, b as int)) == strip_trailing_angles(lead),
        decreases b,
    {
        assert(v@.subrange(a as int, b as int).drop_last() =~= v@.subrange(a as int, b - 1));
        b = b - 1;
    }
    string_of_range(v, a, b)
}

fn drop_chars(v: &Vec<char>, n: usize) -> (r: Vec<char>)
    requires
        n <= v.len(),
    ensures
        r@ == v@.subrange(n as int, v.len() as int),
{
    slice_chars(v, n, v.len())
}

/// The records of `git blame --line-porcelain` text: one per content line
/// (a line that starts with a tab), each with the commit, author, email and
/// author time last read before it.
pub fn parse_blame_records(output: &str) -> (r: Vec<BlameRecord>)
    ensures
        records_view(r@) == blame_run(lines_of(output@)).1,
{
    proof {
        reveal_strlit("author ");
        reveal_strlit("author-mail ");
        reveal_strlit("author-time ");
    }
    let v = chars_of(output);
    let lines = lines_chars(&v);
    let ghost ls = lines.deep_view();
    let mut out: Vec<BlameRecord> = Vec::new();
    let mut sha = String::new();
    let mut author = String::new();
    let mut email = String::new();
    let mut secs: Option<i64> = None;
    let mut line_number: usize = 0;
    let mut i: usize = 0;
    assert(ls.take(0) =~= Seq::<Seq<char>>::empty());
    assert(records_view(out@) =~= Seq::<BlameRecordView>::empty());
    while i < lines.len()
        invariant
            i <= lines.len(),
            ls == lines.deep_view(),
            ls == lines_of(output@),
            blame_run(ls.take(i as int)).0 == (BlameState {
                sha: sha@,
                author: author@,
                email: email@,
                secs,
                line_number,
            }),
            records_view(out@) == blame_run(ls.take(i as int)).1,
        decreases lines.len() - i,
    {
        assert(ls.take(i + 1).drop_last() =~= ls.take(i as int));
        assert(ls[i as int] == lines@[i as int]@);
        let line = &lines[i];
        let ghost st = BlameState { sha: sha@, author: author@, email: email@, secs, line_number };
        let is_content = line.len() > 0 && line[0] == '\t';
        let ghost before = records_view(out@);
        if is_content {
            let content = string_of_range(line, 1, line.len());
            assert(content@ =~= line@.drop_first());
            let rec = BlameRecord {
                line_number,
                commit_sha: sha.clone(),
                author_name: author.clone(),
                author_email: email.clone(),
                author_secs: secs,
                content,
            };
            out.push(rec);
            assert(records_view(out@) =~= before.push(blame_record(st, line@)));
        } else {
            let mut header = line.len() >= 40;
            let mut k: usize = 0;
            while header && k < 40
                invariant
                    k <= 40,
                    header ==> line@.len() >= 40,
                    header ==> forall|j: int| 0 <= j < k ==> is_ascii_hex(#[trigger] line@[j]),
                    !header ==> !is_commit_header(line@),
                decreases 40 - k,
            {
                let c = line[k];
                if !(('0' <= c && c <= '9') || ('a' <= c && c <= 'f') || ('A' <= c && c <= 'F')) {
                    header = false;
                }
                k = k + 1;
            }
            if header {
                let words = words_chars(line);
                if words.len() >= 3 {
                    assert(words.deep_view()[0] == words@[0]@);
                    assert(words.deep_view()[2] == words@[2]@);
                    sha = string_of(&words[0]);
                    line_number = parse_usize_or_zero(&words[2]);
                }
            }
        }
        let ghost st1 = BlameState { sha: sha@, author: author@, email: email@, secs, line_number };
        proof {
            reveal_strlit("author ");
            reveal_strlit("author-mail ");
            reveal_strlit("author-time ");
        }
        assert(st1 == (if !is_content && is_commit_header(line@) { after_header(st, line@) } else { st }));
        if starts_with_str(line, "author ") {
            let rest = drop_chars(line, 7);
            author = string_of(&rest);
        } else if starts_with_str(line, "author-mail ") {
            let rest = drop_chars(line, 12);
            email = trim_angles_chars(&rest);
        } else if starts_with_str(line, "author-time ") {
            let rest = drop_chars(line, 12);
            match parse_i64_chars(&rest) {
                Some(x) => {
                    secs = Some(x);
                },
                None => {},
            }
        }
        i = i + 1;
    }
    assert(ls.take(lines.len() as int) =~= ls);
    out
}

/// The text shown for a blame line's author time: the RFC 3339 time, empty
/// when none was read.
pub open spec fn blame_date_text(secs: Option<i64>) -> Seq<char> {
    match secs {
        Some(s) => git_time_text(s),
        None => Seq::empty(),
    }
}

/// The lines of `git blame --line-porcelain` text, author times rendered as
/// RFC 3339. Reading never fails.
pub fn parse_blame_output(output: &str) -> (r: Result<Vec<BlameLine>, String>)
    ensures
        r matches Ok(v) && v@.len() == blame_run(lines_of(output@)).1.len() && forall|i: int|
            0 <= i < v@.len() ==> {
                let rec = #[trigger] blame_run(lines_of(output@)).1[i];
                &&& v@[i].line_number == rec.line_number
                &&& v@[i].commit_sha@ == rec.commit_sha
                &&& v@[i].author_name@ == rec.author_name
                &&& v@[i].author_email@ == rec.author_email
                &&& v@[i].author_date@ == blame_date_text(rec.author_secs)
                &&& v@[i].content@ == rec.content
            },
{
    let records = parse_blame_records(output);
    let ghost rs = records_view(records@);
    let mut out: Vec<BlameLine> = Vec::new();
    let mut i: usize = 0;
    while i < records.len()
        invariant
            i <= records.len(),
            rs == records_view(records@),
            out@.len() == i,
            forall|j: int|
                0 <= j < i ==> {
                    let rec = #[trigger] rs[j];
                    &&& out@[j].line_number == rec.line_number
                    &&& out@[j].commit_sha@ == rec.commit_sha
                    &&& out@[j].author_name@ == rec.author_name
                    &&& out@[j].author_email@ == rec.author_email
                    &&& out@[j].author_date@ == blame_date_text(rec.author_secs)
                    &&& out@[j].content@ == rec.content
                },
        decreases records.len() - i,
    {
        let rec = &records[i];
        assert(rs[i as int] == rec@);
        let date = match rec.author_secs {
            Some(s) => format_git_time(s),
            None => String::new(),
        };
        out.push(BlameLine {
            line_number: rec.line_number,
            commit_sha: rec.commit_sha.clone(),
            author_name: rec.author_name.clone(),
            author_email: rec.author_email.clone(),
            author_date: date,
            content: rec.content.clone(),
        });
        i = i + 1;
    }
    Ok(out)
}

/// The number of lines that start with a tab.
pub open spec fn tab_line_count(lines: Seq<Seq<char>>) -> nat
    decreases lines.len(),
{
    if lines.len() == 0 {
        0
    } else {
        tab_line_count(lines.drop_last()) + if lines.last().len() > 0 && lines.last()[0] == '\t' {
            1nat
        } else {
            0nat
        }
    }
}

/// Blame reading makes exactly one line per content line of the output,
/// so never more lines than the output has tab-prefixed lines.
pub proof fn law_blame_one_line_per_tab_line(lines: Seq<Seq<char>>)
    ensures
        blame_run(lines).1.len() == tab_line_count(lines),
    decreases lines.len(),
{
    if lines.len() > 0 {
        law_blame_one_line_per_tab_line(lines.drop_last());
    }
}

/// Every blame record's commit is empty (no header read yet) or the first
/// field of a header, which starts with 40 hexadecimal digits.
pub proof fn law_blame_commits_are_header_ids(lines: Seq<Seq<char>>)
    ensures
        ({
            let sha = blame_run(lines).0.sha;
            sha.len() == 0 || (sha.len() >= 40 && forall|i: int| 0 <= i < 40 ==> is_ascii_hex(#[trigger] sha[i]))
        }),
        forall|k: int|
            0 <= k < blame_run(lines).1.len() ==> {
                let sha = (#[trigger] blame_run(lines).1[k]).commit_sha;
                sha.len() == 0 || (sha.len() >= 40 && forall|i: int| 0 <= i < 40 ==> is_ascii_hex(#[trigger] sha[i]))
            },
    decreases lines.len(),
{
    if lines.len() > 0 {
        law_blame_commits_are_header_ids(lines.drop_last());
        let line = lines.last();
        let (st, out) = blame_run(lines.drop_last());
        if !(line.len() > 0 && line[0] == '\t') && is_commit_header(line) {
            lemma_first_word_of_header(line);
        }
    }
}

/// The first word of a commit header is the run of its leading
/// non-whitespace characters, which covers the 40 digits.
proof fn lemma_first_word_of_header(line: Seq<char>)
    requires
        is_commit_header(line),
    ensures
        words_of(line).len() >= 1,
        words_of(line)[0].len() >= 40,
        forall|i: int| 0 <= i < 40 ==> is_ascii_hex(#[trigger] words_of(line)[0][i]),
{
    assert forall|i: int| 0 <= i < 40 implies !is_whitespace(#[trigger] line[i]) by {
        assert(is_ascii_hex(line[i]));
    }
    lemma_words_prefix(line, 40);
    assert forall|i: int| 0 <= i < 40 implies is_ascii_hex(#[trigger] words_of(line)[0][i]) by {
        assert(words_of(line)[0][i] == line[i]);
        assert(is_ascii_hex(line[i]));
    }
}

/// The first word of `s`, when its first `n > 0` characters are not
/// whitespace, begins with them.
proof fn lemma_words_prefix(s: Seq<char>, n: int)
    requires
        0 < n <= s.len(),
        forall|i: int| 0 <= i < n ==> !is_whitespace(#[trigger] s[i]),
    ensures
        words_of(s).len() >= 1,
        words_of(s)[0].len() >= n,
        forall|i: int| 0 <= i < n ==> words_of(s)[0][i] == s[i],
    decreases s.len(),
{
    if s.len() == n {
        lemma_words_run(s);
    } else {
        let d = s.drop_last();
        assert forall|i: int| 0 <= i < n implies !is_whitespace(#[trigger] d[i]) by {
            assert(d[i] == s[i]);
        }
        lemma_words_prefix(d, n);
        let w = words_of(d);
        let c = s.last();
        if is_whitespace(c) {
        } else if s.len() >= 2 && !is_whitespace(s[s.len() - 2]) {
            if w.len() == 1 {
                assert(words_of(s)[0] == w[0].push(c));
            } else {
                assert(words_of(s)[0] == w[0]);
            }
        } else {
            assert(words_of(s)[0] == w[0]);
        }
        assert forall|i: int| 0 <= i < n implies words_of(s)[0][i] == s[i] by {
            assert(d[i] == s[i]);
        }
    }
}

/// A run without whitespace is one word.
proof fn lemma_words_run(s: Seq<char>)
    requires
        s.len() > 0,
        forall|i: int| 0 <= i < s.len() ==> !is_whitespace(#[trigger] s[i]),
    ensures
        words_of(s) == seq![s],
    decreases s.len(),
{
    assert(!is_whitespace(s[s.len() - 1]));
    if s.len() == 1 {
        assert(s.drop_last() =~= Seq::<char>::empty());
        assert(seq![s.last()] =~= s);
        assert(words_of(s.drop_last()) =~= Seq::<Seq<char>>::empty());
        assert(words_of(s) == Seq::<Seq<char>>::empty().push(seq![s.last()]));
        assert(Seq::<Seq<char>>::empty().push(seq![s.last()]) =~= seq![s]);
    } else {
        let d = s.drop_last();
        assert forall|i: int| 0 <= i < d.len() implies !is_whitespace(#[trigger] d[i]) by {
            assert(d[i] == s[i]);
        }
        lemma_words_run(d);
        assert(!is_whitespace(s[s.len() - 2]));
        assert(d.push(s.last()) =~= s);
        assert(seq![d].update(0, d.push(s.last())) =~= seq![s]);
    }
}


/// A branch as the browser lists it.
#[derive(Debug, Clone)]
pub struct Branch {
    pub name: String,
    pub sha: String,
    pub is_default: bool,
}

impl Branch {
    /// A copy of the branch.
    pub fn duplicate(&self) -> (r: Branch)
        ensures
            r == *self,
    {
        Branch { name: self.name.clone(), sha: self.sha.clone(), is_default: self.is_default }
    }
}

/// The listing key of a branch: the default branch first, then by name.
pub open spec fn branch_keys(v: Seq<Branch>) -> Seq<KeyView> {
    Seq::new(v.len(), |i: int| KeyView { group: if v[i].is_default { 0u8 } else { 1u8 }, text: v[i].name@ })
}

/// The branches in listing order: the default branch first, the others by
/// name; branches with equal keys keep their order.
pub fn sort_branches(branches: &Vec<Branch>) -> (r: Vec<Branch>)
    ensures
        r@.len() == branches@.len(),
        forall|i: int|
            0 <= i < r@.len() ==> #[trigger] r@[i] == branches@[sort_order(branch_keys(branches@), false, branches@.len())[i]],
{
    let mut groups: Vec<u8> = Vec::new();
    let mut texts: Vec<Vec<char>> = Vec::new();
    let mut i: usize = 0;
    while i < branches.len()
        invariant
            i <= branches.len(),
            groups@.len() == i,
            texts@.len() == i,
            forall|k: int| 0 <= k < i ==> (#[trigger] keys_of(groups@, texts.deep_view())[k]) == branch_keys(branches@)[k],
        decreases branches.len() - i,
    {
        let ghost g0 = groups@;
        let ghost d0 = texts.deep_view();
        groups.push(if branches[i].is_default { 0u8 } else { 1u8 });
        let t = chars_of(branches[i].name.as_str());
        push_piece(&mut texts, t);
        assert(texts.deep_view().len() == texts@.len());
        proof {
            assert forall|k: int| 0 <= k < i + 1 implies (#[trigger] keys_of(groups@, texts.deep_view())[k]) == branch_keys(branches@)[k] by {
                if k < i {
                    assert(keys_of(g0, d0)[k] == branch_keys(branches@)[k]);
                }
            }
        }
        i = i + 1;
    }
    assert(keys_of(groups@, texts.deep_view()) =~= branch_keys(branches@));
    let order = sort_positions(&groups, &texts, false);
    proof {
        crate::order::lemma_sort_order_len(branch_keys(branches@), false, branches@.len());
    }
    let mut out: Vec<Branch> = Vec::new();
    let mut k: usize = 0;
    while k < order.len()
        invariant
            k <= order.len(),
            order@.len() == branches@.len(),
            forall|t: int| 0 <= t < order@.len() ==> order@[t] as int == sort_order(branch_keys(branches@), false, branches@.len())[t],
            forall|t: int| 0 <= t < order@.len() ==> 0 <= #[trigger] sort_order(branch_keys(branches@), false, branches@.len())[t] < branches@.len(),
            out@.len() == k,
            forall|t: int|
                0 <= t < k ==> #[trigger] out@[t] == branches@[sort_order(branch_keys(branches@), false, branches@.len())[t]],
        decreases order.len() - k,
    {
        let idx = order[k];
        assert(0 <= sort_order(branch_keys(branches@), false, branches@.len())[k as int] < branches@.len());
        out.push(branches[idx].duplicate());
        k = k + 1;
    }
    out
}

/// An entry of a listed tree.
#[derive(Debug, Clone)]
pub struct TreeEntry {
    pub name: String,
    pub path: String,
    pub kind: String,
    pub sha: String,
    pub size: Option<u64>,
}

impl TreeEntry {
    /// A copy of the entry.
    pub fn duplicate(&self) -> (r: TreeEntry)
        ensures
            r == *self,
    {
        TreeEntry {
            name: self.name.clone(),
            path: self.path.clone(),
            kind: self.kind.clone(),
            sha: self.sha.clone(),
            size: self.size,
        }
    }
}

/// The listing key of a tree entry: directories first, then by lowercased
/// name.
pub open spec fn tree_entry_keys(v: Seq<TreeEntry>) -> Seq<KeyView> {
    Seq::new(
        v.len(),
        |i: int| KeyView { group: if v[i].kind@ == "directory"@ { 0u8 } else { 1u8 }, text: lowercase_text(v[i].name@) },
    )
}

/// The entries of a tree in listing order: directories first, then by
/// lowercased name; entries with equal keys keep their order.
pub fn sort_tree_entries(entries: &Vec<TreeEntry>) -> (r: Vec<TreeEntry>)
    ensures
        r@.len() == entries@.len(),
        forall|i: int|
            0 <= i < r@.len() ==> #[trigger] r@[i] == entries@[sort_order(tree_entry_keys(entries@), false, entries@.len())[i]],
{
    let mut groups: Vec<u8> = Vec::new();
    let mut texts: Vec<Vec<char>> = Vec::new();
    let mut i: usize = 0;
    while i < entries.len()
        invariant
            i <= entries.len(),
            groups@.len() == i,
            texts@.len() == i,
            forall|k: int| 0 <= k < i ==> (#[trigger] keys_of(groups@, texts.deep_view())[k]) == tree_entry_keys(entries@)[k],
        decreases entries.len() - i,
    {
        let ghost g0 = groups@;
        let ghost d0 = texts.deep_view();
        groups.push(if str_eq(entries[i].kind.as_str(), "directory") { 0u8 } else { 1u8 });
        let lower = to_lowercase(entries[i].name.as_str());
        let t = chars_of(lower.as_str());
        push_piece(&mut texts, t);
        assert(texts.deep_view().len() == texts@.len());
        proof {
            assert forall|k: int| 0 <= k < i + 1 implies (#[trigger] keys_of(groups@, texts.deep_view())[k]) == tree_entry_keys(entries@)[k] by {
                if k < i {
                    assert(keys_of(g0, d0)[k] == tree_entry_keys(entries@)[k]);
                }
            }
        }
        i = i + 1;
    }
    assert(keys_of(groups@, texts.deep_view()) =~= tree_entry_keys(entries@));
    let order = sort_positions(&groups, &texts, false);
    proof {
        crate::order::lemma_sort_order_len(tree_entry_keys(entries@), false, entries@.len());
    }
    let mut out: Vec<TreeEntry> = Vec::new();
    let mut k: usize = 0;
    while k < order.len()
        invariant
            k <= order.len(),
            order@.len() == entries@.len(),
            forall|t: int| 0 <= t < order@.len() ==> order@[t] as int == sort_order(tree_entry_keys(entries@), false, entries@.len())[t],
            forall|t: int| 0 <= t < order@.len() ==> 0 <= #[trigger] sort_order(tree_entry_keys(entries@), false, entries@.len())[t] < entries@.len(),
            out@.len() == k,
            forall|t: int|
                0 <= t < k ==> #[trigger] out@[t] == entries@[sort_order(tree_entry_keys(entries@), false, entries@.len())[t]],
        decreases order.len() - k,
    {
        let idx = order[k];
        assert(0 <= sort_order(tree_entry_keys(entries@), false, entries@.len())[k as int] < entries@.len());
        out.push(entries[idx].duplicate());
        k = k + 1;
    }
    out
}

/// The query of a commit listing: page size, offset and path filter.
#[derive(Debug, Clone)]
pub struct ListCommitsParams {
    pub limit: Option<usize>,
    pub offset: Option<usize>,
    pub path: Option<String>,
}

/// A page of commits and the number of commits in the whole history.
#[derive(Debug, Clone)]
pub struct ListCommitsResponse {
    pub commits: Vec<CommitInfo>,
    pub total: usize,
}

/// The comparison of two refs: the commits of `head` not in `base`, their
/// diff, and how far each side is ahead of the other.
#[derive(Debug, Clone)]
pub struct CompareResult {
    pub base_ref: String,
    pub head_ref: String,
    pub commits: Vec<CommitInfo>,
    pub diff: String,
    pub ahead_by: usize,
    pub behind_by: usize,
}

} // verus!
