//! Agent sessions and the local git views of a session's workspace: parsing
//! of `git status --porcelain=v1`, `git diff --numstat` and
//! `git log --format=%H%x00%s%x00%an%x00%at`, and assembling their results.
//!
//! Running git is the caller's I/O; these functions take its output bytes.
use vstd::prelude::*;
use vstd::hash_map::StringHashMap;
use crate::agent_state::AgentStateKind;
use crate::sys::{new_uuid_v4_string, utf8_lossy, utf8_lossy_text};
use crate::text::{
    after_last, chars_of, rfind_pos, char_len_utf8, char_utf8_len, concat2, has_prefix, lines_chars, lines_of, rfind_char,
    string_of, string_of_range, string_of_str, utf8_len, split_on, split_chars, parse_signed,
    parse_i32_chars, parse_i64_chars, trim, trim_chars,
};

verus! {

/// Supported agent harnesses.
#[derive(Debug, Clone, Copy, PartialEq, Eq, Structural)]
pub enum AgentHarness {
    ClaudeCode,
    OpenCode,
}

/// Coarse status of a session for the UI.
#[derive(Debug, Clone, Copy, PartialEq, Eq, Structural)]
pub enum SessionStatus {
    Running,
    Idle,
    Stopped,
}

/// An agent session.
#[derive(Debug, Clone)]
pub struct AgentSession {
    pub id: String,
    pub name: String,
    pub harness: AgentHarness,
    pub project_path: String,
    pub status: SessionStatus,
    /// Current state-machine state of the session.
    pub agent_state: AgentStateKind,
}

/// The UI status that a state-machine state maps to: idle before the agent
/// has started, stopped once it has stopped, running otherwise.
pub open spec fn spec_status_for_kind(kind: AgentStateKind) -> SessionStatus {
    match kind {
        AgentStateKind::Idle | AgentStateKind::Starting => SessionStatus::Idle,
        AgentStateKind::Stopped => SessionStatus::Stopped,
        _ => SessionStatus::Running,
    }
}

/// The UI status for a state-machine state.
pub fn session_status_for_kind(kind: AgentStateKind) -> (r: SessionStatus)
    ensures
        r == spec_status_for_kind(kind),
{
    match kind {
        AgentStateKind::Idle | AgentStateKind::Starting => SessionStatus::Idle,
        AgentStateKind::Stopped => SessionStatus::Stopped,
        _ => SessionStatus::Running,
    }
}

/// Bring a session's summary in line with its state-machine state.
pub fn sync_session_summary(session: &mut AgentSession, kind: AgentStateKind)
    ensures
        final(session).agent_state == kind,
        final(session).status == spec_status_for_kind(kind),
        final(session).id == old(session).id,
        final(session).name == old(session).name,
        final(session).harness == old(session).harness,
        final(session).project_path == old(session).project_path,
{
    session.agent_state = kind;
    session.status = session_status_for_kind(kind);
}

/// The display name of a session: the last `/`-separated part of its
/// project path.
pub fn session_name_for_path(project_path: &str) -> (r: String)
    ensures
        r@ == after_last(project_path@, '/'),
{
    let v = chars_of(project_path);
    let start = match rfind_pos(&v, '/') {
        Some(i) => i + 1,
        None => 0,
    };
    proof {
        if start == 0 {
            assert(v@.subrange(0, v@.len() as int) =~= v@);
        }
    }
    string_of_range(&v, start, v.len())
}

/// Start a session for a project: id `sess_<uuid>`, named after the project
/// directory, its state machine started.
pub fn spawn_session(harness: AgentHarness, project_path: String) -> (r: AgentSession)
    ensures
        has_prefix(r.id@, "sess_"@),
        r.id@.len() == ("sess_"@).len() + 36,
        crate::sys::is_v4_uuid_text(r.id@.subrange(("sess_"@).len() as int, r.id@.len() as int)),
        r.name@ == after_last(project_path@, '/'),
        r.harness == harness,
        r.project_path == project_path,
        r.agent_state == AgentStateKind::Starting,
        r.status == SessionStatus::Idle,
{
    let name = session_name_for_path(project_path.as_str());
    let uuid = new_uuid_v4_string();
    let id = concat2("sess_", uuid.as_str());
    assert(id@.subrange(0, ("sess_"@).len() as int) =~= "sess_"@);
    AgentSession {
        id,
        name,
        harness,
        project_path,
        status: session_status_for_kind(AgentStateKind::Starting),
        agent_state: AgentStateKind::Starting,
    }
}

/// Status of one changed file.
#[derive(Debug, Clone)]
pub struct GitFileStatus {
    pub path: String,
    pub status: String,
    pub additions: i32,
    pub deletions: i32,
}

/// The diff of one file.
#[derive(Debug, Clone)]
pub struct GitFileDiff {
    pub path: String,
    pub diff: String,
}

/// One commit of the log.
#[derive(Debug, Clone)]
pub struct GitLogEntry {
    pub sha: String,
    pub summary: String,
    pub author: String,
    pub timestamp: i64,
}

/// The log of a workspace with its upstream tracking state.
#[derive(Debug, Clone)]
pub struct GitLogResponse {
    pub total: i32,
    pub entries: Vec<GitLogEntry>,
    pub ahead: i32,
    pub behind: i32,
    pub ahead_entries: Vec<GitLogEntry>,
    pub behind_entries: Vec<GitLogEntry>,
    pub upstream: Option<String>,
}

/// The status of a workspace.
#[derive(Debug, Clone)]
pub struct GitStatus {
    pub branch_name: String,
    pub files: Vec<GitFileStatus>,
    pub staged_files: Vec<GitFileStatus>,
    pub unstaged_files: Vec<GitFileStatus>,
    pub total_additions: i32,
    pub total_deletions: i32,
}

/// A file status as plain values: path, status, additions, deletions.
pub open spec fn fview(f: GitFileStatus) -> (Seq<char>, Seq<char>, i32, i32) {
    (f.path@, f.status@, f.additions, f.deletions)
}

/// The plain values of a list of file statuses.
pub open spec fn fviews(v: Seq<GitFileStatus>) -> Seq<(Seq<char>, Seq<char>, i32, i32)> {
    v.map_values(|f: GitFileStatus| fview(f))
}

/// The name of a porcelain status letter.
pub open spec fn status_name(c: char) -> Seq<char> {
    if c == 'M' {
        "modified"@
    } else if c == 'A' {
        "added"@
    } else if c == 'D' {
        "deleted"@
    } else if c == 'R' {
        "renamed"@
    } else if c == 'C' {
        "copied"@
    } else if c == 'U' {
        "unmerged"@
    } else if c == '?' {
        "untracked"@
    } else {
        "unknown"@
    }
}

/// The name of a porcelain status letter.
pub fn status_char_to_string(c: char) -> (r: String)
    ensures
        r@ == status_name(c),
{
    let s = if c == 'M' {
        "modified"
    } else if c == 'A' {
        "added"
    } else if c == 'D' {
        "deleted"
    } else if c == 'R' {
        "renamed"
    } else if c == 'C' {
        "copied"
    } else if c == 'U' {
        "unmerged"
    } else if c == '?' {
        "untracked"
    } else {
        "unknown"
    };
    string_of_str(s)
}

/// Whether byte offset `b` of the UTF-8 form of `s` starts a character.
pub open spec fn is_boundary(s: Seq<char>, b: nat) -> bool {
    exists|k: int| 0 <= k <= s.len() && #[trigger] utf8_len(s.take(k)) == b
}

/// The character index at byte offset `b` (meaningful when it is a
/// boundary).
pub open spec fn char_index_of_byte(s: Seq<char>, b: nat) -> int {
    choose|k: int| 0 <= k <= s.len() && #[trigger] utf8_len(s.take(k)) == b
}

/// Byte lengths of prefixes grow with every character.
pub proof fn lemma_utf8_len_take_step(s: Seq<char>, k: int)
    requires
        0 <= k < s.len(),
    ensures
        utf8_len(s.take(k + 1)) == utf8_len(s.take(k)) + char_utf8_len(s[k]),
{
    assert(s.take(k + 1).drop_last() =~= s.take(k));
}

/// Byte lengths of prefixes are strictly increasing.
pub proof fn lemma_utf8_len_take_mono(s: Seq<char>, j: int, k: int)
    requires
        0 <= j < k <= s.len(),
    ensures
        utf8_len(s.take(j)) < utf8_len(s.take(k)),
    decreases k - j,
{
    lemma_utf8_len_take_step(s, k - 1);
    if j < k - 1 {
        lemma_utf8_len_take_mono(s, j, k - 1);
    }
}

/// The character index at byte offset `b`, when `b` starts a character
/// (the check that `str` slicing makes).
pub fn byte_to_char_index(v: &Vec<char>, b: usize) -> (r: Option<usize>)
    requires
        b < usize::MAX - 4,
    ensures
        r is Some <==> is_boundary(v@, b as nat),
        r matches Some(k) ==> k == char_index_of_byte(v@, b as nat) && k <= v@.len()
            && utf8_len(v@.take(k as int)) == b,
{
    let mut k: usize = 0;
    let mut acc: usize = 0;
    while k < v.len() && acc < b
        invariant
            k <= v.len(),
            acc == utf8_len(v@.take(k as int)),
            acc <= b + 4,
            b < usize::MAX - 4,
            k > 0 ==> utf8_len(v@.take(k - 1)) < b,
        decreases v.len() - k,
    {
        proof {
            lemma_utf8_len_take_step(v@, k as int);
        }
        acc = acc + char_len_utf8(v[k]);
        k = k + 1;
    }
    if acc == b {
        proof {
            let c = char_index_of_byte(v@, b as nat);
            assert(utf8_len(v@.take(k as int)) == b);
            if c != k as int {
                if c < k {
                    lemma_utf8_len_take_mono(v@, c, k as int);
                } else {
                    lemma_utf8_len_take_mono(v@, k as int, c);
                }
            }
        }
        Some(k)
    } else {
        proof {
            if is_boundary(v@, b as nat) {
                let c = choose|c: int| 0 <= c <= v@.len() && #[trigger] utf8_len(v@.take(c)) == b;
                if acc < b {
                    assert(k == v.len());
                    if c < k {
                        lemma_utf8_len_take_mono(v@, c, k as int);
                    }
                    assert(c <= k);
                } else {
                    if c < k {
                        lemma_utf8_len_take_mono(v@, c, k as int);
                        assert(k > 0);
                        if c < k - 1 {
                            lemma_utf8_len_take_mono(v@, c, k - 1);
                        }
                        lemma_utf8_len_take_step(v@, k - 1);
                    } else if c > k {
                        lemma_utf8_len_take_mono(v@, k as int, c);
                    }
                }
            }
        }
        None
    }
}

/// Whether a porcelain line can be sliced at byte 3 (always the case when
/// its status columns are ASCII, as git writes them).
pub open spec fn porcelain_line_ok(l: Seq<char>) -> bool {
    utf8_len(l) >= 3 ==> is_boundary(l, 3)
}

/// Whether every line of a porcelain text can be sliced at byte 3.
pub open spec fn porcelain_text_ok(text: Seq<char>) -> bool {
    forall|i: int| 0 <= i < lines_of(text).len() ==> porcelain_line_ok(#[trigger] lines_of(text)[i])
}

/// The worktree column of a porcelain line, `' '` when missing.
pub open spec fn worktree_col(l: Seq<char>) -> char {
    if l.len() > 1 { l[1] } else { ' ' }
}

/// The path of a porcelain line: what follows byte 3.
pub open spec fn porcelain_path(l: Seq<char>) -> Seq<char> {
    l.subrange(char_index_of_byte(l, 3), l.len() as int)
}

/// The staged entry of a porcelain line, if it has one: the index column
/// holds a change.
pub open spec fn staged_entry(l: Seq<char>) -> Option<(Seq<char>, Seq<char>, i32, i32)> {
    if utf8_len(l) < 3 || l[0] == ' ' || l[0] == '?' {
        None
    } else {
        Some((porcelain_path(l), status_name(l[0]), 0i32, 0i32))
    }
}

/// The unstaged entry of a porcelain line, if it has one: the worktree
/// column holds a change, or the file is untracked.
pub open spec fn unstaged_entry(l: Seq<char>) -> Option<(Seq<char>, Seq<char>, i32, i32)> {
    if utf8_len(l) < 3 || worktree_col(l) == ' ' {
        None
    } else {
        Some((
            porcelain_path(l),
            if l[0] == '?' { "untracked"@ } else { status_name(worktree_col(l)) },
            0i32,
            0i32,
        ))
    }
}

/// A porcelain line `XY <path>` with ASCII status letters: the file is
/// staged, under the index letter's name, exactly when `X` is neither a
/// space nor `?`; it is unstaged, under the worktree letter's name (or as
/// untracked for `??`), exactly when `Y` is not a space; either way with
/// the path after the two letters and the space, and no line counts yet.
/// `M`, `A` and `D` name a modified, added and deleted file.
pub proof fn law_porcelain_line_entries(x: char, y: char, path: Seq<char>)
    requires
        (x as u32) < 0x80,
        (y as u32) < 0x80,
    ensures
        staged_entry(seq![x, y, ' '] + path) == if x == ' ' || x == '?' {
            None
        } else {
            Some((path, status_name(x), 0i32, 0i32))
        },
        unstaged_entry(seq![x, y, ' '] + path) == if y == ' ' {
            None
        } else {
            Some((path, if x == '?' { "untracked"@ } else { status_name(y) }, 0i32, 0i32))
        },
        status_name('M') == "modified"@,
        status_name('A') == "added"@,
        status_name('D') == "deleted"@,
{
    let l = seq![x, y, ' '] + path;
    assert(l.take(3) =~= seq![x, y, ' ']);
    let s1 = seq![x];
    let s2 = seq![x, y];
    let s3 = seq![x, y, ' '];
    assert(utf8_len(Seq::<char>::empty()) == 0);
    assert(s1.drop_last() =~= Seq::<char>::empty());
    assert(s1.last() == x);
    assert(char_utf8_len(x) == 1);
    assert(utf8_len(s1) == 1);
    assert(s2.drop_last() =~= s1);
    assert(s2.last() == y);
    assert(char_utf8_len(y) == 1);
    assert(utf8_len(s2) == 2);
    assert(s3.drop_last() =~= s2);
    assert(s3.last() == ' ');
    assert(utf8_len(s3) == 3);
    assert(utf8_len(l.take(3)) == 3);
    assert forall|k: int| 0 <= k <= l.len() && #[trigger] utf8_len(l.take(k)) == 3 implies k == 3 by {
        if k < 3 {
            lemma_utf8_len_take_mono(l, k, 3);
        } else if k > 3 {
            lemma_utf8_len_take_mono(l, 3, k);
        }
    }
    assert(char_index_of_byte(l, 3) == 3);
    if l.len() > 3 {
        lemma_utf8_len_take_mono(l, 3, l.len() as int);
    }
    assert(l.take(l.len() as int) =~= l);
    assert(utf8_len(l) >= 3);
    assert(porcelain_path(l) =~= path);
    assert(worktree_col(l) == y);
}

/// The staged entries of porcelain lines, in order.
pub open spec fn porcelain_staged(ls: Seq<Seq<char>>) -> Seq<(Seq<char>, Seq<char>, i32, i32)>
    decreases ls.len(),
{
    if ls.len() == 0 {
        Seq::empty()
    } else {
        let prev = porcelain_staged(ls.drop_last());
        match staged_entry(ls.last()) {
            Some(e) => prev.push(e),
            None => prev,
        }
    }
}

/// The unstaged entries of porcelain lines, in order.
pub open spec fn porcelain_unstaged(ls: Seq<Seq<char>>) -> Seq<(Seq<char>, Seq<char>, i32, i32)>
    decreases ls.len(),
{
    if ls.len() == 0 {
        Seq::empty()
    } else {
        let prev = porcelain_unstaged(ls.drop_last());
        match unstaged_entry(ls.last()) {
            Some(e) => prev.push(e),
            None => prev,
        }
    }
}

/// Split `git status --porcelain=v1` text into staged and unstaged files.
pub fn parse_porcelain_text(text: &str) -> (r: (Vec<GitFileStatus>, Vec<GitFileStatus>))
    requires
        porcelain_text_ok(text@),
    ensures
        fviews(r.0@) == porcelain_staged(lines_of(text@)),
        fviews(r.1@) == porcelain_unstaged(lines_of(text@)),
{
    let v = chars_of(text);
    let lines = lines_chars(&v);
    let ghost ls = lines_of(text@);
    let mut staged: Vec<GitFileStatus> = Vec::new();
    let mut unstaged: Vec<GitFileStatus> = Vec::new();
    let mut i: usize = 0;
    while i < lines.len()
        invariant
            i <= lines.len(),
            lines.deep_view() == ls,
            ls == lines_of(text@),
            porcelain_text_ok(text@),
            fviews(staged@) == porcelain_staged(ls.take(i as int)),
            fviews(unstaged@) == porcelain_unstaged(ls.take(i as int)),
        decreases lines.len() - i,
    {
        let l = &lines[i];
        assert(l@ == ls[i as int]) by {
            assert(lines.deep_view()[i as int] == lines@[i as int].deep_view());
            assert(lines@[i as int].deep_view() =~= lines@[i as int]@);
        }
        assert(ls.take(i + 1).drop_last() =~= ls.take(i as int));
        assert(porcelain_line_ok(ls[i as int]));
        let ghost old_s = staged@;
        let ghost old_u = unstaged@;
        let bl = byte_len_at_least(l, 3);
        if bl {
            let k = match byte_to_char_index(l, 3) {
                Some(k) => k,
                None => {
                    assert(false);
                    0
                },
            };
            let idx = l[0];
            let wt = if l.len() > 1 { l[1] } else { ' ' };
            if idx != ' ' && idx != '?' {
                let f = GitFileStatus {
                    path: string_of_range(l, k, l.len()),
                    status: status_char_to_string(idx),
                    additions: 0,
                    deletions: 0,
                };
                staged.push(f);
            }
            if wt != ' ' {
                let st = if idx == '?' { string_of_str("untracked") } else { status_char_to_string(wt) };
                let f = GitFileStatus {
                    path: string_of_range(l, k, l.len()),
                    status: st,
                    additions: 0,
                    deletions: 0,
                };
                unstaged.push(f);
            }
        }
        assert(fviews(staged@) =~= porcelain_staged(ls.take(i + 1)));
        assert(fviews(unstaged@) =~= porcelain_unstaged(ls.take(i + 1)));
        i = i + 1;
    }
    assert(ls.take(lines.len() as int) =~= ls);
    (staged, unstaged)
}

/// Whether the UTF-8 form of `v` has at least `n` bytes.
pub fn byte_len_at_least(v: &Vec<char>, n: usize) -> (r: bool)
    requires
        n < usize::MAX - 4,
    ensures
        r == (utf8_len(v@) >= n),
{
    let mut k: usize = 0;
    let mut acc: usize = 0;
    while k < v.len() && acc < n
        invariant
            k <= v.len(),
            acc == utf8_len(v@.take(k as int)),
            n < usize::MAX - 4,
            acc <= n + 4,
        decreases v.len() - k,
    {
        proof {
            lemma_utf8_len_take_step(v@, k as int);
        }
        acc = acc + char_len_utf8(v[k]);
        k = k + 1;
    }
    proof {
        if k < v.len() {
            lemma_utf8_len_take_mono(v@, k as int, v.len() as int);
        }
        assert(v@.take(v.len() as int) =~= v@);
    }
    acc >= n
}

/// Split `git status --porcelain=v1` output into staged and unstaged files.
/// X = index (staged) column, Y = worktree (unstaged) column, then the path
/// after byte 3.
pub fn parse_porcelain_status(output: &[u8]) -> (r: (Vec<GitFileStatus>, Vec<GitFileStatus>))
    requires
        porcelain_text_ok(utf8_lossy_text(output@)),
    ensures
        fviews(r.0@) == porcelain_staged(lines_of(utf8_lossy_text(output@))),
        fviews(r.1@) == porcelain_unstaged(lines_of(utf8_lossy_text(output@))),
{
    let text = utf8_lossy(output);
    parse_porcelain_text(text.as_str())
}

/// Whether every line of `text` can be sliced at byte 3.
pub fn porcelain_text_is_ok(text: &str) -> (r: bool)
    ensures
        r == porcelain_text_ok(text@),
{
    let v = chars_of(text);
    let lines = lines_chars(&v);
    let ghost ls = lines_of(text@);
    let mut i: usize = 0;
    while i < lines.len()
        invariant
            i <= lines.len(),
            lines.deep_view() == ls,
            ls == lines_of(text@),
            forall|j: int| 0 <= j < i ==> porcelain_line_ok(#[trigger] ls[j]),
        decreases lines.len() - i,
    {
        let l = &lines[i];
        assert(l@ == ls[i as int]) by {
            assert(lines.deep_view()[i as int] == lines@[i as int].deep_view());
            assert(lines@[i as int].deep_view() =~= lines@[i as int]@);
        }
        if byte_len_at_least(l, 3) {
            if byte_to_char_index(l, 3).is_none() {
                return false;
            }
        }
        i = i + 1;
    }
    true
}

/// `parse_porcelain_status` for any output: `None` when a line cannot be
/// sliced at byte 3 (where slicing would panic).
pub fn try_parse_porcelain_status(output: &[u8]) -> (r: Option<(Vec<GitFileStatus>, Vec<GitFileStatus>)>)
    ensures
        r is Some <==> porcelain_text_ok(utf8_lossy_text(output@)),
        r matches Some(p) ==> fviews(p.0@) == porcelain_staged(lines_of(utf8_lossy_text(output@)))
            && fviews(p.1@) == porcelain_unstaged(lines_of(utf8_lossy_text(output@))),
{
    let text = utf8_lossy(output);
    if porcelain_text_is_ok(text.as_str()) {
        Some(parse_porcelain_status(output))
    } else {
        None
    }
}

} // verus!

verus! {

/// An `i32` read as `str::parse::<i32>().unwrap_or(0)` reads it.
pub open spec fn i32_or_zero(s: Seq<char>) -> i32 {
    match parse_signed(s) {
        Some(x) => if i32::MIN <= x <= i32::MAX { x as i32 } else { 0i32 },
        None => 0i32,
    }
}

/// An `i64` read as `str::parse::<i64>().unwrap_or(0)` reads it.
pub open spec fn i64_or_zero(s: Seq<char>) -> i64 {
    match parse_signed(s) {
        Some(x) => if i64::MIN <= x <= i64::MAX { x as i64 } else { 0i64 },
        None => 0i64,
    }
}

/// `str::parse::<i32>().unwrap_or(0)`.
pub fn parse_i32_or_zero(v: &Vec<char>) -> (r: i32)
    ensures
        r == i32_or_zero(v@),
{
    match parse_i32_chars(v) {
        Some(x) => x,
        None => 0,
    }
}

/// `str::parse::<i64>().unwrap_or(0)`.
pub fn parse_i64_or_zero(v: &Vec<char>) -> (r: i64)
    ensures
        r == i64_or_zero(v@),
{
    match parse_i64_chars(v) {
        Some(x) => x,
        None => 0,
    }
}

/// The fields of a `--numstat` line with at least three tab-separated
/// fields: path, additions, deletions (a field that is not a number, such as
/// `-` for binary files, counts as 0).
pub open spec fn numstat_fields(l: Seq<char>) -> Option<(Seq<char>, (i32, i32))> {
    let parts = split_on(l, '\t');
    if parts.len() >= 3 {
        Some((parts[2], (i32_or_zero(parts[0]), i32_or_zero(parts[1]))))
    } else {
        None
    }
}

/// The additions and deletions by path of `--numstat` lines; a later line
/// for the same path wins.
pub open spec fn numstat_map(ls: Seq<Seq<char>>) -> Map<Seq<char>, (i32, i32)>
    decreases ls.len(),
{
    if ls.len() == 0 {
        Map::empty()
    } else {
        let prev = numstat_map(ls.drop_last());
        match numstat_fields(ls.last()) {
            Some((path, counts)) => prev.insert(path, counts),
            None => prev,
        }
    }
}

/// Parse `git diff --numstat` text into additions and deletions by path.
pub fn parse_numstat_text(text: &str) -> (r: StringHashMap<(i32, i32)>)
    ensures
        r@ == numstat_map(lines_of(text@)),
{
    let v = chars_of(text);
    let lines = lines_chars(&v);
    let ghost ls = lines_of(text@);
    let mut stats: StringHashMap<(i32, i32)> = StringHashMap::new();
    let mut i: usize = 0;
    while i < lines.len()
        invariant
            i <= lines.len(),
            lines.deep_view() == ls,
            stats@ == numstat_map(ls.take(i as int)),
        decreases lines.len() - i,
    {
        let l = &lines[i];
        assert(l@ == ls[i as int]) by {
            assert(lines.deep_view()[i as int] == lines@[i as int].deep_view());
            assert(lines@[i as int].deep_view() =~= lines@[i as int]@);
        }
        assert(ls.take(i + 1).drop_last() =~= ls.take(i as int));
        let parts = split_chars(l, '\t');
        if parts.len() >= 3 {
            proof {
                assert(parts.deep_view()[0] =~= parts@[0]@);
                assert(parts.deep_view()[1] =~= parts@[1]@);
                assert(parts.deep_view()[2] =~= parts@[2]@);
            }
            let additions = parse_i32_or_zero(&parts[0]);
            let deletions = parse_i32_or_zero(&parts[1]);
            let path = string_of(&parts[2]);
            stats.insert(path, (additions, deletions));
        }
        i = i + 1;
    }
    assert(ls.take(lines.len() as int) =~= ls);
    stats
}

/// Parse `git diff --numstat` output into additions and deletions by path.
pub fn parse_numstat(output: &[u8]) -> (r: StringHashMap<(i32, i32)>)
    ensures
        r@ == numstat_map(lines_of(utf8_lossy_text(output@))),
{
    let text = utf8_lossy(output);
    parse_numstat_text(text.as_str())
}

/// A log entry as plain values.
pub open spec fn lview(e: GitLogEntry) -> (Seq<char>, Seq<char>, Seq<char>, i64) {
    (e.sha@, e.summary@, e.author@, e.timestamp)
}

/// The entry of a log line with at least four NUL-separated fields: sha,
/// summary, author, timestamp (0 when not a number).
pub open spec fn log_fields(l: Seq<char>) -> Option<(Seq<char>, Seq<char>, Seq<char>, i64)> {
    let parts = split_on(l, '\0');
    if parts.len() >= 4 {
        Some((parts[0], parts[1], parts[2], i64_or_zero(parts[3])))
    } else {
        None
    }
}

/// The entries of log lines, in order.
pub open spec fn log_entries(ls: Seq<Seq<char>>) -> Seq<(Seq<char>, Seq<char>, Seq<char>, i64)>
    decreases ls.len(),
{
    if ls.len() == 0 {
        Seq::empty()
    } else {
        let prev = log_entries(ls.drop_last());
        match log_fields(ls.last()) {
            Some(e) => prev.push(e),
            None => prev,
        }
    }
}

/// Parse log text with NUL-separated fields (`%H%x00%s%x00%an%x00%at`).
pub fn parse_log_text(text: &str) -> (r: Vec<GitLogEntry>)
    ensures
        r@.map_values(|e: GitLogEntry| lview(e)) == log_entries(lines_of(text@)),
{
    let v = chars_of(text);
    let lines = lines_chars(&v);
    let ghost ls = lines_of(text@);
    let mut entries: Vec<GitLogEntry> = Vec::new();
    let mut i: usize = 0;
    while i < lines.len()
        invariant
            i <= lines.len(),
            lines.deep_view() == ls,
            entries@.map_values(|e: GitLogEntry| lview(e)) == log_entries(ls.take(i as int)),
        decreases lines.len() - i,
    {
        let l = &lines[i];
        assert(l@ == ls[i as int]) by {
            assert(lines.deep_view()[i as int] == lines@[i as int].deep_view());
            assert(lines@[i as int].deep_view() =~= lines@[i as int]@);
        }
        assert(ls.take(i + 1).drop_last() =~= ls.take(i as int));
        let parts = split_chars(l, '\0');
        if parts.len() >= 4 {
            proof {
                assert(parts.deep_view()[0] =~= parts@[0]@);
                assert(parts.deep_view()[1] =~= parts@[1]@);
                assert(parts.deep_view()[2] =~= parts@[2]@);
                assert(parts.deep_view()[3] =~= parts@[3]@);
            }
            let e = GitLogEntry {
                sha: string_of(&parts[0]),
                summary: string_of(&parts[1]),
                author: string_of(&parts[2]),
                timestamp: parse_i64_or_zero(&parts[3]),
            };
            entries.push(e);
        }
        assert(entries@.map_values(|e: GitLogEntry| lview(e)) =~= log_entries(ls.take(i + 1)));
        i = i + 1;
    }
    assert(ls.take(lines.len() as int) =~= ls);
    entries
}

/// Parse `git log` output with NUL-separated fields.
pub fn parse_log_output(output: &[u8]) -> (r: Vec<GitLogEntry>)
    ensures
        r@.map_values(|e: GitLogEntry| lview(e)) == log_entries(lines_of(utf8_lossy_text(output@))),
{
    let text = utf8_lossy(output);
    parse_log_text(text.as_str())
}

/// The upstream branch named by `git rev-parse --abbrev-ref @{upstream}`
/// output: its trimmed text, `None` when empty.
pub fn parse_upstream_name(output: &[u8]) -> (r: Option<String>)
    ensures
        r is None <==> trim(utf8_lossy_text(output@)).len() == 0,
        r matches Some(s) ==> s@ == trim(utf8_lossy_text(output@)),
{
    let text = utf8_lossy(output);
    let v = chars_of(text.as_str());
    let t = trim_chars(&v);
    if t.len() == 0 {
        None
    } else {
        Some(string_of(&t))
    }
}

/// The ahead and behind counts of `git rev-list --left-right --count`
/// text: exactly two tab-separated numbers after trimming (a field that is
/// not a number counts as 0), `(0, 0)` otherwise.
pub open spec fn ahead_behind_of(text: Seq<char>) -> (i32, i32) {
    let parts = split_on(trim(text), '\t');
    if parts.len() == 2 {
        (i32_or_zero(parts[0]), i32_or_zero(parts[1]))
    } else {
        (0i32, 0i32)
    }
}

/// Decimal digits that fit in `i32` are read as their value.
proof fn lemma_decimal_i32(a: Seq<char>)
    requires
        crate::text::all_digits(a),
        crate::text::digits_value(a) <= i32::MAX,
    ensures
        i32_or_zero(a) == crate::text::digits_value(a),
{
    assert(crate::text::is_digit(a[0]));
    crate::text::lemma_digits_value_nonneg(a);
}

/// Decimal digits that fit in `i64` are read as their value.
proof fn lemma_decimal_i64(a: Seq<char>)
    requires
        crate::text::all_digits(a),
        crate::text::digits_value(a) <= i64::MAX,
    ensures
        i64_or_zero(a) == crate::text::digits_value(a),
{
    assert(crate::text::is_digit(a[0]));
    crate::text::lemma_digits_value_nonneg(a);
}

/// Text without `c` splits at `c` into itself, and `x c y` into the pieces
/// of `x` and of `y`.
proof fn lemma_split_pieces3(x: Seq<char>, y: Seq<char>, z: Seq<char>, c: char)
    requires
        forall|i: int| 0 <= i < x.len() ==> x[i] != c,
        forall|i: int| 0 <= i < y.len() ==> y[i] != c,
    ensures
        split_on(x + seq![c] + y + seq![c] + z, c) == seq![x, y] + split_on(z, c),
{
    crate::text::lemma_split_concat(x, y + seq![c] + z, c);
    crate::text::lemma_split_concat(y, z, c);
    crate::text::lemma_split_no_sep(x, c);
    crate::text::lemma_split_no_sep(y, c);
    assert(x + seq![c] + y + seq![c] + z =~= x + seq![c] + (y + seq![c] + z));
    assert(seq![x] + (seq![y] + split_on(z, c)) =~= seq![x, y] + split_on(z, c));
}

/// A `--numstat` line `<added>\t<deleted>\t<path>`, with decimal counts
/// that fit in `i32` and a path without tabs, gives the path with its
/// additions first and its deletions second.
pub proof fn law_numstat_line_fields(added: Seq<char>, deleted: Seq<char>, path: Seq<char>)
    requires
        crate::text::all_digits(added),
        crate::text::all_digits(deleted),
        crate::text::digits_value(added) <= i32::MAX,
        crate::text::digits_value(deleted) <= i32::MAX,
        forall|i: int| 0 <= i < path.len() ==> path[i] != '\t',
    ensures
        numstat_fields(added + seq!['\t'] + deleted + seq!['\t'] + path) == Some(
            (path, (crate::text::digits_value(added) as i32, crate::text::digits_value(deleted) as i32)),
        ),
{
    assert forall|i: int| 0 <= i < added.len() implies added[i] != '\t' by {
        assert(crate::text::is_digit(added[i]));
    }
    assert forall|i: int| 0 <= i < deleted.len() implies deleted[i] != '\t' by {
        assert(crate::text::is_digit(deleted[i]));
    }
    lemma_split_pieces3(added, deleted, path, '\t');
    crate::text::lemma_split_no_sep(path, '\t');
    assert(seq![added, deleted] + seq![path] =~= seq![added, deleted, path]);
    lemma_decimal_i32(added);
    lemma_decimal_i32(deleted);
}

/// A log line `<sha>\0<subject>\0<author>\0<time>`, whose first three
/// fields hold no NUL and whose time is decimal and fits in `i64`, gives
/// the sha, subject, author and time in that order.
pub proof fn law_log_line_fields(sha: Seq<char>, subject: Seq<char>, author: Seq<char>, time: Seq<char>)
    requires
        forall|i: int| 0 <= i < sha.len() ==> sha[i] != '\0',
        forall|i: int| 0 <= i < subject.len() ==> subject[i] != '\0',
        forall|i: int| 0 <= i < author.len() ==> author[i] != '\0',
        crate::text::all_digits(time),
        crate::text::digits_value(time) <= i64::MAX,
    ensures
        log_fields(sha + seq!['\0'] + subject + seq!['\0'] + author + seq!['\0'] + time) == Some(
            (sha, subject, author, crate::text::digits_value(time) as i64),
        ),
{
    assert forall|i: int| 0 <= i < time.len() implies time[i] != '\0' by {
        assert(crate::text::is_digit(time[i]));
    }
    let z = author + seq!['\0'] + time;
    lemma_split_pieces3(sha, subject, z, '\0');
    assert(sha + seq!['\0'] + subject + seq!['\0'] + author + seq!['\0'] + time =~= sha + seq!['\0'] + subject
        + seq!['\0'] + z);
    crate::text::lemma_split_concat(author, time, '\0');
    crate::text::lemma_split_no_sep(author, '\0');
    crate::text::lemma_split_no_sep(time, '\0');
    let parts = split_on(sha + seq!['\0'] + subject + seq!['\0'] + z, '\0');
    assert(parts =~= seq![sha, subject, author, time]);
    lemma_decimal_i64(time);
}

/// For `git rev-list --left-right --count` output `<a>\t<b>` (with or
/// without a final newline), where `a` and `b` are decimal numbers that fit
/// in `i32`, the ahead count is `a` and the behind count is `b`.
#[verifier::rlimit(40)]
pub proof fn law_ahead_behind_fields(a: Seq<char>, b: Seq<char>, newline: bool)
    requires
        crate::text::all_digits(a),
        crate::text::all_digits(b),
        crate::text::digits_value(a) <= i32::MAX,
        crate::text::digits_value(b) <= i32::MAX,
    ensures
        ahead_behind_of(a + seq!['\t'] + b + if newline { seq!['\n'] } else { Seq::<char>::empty() }) == (
            crate::text::digits_value(a) as i32,
            crate::text::digits_value(b) as i32,
        ),
{
    let core = a + seq!['\t'] + b;
    let t = core + if newline { seq!['\n'] } else { Seq::<char>::empty() };
    assert(crate::text::is_digit(a[0]));
    assert(crate::text::is_digit(b[b.len() - 1]));
    assert(t[0] == a[0]);
    assert(crate::text::leading_ws(t) == 0);
    assert(core.last() == b[b.len() - 1]);
    assert(crate::text::trailing_ws(core) == 0);
    if newline {
        assert(t.last() == '\n');
        assert(t.drop_last() =~= core);
        assert(crate::text::trailing_ws(t) == 1);
    } else {
        assert(t =~= core);
    }
    assert(trim(t) =~= core);
    assert forall|i: int| 0 <= i < a.len() implies a[i] != '\t' by {
        assert(crate::text::is_digit(a[i]));
    }
    assert forall|i: int| 0 <= i < b.len() implies b[i] != '\t' by {
        assert(crate::text::is_digit(b[i]));
    }
    crate::text::lemma_split_concat(a, b, '\t');
    crate::text::lemma_split_no_sep(a, '\t');
    crate::text::lemma_split_no_sep(b, '\t');
    assert(split_on(core, '\t') =~= seq![a, b]);
    crate::text::lemma_digits_value_nonneg(a);
    crate::text::lemma_digits_value_nonneg(b);
    assert(a[0] != '-' && a[0] != '+');
    assert(b[0] != '-' && b[0] != '+');
}

/// Parse the output of `git rev-list --left-right --count HEAD...@{upstream}`.
pub fn parse_ahead_behind(output: &[u8]) -> (r: (i32, i32))
    ensures
        r == ahead_behind_of(utf8_lossy_text(output@)),
{
    let text = utf8_lossy(output);
    let v = chars_of(text.as_str());
    let t = trim_chars(&v);
    let parts = split_chars(&t, '\t');
    if parts.len() == 2 {
        proof {
            assert(parts.deep_view()[0] =~= parts@[0]@);
            assert(parts.deep_view()[1] =~= parts@[1]@);
        }
        (parse_i32_or_zero(&parts[0]), parse_i32_or_zero(&parts[1]))
    } else {
        (0, 0)
    }
}

/// The branch name from `git rev-parse --abbrev-ref HEAD` output: its
/// trimmed text.
pub fn parse_branch_name(output: &[u8]) -> (r: String)
    ensures
        r@ == trim(utf8_lossy_text(output@)),
{
    let text = utf8_lossy(output);
    let v = chars_of(text.as_str());
    let t = trim_chars(&v);
    string_of(&t)
}

} // verus!

verus! {

/// A file status with its counts taken from `stats` when they list its path.
pub open spec fn with_stats(
    f: (Seq<char>, Seq<char>, i32, i32),
    stats: Map<Seq<char>, (i32, i32)>,
) -> (Seq<char>, Seq<char>, i32, i32) {
    if stats.contains_key(f.0) {
        (f.0, f.1, stats[f.0].0, stats[f.0].1)
    } else {
        f
    }
}

/// Take the additions and deletions of each file from the numstat of its
/// path, where the numstat lists it.
pub fn apply_numstat(files: &Vec<GitFileStatus>, stats: &StringHashMap<(i32, i32)>) -> (r: Vec<GitFileStatus>)
    ensures
        r@.len() == files@.len(),
        forall|i: int| 0 <= i < r@.len() ==> fview(#[trigger] r@[i]) == with_stats(fview(files@[i]), stats@),
{
    let mut out: Vec<GitFileStatus> = Vec::new();
    let mut i: usize = 0;
    while i < files.len()
        invariant
            i <= files.len(),
            out@.len() == i,
            forall|k: int| 0 <= k < i ==> fview(#[trigger] out@[k]) == with_stats(fview(files@[k]), stats@),
        decreases files.len() - i,
    {
        let f = &files[i];
        let (a, d) = match stats.get(f.path.as_str()) {
            Some(c) => (c.0, c.1),
            None => (f.additions, f.deletions),
        };
        out.push(GitFileStatus { path: f.path.clone(), status: f.status.clone(), additions: a, deletions: d });
        i = i + 1;
    }
    out
}

/// The sum of the additions of a list of file statuses.
pub open spec fn sum_additions(s: Seq<(Seq<char>, Seq<char>, i32, i32)>) -> int
    decreases s.len(),
{
    if s.len() == 0 { 0 } else { sum_additions(s.drop_last()) + s.last().2 }
}

/// The sum of the deletions of a list of file statuses.
pub open spec fn sum_deletions(s: Seq<(Seq<char>, Seq<char>, i32, i32)>) -> int
    decreases s.len(),
{
    if s.len() == 0 { 0 } else { sum_deletions(s.drop_last()) + s.last().3 }
}

/// Whether every running sum of additions and of deletions fits in `i32`
/// (where summing would otherwise overflow).
pub open spec fn sums_fit(s: Seq<(Seq<char>, Seq<char>, i32, i32)>) -> bool {
    forall|k: int| 0 <= k <= s.len() ==> i32::MIN <= #[trigger] sum_additions(s.take(k)) <= i32::MAX
        && i32::MIN <= sum_deletions(s.take(k)) <= i32::MAX
}

/// Sum the additions and the deletions of a list of file statuses.
pub fn sum_counts(files: &Vec<GitFileStatus>) -> (r: (i32, i32))
    requires
        sums_fit(fviews(files@)),
    ensures
        r.0 == sum_additions(fviews(files@)),
        r.1 == sum_deletions(fviews(files@)),
{
    let ghost fs = fviews(files@);
    let mut a: i32 = 0;
    let mut d: i32 = 0;
    let mut i: usize = 0;
    while i < files.len()
        invariant
            i <= files.len(),
            fs == fviews(files@),
            sums_fit(fs),
            a == sum_additions(fs.take(i as int)),
            d == sum_deletions(fs.take(i as int)),
        decreases files.len() - i,
    {
        assert(fs.take(i + 1).drop_last() =~= fs.take(i as int));
        assert(fs.take(i + 1).last() == fview(files@[i as int]));
        assert(i32::MIN <= sum_additions(fs.take(i + 1)) <= i32::MAX);
        a = a + files[i].additions;
        d = d + files[i].deletions;
        i = i + 1;
    }
    assert(fs.take(files.len() as int) =~= fs);
    (a, d)
}

/// The sums of the additions and of the deletions of a list of file
/// statuses, when every running sum fits in `i32`; `None` when one does
/// not.
pub fn checked_sums(files: &Vec<GitFileStatus>) -> (r: Option<(i64, i64)>)
    ensures
        r is Some <==> sums_fit(fviews(files@)),
        r matches Some((a, d)) ==> a == sum_additions(fviews(files@)) && d == sum_deletions(fviews(files@)),
{
    let ghost fs = fviews(files@);
    let mut a: i64 = 0;
    let mut d: i64 = 0;
    let mut i: usize = 0;
    assert(fs.take(0) =~= Seq::<(Seq<char>, Seq<char>, i32, i32)>::empty());
    while i < files.len()
        invariant
            i <= files.len(),
            fs == fviews(files@),
            a == sum_additions(fs.take(i as int)),
            d == sum_deletions(fs.take(i as int)),
            forall|k: int| 0 <= k <= i ==> i32::MIN <= #[trigger] sum_additions(fs.take(k)) <= i32::MAX
                && i32::MIN <= sum_deletions(fs.take(k)) <= i32::MAX,
        decreases files.len() - i,
    {
        assert(fs.take(i + 1).drop_last() =~= fs.take(i as int));
        assert(fs.take(i + 1).last() == fview(files@[i as int]));
        a = a + files[i].additions as i64;
        d = d + files[i].deletions as i64;
        if a < i32::MIN as i64 || a > i32::MAX as i64 || d < i32::MIN as i64 || d > i32::MAX as i64 {
            assert(!(i32::MIN <= sum_additions(fs.take(i + 1)) <= i32::MAX && i32::MIN <= sum_deletions(fs.take(i + 1))
                <= i32::MAX));
            return None;
        }
        i = i + 1;
    }
    assert(fs.take(files.len() as int) =~= fs);
    Some((a, d))
}

/// Whether `assemble_git_status` can sum the line counts of these files:
/// exactly its `requires`, tested.
pub fn git_status_sums_fit(
    staged: &Vec<GitFileStatus>,
    unstaged: &Vec<GitFileStatus>,
    staged_stats: &StringHashMap<(i32, i32)>,
    unstaged_stats: &StringHashMap<(i32, i32)>,
) -> (r: bool)
    ensures
        r == ({
            &&& sums_fit(fviews(staged@).map_values(|f| with_stats(f, staged_stats@)))
            &&& sums_fit(fviews(unstaged@).map_values(|f| with_stats(f, unstaged_stats@)))
            &&& i32::MIN <= sum_additions(fviews(staged@).map_values(|f| with_stats(f, staged_stats@)))
                + sum_additions(fviews(unstaged@).map_values(|f| with_stats(f, unstaged_stats@))) <= i32::MAX
            &&& i32::MIN <= sum_deletions(fviews(staged@).map_values(|f| with_stats(f, staged_stats@)))
                + sum_deletions(fviews(unstaged@).map_values(|f| with_stats(f, unstaged_stats@))) <= i32::MAX
        }),
{
    let s = apply_numstat(staged, staged_stats);
    let u = apply_numstat(unstaged, unstaged_stats);
    assert(fviews(s@) =~= fviews(staged@).map_values(|f| with_stats(f, staged_stats@)));
    assert(fviews(u@) =~= fviews(unstaged@).map_values(|f| with_stats(f, unstaged_stats@)));
    match (checked_sums(&s), checked_sums(&u)) {
        (Some((sa, sd)), Some((ua, ud))) => {
            proof {
                assert(fviews(s@).take(fviews(s@).len() as int) =~= fviews(s@));
                assert(fviews(u@).take(fviews(u@).len() as int) =~= fviews(u@));
            }
            let ta = sa + ua;
            let td = sd + ud;
            i32::MIN as i64 <= ta && ta <= i32::MAX as i64 && i32::MIN as i64 <= td && td <= i32::MAX as i64
        },
        _ => false,
    }
}

/// Whether a file of this path is in the list.
pub open spec fn has_path(s: Seq<(Seq<char>, Seq<char>, i32, i32)>, p: Seq<char>) -> bool {
    exists|j: int| 0 <= j < s.len() && (#[trigger] s[j]).0 == p
}

/// `base` followed by each file of `extra` whose path is not yet listed.
pub open spec fn merge_by_path(
    base: Seq<(Seq<char>, Seq<char>, i32, i32)>,
    extra: Seq<(Seq<char>, Seq<char>, i32, i32)>,
) -> Seq<(Seq<char>, Seq<char>, i32, i32)>
    decreases extra.len(),
{
    if extra.len() == 0 {
        base
    } else {
        let prev = merge_by_path(base, extra.drop_last());
        if has_path(prev, extra.last().0) {
            prev
        } else {
            prev.push(extra.last())
        }
    }
}

/// All changed files: the staged ones, then each unstaged one whose path is
/// not listed yet.
pub fn merge_changed_files(staged: &Vec<GitFileStatus>, unstaged: &Vec<GitFileStatus>) -> (r: Vec<GitFileStatus>)
    ensures
        fviews(r@) == merge_by_path(fviews(staged@), fviews(unstaged@)),
{
    let mut files: Vec<GitFileStatus> = Vec::new();
    let mut i: usize = 0;
    while i < staged.len()
        invariant
            i <= staged.len(),
            fviews(files@) == fviews(staged@).take(i as int),
        decreases staged.len() - i,
    {
        let f = &staged[i];
        let ghost old_files = files@;
        let nf = GitFileStatus { path: f.path.clone(), status: f.status.clone(), additions: f.additions, deletions: f.deletions };
        assert(fview(nf) == fview(staged@[i as int]));
        files.push(nf);
        assert(files@ == old_files.push(nf));
        assert(fviews(files@) =~= fviews(old_files).push(fview(nf)));
        assert(fviews(files@) =~= fviews(staged@).take(i + 1));
        i = i + 1;
    }
    assert(fviews(staged@).take(staged.len() as int) =~= fviews(staged@));
    let mut j: usize = 0;
    while j < unstaged.len()
        invariant
            j <= unstaged.len(),
            fviews(files@) == merge_by_path(fviews(staged@), fviews(unstaged@).take(j as int)),
        decreases unstaged.len() - j,
    {
        let u = &unstaged[j];
        let ghost ex = fviews(unstaged@).take(j + 1);
        assert(ex.drop_last() =~= fviews(unstaged@).take(j as int));
        let mut found = false;
        let mut k: usize = 0;
        while k < files.len()
            invariant
                k <= files.len(),
                !found ==> forall|m: int| 0 <= m < k ==> (#[trigger] files@[m]).path@ != u.path@,
                found ==> has_path(fviews(files@), u.path@),
            decreases files.len() - k,
        {
            if files[k].path == u.path {
                assert(fviews(files@)[k as int].0 == u.path@);
                found = true;
            }
            k = k + 1;
        }
        proof {
            if !found {
                assert forall|m: int| 0 <= m < fviews(files@).len() implies (#[trigger] fviews(files@)[m]).0 != u.path@ by {
                    assert(fviews(files@)[m].0 == files@[m].path@);
                }
            }
        }
        if !found {
            files.push(GitFileStatus { path: u.path.clone(), status: u.status.clone(), additions: u.additions, deletions: u.deletions });
        }
        assert(fviews(files@) =~= merge_by_path(fviews(staged@), ex));
        j = j + 1;
    }
    assert(fviews(unstaged@).take(unstaged.len() as int) =~= fviews(unstaged@));
    files
}

/// Assemble the status of a workspace from what git reported: the branch
/// name, the staged and unstaged files of the porcelain status, and the
/// numstat of the staged and of the unstaged changes.
pub fn assemble_git_status(
    branch_name: String,
    staged: &Vec<GitFileStatus>,
    unstaged: &Vec<GitFileStatus>,
    staged_stats: &StringHashMap<(i32, i32)>,
    unstaged_stats: &StringHashMap<(i32, i32)>,
) -> (r: GitStatus)
    requires
        sums_fit(fviews(staged@).map_values(|f| with_stats(f, staged_stats@))),
        sums_fit(fviews(unstaged@).map_values(|f| with_stats(f, unstaged_stats@))),
        i32::MIN <= sum_additions(fviews(staged@).map_values(|f| with_stats(f, staged_stats@)))
            + sum_additions(fviews(unstaged@).map_values(|f| with_stats(f, unstaged_stats@))) <= i32::MAX,
        i32::MIN <= sum_deletions(fviews(staged@).map_values(|f| with_stats(f, staged_stats@)))
            + sum_deletions(fviews(unstaged@).map_values(|f| with_stats(f, unstaged_stats@))) <= i32::MAX,
    ensures
        r.branch_name == branch_name,
        fviews(r.staged_files@) == fviews(staged@).map_values(|f| with_stats(f, staged_stats@)),
        fviews(r.unstaged_files@) == fviews(unstaged@).map_values(|f| with_stats(f, unstaged_stats@)),
        fviews(r.files@) == merge_by_path(fviews(r.staged_files@), fviews(r.unstaged_files@)),
        r.total_additions == sum_additions(fviews(r.staged_files@)) + sum_additions(fviews(r.unstaged_files@)),
        r.total_deletions == sum_deletions(fviews(r.staged_files@)) + sum_deletions(fviews(r.unstaged_files@)),
{
    let staged_files = apply_numstat(staged, staged_stats);
    let unstaged_files = apply_numstat(unstaged, unstaged_stats);
    assert(fviews(staged_files@) =~= fviews(staged@).map_values(|f| with_stats(f, staged_stats@)));
    assert(fviews(unstaged_files@) =~= fviews(unstaged@).map_values(|f| with_stats(f, unstaged_stats@)));
    let (sa, sd) = sum_counts(&staged_files);
    let (ua, ud) = sum_counts(&unstaged_files);
    let files = merge_changed_files(&staged_files, &unstaged_files);
    GitStatus {
        branch_name,
        files,
        staged_files,
        unstaged_files,
        total_additions: sa + ua,
        total_deletions: sd + ud,
    }
}

/// The status of a directory that is not a git repository: nothing changed.
pub fn empty_git_status() -> (r: GitStatus)
    ensures
        r.branch_name@.len() == 0,
        r.files@.len() == 0 && r.staged_files@.len() == 0 && r.unstaged_files@.len() == 0,
        r.total_additions == 0 && r.total_deletions == 0,
{
    GitStatus {
        branch_name: String::new(),
        files: Vec::new(),
        staged_files: Vec::new(),
        unstaged_files: Vec::new(),
        total_additions: 0,
        total_deletions: 0,
    }
}

/// The log of a directory that is not a git repository: empty.
pub fn empty_git_log() -> (r: GitLogResponse)
    ensures
        r.total == 0 && r.entries@.len() == 0 && r.ahead == 0 && r.behind == 0,
        r.ahead_entries@.len() == 0 && r.behind_entries@.len() == 0 && r.upstream is None,
{
    GitLogResponse {
        total: 0,
        entries: Vec::new(),
        ahead: 0,
        behind: 0,
        ahead_entries: Vec::new(),
        behind_entries: Vec::new(),
        upstream: None,
    }
}

/// The number of log entries that `git log` is asked for: the given limit,
/// 40 by default.
pub fn log_limit(limit: Option<u32>) -> (r: u32)
    ensures
        r == (match limit { Some(l) => l, None => 40u32 }),
{
    match limit {
        Some(l) => l,
        None => 40,
    }
}

/// Whether the commits ahead of (or behind) the upstream are listed: only
/// with an upstream and a positive count.
pub fn should_list_divergence(upstream: &Option<String>, count: i32) -> (r: bool)
    ensures
        r == (upstream is Some && count > 0),
{
    upstream.is_some() && count > 0
}

/// Assemble the log response; `total` is the number of entries.
pub fn assemble_git_log(
    entries: Vec<GitLogEntry>,
    ahead: i32,
    behind: i32,
    ahead_entries: Vec<GitLogEntry>,
    behind_entries: Vec<GitLogEntry>,
    upstream: Option<String>,
) -> (r: GitLogResponse)
    ensures
        r.total == entries@.len() as i32,
        r.entries == entries && r.ahead == ahead && r.behind == behind,
        r.ahead_entries == ahead_entries && r.behind_entries == behind_entries,
        r.upstream == upstream,
{
    GitLogResponse {
        total: entries.len() as i32,
        entries,
        ahead,
        behind,
        ahead_entries,
        behind_entries,
        upstream,
    }
}

} // verus!
