//! The git smart-HTTP protocol as the server speaks it: services and their
//! content types, pkt-line framing, the push commands of a receive-pack
//! request, and the paths under which external repositories are mirrored.
use vstd::prelude::*;
use vstd::utf8::{decode_utf8, encode_utf8, valid_utf8};
use crate::replies::Lookup;
use crate::text::{
    chars_eq_str, chars_of, lemma_find_char_first, lemma_rfind_char, lemma_split_concat, lemma_split_first, lemma_split_no_sep, drop_prefix, drop_suffix, ends_with_str, has_prefix, has_suffix, rfind_char, rfind_pos,
    slice_chars, split_chars, split_on, starts_with_str, string_of, string_of_range, string_of_str, str_eq,
};

verus! {

/// The object id that stands for "no object" in a push command.
pub const ZERO_SHA: &'static str = "0000000000000000000000000000000000000000";

/// The two services of the smart protocol.
#[derive(Debug, Clone, Copy, PartialEq, Eq, Structural)]
pub enum GitService {
    UploadPack,
    ReceivePack,
}

/// The service named by a `service` query parameter.
pub open spec fn service_named(s: Seq<char>) -> Option<GitService> {
    if s == "git-upload-pack"@ {
        Some(GitService::UploadPack)
    } else if s == "git-receive-pack"@ {
        Some(GitService::ReceivePack)
    } else {
        None
    }
}

/// The name of a service.
pub open spec fn service_name(s: GitService) -> Seq<char> {
    match s {
        GitService::UploadPack => "git-upload-pack"@,
        GitService::ReceivePack => "git-receive-pack"@,
    }
}

impl GitService {
    /// The service named `s`, if any.
    pub fn from_str(s: &str) -> (r: Option<GitService>)
        ensures
            r == service_named(s@),
    {
        if str_eq(s, "git-upload-pack") {
            Some(GitService::UploadPack)
        } else if str_eq(s, "git-receive-pack") {
            Some(GitService::ReceivePack)
        } else {
            None
        }
    }

    /// The service's name.
    pub fn as_str(&self) -> (r: &'static str)
        ensures
            r@ == service_name(*self),
    {
        match self {
            GitService::UploadPack => "git-upload-pack",
            GitService::ReceivePack => "git-receive-pack",
        }
    }

    /// The `git` subcommand that serves the service.
    pub fn as_git_subcommand(&self) -> (r: &'static str)
        ensures
            r@ == match *self {
                GitService::UploadPack => "upload-pack"@,
                GitService::ReceivePack => "receive-pack"@,
            },
    {
        match self {
            GitService::UploadPack => "upload-pack",
            GitService::ReceivePack => "receive-pack",
        }
    }

    /// The content type of the service's ref advertisement.
    pub fn content_type(&self) -> (r: &'static str)
        ensures
            r@ == match *self {
                GitService::UploadPack => "application/x-git-upload-pack-advertisement"@,
                GitService::ReceivePack => "application/x-git-receive-pack-advertisement"@,
            },
    {
        match self {
            GitService::UploadPack => "application/x-git-upload-pack-advertisement",
            GitService::ReceivePack => "application/x-git-receive-pack-advertisement",
        }
    }

    /// The content type of the service's result.
    pub fn result_content_type(&self) -> (r: &'static str)
        ensures
            r@ == match *self {
                GitService::UploadPack => "application/x-git-upload-pack-result"@,
                GitService::ReceivePack => "application/x-git-receive-pack-result"@,
            },
    {
        match self {
            GitService::UploadPack => "application/x-git-upload-pack-result",
            GitService::ReceivePack => "application/x-git-receive-pack-result",
        }
    }

    /// The content type that a request to the service must carry.
    pub fn request_content_type(&self) -> (r: &'static str)
        ensures
            r@ == match *self {
                GitService::UploadPack => "application/x-git-upload-pack-request"@,
                GitService::ReceivePack => "application/x-git-receive-pack-request"@,
            },
    {
        match self {
            GitService::UploadPack => "application/x-git-upload-pack-request",
            GitService::ReceivePack => "application/x-git-receive-pack-request",
        }
    }
}

/// The lowercase hexadecimal digit of `d < 16`, as a byte.
pub open spec fn hex_digit(d: nat) -> u8 {
    if d < 10 {
        (48 + d) as u8
    } else {
        (87 + d) as u8
    }
}

/// The lowercase hexadecimal digits of `n`, most significant first.
pub open spec fn hex_bytes(n: nat) -> Seq<u8>
    decreases n,
{
    if n < 16 {
        seq![hex_digit(n)]
    } else {
        hex_bytes(n / 16).push(hex_digit(n % 16))
    }
}

/// The digits of `n` padded with `'0'` on the left to at least four
/// (what `format!("{n:04x}")` writes).
pub open spec fn hex4(n: nat) -> Seq<u8> {
    let d = hex_bytes(n);
    if d.len() < 4 {
        Seq::new((4 - d.len()) as nat, |i: int| 48u8) + d
    } else {
        d
    }
}

fn hex_digit_byte(d: u64) -> (r: u8)
    requires
        d < 16,
    ensures
        r == hex_digit(d as nat),
{
    if d < 10 {
        (48 + d) as u8
    } else {
        (87 + d) as u8
    }
}

fn hex_of(n: u64) -> (r: Vec<u8>)
    ensures
        r@ == hex_bytes(n as nat),
    decreases n,
{
    if n < 16 {
        let mut v: Vec<u8> = Vec::new();
        v.push(hex_digit_byte(n));
        v
    } else {
        let mut v = hex_of(n / 16);
        v.push(hex_digit_byte(n % 16));
        v
    }
}

/// One pkt-line: the length of the whole line (four length digits and the
/// data's bytes) in at least four hexadecimal digits, then the data.
pub fn pkt_line(data: &str) -> (r: Vec<u8>)
    requires
        encode_utf8(data@).len() + 4 <= u64::MAX,
    ensures
        r@ == hex4((encode_utf8(data@).len() + 4) as nat) + encode_utf8(data@),
{
    let bytes = data.as_bytes();
    let n = bytes.len() as u64 + 4;
    let digits = hex_of(n);
    let mut out: Vec<u8> = Vec::new();
    let mut k = digits.len();
    while k < 4
        invariant
            digits.len() <= k <= 4 || (digits.len() > 4 && k == digits.len()),
            out@ == Seq::new((k - digits.len()) as nat, |i: int| 48u8),
        decreases 4 - k,
    {
        out.push(48u8);
        k = k + 1;
        assert(out@ =~= Seq::new((k - digits.len()) as nat, |i: int| 48u8));
    }
    let ghost pad = out@;
    out.extend_from_slice(digits.as_slice());
    out.extend_from_slice(bytes);
    assert(digits@.len() < 4 ==> pad =~= Seq::new((4 - digits@.len()) as nat, |i: int| 48u8));
    assert(digits@.len() >= 4 ==> pad =~= Seq::<u8>::empty());
    assert(out@ =~= hex4((encode_utf8(data@).len() + 4) as nat) + encode_utf8(data@));
    out
}

/// The flush packet.
pub fn pkt_flush() -> (r: Vec<u8>)
    ensures
        r@ == seq![48u8, 48u8, 48u8, 48u8],
{
    let mut v: Vec<u8> = Vec::new();
    v.push(48u8);
    v.push(48u8);
    v.push(48u8);
    v.push(48u8);
    v
}

/// The body of a ref advertisement: the service announcement as a
/// pkt-line, a flush, then what `git` advertised.
pub fn info_refs_body(service: GitService, advertised: &Vec<u8>) -> (r: Vec<u8>)
    ensures
        r@ == hex4((encode_utf8(service_line(service)).len() + 4) as nat) + encode_utf8(service_line(service))
            + seq![48u8, 48u8, 48u8, 48u8] + advertised@,
{
    let name = service.as_str();
    let mut line = string_of_str("# service=");
    crate::text::push_str(&mut line, name);
    crate::text::push_str(&mut line, "\n");
    proof {
        lemma_service_line_short(service);
    }
    assert(line@ == service_line(service));
    let mut out = pkt_line(line.as_str());
    let flush = pkt_flush();
    out.extend_from_slice(flush.as_slice());
    out.extend_from_slice(advertised.as_slice());
    out
}

/// The line that announces a service in its ref advertisement.
pub open spec fn service_line(service: GitService) -> Seq<char> {
    "# service="@ + service_name(service) + "\n"@
}

/// A UTF-8 encoding takes at most four bytes per character.
pub proof fn lemma_encode_utf8_len(s: Seq<char>)
    ensures
        encode_utf8(s).len() <= 4 * s.len(),
    decreases s.len(),
{
    if s.len() > 0 {
        lemma_encode_utf8_len(s.drop_first());
    }
}

proof fn lemma_service_line_short(service: GitService)
    ensures
        encode_utf8(service_line(service)).len() + 4 <= u64::MAX,
{
    reveal_strlit("# service=");
    reveal_strlit("\n");
    reveal_strlit("git-upload-pack");
    reveal_strlit("git-receive-pack");
    lemma_encode_utf8_len(service_line(service));
}


/// A hosting platform whose repositories can be mirrored.
#[derive(Debug, Clone, Copy, PartialEq, Eq, Structural)]
pub enum MirrorPlatform {
    GitHub,
    GitLab,
}

/// The platform a path segment names.
pub open spec fn platform_named(s: Seq<char>) -> Option<MirrorPlatform> {
    if s == "github"@ {
        Some(MirrorPlatform::GitHub)
    } else if s == "gitlab"@ {
        Some(MirrorPlatform::GitLab)
    } else {
        None
    }
}

/// The name of a platform.
pub open spec fn platform_name(p: MirrorPlatform) -> Seq<char> {
    match p {
        MirrorPlatform::GitHub => "github"@,
        MirrorPlatform::GitLab => "gitlab"@,
    }
}

impl MirrorPlatform {
    /// The platform named `s`, if any.
    pub fn parse(s: &str) -> (r: Option<MirrorPlatform>)
        ensures
            r == platform_named(s@),
    {
        let v = chars_of(s);
        Self::parse_chars(&v)
    }

    fn parse_chars(v: &Vec<char>) -> (r: Option<MirrorPlatform>)
        ensures
            r == platform_named(v@),
    {
        if chars_eq_str(v, "github") {
            Some(MirrorPlatform::GitHub)
        } else if chars_eq_str(v, "gitlab") {
            Some(MirrorPlatform::GitLab)
        } else {
            None
        }
    }

    /// The platform's name.
    pub fn as_str(&self) -> (r: &'static str)
        ensures
            r@ == platform_name(*self),
    {
        match self {
            MirrorPlatform::GitHub => "github",
            MirrorPlatform::GitLab => "gitlab",
        }
    }
}

/// An external repository named by a mirror path.
#[derive(Debug, Clone)]
pub struct MirrorInfo {
    pub platform: MirrorPlatform,
    pub external_owner: String,
    pub external_repo: String,
}

/// A repository name without one trailing `.git`.
pub open spec fn strip_git_suffix(r: Seq<char>) -> Seq<char> {
    if has_suffix(r, ".git"@) {
        drop_suffix(r, ".git"@)
    } else {
        r
    }
}

/// The external repository that an owner and repository name address:
/// the owner is `mirrors/<platform>/<external owner>` (exactly three
/// `/`-separated parts), the repository name is the external one with or
/// without `.git`.
pub open spec fn mirror_of(owner: Seq<char>, repo: Seq<char>) -> Option<(MirrorPlatform, Seq<char>, Seq<char>)> {
    let parts = split_on(owner, '/');
    if parts.len() == 3 && parts[0] == "mirrors"@ {
        match platform_named(parts[1]) {
            Some(p) => Some((p, parts[2], strip_git_suffix(repo))),
            None => None,
        }
    } else {
        None
    }
}

/// The characters of `v` without one trailing `.git`.
fn strip_git_suffix_chars(v: &Vec<char>) -> (r: String)
    ensures
        r@ == strip_git_suffix(v@),
{
    proof {
        reveal_strlit(".git");
    }
    if ends_with_str(v, ".git") {
        string_of_range(v, 0, v.len() - 4)
    } else {
        string_of(v)
    }
}

/// The external repository that a mirror path addresses, if it is one.
pub fn parse_mirror_path(owner: &str, repo_name: &str) -> (r: Option<MirrorInfo>)
    ensures
        match r {
            Some(info) => mirror_of(owner@, repo_name@) == Some(
                (info.platform, info.external_owner@, info.external_repo@),
            ),
            None => mirror_of(owner@, repo_name@) is None,
        },
{
    let rv = chars_of(repo_name);
    let external_repo = strip_git_suffix_chars(&rv);
    let ov = chars_of(owner);
    let parts = split_chars(&ov, '/');
    assert(parts.deep_view().len() == parts@.len());
    if parts.len() != 3 {
        return None;
    }
    assert(parts.deep_view()[0] == parts@[0]@);
    assert(parts.deep_view()[1] == parts@[1]@);
    assert(parts.deep_view()[2] == parts@[2]@);
    if !chars_eq_str(&parts[0], "mirrors") {
        return None;
    }
    let platform = match MirrorPlatform::parse_chars(&parts[1]) {
        Some(p) => p,
        None => return None,
    };
    let external_owner = string_of(&parts[2]);
    Some(MirrorInfo { platform, external_owner, external_repo })
}

/// Whether an owner path is under `mirrors/`.
pub fn is_mirror_path(owner: &str) -> (r: bool)
    ensures
        r == has_prefix(owner@, "mirrors/"@),
{
    let v = chars_of(owner);
    starts_with_str(&v, "mirrors/")
}

/// The owner path and repository of a path under `/git/mirrors/` that ends
/// in `suffix`: what precedes the suffix is `<platform and owner>/<repo>`,
/// both nonempty, and the owner path is `mirrors/<platform and owner>`.
pub open spec fn git_path_split(p: Seq<char>, suffix: Seq<char>) -> Option<(Seq<char>, Seq<char>)> {
    if has_suffix(p, suffix) {
        let rp = drop_suffix(p, suffix);
        match rfind_char(rp, '/') {
            Some(i) => {
                let po = rp.subrange(0, i);
                let repo = rp.subrange(i + 1, rp.len() as int);
                if po.len() > 0 && repo.len() > 0 {
                    Some(("mirrors/"@ + po, repo))
                } else {
                    None
                }
            },
            None => None,
        }
    } else {
        None
    }
}

/// A path without one leading `/`.
pub open spec fn strip_leading_slash(p: Seq<char>) -> Seq<char> {
    if p.len() > 0 && p[0] == '/' {
        p.drop_first()
    } else {
        p
    }
}

/// The owner path and repository that a path under `/git/mirrors/`
/// addresses: the first of the endpoint suffixes `/info/refs`,
/// `/git-upload-pack`, `/git-receive-pack` that splits it.
pub open spec fn mirror_git_path(path: Seq<char>) -> Option<(Seq<char>, Seq<char>)> {
    let p = strip_leading_slash(path);
    match git_path_split(p, "/info/refs"@) {
        Some(x) => Some(x),
        None => match git_path_split(p, "/git-upload-pack"@) {
            Some(x) => Some(x),
            None => git_path_split(p, "/git-receive-pack"@),
        },
    }
}

fn split_git_path(p: &Vec<char>, suffix: &str) -> (r: Option<(String, String)>)
    ensures
        match r {
            Some((o, repo)) => git_path_split(p@, suffix@) == Some((o@, repo@)),
            None => git_path_split(p@, suffix@) is None,
        },
{
    if !ends_with_str(p, suffix) {
        return None;
    }
    let sv = chars_of(suffix);
    let rp = slice_chars(p, 0, p.len() - sv.len());
    assert(rp@ == drop_suffix(p@, suffix@));
    let i = match rfind_pos(&rp, '/') {
        Some(i) => i,
        None => return None,
    };
    if i == 0 || i + 1 == rp.len() {
        return None;
    }
    let mut owner = string_of_str("mirrors/");
    let po = string_of_range(&rp, 0, i);
    crate::text::push_str(&mut owner, po.as_str());
    let repo = string_of_range(&rp, i + 1, rp.len());
    Some((owner, repo))
}

/// The owner path and repository that a path under `/git/mirrors/`
/// addresses, if it ends in an endpoint and splits.
pub fn parse_mirror_git_path(path: &str) -> (r: Option<(String, String)>)
    ensures
        match r {
            Some((o, repo)) => mirror_git_path(path@) == Some((o@, repo@)),
            None => mirror_git_path(path@) is None,
        },
{
    let v = chars_of(path);
    let p = if v.len() > 0 && v[0] == '/' {
        slice_chars(&v, 1, v.len())
    } else {
        slice_chars(&v, 0, v.len())
    };
    assert(p@ =~= strip_leading_slash(path@));
    match split_git_path(&p, "/info/refs") {
        Some(x) => return Some(x),
        None => {},
    }
    match split_git_path(&p, "/git-upload-pack") {
        Some(x) => return Some(x),
        None => {},
    }
    split_git_path(&p, "/git-receive-pack")
}

/// The branch a ref names, when it is under `refs/heads/`.
pub fn extract_branch_name(ref_name: &str) -> (r: Option<String>)
    ensures
        match r {
            Some(b) => has_prefix(ref_name@, "refs/heads/"@) && b@ == drop_prefix(ref_name@, "refs/heads/"@),
            None => !has_prefix(ref_name@, "refs/heads/"@),
        },
{
    let v = chars_of(ref_name);
    if starts_with_str(&v, "refs/heads/") {
        proof {
            reveal_strlit("refs/heads/");
        }
        Some(string_of_range(&v, 11, v.len()))
    } else {
        None
    }
}


/// A command of a push request: a ref's old and new object ids and its name.
#[derive(Debug, Clone)]
pub struct PushCommand {
    pub old_sha: String,
    pub new_sha: String,
    pub ref_name: String,
}

/// A push command as plain values.
pub struct PushCommandView {
    pub old_sha: Seq<char>,
    pub new_sha: Seq<char>,
    pub ref_name: Seq<char>,
}

impl View for PushCommand {
    type V = PushCommandView;

    open spec fn view(&self) -> PushCommandView {
        PushCommandView { old_sha: self.old_sha@, new_sha: self.new_sha@, ref_name: self.ref_name@ }
    }
}

/// The views of a list of push commands.
pub open spec fn commands_view(v: Seq<PushCommand>) -> Seq<PushCommandView> {
    v.map_values(|c: PushCommand| c@)
}

/// A hexadecimal digit, either case.
pub open spec fn is_hex_byte(b: u8) -> bool {
    (48 <= b <= 57) || (97 <= b <= 102) || (65 <= b <= 70)
}

/// The value of a hexadecimal digit.
pub open spec fn hex_value(b: u8) -> nat {
    if b <= 57 {
        (b - 48) as nat
    } else if b >= 97 {
        (b - 87) as nat
    } else {
        (b - 55) as nat
    }
}

/// The length that the four header bytes of a pkt-line give, read as
/// `usize::from_str_radix(_, 16)` reads them (four digits, or `+` and three
/// digits), and 0 when they are no such number.
pub open spec fn pkt_len(h: Seq<u8>) -> nat {
    if is_hex_byte(h[0]) && is_hex_byte(h[1]) && is_hex_byte(h[2]) && is_hex_byte(h[3]) {
        4096 * hex_value(h[0]) + 256 * hex_value(h[1]) + 16 * hex_value(h[2]) + hex_value(h[3])
    } else if h[0] == 43 && is_hex_byte(h[1]) && is_hex_byte(h[2]) && is_hex_byte(h[3]) {
        256 * hex_value(h[1]) + 16 * hex_value(h[2]) + hex_value(h[3])
    } else {
        0
    }
}

/// `s` without its trailing newlines.
pub open spec fn trim_newlines(s: Seq<char>) -> Seq<char>
    decreases s.len(),
{
    if s.len() > 0 && s.last() == '\n' {
        trim_newlines(s.drop_last())
    } else {
        s
    }
}

/// The pieces joined with single spaces.
pub open spec fn join_spaces(parts: Seq<Seq<char>>) -> Seq<char>
    decreases parts.len(),
{
    if parts.len() == 0 {
        Seq::empty()
    } else if parts.len() == 1 {
        parts[0]
    } else {
        join_spaces(parts.drop_last()) + seq![' '] + parts.last()
    }
}

/// What precedes the first NUL of `s` (all of `s` when it holds none).
pub open spec fn before_nul(s: Seq<char>) -> Seq<char> {
    match crate::text::find_char(s, '\0') {
        Some(i) => s.subrange(0, i),
        None => s,
    }
}

/// The push command of a pkt-line's payload: valid UTF-8 whose text,
/// trailing newlines removed, has at least three space-separated fields;
/// the ref is the rest after the second space up to the first NUL (where
/// the capabilities begin).
pub open spec fn command_of_line(line: Seq<u8>) -> Option<PushCommandView> {
    if valid_utf8(line) {
        let parts = split_on(trim_newlines(decode_utf8(line)), ' ');
        if parts.len() >= 3 {
            Some(PushCommandView {
                old_sha: parts[0],
                new_sha: parts[1],
                ref_name: before_nul(join_spaces(parts.subrange(2, parts.len() as int))),
            })
        } else {
            None
        }
    } else {
        None
    }
}

/// Whether the walk over the pkt-lines of `body` from `pos` never meets a
/// header whose length is below four while the line fits: reading such a
/// line fails.
pub open spec fn pkt_frames_ok(body: Seq<u8>, pos: nat) -> bool
    decreases body.len() - pos,
{
    if pos + 4 > body.len() {
        true
    } else {
        let len = pkt_len(body.subrange(pos as int, (pos + 4) as int));
        if len == 0 || pos + len > body.len() {
            true
        } else if len < 4 {
            false
        } else {
            pkt_frames_ok(body, pos + len)
        }
    }
}

/// The push commands of the pkt-lines of `body` from `pos`, up to the first
/// flush or zero-length header, or a line that does not fit; lines that are
/// no command are skipped.
pub open spec fn push_commands_from(body: Seq<u8>, pos: nat) -> Seq<PushCommandView>
    decreases body.len() - pos,
{
    if pos + 4 > body.len() {
        Seq::empty()
    } else {
        let len = pkt_len(body.subrange(pos as int, (pos + 4) as int));
        if len < 4 || pos + len > body.len() {
            Seq::empty()
        } else {
            let rest = push_commands_from(body, pos + len);
            match command_of_line(body.subrange((pos + 4) as int, (pos + len) as int)) {
                Some(c) => seq![c] + rest,
                None => rest,
            }
        }
    }
}

fn is_hex(b: u8) -> (r: bool)
    ensures
        r == is_hex_byte(b),
{
    (48 <= b && b <= 57) || (97 <= b && b <= 102) || (65 <= b && b <= 70)
}

fn hex_val(b: u8) -> (r: usize)
    requires
        is_hex_byte(b),
    ensures
        r == hex_value(b),
        r < 16,
{
    if b <= 57 {
        (b - 48) as usize
    } else if b >= 97 {
        (b - 87) as usize
    } else {
        (b - 55) as usize
    }
}

fn read_pkt_len(body: &[u8], pos: usize) -> (r: usize)
    requires
        pos + 4 <= body@.len(),
    ensures
        r == pkt_len(body@.subrange(pos as int, pos + 4)),
{
    let ghost h = body@.subrange(pos as int, pos + 4);
    let b0 = body[pos];
    let b1 = body[pos + 1];
    let b2 = body[pos + 2];
    let b3 = body[pos + 3];
    assert(h[0] == b0 && h[1] == b1 && h[2] == b2 && h[3] == b3);
    if is_hex(b0) && is_hex(b1) && is_hex(b2) && is_hex(b3) {
        4096 * hex_val(b0) + 256 * hex_val(b1) + 16 * hex_val(b2) + hex_val(b3)
    } else if b0 == 43 && is_hex(b1) && is_hex(b2) && is_hex(b3) {
        256 * hex_val(b1) + 16 * hex_val(b2) + hex_val(b3)
    } else {
        0
    }
}

fn trim_newlines_chars(v: &Vec<char>) -> (r: usize)
    ensures
        r <= v.len(),
        v@.subrange(0, r as int) == trim_newlines(v@),
{
    let mut n = v.len();
    assert(v@.subrange(0, n as int) =~= v@);
    while n > 0 && v[n - 1] == '\n'
        invariant
            n <= v.len(),
            trim_newlines(v@.subrange(0, n as int)) == trim_newlines(v@),
        decreases n,
    {
        assert(v@.subrange(0, n as int).drop_last() =~= v@.subrange(0, n - 1));
        n = n - 1;
    }
    assert(v@.subrange(0, v.len() as int) =~= v@);
    n
}

fn join_spaces_from(parts: &Vec<Vec<char>>, from: usize) -> (r: Vec<char>)
    requires
        from <= parts.len(),
    ensures
        r@ == join_spaces(parts.deep_view().subrange(from as int, parts.len() as int)),
{
    let mut out: Vec<char> = Vec::new();
    let mut k = from;
    while k < parts.len()
        invariant
            from <= k <= parts.len(),
            out@ == join_spaces(parts.deep_view().subrange(from as int, k as int)),
        decreases parts.len() - k,
    {
        let ghost before = parts.deep_view().subrange(from as int, k as int);
        let ghost after = parts.deep_view().subrange(from as int, k + 1);
        assert(after.drop_last() =~= before);
        assert(after.last() == parts@[k as int]@);
        if k > from {
            out.push(' ');
        }
        let ghost mid = out@;
        let piece = &parts[k];
        let mut j: usize = 0;
        while j < piece.len()
            invariant
                j <= piece.len(),
                out@ == mid + piece@.subrange(0, j as int),
            decreases piece.len() - j,
        {
            out.push(piece[j]);
            assert(piece@.subrange(0, j + 1) =~= piece@.subrange(0, j as int).push(piece@[j as int]));
            j = j + 1;
        }
        assert(piece@.subrange(0, piece.len() as int) =~= piece@);
        if k == from {
            assert(after.len() == 1);
            assert(out@ =~= join_spaces(after));
        } else {
            assert(out@ =~= join_spaces(after));
        }
        k = k + 1;
    }
    out
}

fn before_nul_chars(v: &Vec<char>) -> (r: String)
    ensures
        r@ == before_nul(v@),
{
    let mut i: usize = 0;
    while i < v.len() && v[i] != '\0'
        invariant
            i <= v.len(),
            forall|j: int| 0 <= j < i ==> v@[j] != '\0',
        decreases v.len() - i,
    {
        i = i + 1;
    }
    proof {
        lemma_find_char_first(v@, '\0', i as int);
    }
    if i == v.len() {
        assert(v@.subrange(0, v.len() as int) =~= v@);
    }
    string_of_range(v, 0, i)
}

fn command_of_line_bytes(line: &[u8]) -> (r: Option<PushCommand>)
    ensures
        match r {
            Some(c) => command_of_line(line@) == Some(c@),
            None => command_of_line(line@) is None,
        },
{
    let text = match crate::sys::utf8_decode(line) {
        Some(t) => t,
        None => return None,
    };
    let v = chars_of(text.as_str());
    let n = trim_newlines_chars(&v);
    let trimmed = slice_chars(&v, 0, n);
    let parts = split_chars(&trimmed, ' ');
    assert(parts.deep_view().len() == parts@.len());
    if parts.len() < 3 {
        return None;
    }
    assert(parts.deep_view()[0] == parts@[0]@);
    assert(parts.deep_view()[1] == parts@[1]@);
    let old_sha = string_of(&parts[0]);
    let new_sha = string_of(&parts[1]);
    let rest = join_spaces_from(&parts, 2);
    let ref_name = before_nul_chars(&rest);
    Some(PushCommand { old_sha, new_sha, ref_name })
}

/// Whether reading the push commands of `body` succeeds: no pkt-line on
/// the way has a header below four that still fits.
pub fn push_body_well_framed(body: &[u8]) -> (r: bool)
    ensures
        r == pkt_frames_ok(body@, 0),
{
    let mut pos: usize = 0;
    while body.len() - pos >= 4
        invariant
            pos <= body@.len(),
            pkt_frames_ok(body@, pos as nat) == pkt_frames_ok(body@, 0),
        decreases body@.len() - pos,
    {
        let len = read_pkt_len(body, pos);
        if len == 0 || len > body.len() - pos {
            return true;
        }
        if len < 4 {
            return false;
        }
        pos = pos + len;
    }
    true
}

/// The push commands of a receive-pack request body: its pkt-lines read up
/// to the first flush, zero-length header or line that does not fit; lines
/// that are no command are skipped.
pub fn parse_push_commands(body: &[u8]) -> (r: Vec<PushCommand>)
    requires
        pkt_frames_ok(body@, 0),
    ensures
        commands_view(r@) == push_commands_from(body@, 0),
{
    let mut commands: Vec<PushCommand> = Vec::new();
    let mut pos: usize = 0;
    while body.len() - pos >= 4
        invariant
            pos <= body@.len(),
            pkt_frames_ok(body@, pos as nat),
            commands_view(commands@) + push_commands_from(body@, pos as nat) == push_commands_from(body@, 0),
        decreases body@.len() - pos,
    {
        let len = read_pkt_len(body, pos);
        if len == 0 || len > body.len() - pos {
            assert(push_commands_from(body@, pos as nat) =~= Seq::<PushCommandView>::empty());
            assert(push_commands_from(body@, body@.len()) =~= Seq::<PushCommandView>::empty());
            assert(commands_view(commands@) =~= commands_view(commands@) + Seq::<PushCommandView>::empty());
            pos = body.len();
        } else {
            let line = &body[pos + 4..pos + len];
            assert(line@ == body@.subrange(pos + 4, pos + len));
            let ghost before = commands_view(commands@);
            match command_of_line_bytes(line) {
                Some(c) => {
                    commands.push(c);
                    assert(commands_view(commands@) =~= before.push(c@));
                    assert(before.push(c@) + push_commands_from(body@, (pos + len) as nat)
                        =~= before + (seq![c@] + push_commands_from(body@, (pos + len) as nat)));
                },
                None => {},
            }
            pos = pos + len;
        }
    }
    assert(push_commands_from(body@, pos as nat) =~= Seq::<PushCommandView>::empty());
    assert(commands_view(commands@) + Seq::<PushCommandView>::empty() =~= commands_view(commands@));
    commands
}

impl PushCommand {
    /// Whether the command deletes its ref (its new id is the zero id).
    pub fn is_deletion(&self) -> (r: bool)
        ensures
            r == (self.new_sha@ == ZERO_SHA@),
    {
        str_eq(self.new_sha.as_str(), ZERO_SHA)
    }
}


/// `base` with `part` appended as `PathBuf::join` does for a relative part:
/// a `/` between them unless `base` is empty or already ends in one.
pub open spec fn path_join(base: Seq<char>, part: Seq<char>) -> Seq<char> {
    if base.len() == 0 || base.last() == '/' {
        base + part
    } else {
        base + seq!['/'] + part
    }
}

/// `base` joined with a relative path part.
pub fn join_path(base: &str, part: &str) -> (r: String)
    ensures
        r@ == path_join(base@, part@),
{
    let bv = chars_of(base);
    let mut out = string_of(&bv);
    if bv.len() > 0 && bv[bv.len() - 1] != '/' {
        crate::text::push_char(&mut out, '/');
    }
    crate::text::push_str(&mut out, part);
    out
}

/// The directory under which repositories are stored: `repos` in the data
/// directory, `/var/lib/loom` when none is configured.
pub fn repos_base_dir(data_dir: Option<&str>) -> (r: String)
    ensures
        r@ == path_join(
            match data_dir {
                Some(d) => d@,
                None => "/var/lib/loom"@,
            },
            "repos"@,
        ),
{
    let base = match data_dir {
        Some(d) => d,
        None => "/var/lib/loom",
    };
    join_path(base, "repos")
}

/// Where the bare repository with id `repo_id` lives under `base_dir`:
/// `<base>/<first two characters of the id>/<id>/git`, the id in its
/// hyphenated form.
pub fn get_repo_path_by_id(base_dir: &str, repo_id: u128) -> (r: String)
    ensures
        r@ == path_join(
            path_join(path_join(base_dir@, crate::sys::uuid_text(repo_id).subrange(0, 2)), crate::sys::uuid_text(repo_id)),
            "git"@,
        ),
{
    let id = crate::sys::uuid_string(repo_id);
    let iv = chars_of(id.as_str());
    let shard = string_of_range(&iv, 0, 2);
    let a = join_path(base_dir, shard.as_str());
    let b = join_path(a.as_str(), id.as_str());
    join_path(b.as_str(), "git")
}

/// The name of the local repository that mirrors an external one:
/// `<platform>-<owner>-<repo>`.
pub fn mirror_repo_name(info: &MirrorInfo) -> (r: String)
    ensures
        r@ == platform_name(info.platform) + "-"@ + info.external_owner@ + "-"@ + info.external_repo@,
{
    let mut out = string_of_str(info.platform.as_str());
    crate::text::push_str(&mut out, "-");
    crate::text::push_str(&mut out, info.external_owner.as_str());
    crate::text::push_str(&mut out, "-");
    crate::text::push_str(&mut out, info.external_repo.as_str());
    out
}

/// Why mirroring an external repository on demand failed.
#[derive(Debug, Clone, Copy, PartialEq, Eq, Structural)]
pub enum MirrorFailure {
    /// The mirror or repository store is not configured (internal error).
    NotConfigured,
    /// Asking the platform whether the repository exists failed (internal
    /// error).
    RemoteCheckFailed,
    /// The platform has no such repository (not found).
    RemoteNotFound,
    /// There is no `mirrors` organization (internal error).
    MirrorsOrgMissing,
    /// Looking up the `mirrors` organization failed (internal error).
    MirrorsOrgLookupFailed,
    /// Storing the new repository failed (internal error).
    RepoCreateFailed,
    /// Storing the mirror entry failed (internal error).
    MirrorEntryFailed,
    /// Cloning the external repository failed (internal error).
    CloneFailed,
}

/// What mirroring an external repository on demand has learnt so far.
#[derive(Debug, Clone)]
pub struct OnDemandMirrorFacts {
    pub info: MirrorInfo,
    /// The directory repositories are stored under.
    pub base_dir: String,
    /// Whether the mirror and repository stores are configured.
    pub configured: bool,
    /// The repository of an existing mirror of the external repository,
    /// once looked up (`Some(None)`: none, or the lookup failed).
    pub existing_mirror: Option<Option<u128>>,
    /// Whether that repository could be read, once tried.
    pub existing_repo: Option<bool>,
    /// Whether the platform has the repository, once asked.
    pub remote_exists: Option<Lookup<bool>>,
    /// The id of the `mirrors` organization, once looked up.
    pub mirrors_org: Option<Lookup<u128>>,
    /// The id of the stored repository, once created (`Some(None)`:
    /// creating failed).
    pub created_repo: Option<Option<u128>>,
    /// Whether storing the mirror entry succeeded, once tried.
    pub mirror_entry: Option<bool>,
    /// Whether cloning succeeded, once tried.
    pub cloned: Option<bool>,
    /// Whether stamping the mirror's sync time was tried (its failure is
    /// ignored).
    pub synced: bool,
}

/// The next step of mirroring an external repository on demand.
#[derive(Debug, Clone)]
pub enum MirrorStep {
    Fail(MirrorFailure),
    FindExistingMirror,
    /// Read the repository with this id.
    LoadRepo(u128),
    CheckRemote,
    LoadMirrorsOrg,
    /// Store a public repository of the organization with this name.
    CreateRepo { org_id: u128, name: String },
    /// Store the mirror entry of the external repository for this
    /// repository.
    CreateMirrorEntry(u128),
    /// Clone the external repository into this path.
    Clone { repo_id: u128, path: String },
    /// Stamp the sync time of the mirror of this repository.
    MarkSynced(u128),
    /// The mirror is this repository.
    Done(u128),
}

/// The next step of mirroring on demand, as plain values.
pub enum MirrorStepView {
    Fail(MirrorFailure),
    FindExistingMirror,
    LoadRepo(u128),
    CheckRemote,
    LoadMirrorsOrg,
    CreateRepo { org_id: u128, name: Seq<char> },
    CreateMirrorEntry(u128),
    Clone { repo_id: u128, path: Seq<char> },
    MarkSynced(u128),
    Done(u128),
}

impl View for MirrorStep {
    type V = MirrorStepView;

    open spec fn view(&self) -> MirrorStepView {
        match self {
            MirrorStep::Fail(e) => MirrorStepView::Fail(*e),
            MirrorStep::FindExistingMirror => MirrorStepView::FindExistingMirror,
            MirrorStep::LoadRepo(id) => MirrorStepView::LoadRepo(*id),
            MirrorStep::CheckRemote => MirrorStepView::CheckRemote,
            MirrorStep::LoadMirrorsOrg => MirrorStepView::LoadMirrorsOrg,
            MirrorStep::CreateRepo { org_id, name } => MirrorStepView::CreateRepo { org_id: *org_id, name: name@ },
            MirrorStep::CreateMirrorEntry(id) => MirrorStepView::CreateMirrorEntry(*id),
            MirrorStep::Clone { repo_id, path } => MirrorStepView::Clone { repo_id: *repo_id, path: path@ },
            MirrorStep::MarkSynced(id) => MirrorStepView::MarkSynced(*id),
            MirrorStep::Done(id) => MirrorStepView::Done(*id),
        }
    }
}

/// The path of the repository with id `repo_id` under `base`.
pub open spec fn repo_path_of(base: Seq<char>, repo_id: u128) -> Seq<char> {
    path_join(
        path_join(path_join(base, crate::sys::uuid_text(repo_id).subrange(0, 2)), crate::sys::uuid_text(repo_id)),
        "git"@,
    )
}

/// The next step of mirroring an external repository on demand: an
/// existing mirror whose repository can be read is used as it is;
/// otherwise the platform must have the repository, a public repository
/// `<platform>-<owner>-<repo>` of the `mirrors` organization is stored with
/// its mirror entry, the external repository is cloned into it and the
/// mirror's sync time stamped.
pub open spec fn on_demand_mirror_step_of(f: OnDemandMirrorFacts) -> MirrorStepView {
    if !f.configured {
        MirrorStepView::Fail(MirrorFailure::NotConfigured)
    } else {
        match f.existing_mirror {
            None => MirrorStepView::FindExistingMirror,
            Some(Some(id)) if f.existing_repo is None => MirrorStepView::LoadRepo(id),
            Some(Some(id)) if f.existing_repo == Some(true) => MirrorStepView::Done(id),
            _ => match f.remote_exists {
                None => MirrorStepView::CheckRemote,
                Some(Lookup::Failed) | Some(Lookup::Missing) => MirrorStepView::Fail(MirrorFailure::RemoteCheckFailed),
                Some(Lookup::Found(false)) => MirrorStepView::Fail(MirrorFailure::RemoteNotFound),
                Some(Lookup::Found(true)) => match f.mirrors_org {
                    None => MirrorStepView::LoadMirrorsOrg,
                    Some(Lookup::Missing) => MirrorStepView::Fail(MirrorFailure::MirrorsOrgMissing),
                    Some(Lookup::Failed) => MirrorStepView::Fail(MirrorFailure::MirrorsOrgLookupFailed),
                    Some(Lookup::Found(org_id)) => match f.created_repo {
                        None => MirrorStepView::CreateRepo {
                            org_id,
                            name: platform_name(f.info.platform) + "-"@ + f.info.external_owner@ + "-"@
                                + f.info.external_repo@,
                        },
                        Some(None) => MirrorStepView::Fail(MirrorFailure::RepoCreateFailed),
                        Some(Some(repo_id)) => match f.mirror_entry {
                            None => MirrorStepView::CreateMirrorEntry(repo_id),
                            Some(false) => MirrorStepView::Fail(MirrorFailure::MirrorEntryFailed),
                            Some(true) => match f.cloned {
                                None => MirrorStepView::Clone { repo_id, path: repo_path_of(f.base_dir@, repo_id) },
                                Some(false) => MirrorStepView::Fail(MirrorFailure::CloneFailed),
                                Some(true) => if !f.synced {
                                    MirrorStepView::MarkSynced(repo_id)
                                } else {
                                    MirrorStepView::Done(repo_id)
                                },
                            },
                        },
                    },
                },
            },
        }
    }
}

/// The next step of mirroring an external repository on demand.
pub fn on_demand_mirror_step(f: &OnDemandMirrorFacts) -> (r: MirrorStep)
    ensures
        r@ == on_demand_mirror_step_of(*f),
{
    if !f.configured {
        return MirrorStep::Fail(MirrorFailure::NotConfigured);
    }
    match f.existing_mirror {
        None => return MirrorStep::FindExistingMirror,
        Some(Some(id)) => match f.existing_repo {
            None => return MirrorStep::LoadRepo(id),
            Some(true) => return MirrorStep::Done(id),
            Some(false) => {},
        },
        Some(None) => {},
    }
    match f.remote_exists {
        None => return MirrorStep::CheckRemote,
        Some(Lookup::Found(true)) => {},
        Some(Lookup::Found(false)) => return MirrorStep::Fail(MirrorFailure::RemoteNotFound),
        Some(_) => return MirrorStep::Fail(MirrorFailure::RemoteCheckFailed),
    }
    let org_id = match f.mirrors_org {
        None => return MirrorStep::LoadMirrorsOrg,
        Some(Lookup::Missing) => return MirrorStep::Fail(MirrorFailure::MirrorsOrgMissing),
        Some(Lookup::Failed) => return MirrorStep::Fail(MirrorFailure::MirrorsOrgLookupFailed),
        Some(Lookup::Found(o)) => o,
    };
    let repo_id = match f.created_repo {
        None => return MirrorStep::CreateRepo { org_id, name: mirror_repo_name(&f.info) },
        Some(None) => return MirrorStep::Fail(MirrorFailure::RepoCreateFailed),
        Some(Some(id)) => id,
    };
    match f.mirror_entry {
        None => return MirrorStep::CreateMirrorEntry(repo_id),
        Some(false) => return MirrorStep::Fail(MirrorFailure::MirrorEntryFailed),
        Some(true) => {},
    }
    match f.cloned {
        None => MirrorStep::Clone { repo_id, path: get_repo_path_by_id(f.base_dir.as_str(), repo_id) },
        Some(false) => MirrorStep::Fail(MirrorFailure::CloneFailed),
        Some(true) => if !f.synced {
            MirrorStep::MarkSynced(repo_id)
        } else {
            MirrorStep::Done(repo_id)
        },
    }
}

/// A repository is stored for a mirror only when no readable mirror exists
/// yet and the platform has the repository, and only in the `mirrors`
/// organization under the mirror's name.
pub proof fn law_on_demand_mirror_creates_only_when_missing(f: OnDemandMirrorFacts)
    requires
        on_demand_mirror_step_of(f) is CreateRepo,
    ensures
        f.configured,
        f.existing_mirror is Some,
        (f.existing_mirror matches Some(Some(_))) ==> f.existing_repo == Some(false),
        f.remote_exists == Some(Lookup::Found(true)),
        f.mirrors_org matches Some(Lookup::Found(o)) && on_demand_mirror_step_of(f) == (MirrorStepView::CreateRepo {
            org_id: o,
            name: platform_name(f.info.platform) + "-"@ + f.info.external_owner@ + "-"@ + f.info.external_repo@,
        }),
{
}

/// The clone goes into the path of the repository stored for the mirror,
/// once its mirror entry is stored.
pub proof fn law_on_demand_mirror_clones_into_new_repo(f: OnDemandMirrorFacts)
    requires
        on_demand_mirror_step_of(f) is Clone,
    ensures
        f.created_repo matches Some(Some(id)) && f.mirror_entry == Some(true) && on_demand_mirror_step_of(f)
            == (MirrorStepView::Clone { repo_id: id, path: repo_path_of(f.base_dir@, id) }),
{
}

/// What follows the first `:` of `s`, if it has one.
pub open spec fn after_first_colon(s: Seq<char>) -> Option<Seq<char>> {
    match crate::text::find_char(s, ':') {
        Some(i) => Some(s.subrange(i + 1, s.len() as int)),
        None => None,
    }
}

/// The password that an `Authorization` header value carries by HTTP basic
/// authentication: the value is `Basic ` and standard base64 of UTF-8 text
/// `<user>:<password>`; the password is what follows the first `:`.
pub open spec fn basic_auth_password_of(header: Seq<char>) -> Option<Seq<char>> {
    if has_prefix(header, "Basic "@) {
        match crate::sys::base64_standard_decoded(drop_prefix(header, "Basic "@)) {
            Some(bytes) => if valid_utf8(bytes) {
                after_first_colon(decode_utf8(bytes))
            } else {
                None
            },
            None => None,
        }
    } else {
        None
    }
}

/// The password of a basic `Authorization` header value, if it carries one.
pub fn basic_auth_password(header: &str) -> (r: Option<String>)
    ensures
        match r {
            Some(p) => basic_auth_password_of(header@) == Some(p@),
            None => basic_auth_password_of(header@) is None,
        },
{
    let hv = chars_of(header);
    if !starts_with_str(&hv, "Basic ") {
        return None;
    }
    proof {
        reveal_strlit("Basic ");
    }
    let encoded = string_of_range(&hv, 6, hv.len());
    let bytes = match crate::sys::base64_decode(encoded.as_str()) {
        Some(b) => b,
        None => return None,
    };
    let text = match crate::sys::utf8_decode(bytes.as_slice()) {
        Some(t) => t,
        None => return None,
    };
    let tv = chars_of(text.as_str());
    let mut i: usize = 0;
    while i < tv.len() && tv[i] != ':'
        invariant
            i <= tv.len(),
            forall|j: int| 0 <= j < i ==> tv@[j] != ':',
        decreases tv.len() - i,
    {
        i = i + 1;
    }
    proof {
        lemma_find_char_first(tv@, ':', i as int);
    }
    if i == tv.len() {
        None
    } else {
        Some(string_of_range(&tv, i + 1, tv.len()))
    }
}

/// The lookup key of an access token or API key: the lowercase hex of the
/// SHA-256 digest of its UTF-8 bytes.
pub fn credential_hash(secret: &str) -> (r: String)
    ensures
        r@ == crate::sys::hex_text(crate::sys::sha256_digest(encode_utf8(secret@))),
{
    let digest = crate::sys::sha256(secret.as_bytes());
    crate::sys::hex_encode(digest.as_slice())
}

/// What a request for a repository that could not be resolved turns into
/// when its owner path is under `mirrors/`.
#[derive(Debug, Clone)]
pub enum MirrorFallback {
    /// Mirror this external repository on demand.
    Mirror(MirrorInfo),
    /// The path is under `mirrors/` but names no external repository.
    InvalidPath,
    /// Pushing to a mirror is refused.
    PushNotAllowed,
}

/// The fallback for an unresolved repository: `None` when the owner path is
/// not under `mirrors/` (the resolution error stands); otherwise the
/// mirror, unless the path names none or the service pushes.
pub fn mirror_fallback(owner: &str, repo: &str, service: GitService) -> (r: Option<MirrorFallback>)
    ensures
        !has_prefix(owner@, "mirrors/"@) ==> r is None,
        has_prefix(owner@, "mirrors/"@) ==> match mirror_of(owner@, repo@) {
            None => r == Some(MirrorFallback::InvalidPath),
            Some((p, o, n)) => if service == GitService::ReceivePack {
                r == Some(MirrorFallback::PushNotAllowed)
            } else {
                r matches Some(MirrorFallback::Mirror(info)) && info.platform == p && info.external_owner@ == o
                    && info.external_repo@ == n
            },
        },
{
    if !is_mirror_path(owner) {
        return None;
    }
    match parse_mirror_path(owner, repo) {
        None => Some(MirrorFallback::InvalidPath),
        Some(info) => {
            if service == GitService::ReceivePack {
                Some(MirrorFallback::PushNotAllowed)
            } else {
                Some(MirrorFallback::Mirror(info))
            }
        },
    }
}

/// Checks the content type of a request to a service: it must be the
/// service's request type, else the error names what was sent.
pub fn check_request_content_type(service: GitService, content_type: &str) -> (r: Result<(), String>)
    ensures
        match r {
            Ok(()) => content_type@ == match service {
                GitService::UploadPack => "application/x-git-upload-pack-request"@,
                GitService::ReceivePack => "application/x-git-receive-pack-request"@,
            },
            Err(m) => content_type@ != match service {
                GitService::UploadPack => "application/x-git-upload-pack-request"@,
                GitService::ReceivePack => "application/x-git-receive-pack-request"@,
            } && m@ == "Invalid content type: "@ + content_type@,
        },
{
    if str_eq(content_type, service.request_content_type()) {
        Ok(())
    } else {
        Err(crate::text::concat2("Invalid content type: ", content_type))
    }
}

/// The arguments of the `git` command that serves a service (the
/// repository path follows them): the subcommand, `--advertise-refs` for a
/// ref advertisement, and `--stateless-rpc`.
pub fn git_command_args(service: GitService, advertise: bool) -> (r: Vec<String>)
    ensures
        advertise ==> r@.len() == 3 && r@[1]@ == "--advertise-refs"@ && r@[2]@ == "--stateless-rpc"@,
        !advertise ==> r@.len() == 2 && r@[1]@ == "--stateless-rpc"@,
        r@[0]@ == match service {
            GitService::UploadPack => "upload-pack"@,
            GitService::ReceivePack => "receive-pack"@,
        },
{
    let mut args: Vec<String> = Vec::new();
    args.push(string_of_str(service.as_git_subcommand()));
    if advertise {
        args.push(string_of_str("--advertise-refs"));
    }
    args.push(string_of_str("--stateless-rpc"));
    args
}

/// The endpoint that a path under `/git/mirrors/` asks for.
#[derive(Debug, Clone, Copy, PartialEq, Eq, Structural)]
pub enum MirrorEndpoint {
    InfoRefs,
    UploadPack,
    ReceivePack,
}

/// The endpoint a path ends in, tested in the order info/refs,
/// upload-pack, receive-pack.
pub fn mirror_endpoint(path: &str) -> (r: Option<MirrorEndpoint>)
    ensures
        r == if has_suffix(path@, "/info/refs"@) {
            Some(MirrorEndpoint::InfoRefs)
        } else if has_suffix(path@, "/git-upload-pack"@) {
            Some(MirrorEndpoint::UploadPack)
        } else if has_suffix(path@, "/git-receive-pack"@) {
            Some(MirrorEndpoint::ReceivePack)
        } else {
            None
        },
{
    let v = chars_of(path);
    if ends_with_str(&v, "/info/refs") {
        Some(MirrorEndpoint::InfoRefs)
    } else if ends_with_str(&v, "/git-upload-pack") {
        Some(MirrorEndpoint::UploadPack)
    } else if ends_with_str(&v, "/git-receive-pack") {
        Some(MirrorEndpoint::ReceivePack)
    } else {
        None
    }
}

/// Whether a ref update can be a force push at all: neither side is the
/// zero id (creations and deletions never are).
pub fn may_be_force_push(old_sha: &str, new_sha: &str) -> (r: bool)
    ensures
        r == (old_sha@ != ZERO_SHA@ && new_sha@ != ZERO_SHA@),
{
    !(str_eq(old_sha, ZERO_SHA) || str_eq(new_sha, ZERO_SHA))
}


/// The names of the two platforms differ.
proof fn lemma_platform_names()
    ensures
        "github"@ != "gitlab"@,
        platform_named("github"@) == Some(MirrorPlatform::GitHub),
        platform_named("gitlab"@) == Some(MirrorPlatform::GitLab),
{
    reveal_strlit("github");
    reveal_strlit("gitlab");
    assert("github"@[4] != "gitlab"@[4]);
}

/// A repository name with `.git` appended loses it again.
proof fn lemma_strip_git_suffix(repo: Seq<char>)
    ensures
        strip_git_suffix(repo + ".git"@) == repo,
{
    reveal_strlit(".git");
    let r = repo + ".git"@;
    assert(r.subrange(r.len() - 4, r.len() as int) =~= ".git"@);
    assert(r.subrange(0, r.len() - 4) =~= repo);
}

/// A mirror path made of a platform, an external owner without `/` and a
/// repository name with `.git` parses back to that platform, owner and
/// repository.
pub proof fn law_valid_mirror_path_parses(platform: MirrorPlatform, owner: Seq<char>, repo: Seq<char>)
    requires
        forall|i: int| 0 <= i < owner.len() ==> owner[i] != '/',
    ensures
        mirror_of("mirrors/"@ + platform_name(platform) + "/"@ + owner, repo + ".git"@) == Some(
            (platform, owner, repo),
        ),
{
    reveal_strlit("mirrors/");
    reveal_strlit("mirrors");
    reveal_strlit("/");
    reveal_strlit("github");
    reveal_strlit("gitlab");
    lemma_platform_names();
    let pn = platform_name(platform);
    let m = "mirrors"@;
    assert("mirrors/"@ + pn + "/"@ + owner =~= m + seq!['/'] + (pn + seq!['/'] + owner));
    lemma_split_concat(m, pn + seq!['/'] + owner, '/');
    lemma_split_concat(pn, owner, '/');
    lemma_split_no_sep(m, '/');
    lemma_split_no_sep(pn, '/');
    lemma_split_no_sep(owner, '/');
    let parts = split_on("mirrors/"@ + pn + "/"@ + owner, '/');
    assert(parts =~= seq![m, pn, owner]);
    lemma_strip_git_suffix(repo);
}

/// An owner path whose first segment is not `mirrors` never parses as a
/// mirror path.
pub proof fn law_non_mirror_prefix_fails(prefix: Seq<char>, rest: Seq<char>, repo: Seq<char>)
    requires
        forall|i: int| 0 <= i < prefix.len() ==> prefix[i] != '/',
        prefix != "mirrors"@,
    ensures
        mirror_of(prefix + "/"@ + rest, repo) is None,
{
    reveal_strlit("/");
    assert(prefix + "/"@ + rest =~= prefix + seq!['/'] + rest);
    lemma_split_concat(prefix, rest, '/');
    lemma_split_no_sep(prefix, '/');
}

/// Every owner path that parses as a mirror path is under `mirrors/`, so
/// `is_mirror_path` holds of it.
pub proof fn law_mirror_paths_are_under_mirrors(owner: Seq<char>, repo: Seq<char>)
    requires
        mirror_of(owner, repo) is Some,
    ensures
        has_prefix(owner, "mirrors/"@),
{
    reveal_strlit("mirrors/");
    reveal_strlit("mirrors");
    lemma_split_first(owner, '/');
    assert("mirrors"@.push('/') =~= "mirrors/"@);
}

/// What precedes a last separator is found by `rfind_char`.
proof fn lemma_rfind_last_sep(a: Seq<char>, b: Seq<char>)
    requires
        forall|i: int| 0 <= i < b.len() ==> b[i] != '/',
    ensures
        rfind_char(a + seq!['/'] + b, '/') == Some(a.len() as int),
{
    let s = a + seq!['/'] + b;
    assert forall|j: int| a.len() + 1 <= j < s.len() implies s[j] != '/' by {
        assert(s[j] == b[j - a.len() - 1]);
    }
    lemma_rfind_char(s, '/', (a.len() + 1) as int);
}

/// The three endpoint suffixes end differently.
proof fn lemma_endpoint_suffixes(x: Seq<char>)
    ensures
        !has_suffix(x + "/git-upload-pack"@, "/info/refs"@),
        !has_suffix(x + "/git-receive-pack"@, "/info/refs"@),
        !has_suffix(x + "/git-receive-pack"@, "/git-upload-pack"@),
{
    reveal_strlit("/info/refs");
    reveal_strlit("/git-upload-pack");
    reveal_strlit("/git-receive-pack");
    let u = x + "/git-upload-pack"@;
    let r = x + "/git-receive-pack"@;
    assert(u[u.len() - 1] == 'k');
    assert(r[r.len() - 1] == 'k');
    assert(r[r.len() - 16] == 'g');
    if has_suffix(u, "/info/refs"@) {
        assert(u.subrange(u.len() - 10, u.len() as int)[9] == 's');
    }
    if has_suffix(r, "/info/refs"@) {
        assert(r.subrange(r.len() - 10, r.len() as int)[9] == 's');
    }
    if has_suffix(r, "/git-upload-pack"@) {
        assert(r.subrange(r.len() - 16, r.len() as int)[0] == '/');
    }
}

/// A path `<platform>/<owner>/<name><endpoint>` under `/git/mirrors/`
/// splits into the owner path `mirrors/<platform>/<owner>` and the
/// repository `<name>`, when the name holds no `/`.
pub proof fn law_mirror_git_path_roundtrip(platform: Seq<char>, owner: Seq<char>, name: Seq<char>, suffix: Seq<char>)
    requires
        platform.len() > 0,
        platform[0] != '/',
        name.len() > 0,
        forall|i: int| 0 <= i < name.len() ==> name[i] != '/',
        suffix == "/info/refs"@ || suffix == "/git-upload-pack"@ || suffix == "/git-receive-pack"@,
    ensures
        mirror_git_path(platform + "/"@ + owner + "/"@ + name + suffix) == Some(
            ("mirrors/"@ + platform + "/"@ + owner, name),
        ),
{
    reveal_strlit("/");
    let a = platform + "/"@ + owner;
    let x = a + seq!['/'] + name;
    let path = platform + "/"@ + owner + "/"@ + name + suffix;
    assert(path =~= x + suffix);
    assert(path[0] == platform[0]);
    assert(strip_leading_slash(path) == path);
    assert(path.subrange(path.len() - suffix.len(), path.len() as int) =~= suffix);
    assert(drop_suffix(path, suffix) =~= x);
    lemma_rfind_last_sep(a, name);
    assert(x.subrange(0, a.len() as int) =~= a);
    assert(x.subrange((a.len() + 1) as int, x.len() as int) =~= name);
    lemma_endpoint_suffixes(x);
}


/// The value of a run of hexadecimal digits.
pub open spec fn hex_number(s: Seq<u8>) -> nat
    decreases s.len(),
{
    if s.len() == 0 {
        0
    } else {
        hex_number(s.drop_last()) * 16 + hex_value(s.last())
    }
}

proof fn lemma_hex_bytes(n: nat)
    ensures
        hex_bytes(n).len() >= 1,
        hex_number(hex_bytes(n)) == n,
        forall|i: int| 0 <= i < hex_bytes(n).len() ==> is_hex_byte(#[trigger] hex_bytes(n)[i]),
        n < 16 ==> hex_bytes(n).len() <= 1,
        n < 256 ==> hex_bytes(n).len() <= 2,
        n < 4096 ==> hex_bytes(n).len() <= 3,
        n < 65536 ==> hex_bytes(n).len() <= 4,
    decreases n,
{
    if n < 16 {
        assert(hex_bytes(n).drop_last() =~= Seq::<u8>::empty());
        assert(hex_value(hex_digit(n)) == n);
        assert(hex_number(hex_bytes(n)) == hex_number(Seq::<u8>::empty()) * 16 + hex_value(hex_digit(n)));
    } else {
        lemma_hex_bytes(n / 16);
        let p = hex_bytes(n / 16);
        assert(hex_bytes(n).drop_last() =~= p);
        assert(hex_value(hex_digit(n % 16)) == n % 16);
        assert((n / 16) * 16 + n % 16 == n);
        assert(hex_bytes(n).last() == hex_digit(n % 16));
        assert(hex_number(hex_bytes(n)) == hex_number(p) * 16 + hex_value(hex_digit(n % 16)));
        assert forall|i: int| 0 <= i < hex_bytes(n).len() implies is_hex_byte(#[trigger] hex_bytes(n)[i]) by {
            if i < p.len() {
                assert(hex_bytes(n)[i] == p[i]);
            }
        }
    }
}

proof fn lemma_hex_number_zeros(z: Seq<u8>, s: Seq<u8>)
    requires
        forall|i: int| 0 <= i < z.len() ==> z[i] == 48u8,
    ensures
        hex_number(z + s) == hex_number(s),
    decreases s.len(),
{
    if s.len() == 0 {
        assert(z + s =~= z);
        lemma_hex_number_all_zero(z);
    } else {
        assert((z + s).drop_last() =~= z + s.drop_last());
        lemma_hex_number_zeros(z, s.drop_last());
    }
}

proof fn lemma_hex_number_all_zero(z: Seq<u8>)
    requires
        forall|i: int| 0 <= i < z.len() ==> z[i] == 48u8,
    ensures
        hex_number(z) == 0,
    decreases z.len(),
{
    if z.len() > 0 {
        lemma_hex_number_all_zero(z.drop_last());
    }
}

/// Four hexadecimal digits give their value as a pkt-line length.
proof fn lemma_hex4_pkt_len(n: nat)
    requires
        n < 65536,
    ensures
        hex4(n).len() == 4,
        pkt_len(hex4(n)) == n,
{
    lemma_hex_bytes(n);
    let d = hex_bytes(n);
    let z = Seq::new((4 - d.len()) as nat, |i: int| 48u8);
    let h = hex4(n);
    assert(h == z + d);
    lemma_hex_number_zeros(z, d);
    assert forall|i: int| 0 <= i < 4 implies is_hex_byte(#[trigger] h[i]) by {
        if i < z.len() {
            assert(h[i] == 48u8);
        } else {
            assert(h[i] == d[i - z.len()]);
        }
    }
    reveal_with_fuel(hex_number, 5);
    assert(h.drop_last().drop_last().drop_last().drop_last() =~= Seq::<u8>::empty());
    assert(h.drop_last().drop_last().drop_last().last() == h[0]);
    assert(h.drop_last().drop_last().last() == h[1]);
    assert(h.drop_last().last() == h[2]);
}

/// Joining the pieces of a split at spaces gives back the text.
pub proof fn lemma_join_split(s: Seq<char>)
    ensures
        join_spaces(split_on(s, ' ')) == s,
    decreases s.len(),
{
    crate::text::lemma_split_nonempty(s, ' ');
    if s.len() == 0 {
        assert(split_on(s, ' ') =~= seq![Seq::<char>::empty()]);
    } else {
        let d = s.drop_last();
        lemma_join_split(d);
        crate::text::lemma_split_nonempty(d, ' ');
        let p = split_on(d, ' ');
        let q = split_on(s, ' ');
        if s.last() == ' ' {
            assert(q.drop_last() =~= p);
            assert(s =~= d + seq![' '] + Seq::<char>::empty());
        } else if p.len() == 1 {
            assert(q =~= seq![p[0].push(s.last())]);
            assert(s =~= d.push(s.last()));
        } else {
            assert(q.drop_last() =~= p.drop_last());
            assert(q.last() =~= p.last().push(s.last()));
            assert(d == join_spaces(p));
            assert(s =~= d.push(s.last()));
            assert(join_spaces(p) == join_spaces(p.drop_last()) + seq![' '] + p.last());
            assert(s =~= join_spaces(p.drop_last()) + seq![' '] + p.last().push(s.last()));
        }
    }
}

/// The text a push command line ends with after its ref: nothing, or a NUL
/// and the capabilities.
pub open spec fn caps_suffix(caps: Option<Seq<char>>) -> Seq<char> {
    match caps {
        Some(c) => seq!['\0'] + c,
        None => Seq::empty(),
    }
}

/// A push command written as one pkt-line (old id, new id and ref
/// separated by spaces, optionally a NUL and capabilities, ended by a
/// newline) and a flush is read back as that one command, the capabilities
/// dropped, when the ids hold no space, the ref no NUL, the capabilities no
/// newline (without capabilities, the ref no final newline), and the line's
/// length fits four hexadecimal digits.
pub proof fn law_push_command_roundtrip(
    old_sha: Seq<char>,
    new_sha: Seq<char>,
    ref_name: Seq<char>,
    caps: Option<Seq<char>>,
)
    requires
        forall|i: int| 0 <= i < old_sha.len() ==> old_sha[i] != ' ',
        forall|i: int| 0 <= i < new_sha.len() ==> new_sha[i] != ' ',
        forall|i: int| 0 <= i < ref_name.len() ==> ref_name[i] != '\0',
        caps is None ==> !(ref_name.len() > 0 && ref_name.last() == '\n'),
        caps matches Some(c) ==> forall|i: int| 0 <= i < c.len() ==> c[i] != '\n',
        encode_utf8(old_sha + " "@ + new_sha + " "@ + ref_name + caps_suffix(caps) + "\n"@).len() + 4 < 65536,
    ensures
        ({
            let line = old_sha + " "@ + new_sha + " "@ + ref_name + caps_suffix(caps) + "\n"@;
            let body = hex4((encode_utf8(line).len() + 4) as nat) + encode_utf8(line) + seq![48u8, 48u8, 48u8, 48u8];
            &&& pkt_frames_ok(body, 0)
            &&& push_commands_from(body, 0) == seq![
                PushCommandView { old_sha: old_sha, new_sha: new_sha, ref_name: ref_name },
            ]
        }),
{
    broadcast use vstd::utf8::encode_utf8_valid_utf8, vstd::utf8::encode_utf8_decode_utf8;

    reveal_strlit(" ");
    reveal_strlit("\n");
    let tail = caps_suffix(caps);
    let rest = ref_name + tail;
    let line = old_sha + " "@ + new_sha + " "@ + ref_name + tail + "\n"@;
    let e = encode_utf8(line);
    let n = (e.len() + 4) as nat;
    let h = hex4(n);
    let z = seq![48u8, 48u8, 48u8, 48u8];
    let body = h + e + z;
    lemma_hex4_pkt_len(n);
    assert(body.subrange(0, 4) =~= h);
    assert(body.subrange(4, n as int) =~= e);
    assert(body.subrange(n as int, (n + 4) as int) =~= z);
    assert(pkt_len(z) == 0);
    // the line's text
    let t = old_sha + " "@ + new_sha + " "@ + rest;
    assert(line =~= t.push('\n'));
    assert(line.drop_last() =~= t);
    assert(line.last() == '\n');
    assert(trim_newlines(line) == trim_newlines(t));
    assert(t.len() > 0 && t.last() != '\n') by {
        if tail.len() > 0 {
            assert(t.last() == tail.last());
            match caps {
                Some(c) => {
                    if c.len() > 0 {
                        assert(tail.last() == c.last());
                    } else {
                        assert(tail.last() == '\0');
                    }
                },
                None => {},
            }
        } else if ref_name.len() > 0 {
            assert(t.last() == ref_name.last());
        } else {
            assert(t.last() == ' ');
        }
    }
    assert(trim_newlines(t) == t);
    assert(t =~= old_sha + seq![' '] + (new_sha + seq![' '] + rest));
    lemma_split_concat(old_sha, new_sha + seq![' '] + rest, ' ');
    lemma_split_concat(new_sha, rest, ' ');
    lemma_split_no_sep(old_sha, ' ');
    lemma_split_no_sep(new_sha, ' ');
    let parts = split_on(t, ' ');
    assert(parts =~= seq![old_sha, new_sha] + split_on(rest, ' '));
    assert(parts.subrange(2, parts.len() as int) =~= split_on(rest, ' '));
    lemma_join_split(rest);
    match caps {
        Some(c) => {
            assert(rest[ref_name.len() as int] == '\0');
            lemma_find_char_first(rest, '\0', ref_name.len() as int);
            assert(rest.subrange(0, ref_name.len() as int) =~= ref_name);
        },
        None => {
            assert(rest =~= ref_name);
            lemma_find_char_first(ref_name, '\0', ref_name.len() as int);
        },
    }
    assert(before_nul(rest) == ref_name);
    assert(command_of_line(e) == Some(PushCommandView { old_sha: old_sha, new_sha: new_sha, ref_name: ref_name }));
    assert(push_commands_from(body, n) =~= Seq::<PushCommandView>::empty());
    assert(pkt_frames_ok(body, n));
}

/// The query of a ref advertisement: the service asked for.
#[derive(Debug, Clone)]
pub struct InfoRefsParams {
    pub service: String,
}

} // verus!
