//! Local-first persistence of threads, messages and the thread index: the
//! records, where each is stored under the storage root, how a record is
//! stamped before it is written, which records a listing keeps, and the
//! order of listings.
//!
//! Threads are listed pinned first, then by last update, newest first;
//! messages by creation time, oldest first. The index holds one summary per
//! thread in the listing order.
use vstd::prelude::*;
use crate::agent_state::AgentStateSnapshot;
use crate::git_http::path_join;
use crate::order::{keys_of, sort_order, sort_positions, KeyView};
use crate::text::{chars_of, push_decimal, push_piece, push_str, string_of_str, str_eq};

verus! {

/// Current schema version of thread records.
pub const THREAD_SCHEMA_VERSION: u32 = 1;

/// Current schema version of message records.
pub const MESSAGE_SCHEMA_VERSION: u32 = 1;

/// Current schema version of the thread index.
pub const INDEX_SCHEMA_VERSION: u32 = 1;

/// Why a storage operation failed.
#[derive(Debug, Clone, PartialEq, Eq)]
pub enum StorageError {
    StorageUnavailable(String),
    SerializationFailed(String),
    AtomicWriteFailed(String),
    SchemaVersionMismatch { expected: u32, found: u32 },
    Io(String),
}

impl StorageError {
    /// The error's message.
    pub fn message(&self) -> (r: String)
        ensures
            r@ == match *self {
                StorageError::StorageUnavailable(m) => "storage unavailable: "@ + m@,
                StorageError::SerializationFailed(m) => "serialization failed: "@ + m@,
                StorageError::AtomicWriteFailed(m) => "atomic write failed: "@ + m@,
                StorageError::SchemaVersionMismatch { expected, found } => "schema version mismatch: expected "@
                    + crate::text::decimal_of_nat(expected as nat) + ", found "@ + crate::text::decimal_of_nat(
                    found as nat,
                ),
                StorageError::Io(m) => "io error: "@ + m@,
            },
    {
        match self {
            StorageError::StorageUnavailable(m) => crate::text::concat2("storage unavailable: ", m.as_str()),
            StorageError::SerializationFailed(m) => crate::text::concat2("serialization failed: ", m.as_str()),
            StorageError::AtomicWriteFailed(m) => crate::text::concat2("atomic write failed: ", m.as_str()),
            StorageError::SchemaVersionMismatch { expected, found } => {
                let mut out = string_of_str("schema version mismatch: expected ");
                push_decimal(&mut out, *expected as u64);
                push_str(&mut out, ", found ");
                push_decimal(&mut out, *found as u64);
                out
            },
            StorageError::Io(m) => crate::text::concat2("io error: ", m.as_str()),
        }
    }
}

/// Checks a loaded record's schema version against the current one.
pub fn check_schema_version(expected: u32, found: u32) -> (r: Result<(), StorageError>)
    ensures
        found == expected ==> r is Ok,
        found != expected ==> r == Err::<(), StorageError>(StorageError::SchemaVersionMismatch { expected, found }),
{
    if found == expected {
        Ok(())
    } else {
        Err(StorageError::SchemaVersionMismatch { expected, found })
    }
}

/// Privacy controls of a thread.
#[derive(Debug, Clone, Copy, PartialEq, Eq, Structural)]
pub struct ThreadPrivacy {
    pub local_only: bool,
    pub redact_inputs: bool,
    pub redact_outputs: bool,
}

impl Default for ThreadPrivacy {
    /// Local only, nothing redacted.
    fn default() -> (r: Self)
        ensures
            r.local_only && !r.redact_inputs && !r.redact_outputs,
    {
        ThreadPrivacy { local_only: true, redact_inputs: false, redact_outputs: false }
    }
}

/// User-defined metadata of a thread.
#[derive(Debug, Clone)]
pub struct ThreadMetadata {
    pub tags: Vec<String>,
    pub pinned: bool,
}

impl Default for ThreadMetadata {
    /// No tags, not pinned.
    fn default() -> (r: Self)
        ensures
            r.tags@.len() == 0 && !r.pinned,
    {
        ThreadMetadata { tags: Vec::new(), pinned: false }
    }
}

/// A conversation thread.
#[derive(Debug, Clone)]
pub struct ThreadRecord {
    pub schema_version: u32,
    pub id: String,
    pub title: String,
    pub created_at: String,
    pub updated_at: String,
    pub project_path: String,
    pub harness: String,
    pub model: String,
    pub last_session_id: Option<String>,
    pub state_snapshot: Option<AgentStateSnapshot>,
    pub privacy: ThreadPrivacy,
    pub metadata: ThreadMetadata,
}

/// The summary of a thread in lists.
#[derive(Debug, Clone)]
pub struct ThreadSummary {
    pub id: String,
    pub title: String,
    pub updated_at: String,
    pub project_path: String,
    pub harness: String,
    pub pinned: bool,
}

impl ThreadSummary {
    /// The summary of a thread record.
    pub fn from(record: &ThreadRecord) -> (r: ThreadSummary)
        ensures
            r.id == record.id,
            r.title == record.title,
            r.updated_at == record.updated_at,
            r.project_path == record.project_path,
            r.harness == record.harness,
            r.pinned == record.metadata.pinned,
    {
        ThreadSummary {
            id: record.id.clone(),
            title: record.title.clone(),
            updated_at: record.updated_at.clone(),
            project_path: record.project_path.clone(),
            harness: record.harness.clone(),
            pinned: record.metadata.pinned,
        }
    }

    /// A copy of the summary.
    pub fn duplicate(&self) -> (r: ThreadSummary)
        ensures
            r == *self,
    {
        ThreadSummary {
            id: self.id.clone(),
            title: self.title.clone(),
            updated_at: self.updated_at.clone(),
            project_path: self.project_path.clone(),
            harness: self.harness.clone(),
            pinned: self.pinned,
        }
    }
}

/// `<name>.json`.
pub open spec fn json_file(name: Seq<char>) -> Seq<char> {
    name + ".json"@
}

fn json_file_name(name: &str) -> (r: String)
    ensures
        r@ == json_file(name@),
{
    crate::text::concat2(name, ".json")
}

/// Where thread records are stored: `threads` under the storage root.
pub struct ThreadStore {
    root: String,
}

impl ThreadStore {
    /// The directory of thread records.
    pub closed spec fn dir(&self) -> Seq<char> {
        self.root@
    }

    /// A store under the storage root.
    pub fn new(root: &str) -> (r: ThreadStore)
        ensures
            r.dir() == path_join(root@, "threads"@),
    {
        ThreadStore { root: crate::git_http::join_path(root, "threads") }
    }

    /// The directory of thread records.
    pub fn path(&self) -> (r: &String)
        ensures
            r@ == self.dir(),
    {
        &self.root
    }

    /// Where the thread with an id is stored: `<id>.json` in the directory.
    pub fn thread_path(&self, thread_id: &str) -> (r: String)
        ensures
            r@ == path_join(self.dir(), json_file(thread_id@)),
    {
        let f = json_file_name(thread_id);
        crate::git_http::join_path(self.root.as_str(), f.as_str())
    }
}

/// A thread as it is written: current schema version, updated at `now`.
pub fn thread_saved_at(record: ThreadRecord, now: String) -> (r: ThreadRecord)
    ensures
        r == (ThreadRecord { schema_version: THREAD_SCHEMA_VERSION, updated_at: now, ..record }),
{
    ThreadRecord { schema_version: THREAD_SCHEMA_VERSION, updated_at: now, ..record }
}

/// A thread as it is written, stamped with the current time.
pub fn stamp_thread_for_save(record: ThreadRecord) -> (r: ThreadRecord)
    ensures
        r == (ThreadRecord { schema_version: THREAD_SCHEMA_VERSION, updated_at: r.updated_at, ..record }),
        crate::sys::is_utc_rfc3339_shaped(r.updated_at@),
{
    let now = crate::sys::now_rfc3339();
    thread_saved_at(record, now)
}

/// The role of a message's sender.
#[derive(Debug, Clone, Copy, PartialEq, Eq, Structural)]
pub enum MessageRole {
    User,
    Assistant,
    Tool,
    System,
}

/// One message of a conversation log.
#[derive(Debug, Clone)]
pub struct MessageRecord {
    pub schema_version: u32,
    pub id: String,
    pub thread_id: String,
    pub session_id: String,
    pub role: MessageRole,
    pub content: String,
    pub created_at: String,
    pub tool_call_id: Option<String>,
}

impl MessageRecord {
    /// A copy of the message.
    pub fn duplicate(&self) -> (r: MessageRecord)
        ensures
            r == *self,
    {
        MessageRecord {
            schema_version: self.schema_version,
            id: self.id.clone(),
            thread_id: self.thread_id.clone(),
            session_id: self.session_id.clone(),
            role: self.role,
            content: self.content.clone(),
            created_at: self.created_at.clone(),
            tool_call_id: match &self.tool_call_id {
                Some(t) => Some(t.clone()),
                None => None,
            },
        }
    }
}

/// Where messages are stored: `messages` under the storage root, one
/// directory per thread.
pub struct MessageStore {
    root: String,
}

impl MessageStore {
    /// The directory of all messages.
    pub closed spec fn dir(&self) -> Seq<char> {
        self.root@
    }

    /// A store under the storage root.
    pub fn new(root: &str) -> (r: MessageStore)
        ensures
            r.dir() == path_join(root@, "messages"@),
    {
        MessageStore { root: crate::git_http::join_path(root, "messages") }
    }

    /// The directory of all messages.
    pub fn path(&self) -> (r: &String)
        ensures
            r@ == self.dir(),
    {
        &self.root
    }

    /// The directory of a thread's messages.
    pub fn thread_dir(&self, thread_id: &str) -> (r: String)
        ensures
            r@ == path_join(self.dir(), thread_id@),
    {
        crate::git_http::join_path(self.root.as_str(), thread_id)
    }

    /// Where a message is stored: `<message id>.json` in its thread's
    /// directory.
    pub fn message_path(&self, thread_id: &str, message_id: &str) -> (r: String)
        ensures
            r@ == path_join(path_join(self.dir(), thread_id@), json_file(message_id@)),
    {
        let d = self.thread_dir(thread_id);
        let f = json_file_name(message_id);
        crate::git_http::join_path(d.as_str(), f.as_str())
    }
}

/// A message as it is appended: a missing id becomes `msg_<fresh id>`, the
/// schema version the current one, a missing creation time `now`.
pub fn message_prepared(record: MessageRecord, fresh_id: &str, now: String) -> (r: MessageRecord)
    ensures
        r.schema_version == MESSAGE_SCHEMA_VERSION,
        r.id@ == if record.id@.len() == 0 {
            "msg_"@ + fresh_id@
        } else {
            record.id@
        },
        r.created_at@ == if record.created_at@.len() == 0 {
            now@
        } else {
            record.created_at@
        },
        r.thread_id == record.thread_id,
        r.session_id == record.session_id,
        r.role == record.role,
        r.content == record.content,
        r.tool_call_id == record.tool_call_id,
{
    let id = if record.id.as_str().is_empty() {
        crate::text::concat2("msg_", fresh_id)
    } else {
        record.id
    };
    let created_at = if record.created_at.as_str().is_empty() {
        now
    } else {
        record.created_at
    };
    MessageRecord { schema_version: MESSAGE_SCHEMA_VERSION, id, created_at, ..record }
}

/// A message as it is appended, with a fresh random id when it has none and
/// the current time when it has no creation time.
pub fn prepare_message_for_append(record: MessageRecord) -> (r: MessageRecord)
    ensures
        r.schema_version == MESSAGE_SCHEMA_VERSION,
        record.id@.len() > 0 ==> r.id@ == record.id@,
        record.id@.len() == 0 ==> r.id@.len() == 4 + 36 && r.id@.subrange(0, 4) == "msg_"@
            && crate::sys::is_v4_uuid_text(r.id@.subrange(4, 40)),
        record.created_at@.len() > 0 ==> r.created_at@ == record.created_at@,
        record.created_at@.len() == 0 ==> crate::sys::is_utc_rfc3339_shaped(r.created_at@),
        r.thread_id == record.thread_id,
        r.session_id == record.session_id,
        r.role == record.role,
        r.content == record.content,
        r.tool_call_id == record.tool_call_id,
{
    proof {
        reveal_strlit("msg_");
    }
    let fresh = crate::sys::new_uuid_v4_string();
    let now = crate::sys::now_rfc3339();
    message_prepared(record, fresh.as_str(), now)
}

/// The listing key of a message: its creation time.
pub open spec fn message_keys(v: Seq<MessageRecord>) -> Seq<KeyView> {
    Seq::new(v.len(), |i: int| KeyView { group: 0u8, text: v[i].created_at@ })
}

/// Messages in listing order: by creation time, oldest first; messages
/// created at the same time keep their order.
pub fn sort_messages(messages: &Vec<MessageRecord>) -> (r: Vec<MessageRecord>)
    ensures
        r@ == sorted_messages(messages@),
{
    let mut groups: Vec<u8> = Vec::new();
    let mut texts: Vec<Vec<char>> = Vec::new();
    let mut i: usize = 0;
    while i < messages.len()
        invariant
            i <= messages.len(),
            groups@.len() == i,
            texts@.len() == i,
            forall|k: int| 0 <= k < i ==> (#[trigger] keys_of(groups@, texts.deep_view())[k]) == message_keys(messages@)[k],
        decreases messages.len() - i,
    {
        let ghost g0 = groups@;
        let ghost d0 = texts.deep_view();
        groups.push(0u8);
        let t = chars_of(messages[i].created_at.as_str());
        push_piece(&mut texts, t);
        assert(texts.deep_view().len() == texts@.len());
        proof {
            assert forall|k: int| 0 <= k < i + 1 implies (#[trigger] keys_of(groups@, texts.deep_view())[k]) == message_keys(messages@)[k] by {
                if k < i {
                    assert(keys_of(g0, d0)[k] == message_keys(messages@)[k]);
                }
            }
        }
        i = i + 1;
    }
    assert(keys_of(groups@, texts.deep_view()) =~= message_keys(messages@));
    let order = sort_positions(&groups, &texts, false);
    proof {
        crate::order::lemma_sort_order_len(message_keys(messages@), false, messages@.len());
    }
    let mut out: Vec<MessageRecord> = Vec::new();
    let mut k: usize = 0;
    while k < order.len()
        invariant
            k <= order.len(),
            order@.len() == messages@.len(),
            forall|t: int| 0 <= t < order@.len() ==> order@[t] as int == sort_order(message_keys(messages@), false, messages@.len())[t],
            forall|t: int| 0 <= t < order@.len() ==> 0 <= #[trigger] sort_order(message_keys(messages@), false, messages@.len())[t] < messages@.len(),
            out@.len() == k,
            forall|t: int|
                0 <= t < k ==> #[trigger] out@[t] == messages@[sort_order(message_keys(messages@), false, messages@.len())[t]],
        decreases order.len() - k,
    {
        let idx = order[k];
        assert(0 <= sort_order(message_keys(messages@), false, messages@.len())[k as int] < messages@.len());
        out.push(messages[idx].duplicate());
        k = k + 1;
    }
    assert(out@ =~= sorted_messages(messages@));
    out
}

/// Messages in listing order.
pub open spec fn sorted_messages(v: Seq<MessageRecord>) -> Seq<MessageRecord> {
    Seq::new(v.len(), |i: int| v[sort_order(message_keys(v), false, v.len())[i]])
}

/// The messages of the current schema version, in their order.
pub open spec fn current_messages(records: Seq<MessageRecord>) -> Seq<MessageRecord> {
    records.filter(is_current_message())
}

/// Whether a message has the current schema version.
pub open spec fn is_current_message() -> spec_fn(MessageRecord) -> bool {
    |m: MessageRecord| m.schema_version == MESSAGE_SCHEMA_VERSION
}

/// The message list of the records read from a thread's directory: those
/// with the current schema version, in listing order.
pub fn message_list_from_records(records: &Vec<MessageRecord>) -> (r: Vec<MessageRecord>)
    ensures
        r@ == sorted_messages(current_messages(records@)),
{
    let mut kept: Vec<MessageRecord> = Vec::new();
    let mut i: usize = 0;
    while i < records.len()
        invariant
            i <= records.len(),
            kept@ == current_messages(records@.take(i as int)),
        decreases records.len() - i,
    {
        assert(records@.take(i + 1).drop_last() =~= records@.take(i as int));
        if records[i].schema_version == MESSAGE_SCHEMA_VERSION {
            kept.push(records[i].duplicate());
        }
        assert(current_messages(records@.take(i + 1)) == if records@[i as int].schema_version
            == MESSAGE_SCHEMA_VERSION {
            current_messages(records@.take(i as int)).push(records@[i as int])
        } else {
            current_messages(records@.take(i as int))
        }) by {
            reveal(Seq::filter);
            assert(records@.take(i + 1).last() == records@[i as int]);
        }
        i = i + 1;
    }
    assert(records@.take(records.len() as int) =~= records@);
    sort_messages(&kept)
}

/// Listed messages are in order of creation time, oldest first.
pub proof fn law_messages_listed_oldest_first(messages: Seq<MessageRecord>, a: int, b: int)
    requires
        0 <= a < b < messages.len(),
    ensures
        crate::order::text_le(sorted_messages(messages)[a].created_at@, sorted_messages(messages)[b].created_at@),
{
    let o = sort_order(message_keys(messages), false, messages.len());
    crate::order::law_sort_order_sorted_and_stable(message_keys(messages), false, messages.len());
    crate::order::lemma_sort_order_len(message_keys(messages), false, messages.len());
    assert(crate::order::sorted_by_key(o, message_keys(messages), false));
    assert(crate::order::key_le(message_keys(messages)[o[a]], message_keys(messages)[o[b]], false));
}

/// The messages of a session, in order.
pub open spec fn session_messages(v: Seq<MessageRecord>, session_id: Seq<char>) -> Seq<MessageRecord> {
    v.filter(|m: MessageRecord| m.session_id@ == session_id)
}

/// The messages that a session produced, in their order.
pub fn messages_of_session(messages: &Vec<MessageRecord>, session_id: &str) -> (r: Vec<MessageRecord>)
    ensures
        r@ == session_messages(messages@, session_id@),
{
    let mut out: Vec<MessageRecord> = Vec::new();
    let mut i: usize = 0;
    while i < messages.len()
        invariant
            i <= messages.len(),
            out@ == session_messages(messages@.take(i as int), session_id@),
        decreases messages.len() - i,
    {
        assert(messages@.take(i + 1).drop_last() =~= messages@.take(i as int));
        if str_eq(messages[i].session_id.as_str(), session_id) {
            out.push(messages[i].duplicate());
        }
        assert(session_messages(messages@.take(i + 1), session_id@) == if messages@[i as int].session_id@ == session_id@ {
            session_messages(messages@.take(i as int), session_id@).push(messages@[i as int])
        } else {
            session_messages(messages@.take(i as int), session_id@)
        }) by {
            reveal(Seq::filter);
            assert(messages@.take(i + 1).last() == messages@[i as int]);
        }
        i = i + 1;
    }
    assert(messages@.take(messages.len() as int) =~= messages@);
    out
}

/// The listing key of a thread summary: pinned first, then by last update.
pub open spec fn summary_keys(v: Seq<ThreadSummary>) -> Seq<KeyView> {
    Seq::new(v.len(), |i: int| KeyView { group: if v[i].pinned { 0u8 } else { 1u8 }, text: v[i].updated_at@ })
}

/// Thread summaries in listing order: pinned first, then by last update,
/// newest first; summaries with equal keys keep their order.
pub fn sort_summaries(summaries: &Vec<ThreadSummary>) -> (r: Vec<ThreadSummary>)
    ensures
        r@ == sorted_summaries(summaries@),
{
    let mut groups: Vec<u8> = Vec::new();
    let mut texts: Vec<Vec<char>> = Vec::new();
    let mut i: usize = 0;
    while i < summaries.len()
        invariant
            i <= summaries.len(),
            groups@.len() == i,
            texts@.len() == i,
            forall|k: int| 0 <= k < i ==> (#[trigger] keys_of(groups@, texts.deep_view())[k]) == summary_keys(summaries@)[k],
        decreases summaries.len() - i,
    {
        let ghost g0 = groups@;
        let ghost d0 = texts.deep_view();
        groups.push(if summaries[i].pinned { 0u8 } else { 1u8 });
        let t = chars_of(summaries[i].updated_at.as_str());
        push_piece(&mut texts, t);
        assert(texts.deep_view().len() == texts@.len());
        proof {
            assert forall|k: int| 0 <= k < i + 1 implies (#[trigger] keys_of(groups@, texts.deep_view())[k]) == summary_keys(summaries@)[k] by {
                if k < i {
                    assert(keys_of(g0, d0)[k] == summary_keys(summaries@)[k]);
                }
            }
        }
        i = i + 1;
    }
    assert(keys_of(groups@, texts.deep_view()) =~= summary_keys(summaries@));
    let order = sort_positions(&groups, &texts, true);
    proof {
        crate::order::lemma_sort_order_len(summary_keys(summaries@), true, summaries@.len());
    }
    let mut out: Vec<ThreadSummary> = Vec::new();
    let mut k: usize = 0;
    while k < order.len()
        invariant
            k <= order.len(),
            order@.len() == summaries@.len(),
            forall|t: int| 0 <= t < order@.len() ==> order@[t] as int == sort_order(summary_keys(summaries@), true, summaries@.len())[t],
            forall|t: int| 0 <= t < order@.len() ==> 0 <= #[trigger] sort_order(summary_keys(summaries@), true, summaries@.len())[t] < summaries@.len(),
            out@.len() == k,
            forall|t: int|
                0 <= t < k ==> #[trigger] out@[t] == summaries@[sort_order(summary_keys(summaries@), true, summaries@.len())[t]],
        decreases order.len() - k,
    {
        let idx = order[k];
        assert(0 <= sort_order(summary_keys(summaries@), true, summaries@.len())[k as int] < summaries@.len());
        out.push(summaries[idx].duplicate());
        k = k + 1;
    }
    assert(out@ =~= sorted_summaries(summaries@));
    out
}


/// Summaries in listing order.
pub open spec fn sorted_summaries(v: Seq<ThreadSummary>) -> Seq<ThreadSummary> {
    Seq::new(v.len(), |i: int| v[sort_order(summary_keys(v), true, v.len())[i]])
}

/// The summary of a thread record.
pub open spec fn summary_of(r: ThreadRecord) -> ThreadSummary {
    ThreadSummary {
        id: r.id,
        title: r.title,
        updated_at: r.updated_at,
        project_path: r.project_path,
        harness: r.harness,
        pinned: r.metadata.pinned,
    }
}

/// The summaries of the records with the current schema version, in
/// their order.
pub open spec fn current_summaries(records: Seq<ThreadRecord>) -> Seq<ThreadSummary>
    decreases records.len(),
{
    if records.len() == 0 {
        Seq::empty()
    } else {
        let prev = current_summaries(records.drop_last());
        if records.last().schema_version == THREAD_SCHEMA_VERSION {
            prev.push(summary_of(records.last()))
        } else {
            prev
        }
    }
}

/// The thread list of the records read from the threads directory: the
/// summaries of those with the current schema version, in listing order.
pub fn thread_list_from_records(records: &Vec<ThreadRecord>) -> (r: Vec<ThreadSummary>)
    ensures
        r@ == sorted_summaries(current_summaries(records@)),
{
    let mut kept: Vec<ThreadSummary> = Vec::new();
    let mut i: usize = 0;
    while i < records.len()
        invariant
            i <= records.len(),
            kept@ == current_summaries(records@.take(i as int)),
        decreases records.len() - i,
    {
        assert(records@.take(i + 1).drop_last() =~= records@.take(i as int));
        if records[i].schema_version == THREAD_SCHEMA_VERSION {
            let s = ThreadSummary::from(&records[i]);
            kept.push(s);
        }
        i = i + 1;
    }
    assert(records@.take(records.len() as int) =~= records@);
    sort_summaries(&kept)
}

/// The summaries whose id differs from `id`, in their order.
pub open spec fn without_id(v: Seq<ThreadSummary>, id: Seq<char>) -> Seq<ThreadSummary> {
    v.filter(id_differs(id))
}

/// Whether a summary's id differs from `id`.
pub open spec fn id_differs(id: Seq<char>) -> spec_fn(ThreadSummary) -> bool {
    |t: ThreadSummary| t.id@ != id
}

/// The index after upserting a summary: the summaries with other ids and
/// the new one, in listing order.
pub open spec fn upserted(threads: Seq<ThreadSummary>, summary: ThreadSummary) -> Seq<ThreadSummary> {
    sorted_summaries(without_id(threads, summary.id@).push(summary))
}

fn summaries_without_id(v: &Vec<ThreadSummary>, id: &str) -> (r: Vec<ThreadSummary>)
    ensures
        r@ == without_id(v@, id@),
{
    let mut out: Vec<ThreadSummary> = Vec::new();
    let mut i: usize = 0;
    while i < v.len()
        invariant
            i <= v.len(),
            out@ == without_id(v@.take(i as int), id@),
        decreases v.len() - i,
    {
        assert(v@.take(i + 1).drop_last() =~= v@.take(i as int));
        if !str_eq(v[i].id.as_str(), id) {
            out.push(v[i].duplicate());
        }
        assert(without_id(v@.take(i + 1), id@) == if v@[i as int].id@ != id@ {
            without_id(v@.take(i as int), id@).push(v@[i as int])
        } else {
            without_id(v@.take(i as int), id@)
        }) by {
            reveal(Seq::filter);
            assert(v@.take(i + 1).last() == v@[i as int]);
        }
        i = i + 1;
    }
    assert(v@.take(v.len() as int) =~= v@);
    out
}

/// The index of recent threads, in listing order.
#[derive(Debug, Clone)]
pub struct ThreadIndex {
    pub schema_version: u32,
    pub threads: Vec<ThreadSummary>,
    pub rebuilt_at: String,
}

impl ThreadIndex {
    /// An empty index of the current schema, rebuilt at `now`.
    pub fn empty_at(now: String) -> (r: ThreadIndex)
        ensures
            r.schema_version == INDEX_SCHEMA_VERSION,
            r.threads@.len() == 0,
            r.rebuilt_at == now,
    {
        ThreadIndex { schema_version: INDEX_SCHEMA_VERSION, threads: Vec::new(), rebuilt_at: now }
    }

    /// The index rebuilt from the summaries listed at `now`.
    pub fn rebuilt_from(threads: Vec<ThreadSummary>, now: String) -> (r: ThreadIndex)
        ensures
            r.schema_version == INDEX_SCHEMA_VERSION,
            r.threads == threads,
            r.rebuilt_at == now,
    {
        ThreadIndex { schema_version: INDEX_SCHEMA_VERSION, threads, rebuilt_at: now }
    }

    /// Whether a loaded index can be used as it is (its schema is current);
    /// otherwise it is rebuilt.
    pub fn is_current(&self) -> (r: bool)
        ensures
            r == (self.schema_version == INDEX_SCHEMA_VERSION),
    {
        self.schema_version == INDEX_SCHEMA_VERSION
    }

    /// Inserts or replaces the summary of a thread, keeping listing order.
    pub fn upsert_thread(&mut self, summary: ThreadSummary)
        ensures
            final(self).threads@ == upserted(old(self).threads@, summary),
            final(self).schema_version == old(self).schema_version,
            final(self).rebuilt_at == old(self).rebuilt_at,
    {
        let mut kept = summaries_without_id(&self.threads, summary.id.as_str());
        kept.push(summary);
        self.threads = sort_summaries(&kept);
    }

    /// Removes the summary of a thread.
    pub fn remove_thread(&mut self, thread_id: &str)
        ensures
            final(self).threads@ == without_id(old(self).threads@, thread_id@),
            final(self).schema_version == old(self).schema_version,
            final(self).rebuilt_at == old(self).rebuilt_at,
    {
        self.threads = summaries_without_id(&self.threads, thread_id);
    }
}

impl Default for ThreadIndex {
    /// An empty index of the current schema, rebuilt now.
    fn default() -> (r: Self)
        ensures
            r.schema_version == INDEX_SCHEMA_VERSION,
            r.threads@.len() == 0,
            crate::sys::is_utc_rfc3339_shaped(r.rebuilt_at@),
    {
        ThreadIndex::empty_at(crate::sys::now_rfc3339())
    }
}

/// Where the index is stored: `index.json` under the storage root.
pub struct IndexStore {
    root: String,
}

impl IndexStore {
    /// The storage root.
    pub closed spec fn dir(&self) -> Seq<char> {
        self.root@
    }

    /// A store under the storage root.
    pub fn new(root: &str) -> (r: IndexStore)
        ensures
            r.dir() == root@,
    {
        IndexStore { root: string_of_str(root) }
    }

    /// Where the index is stored.
    pub fn index_path(&self) -> (r: String)
        ensures
            r@ == path_join(self.dir(), "index.json"@),
    {
        crate::git_http::join_path(self.root.as_str(), "index.json")
    }
}

/// Where session records are stored: `sessions` under the storage root.
pub struct SessionStore {
    root: String,
}

impl SessionStore {
    /// The directory of session records.
    pub closed spec fn dir(&self) -> Seq<char> {
        self.root@
    }

    /// A store under the storage root.
    pub fn new(root: &str) -> (r: SessionStore)
        ensures
            r.dir() == path_join(root@, "sessions"@),
    {
        SessionStore { root: crate::git_http::join_path(root, "sessions") }
    }

    /// The directory of session records.
    pub fn path(&self) -> (r: &String)
        ensures
            r@ == self.dir(),
    {
        &self.root
    }
}

/// The positions of the upserted list: each is one of the kept summaries
/// or the new one, which takes the last position.
proof fn lemma_upserted_entry(threads: Seq<ThreadSummary>, summary: ThreadSummary, i: int)
    requires
        0 <= i < upserted(threads, summary).len(),
    ensures
        ({
            let v = without_id(threads, summary.id@).push(summary);
            let o = sort_order(summary_keys(v), true, v.len());
            &&& 0 <= o[i] < v.len()
            &&& upserted(threads, summary)[i] == v[o[i]]
        }),
{
    let v = without_id(threads, summary.id@).push(summary);
    crate::order::lemma_sort_order_len(summary_keys(v), true, v.len());
}

/// After an upsert, the index holds the new summary.
pub proof fn law_upsert_holds_summary(threads: Seq<ThreadSummary>, summary: ThreadSummary)
    ensures
        upserted(threads, summary).contains(summary),
        upserted(threads, summary).len() == without_id(threads, summary.id@).len() + 1,
{
    let v = without_id(threads, summary.id@).push(summary);
    let n = v.len();
    crate::order::lemma_sort_order_covers(summary_keys(v), true, n, n - 1);
    let i = choose|i: int| 0 <= i < n && #[trigger] sort_order(summary_keys(v), true, n)[i] == n - 1;
    assert(upserted(threads, summary)[i] == summary);
}

/// After an upsert, every summary in the index with the upserted id is the
/// new summary: the index holds one summary per upserted thread.
pub proof fn law_upsert_replaces_same_id(threads: Seq<ThreadSummary>, summary: ThreadSummary, i: int)
    requires
        0 <= i < upserted(threads, summary).len(),
        upserted(threads, summary)[i].id@ == summary.id@,
    ensures
        upserted(threads, summary)[i] == summary,
{
    let kept = without_id(threads, summary.id@);
    let v = kept.push(summary);
    lemma_upserted_entry(threads, summary, i);
    let o = sort_order(summary_keys(v), true, v.len());
    if o[i] < kept.len() {
        threads.lemma_filter_pred(id_differs(summary.id@), o[i]);
        assert(v[o[i]] == kept[o[i]]);
    }
}

/// After an upsert, the index holds exactly one summary with the upserted
/// id, and it is the new summary.
pub proof fn law_upsert_exactly_one(threads: Seq<ThreadSummary>, summary: ThreadSummary)
    ensures
        exists|i: int|
            0 <= i < upserted(threads, summary).len() && upserted(threads, summary)[i] == summary && (forall|j: int|
                0 <= j < upserted(threads, summary).len() && (#[trigger] upserted(threads, summary)[j]).id@
                    == summary.id@ ==> j == i),
{
    let kept = without_id(threads, summary.id@);
    let v = kept.push(summary);
    let n = v.len();
    let o = sort_order(summary_keys(v), true, n);
    let u = upserted(threads, summary);
    crate::order::lemma_sort_order_len(summary_keys(v), true, n);
    crate::order::lemma_sort_order_no_duplicates(summary_keys(v), true, n);
    crate::order::lemma_sort_order_covers(summary_keys(v), true, n, n - 1);
    let i = choose|i: int| 0 <= i < n && #[trigger] sort_order(summary_keys(v), true, n)[i] == n - 1;
    assert(u[i] == summary);
    assert forall|j: int| 0 <= j < u.len() && (#[trigger] u[j]).id@ == summary.id@ implies j == i by {
        lemma_upserted_entry(threads, summary, j);
        if o[j] < kept.len() {
            threads.lemma_filter_pred(id_differs(summary.id@), o[j]);
            assert(v[o[j]] == kept[o[j]]);
        }
        assert(o[j] == n - 1);
        if j != i {
            assert(o[j] != o[i]);
        }
    }
}

/// After an upsert, every summary of another thread is still in the index.
pub proof fn law_upsert_keeps_other_threads(threads: Seq<ThreadSummary>, summary: ThreadSummary, t: ThreadSummary)
    requires
        threads.contains(t),
        t.id@ != summary.id@,
    ensures
        upserted(threads, summary).contains(t),
{
    let kept = without_id(threads, summary.id@);
    let v = kept.push(summary);
    let n = v.len();
    let k = choose|k: int| 0 <= k < threads.len() && threads[k] == t;
    threads.lemma_filter_contains(id_differs(summary.id@), k);
    let j = choose|j: int| 0 <= j < kept.len() && kept[j] == t;
    crate::order::lemma_sort_order_covers(summary_keys(v), true, n, j);
    let i = choose|i: int| 0 <= i < n && #[trigger] sort_order(summary_keys(v), true, n)[i] == j;
    assert(upserted(threads, summary)[i] == t);
}

/// After an upsert, the index lists pinned threads first and, within each
/// group, later updates first; equal keys keep their order.
pub proof fn law_upsert_listing_order(threads: Seq<ThreadSummary>, summary: ThreadSummary, a: int, b: int)
    requires
        0 <= a < b < upserted(threads, summary).len(),
    ensures
        crate::order::key_le(
            summary_keys(upserted(threads, summary))[a],
            summary_keys(upserted(threads, summary))[b],
            true,
        ),
{
    let v = without_id(threads, summary.id@).push(summary);
    let o = sort_order(summary_keys(v), true, v.len());
    crate::order::law_sort_order_sorted_and_stable(summary_keys(v), true, v.len());
    crate::order::lemma_sort_order_len(summary_keys(v), true, v.len());
    lemma_upserted_entry(threads, summary, a);
    lemma_upserted_entry(threads, summary, b);
    assert(crate::order::sorted_by_key(o, summary_keys(v), true));
    assert(crate::order::key_le(summary_keys(v)[o[a]], summary_keys(v)[o[b]], true));
    assert(summary_keys(upserted(threads, summary))[a] == summary_keys(v)[o[a]]);
    assert(summary_keys(upserted(threads, summary))[b] == summary_keys(v)[o[b]]);
}

/// After removing a thread, no summary of it is left, and the others stay
/// in their order.
pub proof fn law_remove_drops_thread(threads: Seq<ThreadSummary>, thread_id: Seq<char>, i: int)
    requires
        0 <= i < without_id(threads, thread_id).len(),
    ensures
        without_id(threads, thread_id)[i].id@ != thread_id,
{
    threads.lemma_filter_pred(id_differs(thread_id), i);
}

/// What the `session:resumed` event carries: the thread and the session
/// that serves it now.
#[derive(Debug, Clone)]
pub struct SessionResumedPayload {
    pub thread_id: String,
    pub session_id: String,
}

/// What resuming a thread has learnt so far.
#[derive(Debug, Clone)]
pub struct ResumeFacts {
    /// The loaded thread's id.
    pub thread_id: String,
    /// The loaded thread's last session, if it has one.
    pub last_session_id: Option<String>,
    /// Whether that session was loaded and is running, once looked up (a
    /// missing or unreadable session counts as not running).
    pub last_running: Option<bool>,
    /// The id of the new session, once creating one was tried (`Some(None)`:
    /// creating failed).
    pub created: Option<Option<String>>,
    /// Whether saving the thread with the new last session succeeded, once
    /// tried.
    pub thread_saved: Option<bool>,
    /// Whether updating the index with the saved thread succeeded, once
    /// tried.
    pub index_updated: Option<bool>,
}

/// The next step of resuming a thread.
#[derive(Debug, Clone)]
pub enum ResumeStep {
    /// Load the session with this id.
    LoadLastSession(String),
    /// Create a session for the thread's project.
    CreateSession,
    /// Save the thread with this session as its last one.
    SaveThread(String),
    /// Upsert the saved thread's summary into the index.
    UpdateIndex,
    /// The store call just made failed: return its error.
    Fail,
    /// Emit `session:resumed` with this payload and answer; the flag says
    /// whether the session is new.
    Resumed(SessionResumedPayload, bool),
}

/// The next step of resuming a thread, as plain values.
pub enum ResumeStepView {
    LoadLastSession(Seq<char>),
    CreateSession,
    SaveThread(Seq<char>),
    UpdateIndex,
    Fail,
    /// The thread id, the session id and whether the session is new.
    Resumed(Seq<char>, Seq<char>, bool),
}

impl View for ResumeStep {
    type V = ResumeStepView;

    open spec fn view(&self) -> ResumeStepView {
        match self {
            ResumeStep::LoadLastSession(id) => ResumeStepView::LoadLastSession(id@),
            ResumeStep::CreateSession => ResumeStepView::CreateSession,
            ResumeStep::SaveThread(id) => ResumeStepView::SaveThread(id@),
            ResumeStep::UpdateIndex => ResumeStepView::UpdateIndex,
            ResumeStep::Fail => ResumeStepView::Fail,
            ResumeStep::Resumed(p, new_session) => ResumeStepView::Resumed(p.thread_id@, p.session_id@, *new_session),
        }
    }
}

/// The steps of resuming with a new session: create it, save the thread
/// with it as the last session, update the index, then announce it.
pub open spec fn resume_with_new_session(f: ResumeFacts) -> ResumeStepView {
    match f.created {
        None => ResumeStepView::CreateSession,
        Some(None) => ResumeStepView::Fail,
        Some(Some(sid)) => match f.thread_saved {
            None => ResumeStepView::SaveThread(sid@),
            Some(false) => ResumeStepView::Fail,
            Some(true) => match f.index_updated {
                None => ResumeStepView::UpdateIndex,
                Some(false) => ResumeStepView::Fail,
                Some(true) => ResumeStepView::Resumed(f.thread_id@, sid@, true),
            },
        },
    }
}

/// The next step of resuming a thread: its last session is reused only
/// while it is running; otherwise a new one is created and recorded as the
/// thread's last session. Either way `session:resumed` is emitted.
pub open spec fn resume_step_of(f: ResumeFacts) -> ResumeStepView {
    match f.last_session_id {
        Some(id) => match f.last_running {
            None => ResumeStepView::LoadLastSession(id@),
            Some(true) => ResumeStepView::Resumed(f.thread_id@, id@, false),
            Some(false) => resume_with_new_session(f),
        },
        None => resume_with_new_session(f),
    }
}

/// The steps of resuming with a new session.
fn resume_with_new_session_step(f: &ResumeFacts) -> (r: ResumeStep)
    ensures
        r@ == resume_with_new_session(*f),
{
    match &f.created {
        None => ResumeStep::CreateSession,
        Some(None) => ResumeStep::Fail,
        Some(Some(sid)) => match f.thread_saved {
            None => ResumeStep::SaveThread(string_of_str(sid.as_str())),
            Some(false) => ResumeStep::Fail,
            Some(true) => match f.index_updated {
                None => ResumeStep::UpdateIndex,
                Some(false) => ResumeStep::Fail,
                Some(true) => ResumeStep::Resumed(
                    SessionResumedPayload {
                        thread_id: string_of_str(f.thread_id.as_str()),
                        session_id: string_of_str(sid.as_str()),
                    },
                    true,
                ),
            },
        },
    }
}

/// The next step of resuming a thread.
pub fn resume_step(f: &ResumeFacts) -> (r: ResumeStep)
    ensures
        r@ == resume_step_of(*f),
{
    match &f.last_session_id {
        Some(id) => match f.last_running {
            None => ResumeStep::LoadLastSession(string_of_str(id.as_str())),
            Some(true) => ResumeStep::Resumed(
                SessionResumedPayload {
                    thread_id: string_of_str(f.thread_id.as_str()),
                    session_id: string_of_str(id.as_str()),
                },
                false,
            ),
            Some(false) => resume_with_new_session_step(f),
        },
        None => resume_with_new_session_step(f),
    }
}

/// Resuming never creates a session while the last one is running, and a
/// new session is announced only once it is the thread's saved last
/// session and the index holds it.
pub proof fn law_resume_reuses_running_session(f: ResumeFacts)
    ensures
        (f.last_session_id is Some && f.last_running == Some(true)) ==> resume_step_of(f) == ResumeStepView::Resumed(
            f.thread_id@,
            f.last_session_id->0@,
            false,
        ),
        resume_step_of(f) matches ResumeStepView::Resumed(_, sid, true) ==> f.created matches Some(Some(s)) && s@
            == sid && f.thread_saved == Some(true) && f.index_updated == Some(true),
{
}

} // verus!
