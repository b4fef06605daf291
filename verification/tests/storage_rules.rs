use maestro::storage::{
    check_schema_version, message_list_from_records, message_prepared, messages_of_session,
    prepare_message_for_append, resume_step, sort_messages, thread_list_from_records, ResumeFacts, ResumeStep,
    thread_saved_at, IndexStore, MessageRecord, MessageRole, MessageStore, SessionStore, StorageError, ThreadIndex,
    ThreadMetadata, ThreadPrivacy, ThreadRecord, ThreadStore, ThreadSummary, INDEX_SCHEMA_VERSION,
    MESSAGE_SCHEMA_VERSION, THREAD_SCHEMA_VERSION,
};

fn summary(id: &str, title: &str, updated_at: &str, pinned: bool) -> ThreadSummary {
    ThreadSummary {
        id: id.to_string(),
        title: title.to_string(),
        updated_at: updated_at.to_string(),
        project_path: "/test".to_string(),
        harness: "opencode".to_string(),
        pinned,
    }
}

fn make_test_thread(id: &str, updated_at: &str, pinned: bool) -> ThreadRecord {
    ThreadRecord {
        schema_version: THREAD_SCHEMA_VERSION,
        id: id.to_string(),
        title: format!("Test Thread {}", id),
        created_at: "2026-01-21T10:00:00Z".to_string(),
        updated_at: updated_at.to_string(),
        project_path: "/test/project".to_string(),
        harness: "opencode".to_string(),
        model: "gpt-4.1".to_string(),
        last_session_id: None,
        state_snapshot: None,
        privacy: ThreadPrivacy::default(),
        metadata: ThreadMetadata { tags: vec![], pinned },
    }
}

fn make_test_message(id: &str, session_id: &str, created_at: &str) -> MessageRecord {
    MessageRecord {
        schema_version: MESSAGE_SCHEMA_VERSION,
        id: id.to_string(),
        thread_id: "thr_1".to_string(),
        session_id: session_id.to_string(),
        role: MessageRole::User,
        content: format!("content of {}", id),
        created_at: created_at.to_string(),
        tool_call_id: None,
    }
}

#[test]
fn test_upsert_thread_maintains_sort_order() {
    let mut index = ThreadIndex::empty_at("2026-01-21T00:00:00Z".to_string());
    index.upsert_thread(summary("thr_1", "Thread 1", "2026-01-21T10:00:00Z", false));
    index.upsert_thread(summary("thr_2", "Thread 2", "2026-01-21T11:00:00Z", false));
    index.upsert_thread(summary("thr_3", "Thread 3", "2026-01-21T09:00:00Z", true));
    assert_eq!(index.threads[0].id, "thr_3");
    assert_eq!(index.threads[1].id, "thr_2");
    assert_eq!(index.threads[2].id, "thr_1");
}

#[test]
fn test_upsert_updates_existing_thread() {
    let mut index = ThreadIndex::empty_at("2026-01-21T00:00:00Z".to_string());
    index.upsert_thread(summary("thr_1", "Original Title", "2026-01-21T10:00:00Z", false));
    index.upsert_thread(summary("thr_1", "Updated Title", "2026-01-21T12:00:00Z", false));
    assert_eq!(index.threads.len(), 1);
    assert_eq!(index.threads[0].title, "Updated Title");
}

#[test]
fn test_remove_thread() {
    let mut index = ThreadIndex::empty_at("2026-01-21T00:00:00Z".to_string());
    index.upsert_thread(summary("thr_1", "Thread 1", "2026-01-21T10:00:00Z", false));
    index.upsert_thread(summary("thr_2", "Thread 2", "2026-01-21T11:00:00Z", false));
    index.remove_thread("thr_1");
    assert_eq!(index.threads.len(), 1);
    assert_eq!(index.threads[0].id, "thr_2");
}

#[test]
fn index_schema_is_checked() {
    let mut index = ThreadIndex::empty_at("now".to_string());
    assert!(index.is_current());
    index.schema_version = 999;
    assert!(!index.is_current());
    assert_eq!(ThreadIndex::default().schema_version, INDEX_SCHEMA_VERSION);
}

#[test]
fn test_list_threads_sorted() {
    let records = vec![
        make_test_thread("thr_1", "2026-01-21T10:00:00Z", false),
        make_test_thread("thr_2", "2026-01-21T11:00:00Z", false),
        make_test_thread("thr_3", "2026-01-21T09:00:00Z", true),
    ];
    let list = thread_list_from_records(&records);
    let ids: Vec<&str> = list.iter().map(|s| s.id.as_str()).collect();
    assert_eq!(ids, vec!["thr_3", "thr_2", "thr_1"]);
}

#[test]
fn thread_list_skips_other_schema_versions() {
    let mut old = make_test_thread("thr_old", "2026-01-21T12:00:00Z", false);
    old.schema_version = 999;
    let records = vec![old, make_test_thread("thr_1", "2026-01-21T10:00:00Z", false)];
    let list = thread_list_from_records(&records);
    assert_eq!(list.len(), 1);
    assert_eq!(list[0].id, "thr_1");
}

#[test]
fn thread_summary_from_record() {
    let record = make_test_thread("thr_9", "t", true);
    let s = ThreadSummary::from(&record);
    assert_eq!(s.id, "thr_9");
    assert_eq!(s.title, "Test Thread thr_9");
    assert!(s.pinned);
}

#[test]
fn saved_thread_is_stamped() {
    let mut record = make_test_thread("thr_1", "old", false);
    record.schema_version = 0;
    let saved = thread_saved_at(record, "2026-02-01T00:00:00Z".to_string());
    assert_eq!(saved.schema_version, THREAD_SCHEMA_VERSION);
    assert_eq!(saved.updated_at, "2026-02-01T00:00:00Z");
}

fn new_message(thread_id: &str, session_id: &str, role: MessageRole) -> MessageRecord {
    MessageRecord {
        schema_version: MESSAGE_SCHEMA_VERSION,
        id: String::new(),
        thread_id: thread_id.to_string(),
        session_id: session_id.to_string(),
        role,
        content: "Test message content".to_string(),
        created_at: String::new(),
        tool_call_id: None,
    }
}

#[test]
fn test_list_by_thread_preserves_order() {
    let mut msg1 = new_message("thr_123", "ses_456", MessageRole::User);
    msg1.created_at = "2026-01-21T10:00:00Z".to_string();
    msg1.content = "First".to_string();
    let mut msg2 = new_message("thr_123", "ses_456", MessageRole::Assistant);
    msg2.created_at = "2026-01-21T10:01:00Z".to_string();
    msg2.content = "Second".to_string();
    let mut msg3 = new_message("thr_123", "ses_456", MessageRole::User);
    msg3.created_at = "2026-01-21T10:02:00Z".to_string();
    msg3.content = "Third".to_string();
    let stored = vec![
        prepare_message_for_append(msg2),
        prepare_message_for_append(msg1),
        prepare_message_for_append(msg3),
    ];
    let messages = message_list_from_records(&stored);
    assert_eq!(messages.len(), 3);
    assert_eq!(messages[0].content, "First");
    assert_eq!(messages[1].content, "Second");
    assert_eq!(messages[2].content, "Third");
}

#[test]
fn message_list_skips_other_schema_versions() {
    let mut old = make_test_message("msg_old", "sess_1", "2026-01-21T09:00:00Z");
    old.schema_version = 999;
    let records = vec![make_test_message("msg_2", "sess_1", "2026-01-21T10:00:02Z"), old,
        make_test_message("msg_1", "sess_1", "2026-01-21T10:00:01Z")];
    let list = message_list_from_records(&records);
    let ids: Vec<&str> = list.iter().map(|m| m.id.as_str()).collect();
    assert_eq!(ids, vec!["msg_1", "msg_2"]);
}

#[test]
fn prepared_message_gets_a_v4_id_and_utc_time() {
    let m = prepare_message_for_append(new_message("thr_1", "s", MessageRole::User));
    assert!(m.id.starts_with("msg_"));
    let uuid = &m.id[4..];
    assert_eq!(uuid.len(), 36);
    assert_eq!(&uuid[14..15], "4");
    assert!(matches!(&uuid[19..20], "8" | "9" | "a" | "b"));
    assert!(m.created_at.ends_with("+00:00"));
}

fn resume_facts() -> ResumeFacts {
    ResumeFacts {
        thread_id: "thr_1".to_string(),
        last_session_id: Some("ses_1".to_string()),
        last_running: None,
        created: None,
        thread_saved: None,
        index_updated: None,
    }
}

#[test]
fn resume_reuses_a_running_session() {
    let mut f = resume_facts();
    assert!(matches!(resume_step(&f), ResumeStep::LoadLastSession(id) if id == "ses_1"));
    f.last_running = Some(true);
    match resume_step(&f) {
        ResumeStep::Resumed(p, new_session) => {
            assert_eq!(p.thread_id, "thr_1");
            assert_eq!(p.session_id, "ses_1");
            assert!(!new_session);
        },
        other => panic!("unexpected {:?}", other),
    }
}

#[test]
fn resume_creates_and_records_a_new_session() {
    let mut f = resume_facts();
    f.last_running = Some(false);
    assert!(matches!(resume_step(&f), ResumeStep::CreateSession));
    f.created = Some(None);
    assert!(matches!(resume_step(&f), ResumeStep::Fail));
    f.created = Some(Some("ses_2".to_string()));
    assert!(matches!(resume_step(&f), ResumeStep::SaveThread(id) if id == "ses_2"));
    f.thread_saved = Some(true);
    assert!(matches!(resume_step(&f), ResumeStep::UpdateIndex));
    f.index_updated = Some(true);
    match resume_step(&f) {
        ResumeStep::Resumed(p, new_session) => {
            assert_eq!(p.session_id, "ses_2");
            assert!(new_session);
        },
        other => panic!("unexpected {:?}", other),
    }
    let g = ResumeFacts { last_session_id: None, created: None, thread_saved: None, index_updated: None, ..f };
    assert!(matches!(resume_step(&g), ResumeStep::CreateSession));
}

#[test]
fn messages_with_equal_times_keep_their_order() {
    let messages = vec![
        make_test_message("b", "s", "2026-01-21T10:00:00Z"),
        make_test_message("a", "s", "2026-01-21T10:00:00Z"),
    ];
    let sorted = sort_messages(&messages);
    assert_eq!(sorted[0].id, "b");
    assert_eq!(sorted[1].id, "a");
}

#[test]
fn test_list_by_session() {
    let messages = vec![
        make_test_message("msg_1", "sess_1", "1"),
        make_test_message("msg_2", "sess_2", "2"),
        make_test_message("msg_3", "sess_1", "3"),
    ];
    let of_session = messages_of_session(&messages, "sess_1");
    assert_eq!(of_session.len(), 2);
    assert!(of_session.iter().all(|m| m.session_id == "sess_1"));
}

#[test]
fn message_store_test_schema_version_mismatch() {
    assert_eq!(
        check_schema_version(MESSAGE_SCHEMA_VERSION, 999),
        Err(StorageError::SchemaVersionMismatch { expected: 1, found: 999 })
    );
    assert!(check_schema_version(MESSAGE_SCHEMA_VERSION, 1).is_ok());
}

#[test]
fn thread_store_test_schema_version_mismatch() {
    let err = check_schema_version(THREAD_SCHEMA_VERSION, 999).unwrap_err();
    assert_eq!(err.message(), "schema version mismatch: expected 1, found 999");
}

#[test]
fn appended_message_gets_id_and_time() {
    let mut m = make_test_message("", "sess_1", "");
    m.schema_version = 0;
    let prepared = message_prepared(m, "abc", "2026-01-01T00:00:00Z".to_string());
    assert_eq!(prepared.id, "msg_abc");
    assert_eq!(prepared.created_at, "2026-01-01T00:00:00Z");
    assert_eq!(prepared.schema_version, MESSAGE_SCHEMA_VERSION);
    let kept = message_prepared(make_test_message("msg_7", "s", "t"), "abc", "now".to_string());
    assert_eq!(kept.id, "msg_7");
    assert_eq!(kept.created_at, "t");
}

#[test]
fn store_paths_under_root() {
    let threads = ThreadStore::new("/root");
    assert_eq!(threads.path(), "/root/threads");
    assert_eq!(threads.thread_path("thr_1"), "/root/threads/thr_1.json");
    let messages = MessageStore::new("/root");
    assert_eq!(messages.path(), "/root/messages");
    assert_eq!(messages.thread_dir("thr_1"), "/root/messages/thr_1");
    assert_eq!(messages.message_path("thr_1", "msg_1"), "/root/messages/thr_1/msg_1.json");
    assert_eq!(IndexStore::new("/root").index_path(), "/root/index.json");
    assert_eq!(SessionStore::new("/root").path(), "/root/sessions");
}

#[test]
fn storage_error_messages() {
    assert_eq!(StorageError::Io("disk".to_string()).message(), "io error: disk");
    assert_eq!(StorageError::StorageUnavailable("x".to_string()).message(), "storage unavailable: x");
}
