use alem_sync::models::{
    Document, DocumentStatus, LocalIdentity, OfflineOperation, OperationStatus,
};
use alem_sync::store::{LocalStore, StoreError};
use alem_sync::strings::{chars_of, join2, join3, starts_with, text_at_or_before, text_eq};

fn doc(id: &str, created_at: &str) -> Document {
    Document {
        id: id.to_string(),
        user_id: "u1".to_string(),
        tenant_id: "default".to_string(),
        filename: format!("{id}.txt"),
        content_type: Some("text/plain".to_string()),
        file_size: Some(3),
        content_hash: Some("abc".to_string()),
        local_path: Some(format!("/files/{id}")),
        object_key: None,
        text_content: None,
        metadata: "{}".to_string(),
        tags: vec!["a".to_string(), "b".to_string()],
        status: DocumentStatus::Local,
        local_version: 1,
        server_version: 0,
        is_synced: false,
        needs_upload: true,
        needs_download: false,
        sync_error: None,
        last_synced_at: None,
        created_at: created_at.to_string(),
        updated_at: created_at.to_string(),
    }
}

fn op(id: &str, created_at: &str) -> OfflineOperation {
    OfflineOperation {
        id: id.to_string(),
        user_id: "u1".to_string(),
        op_type: "upload_document".to_string(),
        payload: "{\"doc_id\":\"d\"}".to_string(),
        status: OperationStatus::Pending,
        retry_count: 0,
        error_msg: None,
        created_at: created_at.to_string(),
    }
}

fn ids(docs: &Vec<Document>) -> Vec<String> {
    docs.iter().map(|d| d.id.clone()).collect()
}

#[test]
fn new_store_is_empty() {
    let store = LocalStore::new();
    assert!(store.documents().is_empty());
    assert!(store.operations().is_empty());
    assert_eq!(store.identity().server_url, "http://localhost:4000");
    assert_eq!(store.identity().tenant_id, "default");
    assert_eq!(store.identity().last_sync_at, None);
    assert_eq!(store.identity().user_id, None);
}

#[test]
fn fresh_identity_has_defaults() {
    let identity = LocalIdentity::new();
    assert_eq!(
        identity,
        LocalIdentity {
            user_id: None,
            tenant_id: "default".to_string(),
            username: None,
            email: None,
            did: None,
            did_public_key: None,
            pleroma_account_id: None,
            server_url: "http://localhost:4000".to_string(),
            last_sync_at: None,
        }
    );
}

#[test]
fn documents_are_kept_by_creation_stamp() {
    let mut store = LocalStore::new();
    assert_eq!(store.insert_document(doc("b", "2024-01-02T00:00:00Z")), Ok(()));
    assert_eq!(store.insert_document(doc("c", "2024-01-03T00:00:00Z")), Ok(()));
    assert_eq!(store.insert_document(doc("a", "2024-01-01T00:00:00Z")), Ok(()));
    assert_eq!(ids(store.documents()), vec!["a", "b", "c"]);
}

#[test]
fn equal_stamps_keep_arrival_order() {
    let mut store = LocalStore::new();
    assert_eq!(store.insert_document(doc("x", "2024-01-01T00:00:00Z")), Ok(()));
    assert_eq!(store.insert_document(doc("y", "2024-01-01T00:00:00Z")), Ok(()));
    assert_eq!(store.insert_document(doc("z", "2024-01-01T00:00:00Z")), Ok(()));
    assert_eq!(ids(store.documents()), vec!["x", "y", "z"]);
}

#[test]
fn duplicate_document_is_refused() {
    let mut store = LocalStore::new();
    assert_eq!(store.insert_document(doc("a", "2024-01-01T00:00:00Z")), Ok(()));
    assert_eq!(
        store.insert_document(doc("a", "2024-01-05T00:00:00Z")),
        Err(StoreError::DuplicateId)
    );
    assert_eq!(store.documents().len(), 1);
    assert_eq!(store.documents()[0].created_at, "2024-01-01T00:00:00Z");
}

#[test]
fn duplicate_operation_is_refused() {
    let mut store = LocalStore::new();
    assert_eq!(store.insert_operation(op("o1", "2024-01-01T00:00:00Z")), Ok(()));
    assert_eq!(
        store.insert_operation(op("o1", "2024-01-02T00:00:00Z")),
        Err(StoreError::DuplicateId)
    );
    assert_eq!(store.operations().len(), 1);
}

#[test]
fn find_and_read_by_identifier() {
    let mut store = LocalStore::new();
    store.insert_document(doc("a", "2024-01-01T00:00:00Z")).unwrap();
    store.insert_document(doc("b", "2024-01-02T00:00:00Z")).unwrap();
    store.insert_operation(op("o1", "2024-01-01T00:00:00Z")).unwrap();
    assert_eq!(store.find_document("b"), Some(1));
    assert_eq!(store.find_document("nope"), None);
    assert_eq!(store.document("a"), Some(doc("a", "2024-01-01T00:00:00Z")));
    assert_eq!(store.document("zz"), None);
    assert_eq!(store.find_operation("o1"), Some(0));
    assert_eq!(store.operation("o1"), Some(op("o1", "2024-01-01T00:00:00Z")));
    assert_eq!(store.operation("o2"), None);
}

#[test]
fn replace_document_swaps_the_record() {
    let mut store = LocalStore::new();
    store.insert_document(doc("a", "2024-01-01T00:00:00Z")).unwrap();
    let mut changed = doc("a", "2024-01-01T00:00:00Z");
    changed.filename = "other.txt".to_string();
    assert!(store.replace_document(changed.clone()));
    assert_eq!(store.document("a"), Some(changed));
    assert!(!store.replace_document(doc("missing", "2024-01-01T00:00:00Z")));
    assert_eq!(store.documents().len(), 1);
}

#[test]
fn replace_operation_swaps_the_record() {
    let mut store = LocalStore::new();
    store.insert_operation(op("o1", "2024-01-01T00:00:00Z")).unwrap();
    let mut changed = op("o1", "2024-01-01T00:00:00Z");
    changed.status = OperationStatus::Done;
    assert!(store.replace_operation(changed.clone()));
    assert_eq!(store.operation("o1"), Some(changed));
    assert!(!store.replace_operation(op("o9", "2024-01-01T00:00:00Z")));
}

#[test]
fn reset_failed_touches_failed_operations_only() {
    let mut store = LocalStore::new();
    let mut failed = op("o1", "2024-01-01T00:00:00Z");
    failed.status = OperationStatus::Failed;
    failed.retry_count = 5;
    failed.error_msg = Some("boom".to_string());
    let mut done = op("o2", "2024-01-02T00:00:00Z");
    done.status = OperationStatus::Done;
    done.retry_count = 2;
    let pending = op("o3", "2024-01-03T00:00:00Z");
    store.insert_operation(failed).unwrap();
    store.insert_operation(done.clone()).unwrap();
    store.insert_operation(pending.clone()).unwrap();
    assert_eq!(store.reset_failed(), 1);
    let reset = store.operation("o1").unwrap();
    assert_eq!(reset.status, OperationStatus::Pending);
    assert_eq!(reset.retry_count, 0);
    assert_eq!(reset.error_msg, None);
    assert_eq!(store.operation("o2"), Some(done));
    assert_eq!(store.operation("o3"), Some(pending));
    assert_eq!(store.reset_failed(), 0);
}

#[test]
fn set_identity_replaces_the_record() {
    let mut store = LocalStore::new();
    let mut identity = store.identity().clone();
    identity.user_id = Some("u7".to_string());
    identity.last_sync_at = Some("2024-05-05T00:00:00Z".to_string());
    store.set_identity(identity.clone());
    assert_eq!(store.identity(), &identity);
}

#[test]
fn status_spellings_round_trip() {
    for s in [DocumentStatus::Local, DocumentStatus::Synced, DocumentStatus::Deleted] {
        assert_eq!(DocumentStatus::parse(s.as_str()), Some(s));
    }
    assert_eq!(DocumentStatus::Local.as_str(), "local");
    assert_eq!(DocumentStatus::Synced.as_str(), "synced");
    assert_eq!(DocumentStatus::Deleted.as_str(), "deleted");
    assert_eq!(DocumentStatus::parse("Local"), None);
    assert_eq!(DocumentStatus::parse(""), None);
    for s in [OperationStatus::Pending, OperationStatus::Failed, OperationStatus::Done] {
        assert_eq!(OperationStatus::parse(s.as_str()), Some(s));
    }
    assert_eq!(OperationStatus::Pending.as_str(), "pending");
    assert_eq!(OperationStatus::Failed.as_str(), "failed");
    assert_eq!(OperationStatus::Done.as_str(), "done");
    assert_eq!(OperationStatus::parse("finished"), None);
}

#[test]
fn text_order_is_character_by_character() {
    assert!(text_at_or_before("", ""));
    assert!(text_at_or_before("", "a"));
    assert!(!text_at_or_before("a", ""));
    assert!(text_at_or_before("abc", "abc"));
    assert!(text_at_or_before("abc", "abd"));
    assert!(!text_at_or_before("abd", "abc"));
    assert!(text_at_or_before("ab", "abc"));
    assert!(!text_at_or_before("abc", "ab"));
    assert!(text_at_or_before("2024-01-01T00:00:00Z", "2024-01-01T00:00:01Z"));
    assert!(!text_at_or_before("2024-02-01T00:00:00Z", "2024-01-31T23:59:59Z"));
    assert!(text_at_or_before("z", "é"));
    assert!(!text_at_or_before("é", "z"));
}

#[test]
fn text_order_agrees_with_the_order_of_str() {
    let samples = ["", "a", "ab", "b", "2024-01-01", "2024-01-02", "é", "日本", "z"];
    for a in samples {
        for b in samples {
            assert_eq!(text_at_or_before(a, b), a <= b, "{a:?} {b:?}");
        }
    }
}

#[test]
fn text_helpers() {
    assert!(text_eq("abc", "abc"));
    assert!(!text_eq("abc", "abd"));
    assert!(!text_eq("abc", "ab"));
    assert!(starts_with("did:key:z6Mk", "did:key:"));
    assert!(starts_with("abc", ""));
    assert!(starts_with("abc", "abc"));
    assert!(!starts_with("ab", "abc"));
    assert!(!starts_with("xbc", "ab"));
    assert_eq!(chars_of("aé日"), vec!['a', 'é', '日']);
    assert_eq!(join2("ab", "cd"), "abcd");
    assert_eq!(join3("a", "é", "c"), "aéc");
}
