use alem_sync::documents::{
    create_document, create_document_as, delete_document, delete_document_as, get_document,
    get_documents, make_payload, search_documents, update_document, update_document_as,
    CommandError, CreateDocumentInput,
};
use alem_sync::engine::SyncEngine;
use alem_sync::models::{Document, DocumentStatus, OfflineOperation, OperationStatus};
use alem_sync::store::LocalStore;
use alem_sync::AppState;

fn state() -> AppState {
    AppState { db: LocalStore::new(), sync: SyncEngine::new() }
}

fn input(filename: &str) -> CreateDocumentInput {
    CreateDocumentInput {
        filename: filename.to_string(),
        content_type: "text/plain".to_string(),
        local_path: format!("/data/files/{filename}"),
        file_size: 12,
        content_hash: "hash".to_string(),
        text_content: Some("hello".to_string()),
        metadata: Some("{ \"k\" : \"v\" }".to_string()),
        tags: Some(vec!["t1".to_string()]),
    }
}

#[test]
fn create_keeps_the_document_and_queues_one_upload() {
    let mut st = state();
    let doc = create_document_as(
        input("notes.txt"),
        &mut st,
        "doc-1".to_string(),
        "op-1".to_string(),
        "2024-01-01T10:00:00Z",
    )
    .unwrap();
    let expected = Document {
        id: "doc-1".to_string(),
        user_id: "anonymous".to_string(),
        tenant_id: "default".to_string(),
        filename: "notes.txt".to_string(),
        content_type: Some("text/plain".to_string()),
        file_size: Some(12),
        content_hash: Some("hash".to_string()),
        local_path: Some("/data/files/notes.txt".to_string()),
        object_key: None,
        text_content: Some("hello".to_string()),
        metadata: "{\"k\":\"v\"}".to_string(),
        tags: vec!["t1".to_string()],
        status: DocumentStatus::Local,
        local_version: 1,
        server_version: 0,
        is_synced: false,
        needs_upload: true,
        needs_download: false,
        sync_error: None,
        last_synced_at: None,
        created_at: "2024-01-01T10:00:00Z".to_string(),
        updated_at: "2024-01-01T10:00:00Z".to_string(),
    };
    assert_eq!(doc, expected);
    assert_eq!(st.db.documents(), &vec![expected]);
    assert_eq!(
        st.db.operations(),
        &vec![OfflineOperation {
            id: "op-1".to_string(),
            user_id: "anonymous".to_string(),
            op_type: "upload_document".to_string(),
            payload: "{\"doc_id\":\"doc-1\"}".to_string(),
            status: OperationStatus::Pending,
            retry_count: 0,
            error_msg: None,
            created_at: "2024-01-01T10:00:00Z".to_string(),
        }]
    );
}

#[test]
fn create_uses_the_signed_in_user() {
    let mut st = state();
    let mut identity = st.db.identity().clone();
    identity.user_id = Some("user-9".to_string());
    identity.tenant_id = "acme".to_string();
    st.db.set_identity(identity);
    let doc = create_document_as(
        input("a.txt"),
        &mut st,
        "d".to_string(),
        "o".to_string(),
        "2024-01-01T10:00:00Z",
    )
    .unwrap();
    assert_eq!(doc.user_id, "user-9");
    assert_eq!(doc.tenant_id, "acme");
    assert_eq!(st.db.operations()[0].user_id, "user-9");
}

#[test]
fn create_defaults_for_absent_fields() {
    let mut st = state();
    let mut bare = input("a.bin");
    bare.text_content = None;
    bare.metadata = None;
    bare.tags = None;
    let doc =
        create_document_as(bare, &mut st, "d".to_string(), "o".to_string(), "t").unwrap();
    assert_eq!(doc.text_content, Some(String::new()));
    assert_eq!(doc.metadata, "{}");
    assert_eq!(doc.tags, Vec::<String>::new());
}

#[test]
fn create_replaces_metadata_that_is_no_json() {
    let mut st = state();
    let mut odd = input("a.bin");
    odd.metadata = Some("{not json".to_string());
    let doc = create_document_as(odd, &mut st, "d".to_string(), "o".to_string(), "t").unwrap();
    assert_eq!(doc.metadata, "{}");
}

#[test]
fn create_with_a_taken_identifier_changes_nothing() {
    let mut st = state();
    create_document_as(input("a.txt"), &mut st, "d1".to_string(), "o1".to_string(), "t1").unwrap();
    let taken_doc =
        create_document_as(input("b.txt"), &mut st, "d1".to_string(), "o2".to_string(), "t2");
    assert_eq!(taken_doc, Err(CommandError::DuplicateId));
    let taken_op =
        create_document_as(input("b.txt"), &mut st, "d2".to_string(), "o1".to_string(), "t2");
    assert_eq!(taken_op, Err(CommandError::DuplicateId));
    assert_eq!(st.db.documents().len(), 1);
    assert_eq!(st.db.operations().len(), 1);
    assert_eq!(st.db.document("d2"), None);
}

#[test]
fn create_with_fresh_identifiers() {
    let mut st = state();
    let a = create_document(input("a.txt"), &mut st).unwrap();
    let b = create_document(input("b.txt"), &mut st).unwrap();
    assert_ne!(a.id, b.id);
    assert_eq!(a.id.len(), 36);
    assert_eq!(st.db.documents().len(), 2);
    assert_eq!(st.db.operations().len(), 2);
    assert!(a.needs_upload);
    assert_eq!(a.created_at, a.updated_at);
    assert!(a.created_at.starts_with("20"));
    let op = &st.db.operations()[0];
    assert_eq!(op.op_type, "upload_document");
    assert_eq!(op.payload, format!("{{\"doc_id\":\"{}\"}}", a.id));
    assert_ne!(op.id, a.id);
}

#[test]
fn payload_names_the_document() {
    assert_eq!(make_payload("abc"), "{\"doc_id\":\"abc\"}");
    assert_eq!(make_payload(""), "{\"doc_id\":\"\"}");
}

#[test]
fn get_document_by_identifier() {
    let mut st = state();
    let doc =
        create_document_as(input("a.txt"), &mut st, "d1".to_string(), "o1".to_string(), "t1")
            .unwrap();
    assert_eq!(get_document("d1", &st), Ok(doc));
    assert_eq!(get_document("d2", &st), Err(CommandError::NotFound));
}

#[test]
fn listing_is_newest_first_without_tombstones() {
    let mut st = state();
    for (i, stamp) in ["2024-01-01", "2024-01-03", "2024-01-02"].iter().enumerate() {
        create_document_as(
            input(&format!("f{i}.txt")),
            &mut st,
            format!("d{i}"),
            format!("o{i}"),
            stamp,
        )
        .unwrap();
    }
    let listed: Vec<String> = get_documents(&st).into_iter().map(|d| d.id).collect();
    assert_eq!(listed, vec!["d1", "d2", "d0"]);
    delete_document_as("d2", &mut st, "del".to_string(), "2024-01-04").unwrap();
    let listed: Vec<String> = get_documents(&st).into_iter().map(|d| d.id).collect();
    assert_eq!(listed, vec!["d1", "d0"]);
    assert_eq!(get_document("d2", &st).unwrap().status, DocumentStatus::Deleted);
}

#[test]
fn listing_of_an_empty_store() {
    assert_eq!(get_documents(&state()), Vec::<Document>::new());
}

#[test]
fn rename_raises_the_revision_and_queues_an_upload() {
    let mut st = state();
    let before =
        create_document_as(input("a.txt"), &mut st, "d1".to_string(), "o1".to_string(), "t1")
            .unwrap();
    let after = update_document_as(
        "d1",
        Some("b.txt".to_string()),
        &mut st,
        "o2".to_string(),
        "t2",
    )
    .unwrap();
    let mut expected = before;
    expected.filename = "b.txt".to_string();
    expected.local_version = 2;
    expected.needs_upload = true;
    expected.is_synced = false;
    expected.status = DocumentStatus::Local;
    expected.updated_at = "t2".to_string();
    assert_eq!(after, expected);
    assert_eq!(st.db.document("d1"), Some(expected));
    assert_eq!(st.db.operations().len(), 2);
    let op = st.db.operation("o2").unwrap();
    assert_eq!(op.op_type, "upload_document");
    assert_eq!(op.payload, "{\"doc_id\":\"d1\"}");
    assert_eq!(op.status, OperationStatus::Pending);
    assert_eq!(op.user_id, "anonymous");
    assert_eq!(op.created_at, "t2");
}

#[test]
fn rename_without_a_name_changes_nothing() {
    let mut st = state();
    let before =
        create_document_as(input("a.txt"), &mut st, "d1".to_string(), "o1".to_string(), "t1")
            .unwrap();
    assert_eq!(update_document_as("d1", None, &mut st, "o2".to_string(), "t2"), Ok(before));
    assert_eq!(st.db.operations().len(), 1);
}

#[test]
fn rename_of_an_unknown_document() {
    let mut st = state();
    assert_eq!(
        update_document_as("nope", Some("x".to_string()), &mut st, "o".to_string(), "t"),
        Err(CommandError::NotFound)
    );
    assert_eq!(update_document_as("nope", None, &mut st, "o".to_string(), "t"), Err(CommandError::NotFound));
}

#[test]
fn rename_leaves_a_tombstone_alone() {
    let mut st = state();
    create_document_as(input("a.txt"), &mut st, "d1".to_string(), "o1".to_string(), "t1").unwrap();
    delete_document_as("d1", &mut st, "o2".to_string(), "t2").unwrap();
    let tomb = st.db.document("d1").unwrap();
    let r = update_document_as("d1", Some("b.txt".to_string()), &mut st, "o3".to_string(), "t3");
    assert_eq!(r, Ok(tomb.clone()));
    assert_eq!(st.db.document("d1"), Some(tomb));
    assert_eq!(st.db.operations().len(), 2);
}

#[test]
fn rename_with_a_taken_operation_identifier() {
    let mut st = state();
    create_document_as(input("a.txt"), &mut st, "d1".to_string(), "o1".to_string(), "t1").unwrap();
    let r = update_document_as("d1", Some("b.txt".to_string()), &mut st, "o1".to_string(), "t2");
    assert_eq!(r, Err(CommandError::DuplicateId));
    assert_eq!(st.db.document("d1").unwrap().filename, "a.txt");
}

#[test]
fn rename_at_the_last_revision_is_refused() {
    let mut st = state();
    let mut doc =
        create_document_as(input("a.txt"), &mut st, "d1".to_string(), "o1".to_string(), "t1")
            .unwrap();
    doc.local_version = i64::MAX;
    assert!(st.db.replace_document(doc.clone()));
    let r = update_document_as("d1", Some("b.txt".to_string()), &mut st, "o2".to_string(), "t2");
    assert_eq!(r, Err(CommandError::RevisionExhausted));
    assert_eq!(st.db.document("d1"), Some(doc));
    assert_eq!(st.db.operations().len(), 1);
}

#[test]
fn rename_with_a_fresh_operation_identifier() {
    let mut st = state();
    create_document_as(input("a.txt"), &mut st, "d1".to_string(), "o1".to_string(), "t1").unwrap();
    let after = update_document("d1", Some("c.txt".to_string()), &mut st).unwrap();
    assert_eq!(after.filename, "c.txt");
    assert_eq!(after.local_version, 2);
    assert_eq!(st.db.operations().len(), 2);
}

#[test]
fn delete_marks_the_document_and_queues_a_delete() {
    let mut st = state();
    let before =
        create_document_as(input("a.txt"), &mut st, "d1".to_string(), "o1".to_string(), "t1")
            .unwrap();
    assert_eq!(delete_document_as("d1", &mut st, "o2".to_string(), "t2"), Ok(()));
    let mut expected = before;
    expected.status = DocumentStatus::Deleted;
    expected.updated_at = "t2".to_string();
    assert_eq!(st.db.document("d1"), Some(expected));
    assert_eq!(
        st.db.operation("o2"),
        Some(OfflineOperation {
            id: "o2".to_string(),
            user_id: "anonymous".to_string(),
            op_type: "delete_document".to_string(),
            payload: "{\"doc_id\":\"d1\"}".to_string(),
            status: OperationStatus::Pending,
            retry_count: 0,
            error_msg: None,
            created_at: "t2".to_string(),
        })
    );
    assert_eq!(st.db.operations().len(), 2);
}

#[test]
fn delete_of_an_unknown_document() {
    let mut st = state();
    assert_eq!(
        delete_document_as("nope", &mut st, "o".to_string(), "t"),
        Err(CommandError::NotFound)
    );
    assert_eq!(delete_document("nope", &mut st), Err(CommandError::NotFound));
    assert!(st.db.operations().is_empty());
}

#[test]
fn delete_with_a_taken_operation_identifier() {
    let mut st = state();
    create_document_as(input("a.txt"), &mut st, "d1".to_string(), "o1".to_string(), "t1").unwrap();
    assert_eq!(
        delete_document_as("d1", &mut st, "o1".to_string(), "t2"),
        Err(CommandError::DuplicateId)
    );
    assert_eq!(st.db.document("d1").unwrap().status, DocumentStatus::Local);
}

#[test]
fn delete_with_a_fresh_operation_identifier() {
    let mut st = state();
    create_document_as(input("a.txt"), &mut st, "d1".to_string(), "o1".to_string(), "t1").unwrap();
    assert_eq!(delete_document("d1", &mut st), Ok(()));
    assert_eq!(st.db.document("d1").unwrap().status, DocumentStatus::Deleted);
    assert_eq!(st.db.operations().len(), 2);
}

#[test]
fn command_error_messages() {
    assert_eq!(CommandError::NotFound.message(), "Document not found");
    assert_eq!(CommandError::DuplicateId.message(), "Insert failed: identifier already in use");
    assert_eq!(
        CommandError::RevisionExhausted.message(),
        "Update failed: revision counter exhausted"
    );
}

#[test]
fn search_shows_matches_that_are_kept_and_not_deleted() {
    let mut st = state();
    for (i, stamp) in ["t1", "t2", "t3"].iter().enumerate() {
        create_document_as(
            input(&format!("f{i}.txt")),
            &mut st,
            format!("d{i}"),
            format!("o{i}"),
            stamp,
        )
        .unwrap();
    }
    delete_document_as("d1", &mut st, "del".to_string(), "t4").unwrap();
    let matches: Vec<String> =
        ["d2", "ghost", "d1", "d0", "d2"].iter().map(|s| s.to_string()).collect();
    let hits: Vec<String> = search_documents(&matches, &st).into_iter().map(|d| d.id).collect();
    assert_eq!(hits, vec!["d2", "d0", "d2"]);
    assert!(search_documents(&vec![], &st).is_empty());
}
