use alem_sync::documents::{create_document_as, delete_document_as, CreateDocumentInput};
use alem_sync::engine::SyncEngine;
use alem_sync::models::{DocumentStatus, OfflineOperation, OperationStatus};
use alem_sync::push::{
    decode_operation, delete_document_on_server, mark_done, mark_failed, mark_uploaded,
    read_upload_target, select_batch, upload_document, upload_notice, upload_target_request,
    ApplyChange, Operation, PushError, UploadTarget, UploadTask, BATCH_LIMIT, RETRY_CAP,
};
use alem_sync::store::LocalStore;
use alem_sync::AppState;

fn state() -> AppState {
    AppState { db: LocalStore::new(), sync: SyncEngine::new() }
}

fn input(filename: &str) -> CreateDocumentInput {
    CreateDocumentInput {
        filename: filename.to_string(),
        content_type: "text/plain".to_string(),
        local_path: format!("/data/files/{filename}"),
        file_size: 12,
        content_hash: "hash".to_string(),
        text_content: None,
        metadata: None,
        tags: None,
    }
}

fn op(id: &str, created_at: &str, status: OperationStatus, retry_count: i32) -> OfflineOperation {
    OfflineOperation {
        id: id.to_string(),
        user_id: "u1".to_string(),
        op_type: "upload_document".to_string(),
        payload: format!("{{\"doc_id\":\"{id}\"}}"),
        status,
        retry_count,
        error_msg: None,
        created_at: created_at.to_string(),
    }
}

fn batch_ids(store: &LocalStore) -> Vec<String> {
    select_batch(store).into_iter().map(|o| o.id).collect()
}

#[test]
fn limits_are_twenty_and_five() {
    assert_eq!(BATCH_LIMIT, 20);
    assert_eq!(RETRY_CAP, 5);
}

#[test]
fn batch_follows_the_order_of_creation() {
    let mut store = LocalStore::new();
    store.insert_operation(op("second", "2024-01-02T00:00:00Z", OperationStatus::Pending, 0)).unwrap();
    store.insert_operation(op("third", "2024-01-03T00:00:00Z", OperationStatus::Pending, 0)).unwrap();
    store.insert_operation(op("first", "2024-01-01T00:00:00Z", OperationStatus::Pending, 0)).unwrap();
    assert_eq!(batch_ids(&store), vec!["first", "second", "third"]);
}

#[test]
fn batch_takes_pending_operations_under_the_cap_only() {
    let mut store = LocalStore::new();
    store.insert_operation(op("a", "t1", OperationStatus::Pending, 0)).unwrap();
    store.insert_operation(op("b", "t2", OperationStatus::Failed, 1)).unwrap();
    store.insert_operation(op("c", "t3", OperationStatus::Done, 0)).unwrap();
    store.insert_operation(op("d", "t4", OperationStatus::Pending, 4)).unwrap();
    store.insert_operation(op("e", "t5", OperationStatus::Pending, 5)).unwrap();
    store.insert_operation(op("f", "t6", OperationStatus::Pending, 6)).unwrap();
    store.insert_operation(op("g", "t7", OperationStatus::Pending, -1)).unwrap();
    assert_eq!(batch_ids(&store), vec!["a", "d", "g"]);
}

#[test]
fn batch_holds_at_most_twenty() {
    let mut store = LocalStore::new();
    for i in 0..25 {
        store
            .insert_operation(op(&format!("op{i:02}"), &format!("t{i:02}"), OperationStatus::Pending, 0))
            .unwrap();
    }
    let ids = batch_ids(&store);
    assert_eq!(ids.len(), 20);
    let expected: Vec<String> = (0..20).map(|i| format!("op{i:02}")).collect();
    assert_eq!(ids, expected);
}

#[test]
fn batch_of_exactly_twenty() {
    let mut store = LocalStore::new();
    for i in 0..20 {
        store
            .insert_operation(op(&format!("op{i:02}"), &format!("t{i:02}"), OperationStatus::Pending, 0))
            .unwrap();
    }
    assert_eq!(batch_ids(&store).len(), 20);
}

#[test]
fn batch_of_an_empty_queue() {
    assert_eq!(select_batch(&LocalStore::new()), Vec::<OfflineOperation>::new());
}

#[test]
fn batch_skips_ineligible_operations_without_counting_them() {
    let mut store = LocalStore::new();
    for i in 0..30 {
        let status = if i % 2 == 0 { OperationStatus::Done } else { OperationStatus::Pending };
        store
            .insert_operation(op(&format!("op{i:02}"), &format!("t{i:02}"), status, 0))
            .unwrap();
    }
    let expected: Vec<String> = (0..15).map(|i| format!("op{:02}", 2 * i + 1)).collect();
    assert_eq!(batch_ids(&store), expected);
}

#[test]
fn five_failures_take_an_operation_out_of_the_batch() {
    let mut store = LocalStore::new();
    store.insert_operation(op("a", "t1", OperationStatus::Pending, 0)).unwrap();
    for i in 1..=5 {
        mark_failed(&mut store, "a", format!("failure {i}"));
        let o = store.operation("a").unwrap();
        assert_eq!(o.retry_count, i);
        assert_eq!(o.status, OperationStatus::Failed);
        assert_eq!(o.error_msg, Some(format!("failure {i}")));
    }
    assert!(batch_ids(&store).is_empty());
    let mut o = store.operation("a").unwrap();
    o.status = OperationStatus::Pending;
    store.replace_operation(o);
    assert!(batch_ids(&store).is_empty());
    assert_eq!(store.operations().len(), 1);
}

#[test]
fn a_failure_leaves_a_done_operation_alone() {
    let mut store = LocalStore::new();
    store.insert_operation(op("a", "t1", OperationStatus::Done, 2)).unwrap();
    mark_failed(&mut store, "a", "late".to_string());
    assert_eq!(store.operation("a"), Some(op("a", "t1", OperationStatus::Done, 2)));
}

#[test]
fn failures_stop_counting_at_the_largest_number() {
    let mut store = LocalStore::new();
    store.insert_operation(op("a", "t1", OperationStatus::Failed, i32::MAX)).unwrap();
    mark_failed(&mut store, "a", "again".to_string());
    assert_eq!(store.operation("a").unwrap().retry_count, i32::MAX);
}

#[test]
fn marks_on_unknown_records_change_nothing() {
    let mut store = LocalStore::new();
    store.insert_operation(op("a", "t1", OperationStatus::Pending, 0)).unwrap();
    mark_failed(&mut store, "zz", "x".to_string());
    mark_done(&mut store, "zz");
    mark_uploaded(&mut store, "zz", "key", "now");
    assert_eq!(store.operations(), &vec![op("a", "t1", OperationStatus::Pending, 0)]);
    assert!(store.documents().is_empty());
}

#[test]
fn done_keeps_count_and_message() {
    let mut store = LocalStore::new();
    let mut o = op("a", "t1", OperationStatus::Failed, 3);
    o.error_msg = Some("old".to_string());
    store.insert_operation(o.clone()).unwrap();
    mark_done(&mut store, "a");
    o.status = OperationStatus::Done;
    assert_eq!(store.operation("a"), Some(o));
}

#[test]
fn upload_marks_the_document_synced() {
    let mut st = state();
    let before =
        create_document_as(input("a.txt"), &mut st, "d1".to_string(), "o1".to_string(), "t1")
            .unwrap();
    mark_uploaded(&mut st.db, "d1", "objects/d1", "t9");
    let mut expected = before;
    expected.status = DocumentStatus::Synced;
    expected.object_key = Some("objects/d1".to_string());
    expected.is_synced = true;
    expected.needs_upload = false;
    expected.last_synced_at = Some("t9".to_string());
    expected.updated_at = "t9".to_string();
    assert_eq!(st.db.document("d1"), Some(expected));
}

#[test]
fn upload_leaves_a_tombstone_alone() {
    let mut st = state();
    create_document_as(input("a.txt"), &mut st, "d1".to_string(), "o1".to_string(), "t1").unwrap();
    delete_document_as("d1", &mut st, "o2".to_string(), "t2").unwrap();
    let tomb = st.db.document("d1").unwrap();
    mark_uploaded(&mut st.db, "d1", "objects/d1", "t9");
    assert_eq!(st.db.document("d1"), Some(tomb));
}

#[test]
fn decode_known_operations() {
    let mut o = op("a", "t1", OperationStatus::Pending, 0);
    o.payload = "{\"doc_id\":\"doc-7\",\"extra\":1}".to_string();
    assert_eq!(decode_operation(&o), Ok(Operation::UploadDocument { doc_id: "doc-7".to_string() }));
    o.op_type = "delete_document".to_string();
    assert_eq!(decode_operation(&o), Ok(Operation::DeleteDocument { doc_id: "doc-7".to_string() }));
}

#[test]
fn decode_unknown_operation_type() {
    let mut o = op("a", "t1", OperationStatus::Pending, 0);
    o.op_type = "rename_document".to_string();
    o.payload = "not even json".to_string();
    assert_eq!(
        decode_operation(&o),
        Ok(Operation::Unknown { op_type: "rename_document".to_string() })
    );
}

#[test]
fn decode_without_a_document() {
    let mut o = op("a", "t1", OperationStatus::Pending, 0);
    for payload in ["{}", "null", "{\"doc_id\":7}", "{\"doc_id\":null}", "garbage", "[\"doc_id\"]"] {
        o.payload = payload.to_string();
        assert_eq!(decode_operation(&o), Err(PushError::MissingDocId), "{payload}");
    }
    o.op_type = "delete_document".to_string();
    o.payload = "{}".to_string();
    assert_eq!(decode_operation(&o), Err(PushError::MissingDocId));
}

#[test]
fn decode_from_parts() {
    assert_eq!(
        Operation::from_parts("upload_document", Some("d".to_string())),
        Ok(Operation::UploadDocument { doc_id: "d".to_string() })
    );
    assert_eq!(Operation::from_parts("upload_document", None), Err(PushError::MissingDocId));
    assert_eq!(
        Operation::from_parts("delete_document", Some("d".to_string())),
        Ok(Operation::DeleteDocument { doc_id: "d".to_string() })
    );
    assert_eq!(Operation::from_parts("delete_document", None), Err(PushError::MissingDocId));
    assert_eq!(
        Operation::from_parts("other", None),
        Ok(Operation::Unknown { op_type: "other".to_string() })
    );
    assert_eq!(
        Operation::from_parts("", Some("d".to_string())),
        Ok(Operation::Unknown { op_type: String::new() })
    );
}

#[test]
fn decode_of_a_payload_made_here() {
    let mut st = state();
    create_document_as(input("a.txt"), &mut st, "d-1".to_string(), "o1".to_string(), "t1").unwrap();
    assert_eq!(
        decode_operation(&st.db.operations()[0]),
        Ok(Operation::UploadDocument { doc_id: "d-1".to_string() })
    );
}

#[test]
fn upload_starts_from_the_record() {
    let mut st = state();
    let mut with_meta = input("a.txt");
    with_meta.metadata = Some("{\"a\":1}".to_string());
    create_document_as(with_meta, &mut st, "d1".to_string(), "o1".to_string(), "t1").unwrap();
    assert_eq!(
        upload_document(&st.db, "d1"),
        Ok(UploadTask {
            doc_id: "d1".to_string(),
            filename: "a.txt".to_string(),
            local_path: "/data/files/a.txt".to_string(),
            content_type: "text/plain".to_string(),
            metadata: "{\"a\":1}".to_string(),
            object_key: String::new(),
        })
    );
}

#[test]
fn upload_of_an_unknown_document() {
    let st = state();
    assert_eq!(
        upload_document(&st.db, "d404"),
        Err(PushError::DocumentNotFound { doc_id: "d404".to_string() })
    );
}

#[test]
fn upload_without_local_content() {
    let mut st = state();
    let mut doc =
        create_document_as(input("a.txt"), &mut st, "d1".to_string(), "o1".to_string(), "t1")
            .unwrap();
    doc.local_path = None;
    st.db.replace_document(doc);
    assert_eq!(upload_document(&st.db, "d1"), Err(PushError::NoLocalPath));
}

#[test]
fn upload_without_a_content_type_sends_octet_stream() {
    let mut st = state();
    let mut doc =
        create_document_as(input("a.txt"), &mut st, "d1".to_string(), "o1".to_string(), "t1")
            .unwrap();
    doc.content_type = None;
    st.db.replace_document(doc);
    assert_eq!(upload_document(&st.db, "d1").unwrap().content_type, "application/octet-stream");
}

#[test]
fn upload_target_from_a_reply() {
    assert_eq!(
        read_upload_target("{\"upload_url\":\"https://s3/put?sig=1\",\"object_key\":\"k/1\"}"),
        Ok(UploadTarget { upload_url: "https://s3/put?sig=1".to_string(), object_key: "k/1".to_string() })
    );
    assert_eq!(read_upload_target("{\"object_key\":\"k/1\"}"), Err(PushError::NoUploadUrl));
    assert_eq!(read_upload_target("{\"upload_url\":\"u\"}"), Err(PushError::NoObjectKey));
    assert_eq!(read_upload_target("{}"), Err(PushError::NoUploadUrl));
    assert_eq!(read_upload_target(""), Err(PushError::NoUploadUrl));
    assert_eq!(read_upload_target("{\"upload_url\":1,\"object_key\":\"k\"}"), Err(PushError::NoUploadUrl));
    assert_eq!(
        UploadTarget::from_parts(Some("u".to_string()), Some("k".to_string())),
        Ok(UploadTarget { upload_url: "u".to_string(), object_key: "k".to_string() })
    );
    assert_eq!(UploadTarget::from_parts(None, Some("k".to_string())), Err(PushError::NoUploadUrl));
    assert_eq!(UploadTarget::from_parts(Some("u".to_string()), None), Err(PushError::NoObjectKey));
    assert_eq!(UploadTarget::from_parts(None, None), Err(PushError::NoUploadUrl));
}

#[test]
fn notice_of_a_finished_upload() {
    let task = UploadTask {
        doc_id: "d1".to_string(),
        filename: "a.txt".to_string(),
        local_path: "/x".to_string(),
        content_type: "text/plain".to_string(),
        metadata: "{ \"a\" : [1, 2] }".to_string(),
        object_key: "k/1".to_string(),
    };
    let change = upload_notice(&task);
    assert_eq!(
        change,
        ApplyChange::CreateDocument {
            id: "d1".to_string(),
            filename: "a.txt".to_string(),
            content_type: "text/plain".to_string(),
            object_key: "k/1".to_string(),
            metadata: "{\"a\":[1,2]}".to_string(),
        }
    );
    assert_eq!(change.kind(), "create_document");
    assert_eq!(change.id(), "d1");
    let mut broken = task.clone();
    broken.metadata = "{oops".to_string();
    match upload_notice(&broken) {
        ApplyChange::CreateDocument { metadata, .. } => assert_eq!(metadata, "null"),
        other => panic!("unexpected {other:?}"),
    }
}

#[test]
fn notice_of_a_delete() {
    let change = delete_document_on_server("d1");
    assert_eq!(change, ApplyChange::DeleteDocument { id: "d1".to_string() });
    assert_eq!(change.kind(), "delete_document");
    assert_eq!(change.id(), "d1");
}

#[test]
fn push_error_messages() {
    assert_eq!(PushError::MissingDocId.message(), "Missing doc_id");
    assert_eq!(
        PushError::DocumentNotFound { doc_id: "d9".to_string() }.message(),
        "Document d9 not found in local DB"
    );
    assert_eq!(PushError::NoLocalPath.message(), "Document has no local_path");
    assert_eq!(PushError::NoUploadUrl.message(), "No upload_url");
    assert_eq!(PushError::NoObjectKey.message(), "No object_key");
}

#[test]
fn empty_task() {
    assert_eq!(
        UploadTask::none(),
        UploadTask {
            doc_id: String::new(),
            filename: String::new(),
            local_path: String::new(),
            content_type: String::new(),
            metadata: String::new(),
            object_key: String::new(),
        }
    );
}

#[test]
fn envelope_of_an_upload() {
    let change = ApplyChange::CreateDocument {
        id: "d1".to_string(),
        filename: "a \"b\".txt".to_string(),
        content_type: "text/plain".to_string(),
        object_key: "k/1".to_string(),
        metadata: "{\"a\":[1,2]}".to_string(),
    };
    let text = change.envelope();
    assert_eq!(
        text,
        "{\"changes\":[{\"type\":\"create_document\",\"id\":\"d1\",\"data\":{\"id\":\"d1\",\
\"filename\":\"a \\\"b\\\".txt\",\"content_type\":\"text/plain\",\"object_key\":\"k/1\",\
\"metadata\":{\"a\":[1,2]}}}]}"
    );
    let parsed: serde_json::Value = serde_json::from_str(&text).unwrap();
    let first = &parsed["changes"][0];
    assert_eq!(parsed["changes"].as_array().unwrap().len(), 1);
    assert_eq!(first["type"], "create_document");
    assert_eq!(first["id"], "d1");
    assert_eq!(first["data"]["id"], "d1");
    assert_eq!(first["data"]["filename"], "a \"b\".txt");
    assert_eq!(first["data"]["content_type"], "text/plain");
    assert_eq!(first["data"]["object_key"], "k/1");
    assert_eq!(first["data"]["metadata"]["a"][1], 2);
}

#[test]
fn envelope_of_a_delete() {
    let text = delete_document_on_server("d\\1").envelope();
    assert_eq!(
        text,
        "{\"changes\":[{\"type\":\"delete_document\",\"id\":\"d\\\\1\",\"data\":{\"id\":\"d\\\\1\"}}]}"
    );
    let parsed: serde_json::Value = serde_json::from_str(&text).unwrap();
    assert_eq!(parsed["changes"][0]["type"], "delete_document");
    assert_eq!(parsed["changes"][0]["id"], "d\\1");
    assert_eq!(parsed["changes"][0]["data"]["id"], "d\\1");
}

#[test]
fn request_for_an_upload_target() {
    let text = upload_target_request("d1", "notes \u{e9}.txt");
    assert_eq!(text, "{\"doc_id\":\"d1\",\"filename\":\"notes \u{e9}.txt\"}");
    let parsed: serde_json::Value = serde_json::from_str(&text).unwrap();
    assert_eq!(parsed["doc_id"], "d1");
    assert_eq!(parsed["filename"], "notes \u{e9}.txt");
    let odd = upload_target_request("a\nb", "");
    assert_eq!(odd, "{\"doc_id\":\"a\\nb\",\"filename\":\"\"}");
}
