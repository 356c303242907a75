use alem_sync::auth::{is_authenticated, store_oauth_token};
use alem_sync::content::{
    calculate_content_hash, describe_content, extract_text_content, is_token_expired,
    text_content_from, to_hex, DocumentInput,
};
use alem_sync::documents::CreateDocumentInput;
use alem_sync::did::{
    base64_simple, did_for_key, generate_did, get_stored_did, remove_all, store_did,
    store_server_did, validate_did,
};
use alem_sync::engine::SyncEngine;
use alem_sync::files::{Backend, FileError, FileManager};
use alem_sync::json::text_member;
use alem_sync::models::{
    AuthResult, DIDResult, Document, DocumentStatus, OfflineOperation, OperationStatus, SyncStatus,
};
use alem_sync::queue::{
    get_pending_operations, get_sync_status, retry_failed_operations, LISTING_LIMIT,
};
use alem_sync::models::LocalIdentity;
use alem_sync::rows::{
    document_to_row, identity_to_row, integer, operation_to_row, read_tags, row_to_document,
    row_to_identity, row_to_operation, text, Row, RowError, Value,
};
use alem_sync::store::LocalStore;
use alem_sync::AppState;

fn state() -> AppState {
    AppState { db: LocalStore::new(), sync: SyncEngine::new() }
}

fn op(id: &str, created_at: &str, status: OperationStatus) -> OfflineOperation {
    OfflineOperation {
        id: id.to_string(),
        user_id: "u1".to_string(),
        op_type: "upload_document".to_string(),
        payload: "{}".to_string(),
        status,
        retry_count: 1,
        error_msg: Some("e".to_string()),
        created_at: created_at.to_string(),
    }
}

#[test]
fn base64_of_known_inputs() {
    assert_eq!(base64_simple(b""), "");
    assert_eq!(base64_simple(b"f"), "Zg==");
    assert_eq!(base64_simple(b"fo"), "Zm8=");
    assert_eq!(base64_simple(b"foo"), "Zm9v");
    assert_eq!(base64_simple(b"foob"), "Zm9vYg==");
    assert_eq!(base64_simple(b"fooba"), "Zm9vYmE=");
    assert_eq!(base64_simple(b"foobar"), "Zm9vYmFy");
    assert_eq!(base64_simple(&[255, 254, 253, 0, 1]), "//79AAE=");
    let key: Vec<u8> = (0u8..32).collect();
    assert_eq!(base64_simple(&key), "AAECAwQFBgcICQoLDA0ODxAREhMUFRYXGBkaGxwdHh8=");
}

#[test]
fn did_shapes() {
    assert!(validate_did("did:key:z6MkeTGwHmLmuCmgg4ABYhzWVh6ZX7hTwWt8gguAretUfc9c"));
    assert!(validate_did("did:key:zabcd"));
    assert!(!validate_did("did:key:zabc"));
    assert!(!validate_did("did:key:z"));
    assert!(!validate_did("did:web:example.com"));
    assert!(!validate_did("did:key:a6MkeTGwHmLmuCmgg4AB"));
    assert!(!validate_did(""));
    assert!(validate_did("did:key:zéé"));
}

#[test]
fn did_of_a_known_key() {
    let key: [u8; 32] = core::array::from_fn(|i| i as u8);
    assert_eq!(
        did_for_key(&key),
        DIDResult {
            did: "did:key:z6MkeTGwHmLmuCmgg4ABYhzWVh6ZX7hTwWt8gguAretUfc9c".to_string(),
            public_key_multibase: "z6MkeTGwHmLmuCmgg4ABYhzWVh6ZX7hTwWt8gguAretUfc9c".to_string(),
        }
    );
    assert_eq!(
        did_for_key(&[0u8; 32]).public_key_multibase,
        "z6MkeTG3bFFSLYVU7VqhgZxqr6YzpaGrQtFMh1uvqGy1vDnP"
    );
}

#[test]
fn generated_did_is_well_formed() {
    let a = generate_did();
    let b = generate_did();
    assert!(validate_did(&a.result.did));
    assert!(a.result.did.starts_with("did:key:z6Mk"));
    assert_eq!(a.result.did, format!("did:key:{}", a.result.public_key_multibase));
    assert_eq!(a.private_key.len(), 44);
    assert!(a.private_key.ends_with('='));
    assert_ne!(a.private_key, b.private_key);
    assert_ne!(a.result.did, b.result.did);
}

#[test]
fn generated_did_matches_its_secret() {
    let generated = generate_did();
    let table = "ABCDEFGHIJKLMNOPQRSTUVWXYZabcdefghijklmnopqrstuvwxyz0123456789+/";
    let mut bits: Vec<u8> = Vec::new();
    for c in generated.private_key.chars().filter(|c| *c != '=') {
        let v = table.find(c).unwrap() as u8;
        for k in (0..6).rev() {
            bits.push((v >> k) & 1);
        }
    }
    let secret: Vec<u8> =
        bits.chunks(8).filter(|c| c.len() == 8).map(|c| c.iter().fold(0, |a, b| a * 2 + b)).collect();
    let secret: [u8; 32] = secret[..32].try_into().unwrap();
    let public = ed25519_dalek::SigningKey::from_bytes(&secret).verifying_key().to_bytes();
    assert_eq!(did_for_key(&public), generated.result);
}

#[test]
fn stored_dids() {
    let mut st = state();
    assert_eq!(get_stored_did(&st), None);
    let did = DIDResult { did: "did:key:zABC".to_string(), public_key_multibase: "zABC".to_string() };
    store_did(&did, &mut st);
    assert_eq!(get_stored_did(&st), Some(did));
    store_server_did("did:key:zServerKey".to_string(), &mut st);
    assert_eq!(
        get_stored_did(&st),
        Some(DIDResult {
            did: "did:key:zServerKey".to_string(),
            public_key_multibase: "zServerKey".to_string(),
        })
    );
    let mut identity = st.db.identity().clone();
    identity.did_public_key = None;
    st.db.set_identity(identity);
    assert_eq!(get_stored_did(&st).unwrap().public_key_multibase, "");
}

#[test]
fn removing_every_occurrence() {
    assert_eq!(remove_all("did:key:zABC", "did:key:"), "zABC");
    assert_eq!(remove_all("did:key:did:key:z", "did:key:"), "z");
    assert_eq!(remove_all("xdid:key:ydid:key:", "did:key:"), "xy");
    assert_eq!(remove_all("aaa", "aa"), "a");
    assert_eq!(remove_all("abc", ""), "abc");
    assert_eq!(remove_all("", "x"), "");
    assert_eq!(remove_all("did:key", "did:key:"), "did:key");
    assert_eq!(remove_all("éaé", "a"), "éé");
    for (s, p) in [("abababa", "aba"), ("did:key:did:key:", "did:key:"), ("mississippi", "ss")] {
        assert_eq!(remove_all(s, p), s.replace(p, ""));
    }
}

#[test]
fn content_hash_of_known_inputs() {
    assert_eq!(
        calculate_content_hash(b""),
        "e3b0c44298fc1c149afbf4c8996fb92427ae41e4649b934ca495991b7852b855"
    );
    assert_eq!(
        calculate_content_hash(b"abc"),
        "ba7816bf8f01cfea414140de5dae2223b00361a396177a9cb410ff61f20015ad"
    );
    assert_eq!(
        calculate_content_hash(b"hello world"),
        "b94d27b9934d3e08a52e52d7da7dabfac484efe37a5380ee9088f7ace2efcde9"
    );
}

#[test]
fn hexadecimal_spelling() {
    assert_eq!(to_hex(&[]), "");
    assert_eq!(to_hex(&[0x00, 0x0f, 0x10, 0xab, 0xff]), "000f10abff");
}

#[test]
fn text_extract() {
    assert_eq!(extract_text_content(b"hello", "text/plain"), Some("hello".to_string()));
    assert_eq!(extract_text_content("héllo".as_bytes(), "text/markdown"), Some("héllo".to_string()));
    assert_eq!(extract_text_content(b"hello", "application/json"), None);
    assert_eq!(extract_text_content(&[0xff, 0xfe], "text/plain"), None);
    assert_eq!(extract_text_content(b"hello", "text"), None);
    assert_eq!(extract_text_content(b"", "text/"), Some(String::new()));
    assert_eq!(text_content_from(Some("x".to_string()), "text/html"), Some("x".to_string()));
    assert_eq!(text_content_from(Some("x".to_string()), "image/png"), None);
    assert_eq!(text_content_from(None, "text/html"), None);
}

#[test]
fn credentials_never_expire() {
    assert!(!is_token_expired("anything"));
    assert!(!is_token_expired(""));
}

#[test]
fn file_places() {
    let manager = FileManager::new("user-7");
    assert_eq!(manager.user_id(), "user-7");
    assert_eq!(manager.db_name(), "alem_files_user-7");
    assert_eq!(FileManager::storage_path("d1", "notes.txt"), "files/d1/notes.txt");
    assert_eq!(FileManager::local_path(Backend::Opfs, "files/d1/a"), "opfs://files/d1/a");
    assert_eq!(FileManager::local_path(Backend::IndexedDb, "files/d1/a"), "indexeddb://files/d1/a");
    assert_eq!(
        FileManager::locate("opfs://files/d1/a"),
        Ok((Backend::Opfs, "files/d1/a".to_string()))
    );
    assert_eq!(
        FileManager::locate("indexeddb://files/d1/ä"),
        Ok((Backend::IndexedDb, "files/d1/ä".to_string()))
    );
    assert_eq!(FileManager::locate("opfs://"), Ok((Backend::Opfs, String::new())));
    assert_eq!(FileManager::locate("/tmp/a"), Err(FileError::InvalidPath));
    assert_eq!(FileManager::locate("opfs:/a"), Err(FileError::InvalidPath));
    assert_eq!(FileManager::locate(""), Err(FileError::InvalidPath));
    assert_eq!(FileError::InvalidPath.message(), "Invalid local path format");
}

#[test]
fn json_text_members() {
    assert_eq!(text_member("{\"a\":\"b\"}", "a"), Some("b".to_string()));
    assert_eq!(text_member("{\"a\":\"q\\\"x\\u00e9\"}", "a"), Some("q\"xé".to_string()));
    assert_eq!(text_member("{\"a\":1}", "a"), None);
    assert_eq!(text_member("{\"a\":\"b\"}", "c"), None);
    assert_eq!(text_member("[\"a\"]", "a"), None);
    assert_eq!(text_member("{\"a\":", "a"), None);
    assert_eq!(text_member("{\"a\":\"first\",\"a\":\"last\"}", "a"), Some("last".to_string()));
}

#[test]
fn row_columns() {
    let row = Row {
        values: vec![
            Value::Text("a".to_string()),
            Value::Integer(7),
            Value::Null,
            Value::Real { bits: 0x3ff0_0000_0000_0000 },
            Value::Blob(vec![1, 2]),
        ],
    };
    assert_eq!(text(&row, 0), Some("a".to_string()));
    assert_eq!(text(&row, 1), None);
    assert_eq!(text(&row, 2), None);
    assert_eq!(text(&row, 3), None);
    assert_eq!(text(&row, 4), None);
    assert_eq!(text(&row, 5), None);
    assert_eq!(text(&row, -1), None);
    assert_eq!(text(&row, i32::MAX), None);
    assert_eq!(integer(&row, 1), Some(7));
    assert_eq!(integer(&row, 0), None);
    assert_eq!(integer(&row, 9), None);
    assert_eq!(integer(&row, -3), None);
}

#[test]
fn tags_from_json() {
    assert_eq!(read_tags("[\"a\",\"b c\"]"), vec!["a", "b c"]);
    assert_eq!(read_tags("[]"), Vec::<String>::new());
    assert_eq!(read_tags("[\"a\",1]"), Vec::<String>::new());
    assert_eq!(read_tags("null"), Vec::<String>::new());
    assert_eq!(read_tags("{\"a\":1}"), Vec::<String>::new());
    assert_eq!(read_tags("["), Vec::<String>::new());
}

fn full_row() -> Vec<Value> {
    vec![
        Value::Text("d1".to_string()),
        Value::Text("u1".to_string()),
        Value::Text("acme".to_string()),
        Value::Text("a.txt".to_string()),
        Value::Text("text/plain".to_string()),
        Value::Integer(42),
        Value::Text("hash".to_string()),
        Value::Text("/files/a".to_string()),
        Value::Text("objects/a".to_string()),
        Value::Text("words".to_string()),
        Value::Text("{ \"k\": 1 }".to_string()),
        Value::Text("[\"x\",\"y\"]".to_string()),
        Value::Text("synced".to_string()),
        Value::Integer(3),
        Value::Integer(2),
        Value::Integer(1),
        Value::Integer(0),
        Value::Integer(5),
        Value::Text("oops".to_string()),
        Value::Text("2024-01-02".to_string()),
        Value::Text("2024-01-01".to_string()),
        Value::Text("2024-01-03".to_string()),
    ]
}

#[test]
fn document_from_a_full_row() {
    assert_eq!(
        row_to_document(&Row { values: full_row() }),
        Ok(Document {
            id: "d1".to_string(),
            user_id: "u1".to_string(),
            tenant_id: "acme".to_string(),
            filename: "a.txt".to_string(),
            content_type: Some("text/plain".to_string()),
            file_size: Some(42),
            content_hash: Some("hash".to_string()),
            local_path: Some("/files/a".to_string()),
            object_key: Some("objects/a".to_string()),
            text_content: Some("words".to_string()),
            metadata: "{\"k\":1}".to_string(),
            tags: vec!["x".to_string(), "y".to_string()],
            status: DocumentStatus::Synced,
            local_version: 3,
            server_version: 2,
            is_synced: true,
            needs_upload: false,
            needs_download: true,
            sync_error: Some("oops".to_string()),
            last_synced_at: Some("2024-01-02".to_string()),
            created_at: "2024-01-01".to_string(),
            updated_at: "2024-01-03".to_string(),
        })
    );
}

#[test]
fn document_from_an_empty_row() {
    assert_eq!(
        row_to_document(&Row { values: vec![] }),
        Ok(Document {
            id: String::new(),
            user_id: String::new(),
            tenant_id: String::new(),
            filename: String::new(),
            content_type: None,
            file_size: None,
            content_hash: None,
            local_path: None,
            object_key: None,
            text_content: None,
            metadata: "{}".to_string(),
            tags: vec![],
            status: DocumentStatus::Local,
            local_version: 0,
            server_version: 0,
            is_synced: false,
            needs_upload: false,
            needs_download: false,
            sync_error: None,
            last_synced_at: None,
            created_at: String::new(),
            updated_at: String::new(),
        })
    );
}

#[test]
fn document_from_a_row_with_odd_columns() {
    let mut values = full_row();
    values[10] = Value::Text("{broken".to_string());
    values[11] = Value::Text("[1,2]".to_string());
    values[12] = Value::Null;
    values[13] = Value::Text("three".to_string());
    let doc = row_to_document(&Row { values }).unwrap();
    assert_eq!(doc.metadata, "{}");
    assert_eq!(doc.tags, Vec::<String>::new());
    assert_eq!(doc.status, DocumentStatus::Local);
    assert_eq!(doc.local_version, 0);
}

#[test]
fn document_from_a_row_with_an_unknown_status() {
    let mut values = full_row();
    values[12] = Value::Text("archived".to_string());
    assert_eq!(row_to_document(&Row { values }), Err(RowError::UnknownStatus));
}

#[test]
fn queue_summary() {
    let mut st = state();
    assert_eq!(
        get_sync_status(&st),
        SyncStatus {
            is_syncing: false,
            last_sync_at: None,
            pending_count: 0,
            failed_count: 0,
            connection_online: true,
        }
    );
    st.db.insert_operation(op("a", "t1", OperationStatus::Pending)).unwrap();
    st.db.insert_operation(op("b", "t2", OperationStatus::Failed)).unwrap();
    st.db.insert_operation(op("c", "t3", OperationStatus::Done)).unwrap();
    st.db.insert_operation(op("d", "t4", OperationStatus::Pending)).unwrap();
    st.db.insert_operation(op("e", "t5", OperationStatus::Pending)).unwrap();
    let mut identity = st.db.identity().clone();
    identity.last_sync_at = Some("2024-02-02T00:00:00Z".to_string());
    st.db.set_identity(identity);
    st.sync.run_sync_cycle(&st.db, Some("k".to_string()));
    assert_eq!(
        get_sync_status(&st),
        SyncStatus {
            is_syncing: true,
            last_sync_at: Some("2024-02-02T00:00:00Z".to_string()),
            pending_count: 3,
            failed_count: 1,
            connection_online: true,
        }
    );
    st.sync.resume(&mut st.db, alem_sync::engine::Reply::Failure { message: "x".to_string() }, "t");
    let status = get_sync_status(&st);
    assert!(!status.is_syncing);
    assert!(!status.connection_online);
}

#[test]
fn open_operations_newest_first() {
    let mut st = state();
    st.db.insert_operation(op("a", "t1", OperationStatus::Pending)).unwrap();
    st.db.insert_operation(op("b", "t2", OperationStatus::Failed)).unwrap();
    st.db.insert_operation(op("c", "t3", OperationStatus::Done)).unwrap();
    st.db.insert_operation(op("d", "t4", OperationStatus::Pending)).unwrap();
    let listed: Vec<String> = get_pending_operations(&st).into_iter().map(|o| o.id).collect();
    assert_eq!(listed, vec!["d", "b", "a"]);
}

#[test]
fn open_operations_are_limited_to_fifty() {
    assert_eq!(LISTING_LIMIT, 50);
    let mut st = state();
    for i in 0..60 {
        st.db
            .insert_operation(op(&format!("op{i:02}"), &format!("t{i:02}"), OperationStatus::Failed))
            .unwrap();
    }
    let listed: Vec<String> = get_pending_operations(&st).into_iter().map(|o| o.id).collect();
    let expected: Vec<String> = (10..60).rev().map(|i| format!("op{i:02}")).collect();
    assert_eq!(listed, expected);
    assert!(get_pending_operations(&state()).is_empty());
}

#[test]
fn manual_retry_resets_failed_operations() {
    let mut st = state();
    st.db.insert_operation(op("a", "t1", OperationStatus::Failed)).unwrap();
    st.db.insert_operation(op("b", "t2", OperationStatus::Done)).unwrap();
    st.db.insert_operation(op("c", "t3", OperationStatus::Failed)).unwrap();
    assert_eq!(retry_failed_operations(&mut st), 2);
    for id in ["a", "c"] {
        let o = st.db.operation(id).unwrap();
        assert_eq!(o.status, OperationStatus::Pending);
        assert_eq!(o.retry_count, 0);
        assert_eq!(o.error_msg, None);
    }
    assert_eq!(st.db.operation("b"), Some(op("b", "t2", OperationStatus::Done)));
    assert_eq!(retry_failed_operations(&mut st), 0);
}

#[test]
fn sign_in_is_recorded() {
    let mut st = state();
    assert_eq!(
        is_authenticated(None, &st),
        AuthResult { authenticated: false, server_url: None, username: None }
    );
    assert_eq!(
        is_authenticated(Some(""), &st),
        AuthResult { authenticated: false, server_url: None, username: None }
    );
    assert_eq!(
        is_authenticated(Some("tok"), &st),
        AuthResult {
            authenticated: true,
            server_url: Some("http://localhost:4000".to_string()),
            username: None,
        }
    );
    store_oauth_token("https://alem.example".to_string(), "aigul".to_string(), &mut st);
    assert_eq!(
        is_authenticated(Some("tok"), &st),
        AuthResult {
            authenticated: true,
            server_url: Some("https://alem.example".to_string()),
            username: Some("aigul".to_string()),
        }
    );
    assert_eq!(st.db.identity().tenant_id, "default");
}

#[test]
fn document_to_a_row_and_back() {
    let doc = row_to_document(&Row { values: full_row() }).unwrap();
    let row = document_to_row(&doc);
    let mut expected = full_row();
    expected[10] = Value::Text("{\"k\":1}".to_string());
    expected[17] = Value::Integer(1);
    assert_eq!(row.values, expected);
    assert_eq!(row_to_document(&row), Ok(doc));
}

#[test]
fn document_row_with_absent_fields() {
    let doc = row_to_document(&Row { values: vec![] }).unwrap();
    let row = document_to_row(&doc);
    assert_eq!(row.values.len(), 22);
    assert_eq!(row.values[4], Value::Null);
    assert_eq!(row.values[5], Value::Null);
    assert_eq!(row.values[10], Value::Text("{}".to_string()));
    assert_eq!(row.values[11], Value::Text("[]".to_string()));
    assert_eq!(row.values[12], Value::Text("local".to_string()));
    assert_eq!(row.values[15], Value::Integer(0));
    assert_eq!(row_to_document(&row), Ok(doc));
}

#[test]
fn document_row_escapes_tags() {
    let mut doc = row_to_document(&Row { values: full_row() }).unwrap();
    doc.tags = vec!["a\"b".to_string(), "c,d".to_string()];
    let row = document_to_row(&doc);
    assert_eq!(row.values[11], Value::Text("[\"a\\\"b\",\"c,d\"]".to_string()));
    assert_eq!(row_to_document(&row).unwrap().tags, doc.tags);
}

#[test]
fn operation_to_a_row_and_back() {
    let mut o = op("o1", "2024-01-01", OperationStatus::Failed);
    o.retry_count = 3;
    let row = operation_to_row(&o);
    assert_eq!(
        row.values,
        vec![
            Value::Text("o1".to_string()),
            Value::Text("u1".to_string()),
            Value::Text("upload_document".to_string()),
            Value::Text("{}".to_string()),
            Value::Text("failed".to_string()),
            Value::Integer(3),
            Value::Text("e".to_string()),
            Value::Text("2024-01-01".to_string()),
        ]
    );
    assert_eq!(row_to_operation(&row), Ok(o));
}

#[test]
fn operation_from_odd_rows() {
    let empty = row_to_operation(&Row { values: vec![] }).unwrap();
    assert_eq!(
        empty,
        OfflineOperation {
            id: String::new(),
            user_id: String::new(),
            op_type: String::new(),
            payload: "{}".to_string(),
            status: OperationStatus::Pending,
            retry_count: 0,
            error_msg: None,
            created_at: String::new(),
        }
    );
    let mut values = operation_to_row(&op("o1", "t", OperationStatus::Done)).values;
    values[5] = Value::Integer(i64::MAX);
    assert_eq!(row_to_operation(&Row { values: values.clone() }).unwrap().retry_count, i32::MAX);
    values[5] = Value::Integer(i64::MIN);
    assert_eq!(row_to_operation(&Row { values: values.clone() }).unwrap().retry_count, i32::MIN);
    values[5] = Value::Integer(-7);
    assert_eq!(row_to_operation(&Row { values: values.clone() }).unwrap().retry_count, -7);
    values[4] = Value::Text("paused".to_string());
    assert_eq!(row_to_operation(&Row { values }), Err(RowError::UnknownStatus));
}

#[test]
fn identity_to_a_row_and_back() {
    let identity = LocalIdentity {
        user_id: Some("u1".to_string()),
        tenant_id: "acme".to_string(),
        username: Some("aigul".to_string()),
        email: None,
        did: Some("did:key:zA".to_string()),
        did_public_key: Some("zA".to_string()),
        pleroma_account_id: None,
        server_url: "https://alem.example".to_string(),
        last_sync_at: Some("2024-03-03".to_string()),
    };
    let row = identity_to_row(&identity);
    assert_eq!(row.values.len(), 9);
    assert_eq!(row.values[3], Value::Null);
    assert_eq!(row.values[7], Value::Text("https://alem.example".to_string()));
    assert_eq!(row_to_identity(&row), identity);
    assert_eq!(row_to_identity(&Row { values: vec![] }), LocalIdentity::new());
}

#[test]
fn content_is_described_from_its_bytes() {
    let input = DocumentInput {
        filename: "hello.txt".to_string(),
        content: b"hello world".to_vec(),
        content_type: "text/plain".to_string(),
        metadata: "{\"lang\":\"en\"}".to_string(),
        tags: vec!["greeting".to_string()],
    };
    assert_eq!(
        describe_content(input, "opfs://files/d1/hello.txt".to_string()),
        CreateDocumentInput {
            filename: "hello.txt".to_string(),
            content_type: "text/plain".to_string(),
            local_path: "opfs://files/d1/hello.txt".to_string(),
            file_size: 11,
            content_hash: "b94d27b9934d3e08a52e52d7da7dabfac484efe37a5380ee9088f7ace2efcde9"
                .to_string(),
            text_content: Some("hello world".to_string()),
            metadata: Some("{\"lang\":\"en\"}".to_string()),
            tags: Some(vec!["greeting".to_string()]),
        }
    );
    let binary = DocumentInput {
        filename: "a.bin".to_string(),
        content: vec![0xff, 0x00],
        content_type: "application/octet-stream".to_string(),
        metadata: "{}".to_string(),
        tags: vec![],
    };
    let described = describe_content(binary, "indexeddb://files/d2/a.bin".to_string());
    assert_eq!(described.file_size, 2);
    assert_eq!(described.text_content, None);
    assert_eq!(described.tags, Some(vec![]));
}
