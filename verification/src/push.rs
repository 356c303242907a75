//! The push pipeline, step by step: which operations a cycle takes up, what
//! each of them asks of the remote service, and what its outcome does to the
//! queue and to the document.

use crate::json::{
    canonical, json_canonical, json_text_member, quoted, text_member, to_json_string,
};
use crate::models::{
    Document, DocumentStatus, DocumentView, OfflineOperation, OperationStatus, OperationView,
};
use crate::sequences::{first_n, lemma_filter_next, lemma_filter_prefix};
use crate::store::{
    LocalStore, StoreView, lemma_put_document_wf, lemma_put_operation_wf, operation_views,
};
use crate::strings::{join3, opt_text, text_eq};
use vstd::prelude::*;

verus! {

/// How many operations one cycle takes up at most.
pub const BATCH_LIMIT: usize = 20;

/// The number of failures after which an operation is no longer taken up.
pub const RETRY_CAP: i32 = 5;

/// Whether a cycle may take the operation up: it is pending and has failed
/// fewer times than the cap allows.
pub open spec fn eligible(o: OperationView) -> bool {
    o.status == OperationStatus::Pending && o.retry_count < RETRY_CAP
}

/// [`eligible`] as a test on operations.
pub open spec fn is_eligible() -> spec_fn(OperationView) -> bool {
    |o: OperationView| eligible(o)
}

/// The operations that the next cycle takes up: the eligible ones in the
/// order of the queue, which is the order of their creation, and at most
/// [`BATCH_LIMIT`] of them.
pub open spec fn pending_batch(ops: Seq<OperationView>) -> Seq<OperationView> {
    first_n(ops.filter(is_eligible()), BATCH_LIMIT as nat)
}

/// Picks the operations of the next cycle.
pub fn select_batch(store: &LocalStore) -> (batch: Vec<OfflineOperation>)
    ensures
        operation_views(batch@) == pending_batch(store@.operations),
{
    let ops = store.operations();
    let ghost all = operation_views(ops@);
    let mut batch: Vec<OfflineOperation> = Vec::new();
    let mut i: usize = 0;
    proof {
        if ops.len() > 0 {
            lemma_filter_next(all, is_eligible(), 0);
        } else {
            reveal(Seq::filter);
        }
        assert(operation_views(batch@) =~= Seq::empty());
    }
    while i < ops.len() && batch.len() < BATCH_LIMIT
        invariant
            i <= ops.len(),
            all == operation_views(ops@),
            batch.len() <= BATCH_LIMIT,
            operation_views(batch@) == all.take(i as int).filter(is_eligible()),
        decreases ops.len() - i,
    {
        proof {
            lemma_filter_next(all, is_eligible(), i as int);
        }
        let ghost before = operation_views(batch@);
        let op = &ops[i];
        let takes = match op.status {
            OperationStatus::Pending => op.retry_count < RETRY_CAP,
            _ => false,
        };
        if takes {
            batch.push(op.clone());
            assert(operation_views(batch@) =~= before.push(ops@[i as int]@));
        }
        i = i + 1;
    }
    proof {
        lemma_filter_prefix(all, is_eligible(), i as int);
        if i == ops.len() {
            assert(all.take(i as int) =~= all);
        }
    }
    batch
}

/// Why an operation failed before the remote service had its say. What
/// the network reports is recorded in its own words.
#[derive(Debug, PartialEq, Eq)]
pub enum PushError {
    /// The payload of the operation names no document.
    MissingDocId,
    /// The document that the operation names is not kept here.
    DocumentNotFound { doc_id: String },
    /// The document has no local content to upload.
    NoLocalPath,
    /// The remote service granted no upload target.
    NoUploadUrl,
    /// The remote service named no object for the upload.
    NoObjectKey,
}

/// What a [`PushError`] holds, as plain mathematical values.
pub ghost enum PushErrorView {
    MissingDocId,
    DocumentNotFound { doc_id: Seq<char> },
    NoLocalPath,
    NoUploadUrl,
    NoObjectKey,
}

impl View for PushError {
    type V = PushErrorView;

    open spec fn view(&self) -> PushErrorView {
        match *self {
            PushError::MissingDocId => PushErrorView::MissingDocId,
            PushError::DocumentNotFound { doc_id } => PushErrorView::DocumentNotFound {
                doc_id: doc_id@,
            },
            PushError::NoLocalPath => PushErrorView::NoLocalPath,
            PushError::NoUploadUrl => PushErrorView::NoUploadUrl,
            PushError::NoObjectKey => PushErrorView::NoObjectKey,
        }
    }
}

/// The text recorded on an operation that failed for this reason.
pub open spec fn error_text(e: PushErrorView) -> Seq<char> {
    match e {
        PushErrorView::MissingDocId => "Missing doc_id"@,
        PushErrorView::DocumentNotFound { doc_id } => "Document "@ + doc_id
            + " not found in local DB"@,
        PushErrorView::NoLocalPath => "Document has no local_path"@,
        PushErrorView::NoUploadUrl => "No upload_url"@,
        PushErrorView::NoObjectKey => "No object_key"@,
    }
}

impl PushError {
    /// The text recorded on the operation.
    pub fn message(&self) -> (r: String)
        ensures
            r@ == error_text(self@),
    {
        match self {
            PushError::MissingDocId => "Missing doc_id".to_string(),
            PushError::DocumentNotFound { doc_id } => join3(
                "Document ",
                doc_id.as_str(),
                " not found in local DB",
            ),
            PushError::NoLocalPath => "Document has no local_path".to_string(),
            PushError::NoUploadUrl => "No upload_url".to_string(),
            PushError::NoObjectKey => "No object_key".to_string(),
        }
    }
}

/// What a queued operation asks for.
#[derive(Debug, PartialEq, Eq)]
pub enum Operation {
    /// Upload the document and tell the remote service about it.
    UploadDocument { doc_id: String },
    /// Tell the remote service that the document was deleted.
    DeleteDocument { doc_id: String },
    /// An operation of a type that this client does not know. It is passed
    /// over and keeps its status.
    Unknown { op_type: String },
}

/// What an [`Operation`] holds, as plain mathematical values.
pub ghost enum OperationKind {
    UploadDocument { doc_id: Seq<char> },
    DeleteDocument { doc_id: Seq<char> },
    Unknown { op_type: Seq<char> },
}

impl View for Operation {
    type V = OperationKind;

    open spec fn view(&self) -> OperationKind {
        match *self {
            Operation::UploadDocument { doc_id } => OperationKind::UploadDocument { doc_id: doc_id@ },
            Operation::DeleteDocument { doc_id } => OperationKind::DeleteDocument { doc_id: doc_id@ },
            Operation::Unknown { op_type } => OperationKind::Unknown { op_type: op_type@ },
        }
    }
}

/// What an operation of the given type asks for, given the document that
/// its payload names. An operation of a known type must name a document.
pub open spec fn operation_of(op_type: Seq<char>, doc_id: Option<Seq<char>>) -> Result<
    OperationKind,
    PushErrorView,
> {
    if op_type == "upload_document"@ {
        match doc_id {
            Some(d) => Ok(OperationKind::UploadDocument { doc_id: d }),
            None => Err(PushErrorView::MissingDocId),
        }
    } else if op_type == "delete_document"@ {
        match doc_id {
            Some(d) => Ok(OperationKind::DeleteDocument { doc_id: d }),
            None => Err(PushErrorView::MissingDocId),
        }
    } else {
        Ok(OperationKind::Unknown { op_type })
    }
}

/// The document that a payload names.
pub open spec fn payload_doc_id(payload: Seq<char>) -> Option<Seq<char>> {
    json_text_member(payload, "doc_id"@)
}

/// The view of a decoding result.
pub open spec fn operation_view(r: Result<Operation, PushError>) -> Result<
    OperationKind,
    PushErrorView,
> {
    match r {
        Ok(o) => Ok(o@),
        Err(e) => Err(e@),
    }
}

impl Operation {
    /// Decodes an operation from its type and the document that its payload
    /// names.
    pub fn from_parts(op_type: &str, doc_id: Option<String>) -> (r: Result<Operation, PushError>)
        ensures
            operation_view(r) == operation_of(op_type@, opt_text(doc_id)),
    {
        if text_eq(op_type, "upload_document") {
            match doc_id {
                Some(d) => Ok(Operation::UploadDocument { doc_id: d }),
                None => Err(PushError::MissingDocId),
            }
        } else if text_eq(op_type, "delete_document") {
            match doc_id {
                Some(d) => Ok(Operation::DeleteDocument { doc_id: d }),
                None => Err(PushError::MissingDocId),
            }
        } else {
            Ok(Operation::Unknown { op_type: op_type.to_owned() })
        }
    }
}

/// Decodes a queued operation: its type, and the `doc_id` member of its
/// payload.
pub fn decode_operation(op: &OfflineOperation) -> (r: Result<Operation, PushError>)
    ensures
        operation_view(r) == operation_of(op@.op_type, payload_doc_id(op@.payload)),
{
    Operation::from_parts(op.op_type.as_str(), text_member(op.payload.as_str(), "doc_id"))
}

/// What an upload in progress needs to know of its document.
#[derive(Debug, PartialEq, Eq)]
pub struct UploadTask {
    pub doc_id: String,
    pub filename: String,
    pub local_path: String,
    pub content_type: String,
    /// The metadata of the document, as JSON text.
    pub metadata: String,
    /// The object that the remote service named for the upload; empty until
    /// it has named one.
    pub object_key: String,
}

/// What an [`UploadTask`] holds, as plain mathematical values.
pub ghost struct UploadTaskView {
    pub doc_id: Seq<char>,
    pub filename: Seq<char>,
    pub local_path: Seq<char>,
    pub content_type: Seq<char>,
    pub metadata: Seq<char>,
    pub object_key: Seq<char>,
}

impl View for UploadTask {
    type V = UploadTaskView;

    open spec fn view(&self) -> UploadTaskView {
        UploadTaskView {
            doc_id: self.doc_id@,
            filename: self.filename@,
            local_path: self.local_path@,
            content_type: self.content_type@,
            metadata: self.metadata@,
            object_key: self.object_key@,
        }
    }
}

impl Clone for UploadTask {
    fn clone(&self) -> (r: Self)
        ensures
            r@ == self@,
    {
        UploadTask {
            doc_id: self.doc_id.clone(),
            filename: self.filename.clone(),
            local_path: self.local_path.clone(),
            content_type: self.content_type.clone(),
            metadata: self.metadata.clone(),
            object_key: self.object_key.clone(),
        }
    }
}

/// A task that stands for no upload.
pub open spec fn no_task() -> UploadTaskView {
    UploadTaskView {
        doc_id: Seq::empty(),
        filename: Seq::empty(),
        local_path: Seq::empty(),
        content_type: Seq::empty(),
        metadata: Seq::empty(),
        object_key: Seq::empty(),
    }
}

impl UploadTask {
    /// A task that stands for no upload.
    pub fn none() -> (r: UploadTask)
        ensures
            r@ == no_task(),
    {
        UploadTask {
            doc_id: String::new(),
            filename: String::new(),
            local_path: String::new(),
            content_type: String::new(),
            metadata: String::new(),
            object_key: String::new(),
        }
    }
}

/// The upload of the document `doc_id`, or why it cannot start: the document
/// must be kept here and must have local content.
pub open spec fn upload_task_of(s: StoreView, doc_id: Seq<char>) -> Result<
    UploadTaskView,
    PushErrorView,
> {
    match s.document(doc_id) {
        None => Err(PushErrorView::DocumentNotFound { doc_id }),
        Some(d) => match d.local_path {
            None => Err(PushErrorView::NoLocalPath),
            Some(path) => Ok(
                UploadTaskView {
                    doc_id,
                    filename: d.filename,
                    local_path: path,
                    content_type: match d.content_type {
                        Some(t) => t,
                        None => "application/octet-stream"@,
                    },
                    metadata: d.metadata,
                    object_key: Seq::empty(),
                },
            ),
        },
    }
}

/// The view of the start of an upload.
pub open spec fn task_view(r: Result<UploadTask, PushError>) -> Result<
    UploadTaskView,
    PushErrorView,
> {
    match r {
        Ok(t) => Ok(t@),
        Err(e) => Err(e@),
    }
}

/// Starts the upload of a document: reads from its record what the three
/// steps of the upload need, or says why the upload cannot start.
pub fn upload_document(store: &LocalStore, doc_id: &str) -> (r: Result<UploadTask, PushError>)
    requires
        store.wf(),
    ensures
        task_view(r) == upload_task_of(store@, doc_id@),
{
    match store.document(doc_id) {
        None => Err(PushError::DocumentNotFound { doc_id: doc_id.to_owned() }),
        Some(doc) => match doc.local_path {
            None => Err(PushError::NoLocalPath),
            Some(path) => Ok(
                UploadTask {
                    doc_id: doc_id.to_owned(),
                    filename: doc.filename,
                    local_path: path,
                    content_type: match doc.content_type {
                        Some(t) => t,
                        None => "application/octet-stream".to_string(),
                    },
                    metadata: doc.metadata,
                    object_key: String::new(),
                },
            ),
        },
    }
}

/// Where the bytes of an upload go and under which name the remote service
/// will know them.
#[derive(Debug, PartialEq, Eq)]
pub struct UploadTarget {
    pub upload_url: String,
    pub object_key: String,
}

/// What an [`UploadTarget`] holds, as plain mathematical values.
pub ghost struct UploadTargetView {
    pub upload_url: Seq<char>,
    pub object_key: Seq<char>,
}

impl View for UploadTarget {
    type V = UploadTargetView;

    open spec fn view(&self) -> UploadTargetView {
        UploadTargetView { upload_url: self.upload_url@, object_key: self.object_key@ }
    }
}

/// The target that the two fields of a reply grant. Both are required.
pub open spec fn target_of(upload_url: Option<Seq<char>>, object_key: Option<Seq<char>>) -> Result<
    UploadTargetView,
    PushErrorView,
> {
    match upload_url {
        None => Err(PushErrorView::NoUploadUrl),
        Some(u) => match object_key {
            None => Err(PushErrorView::NoObjectKey),
            Some(k) => Ok(UploadTargetView { upload_url: u, object_key: k }),
        },
    }
}

/// The target that the body of a reply grants.
pub open spec fn target_in(body: Seq<char>) -> Result<UploadTargetView, PushErrorView> {
    target_of(json_text_member(body, "upload_url"@), json_text_member(body, "object_key"@))
}

/// The view of a granted target.
pub open spec fn target_view(r: Result<UploadTarget, PushError>) -> Result<
    UploadTargetView,
    PushErrorView,
> {
    match r {
        Ok(t) => Ok(t@),
        Err(e) => Err(e@),
    }
}

impl UploadTarget {
    /// The target that the two fields of a reply grant.
    pub fn from_parts(upload_url: Option<String>, object_key: Option<String>) -> (r: Result<
        UploadTarget,
        PushError,
    >)
        ensures
            target_view(r) == target_of(opt_text(upload_url), opt_text(object_key)),
    {
        match upload_url {
            None => Err(PushError::NoUploadUrl),
            Some(u) => match object_key {
                None => Err(PushError::NoObjectKey),
                Some(k) => Ok(UploadTarget { upload_url: u, object_key: k }),
            },
        }
    }
}

/// Reads the upload target from the body of the reply that grants it.
pub fn read_upload_target(body: &str) -> (r: Result<UploadTarget, PushError>)
    ensures
        target_view(r) == target_in(body@),
{
    UploadTarget::from_parts(text_member(body, "upload_url"), text_member(body, "object_key"))
}

/// One change in the envelope that tells the remote service what happened
/// here.
#[derive(Debug, PartialEq, Eq)]
pub enum ApplyChange {
    /// A document was uploaded. `metadata` is JSON text.
    CreateDocument {
        id: String,
        filename: String,
        content_type: String,
        object_key: String,
        metadata: String,
    },
    /// A document was deleted.
    DeleteDocument { id: String },
}

/// What an [`ApplyChange`] holds, as plain mathematical values.
pub ghost enum ApplyChangeView {
    CreateDocument {
        id: Seq<char>,
        filename: Seq<char>,
        content_type: Seq<char>,
        object_key: Seq<char>,
        metadata: Seq<char>,
    },
    DeleteDocument { id: Seq<char> },
}

impl View for ApplyChange {
    type V = ApplyChangeView;

    open spec fn view(&self) -> ApplyChangeView {
        match *self {
            ApplyChange::CreateDocument { id, filename, content_type, object_key, metadata } => {
                ApplyChangeView::CreateDocument {
                    id: id@,
                    filename: filename@,
                    content_type: content_type@,
                    object_key: object_key@,
                    metadata: metadata@,
                }
            },
            ApplyChange::DeleteDocument { id } => ApplyChangeView::DeleteDocument { id: id@ },
        }
    }
}

impl ApplyChange {
    /// The `type` under which the change travels.
    pub fn kind(&self) -> (r: &'static str)
        ensures
            r@ == match self@ {
                ApplyChangeView::CreateDocument { .. } => "create_document"@,
                ApplyChangeView::DeleteDocument { .. } => "delete_document"@,
            },
    {
        match self {
            ApplyChange::CreateDocument { .. } => "create_document",
            ApplyChange::DeleteDocument { .. } => "delete_document",
        }
    }

    /// The document that the change is about.
    pub fn id(&self) -> (r: &str)
        ensures
            r@ == match self@ {
                ApplyChangeView::CreateDocument { id, .. } => id,
                ApplyChangeView::DeleteDocument { id } => id,
            },
    {
        match self {
            ApplyChange::CreateDocument { id, .. } => id.as_str(),
            ApplyChange::DeleteDocument { id } => id.as_str(),
        }
    }
}

/// The JSON text of one change: its `type`, the `id` of its document, and
/// its `data`.
pub open spec fn change_text(c: ApplyChangeView) -> Seq<char> {
    match c {
        ApplyChangeView::CreateDocument { id, filename, content_type, object_key, metadata } => {
            "{\"type\":\"create_document\",\"id\":"@ + quoted(id) + ",\"data\":{\"id\":"@ + quoted(id)
                + ",\"filename\":"@ + quoted(filename) + ",\"content_type\":"@ + quoted(
                content_type,
            ) + ",\"object_key\":"@ + quoted(object_key) + ",\"metadata\":"@ + metadata + "}}"@
        },
        ApplyChangeView::DeleteDocument { id } => {
            "{\"type\":\"delete_document\",\"id\":"@ + quoted(id) + ",\"data\":{\"id\":"@ + quoted(id)
                + "}}"@
        },
    }
}

/// The JSON text of the envelope that carries one change to the remote
/// service.
pub open spec fn envelope_text(c: ApplyChangeView) -> Seq<char> {
    "{\"changes\":["@ + change_text(c) + "]}"@
}

/// The JSON text that asks the remote service for an upload target.
pub open spec fn target_request_text(doc_id: Seq<char>, filename: Seq<char>) -> Seq<char> {
    "{\"doc_id\":"@ + quoted(doc_id) + ",\"filename\":"@ + quoted(filename) + "}"@
}

impl ApplyChange {
    /// Spells the envelope that carries this change to the remote service.
    pub fn envelope(&self) -> (r: String)
        ensures
            r@ == envelope_text(self@),
    {
        let mut r = "{\"changes\":[".to_string();
        match self {
            ApplyChange::CreateDocument { id, filename, content_type, object_key, metadata } => {
                let quoted_id = to_json_string(id.as_str());
                r.append("{\"type\":\"create_document\",\"id\":");
                r.append(quoted_id.as_str());
                r.append(",\"data\":{\"id\":");
                r.append(quoted_id.as_str());
                r.append(",\"filename\":");
                r.append(to_json_string(filename.as_str()).as_str());
                r.append(",\"content_type\":");
                r.append(to_json_string(content_type.as_str()).as_str());
                r.append(",\"object_key\":");
                r.append(to_json_string(object_key.as_str()).as_str());
                r.append(",\"metadata\":");
                r.append(metadata.as_str());
                r.append("}}");
            },
            ApplyChange::DeleteDocument { id } => {
                let quoted_id = to_json_string(id.as_str());
                r.append("{\"type\":\"delete_document\",\"id\":");
                r.append(quoted_id.as_str());
                r.append(",\"data\":{\"id\":");
                r.append(quoted_id.as_str());
                r.append("}}");
            },
        }
        r.append("]}");
        assert(r@ =~= envelope_text(self@));
        r
    }
}

/// Spells the request for an upload target.
pub fn upload_target_request(doc_id: &str, filename: &str) -> (r: String)
    ensures
        r@ == target_request_text(doc_id@, filename@),
{
    let mut r = "{\"doc_id\":".to_string();
    r.append(to_json_string(doc_id).as_str());
    r.append(",\"filename\":");
    r.append(to_json_string(filename).as_str());
    r.append("}");
    r
}

/// The metadata sent along with an upload: the stored text in compact
/// spelling, or `null` where the stored text is not JSON.
pub open spec fn sent_metadata(stored: Seq<char>) -> Seq<char> {
    match json_canonical(stored) {
        Some(c) => c,
        None => "null"@,
    }
}

/// The change that reports a finished upload.
pub open spec fn created_change(t: UploadTaskView) -> ApplyChangeView {
    ApplyChangeView::CreateDocument {
        id: t.doc_id,
        filename: t.filename,
        content_type: t.content_type,
        object_key: t.object_key,
        metadata: sent_metadata(t.metadata),
    }
}

/// Builds the change that reports a finished upload.
pub fn upload_notice(task: &UploadTask) -> (r: ApplyChange)
    ensures
        r@ == created_change(task@),
{
    ApplyChange::CreateDocument {
        id: task.doc_id.clone(),
        filename: task.filename.clone(),
        content_type: task.content_type.clone(),
        object_key: task.object_key.clone(),
        metadata: match canonical(task.metadata.as_str()) {
            Some(c) => c,
            None => "null".to_string(),
        },
    }
}

/// Builds the change that reports a local delete to the remote service.
pub fn delete_document_on_server(doc_id: &str) -> (r: ApplyChange)
    ensures
        r@ == (ApplyChangeView::DeleteDocument { id: doc_id@ }),
{
    ApplyChange::DeleteDocument { id: doc_id.to_owned() }
}

/// A document after its upload went through. A tombstone stays as it is.
pub open spec fn uploaded(d: DocumentView, object_key: Seq<char>, now: Seq<char>) -> DocumentView {
    if d.status == DocumentStatus::Deleted {
        d
    } else {
        DocumentView {
            status: DocumentStatus::Synced,
            object_key: Some(object_key),
            is_synced: true,
            needs_upload: false,
            last_synced_at: Some(now),
            updated_at: now,
            ..d
        }
    }
}

/// The retry count after one more failure.
pub open spec fn one_more(count: i32) -> i32 {
    if count < i32::MAX {
        (count + 1) as i32
    } else {
        count
    }
}

/// An operation after it went through.
pub open spec fn done(o: OperationView) -> OperationView {
    OperationView { status: OperationStatus::Done, ..o }
}

/// An operation after it failed. One that is done stays done.
pub open spec fn failed(o: OperationView, message: Seq<char>) -> OperationView {
    if o.status == OperationStatus::Done {
        o
    } else {
        OperationView {
            status: OperationStatus::Failed,
            retry_count: one_more(o.retry_count),
            error_msg: Some(message),
            ..o
        }
    }
}

/// The store after the upload of `doc_id` went through.
pub open spec fn store_after_upload(
    s: StoreView,
    doc_id: Seq<char>,
    object_key: Seq<char>,
    now: Seq<char>,
) -> StoreView {
    match s.document(doc_id) {
        Some(d) => s.put_document(doc_id, uploaded(d, object_key, now)),
        None => s,
    }
}

/// The store after the operation `op_id` went through.
pub open spec fn store_after_done(s: StoreView, op_id: Seq<char>) -> StoreView {
    match s.operation(op_id) {
        Some(o) => s.put_operation(op_id, done(o)),
        None => s,
    }
}

/// The store after the operation `op_id` failed with `message`.
pub open spec fn store_after_failure(
    s: StoreView,
    op_id: Seq<char>,
    message: Seq<char>,
) -> StoreView {
    match s.operation(op_id) {
        Some(o) => s.put_operation(op_id, failed(o, message)),
        None => s,
    }
}

/// The outcomes of the push pipeline keep the rules of the store.
pub proof fn lemma_outcomes_keep_wf(s: StoreView)
    requires
        s.wf(),
    ensures
        forall|doc_id: Seq<char>, key: Seq<char>, now: Seq<char>| #[trigger]
            store_after_upload(s, doc_id, key, now).wf(),
        forall|op_id: Seq<char>| #[trigger] store_after_done(s, op_id).wf(),
        forall|op_id: Seq<char>, message: Seq<char>| #[trigger]
            store_after_failure(s, op_id, message).wf(),
{
    assert forall|doc_id: Seq<char>, key: Seq<char>, now: Seq<char>| #[trigger]
        store_after_upload(s, doc_id, key, now).wf() by {
        if s.has_document(doc_id) {
            lemma_put_document_wf(s, doc_id, uploaded(s.document(doc_id)->0, key, now));
        }
    }
    assert forall|op_id: Seq<char>| #[trigger] store_after_done(s, op_id).wf() by {
        if s.has_operation(op_id) {
            lemma_put_operation_wf(s, op_id, done(s.operation(op_id)->0));
        }
    }
    assert forall|op_id: Seq<char>, message: Seq<char>| #[trigger]
        store_after_failure(s, op_id, message).wf() by {
        if s.has_operation(op_id) {
            lemma_put_operation_wf(s, op_id, failed(s.operation(op_id)->0, message));
        }
    }
}

/// Records on the document `doc_id` that its upload went through: it is
/// synced, it no longer needs an upload, and it knows its remote object.
pub fn mark_uploaded(store: &mut LocalStore, doc_id: &str, object_key: &str, now: &str)
    requires
        old(store).wf(),
    ensures
        final(store).wf(),
        final(store)@ == store_after_upload(old(store)@, doc_id@, object_key@, now@),
{
    proof {
        lemma_outcomes_keep_wf(store@);
    }
    match store.document(doc_id) {
        Some(mut doc) => {
            match doc.status {
                DocumentStatus::Deleted => {},
                _ => {
                    doc.status = DocumentStatus::Synced;
                    doc.object_key = Some(object_key.to_owned());
                    doc.is_synced = true;
                    doc.needs_upload = false;
                    doc.last_synced_at = Some(now.to_owned());
                    doc.updated_at = now.to_owned();
                },
            }
            let _ = store.replace_document(doc);
        },
        None => {},
    }
}

/// Records that the operation `op_id` went through.
pub fn mark_done(store: &mut LocalStore, op_id: &str)
    requires
        old(store).wf(),
    ensures
        final(store).wf(),
        final(store)@ == store_after_done(old(store)@, op_id@),
{
    proof {
        lemma_outcomes_keep_wf(store@);
    }
    match store.operation(op_id) {
        Some(mut op) => {
            op.status = OperationStatus::Done;
            let _ = store.replace_operation(op);
        },
        None => {},
    }
}

/// Records that the operation `op_id` failed: one more retry is counted and
/// the message is kept. An operation that is done is left alone.
pub fn mark_failed(store: &mut LocalStore, op_id: &str, message: String)
    requires
        old(store).wf(),
    ensures
        final(store).wf(),
        final(store)@ == store_after_failure(old(store)@, op_id@, message@),
{
    proof {
        lemma_outcomes_keep_wf(store@);
    }
    match store.operation(op_id) {
        Some(mut op) => {
            match op.status {
                OperationStatus::Done => {},
                _ => {
                    op.status = OperationStatus::Failed;
                    if op.retry_count < i32::MAX {
                        op.retry_count = op.retry_count + 1;
                    }
                    op.error_msg = Some(message);
                },
            }
            let _ = store.replace_operation(op);
        },
        None => {},
    }
}

} // verus!
