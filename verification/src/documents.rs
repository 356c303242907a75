//! The document commands: create, read, list, rename and soft-delete. Every
//! command that changes a document queues the operation that carries the
//! change to the remote service, in the same step.

use crate::json::{canonical, json_canonical};
use crate::models::{
    Document, DocumentStatus, DocumentView, IdentityView, OfflineOperation, OperationStatus,
    OperationView,
};
use crate::sequences::lemma_filter_next;
use crate::store::{StoreView, document_views};
use crate::strings::{join3, opt_text, texts};
use crate::system::{fresh_id, now};
use crate::AppState;
use vstd::prelude::*;

verus! {

/// Why a document command did nothing.
#[derive(Clone, Copy, Debug, PartialEq, Eq, Structural)]
pub enum CommandError {
    /// No document with the given identifier is kept.
    NotFound,
    /// The identifier offered for a new record is already taken.
    DuplicateId,
    /// The document's local revision cannot grow any further.
    RevisionExhausted,
}

impl CommandError {
    /// The message shown to the user.
    pub fn message(&self) -> (r: String)
        ensures
            r@ == match *self {
                CommandError::NotFound => "Document not found"@,
                CommandError::DuplicateId => "Insert failed: identifier already in use"@,
                CommandError::RevisionExhausted => "Update failed: revision counter exhausted"@,
            },
    {
        match self {
            CommandError::NotFound => "Document not found".to_string(),
            CommandError::DuplicateId => "Insert failed: identifier already in use".to_string(),
            CommandError::RevisionExhausted => "Update failed: revision counter exhausted".to_string(),
        }
    }
}

/// What the user supplies for a new document.
#[derive(Debug, PartialEq, Eq)]
pub struct CreateDocumentInput {
    pub filename: String,
    pub content_type: String,
    pub local_path: String,
    pub file_size: i64,
    pub content_hash: String,
    pub text_content: Option<String>,
    /// The metadata map, as JSON text.
    pub metadata: Option<String>,
    pub tags: Option<Vec<String>>,
}

/// What a [`CreateDocumentInput`] holds, as plain mathematical values.
pub ghost struct CreateDocumentInputView {
    pub filename: Seq<char>,
    pub content_type: Seq<char>,
    pub local_path: Seq<char>,
    pub file_size: i64,
    pub content_hash: Seq<char>,
    pub text_content: Option<Seq<char>>,
    pub metadata: Option<Seq<char>>,
    pub tags: Option<Seq<Seq<char>>>,
}

impl View for CreateDocumentInput {
    type V = CreateDocumentInputView;

    open spec fn view(&self) -> CreateDocumentInputView {
        CreateDocumentInputView {
            filename: self.filename@,
            content_type: self.content_type@,
            local_path: self.local_path@,
            file_size: self.file_size,
            content_hash: self.content_hash@,
            text_content: opt_text(self.text_content),
            metadata: opt_text(self.metadata),
            tags: match self.tags {
                Some(t) => Some(texts(t@)),
                None => None,
            },
        }
    }
}

/// The owner recorded on new documents: the signed-in user, or `anonymous`.
pub open spec fn owner_of(identity: IdentityView) -> Seq<char> {
    match identity.user_id {
        Some(u) => u,
        None => "anonymous"@,
    }
}

/// The metadata stored for a new document: what was supplied, in compact
/// spelling, or the empty map where nothing usable was supplied.
pub open spec fn stored_metadata(supplied: Option<Seq<char>>) -> Seq<char> {
    match supplied {
        Some(m) => match json_canonical(m) {
            Some(c) => c,
            None => "{}"@,
        },
        None => "{}"@,
    }
}

/// The payload of an operation on the document `doc_id`.
pub open spec fn payload_for(doc_id: Seq<char>) -> Seq<char> {
    "{\"doc_id\":\""@ + doc_id + "\"}"@
}

/// The record of a document that was just created locally.
pub open spec fn new_document(
    input: CreateDocumentInputView,
    id: Seq<char>,
    identity: IdentityView,
    now: Seq<char>,
) -> DocumentView {
    DocumentView {
        id,
        user_id: owner_of(identity),
        tenant_id: identity.tenant_id,
        filename: input.filename,
        content_type: Some(input.content_type),
        file_size: Some(input.file_size),
        content_hash: Some(input.content_hash),
        local_path: Some(input.local_path),
        object_key: None,
        text_content: Some(
            match input.text_content {
                Some(t) => t,
                None => Seq::empty(),
            },
        ),
        metadata: stored_metadata(input.metadata),
        tags: match input.tags {
            Some(t) => t,
            None => Seq::empty(),
        },
        status: DocumentStatus::Local,
        local_version: 1,
        server_version: 0,
        is_synced: false,
        needs_upload: true,
        needs_download: false,
        sync_error: None,
        last_synced_at: None,
        created_at: now,
        updated_at: now,
    }
}

/// A freshly queued operation of the given type on the document `doc_id`.
pub open spec fn new_operation(
    op_id: Seq<char>,
    user_id: Seq<char>,
    op_type: Seq<char>,
    doc_id: Seq<char>,
    now: Seq<char>,
) -> OperationView {
    OperationView {
        id: op_id,
        user_id,
        op_type,
        payload: payload_for(doc_id),
        status: OperationStatus::Pending,
        retry_count: 0,
        error_msg: None,
        created_at: now,
    }
}

/// The record of a document after a local rename.
pub open spec fn renamed(d: DocumentView, filename: Seq<char>, now: Seq<char>) -> DocumentView {
    DocumentView {
        filename,
        local_version: (d.local_version + 1) as i64,
        needs_upload: true,
        is_synced: false,
        status: DocumentStatus::Local,
        updated_at: now,
        ..d
    }
}

/// The record of a document after a local delete.
pub open spec fn deleted_locally(d: DocumentView, now: Seq<char>) -> DocumentView {
    DocumentView { status: DocumentStatus::Deleted, updated_at: now, ..d }
}

/// The store after a document was created with the given identifiers.
pub open spec fn store_after_create(
    s: StoreView,
    input: CreateDocumentInputView,
    doc_id: Seq<char>,
    op_id: Seq<char>,
    now: Seq<char>,
) -> StoreView {
    s.add_document(new_document(input, doc_id, s.identity, now)).add_operation(
        new_operation(op_id, owner_of(s.identity), "upload_document"@, doc_id, now),
    )
}

/// The store after the document `id` was renamed.
pub open spec fn store_after_rename(
    s: StoreView,
    id: Seq<char>,
    filename: Seq<char>,
    op_id: Seq<char>,
    now: Seq<char>,
) -> StoreView {
    let d = s.document(id)->0;
    s.put_document(id, renamed(d, filename, now)).add_operation(
        new_operation(op_id, d.user_id, "upload_document"@, id, now),
    )
}

/// The store after the document `id` was deleted locally.
pub open spec fn store_after_delete(
    s: StoreView,
    id: Seq<char>,
    op_id: Seq<char>,
    now: Seq<char>,
) -> StoreView {
    let d = s.document(id)->0;
    s.put_document(id, deleted_locally(d, now)).add_operation(
        new_operation(op_id, d.user_id, "delete_document"@, id, now),
    )
}

/// The documents that listings show: no tombstones, newest first.
pub open spec fn listed(docs: Seq<DocumentView>) -> Seq<DocumentView> {
    docs.filter(is_listed()).reverse()
}

/// The test that a listed document passes.
pub open spec fn is_listed() -> spec_fn(DocumentView) -> bool {
    |d: DocumentView| d.status != DocumentStatus::Deleted
}

/// Builds the payload text of an operation on `doc_id`.
pub fn make_payload(doc_id: &str) -> (r: String)
    ensures
        r@ == payload_for(doc_id@),
{
    join3("{\"doc_id\":\"", doc_id, "\"}")
}

fn make_operation(op_id: String, user_id: String, op_type: &str, doc_id: &str, now: &str) -> (r:
    OfflineOperation)
    ensures
        r@ == new_operation(op_id@, user_id@, op_type@, doc_id@, now@),
{
    OfflineOperation {
        id: op_id,
        user_id,
        op_type: op_type.to_owned(),
        payload: make_payload(doc_id),
        status: OperationStatus::Pending,
        retry_count: 0,
        error_msg: None,
        created_at: now.to_owned(),
    }
}

/// Creates a document under the identifier `doc_id` and queues its upload
/// under `op_id`, both stamped `now`. Either both records are kept or, when
/// one of the identifiers is taken, neither.
pub fn create_document_as(
    input: CreateDocumentInput,
    state: &mut AppState,
    doc_id: String,
    op_id: String,
    now: &str,
) -> (r: Result<Document, CommandError>)
    requires
        old(state).db.wf(),
    ensures
        final(state).db.wf(),
        final(state).sync == old(state).sync,
        r is Ok == (!old(state).db@.has_document(doc_id@) && !old(state).db@.has_operation(op_id@)),
        r is Ok ==> {
            &&& r->Ok_0@ == new_document(input@, doc_id@, old(state).db@.identity, now@)
            &&& final(state).db@ == store_after_create(old(state).db@, input@, doc_id@, op_id@, now@)
            &&& final(state).db@.document(doc_id@) == Some(r->Ok_0@)
            &&& final(state).db@.operations.len() == old(state).db@.operations.len() + 1
            &&& final(state).db@.documents.len() == old(state).db@.documents.len() + 1
        },
        r is Err ==> r->Err_0 == CommandError::DuplicateId && final(state).db@ == old(state).db@,
{
    if state.db.find_document(doc_id.as_str()).is_some() || state.db.find_operation(
        op_id.as_str(),
    ).is_some() {
        return Err(CommandError::DuplicateId);
    }
    let user_id = match &state.db.identity().user_id {
        Some(u) => u.clone(),
        None => "anonymous".to_string(),
    };
    let tenant_id = state.db.identity().tenant_id.clone();
    let metadata = match &input.metadata {
        Some(m) => match canonical(m.as_str()) {
            Some(c) => c,
            None => "{}".to_string(),
        },
        None => "{}".to_string(),
    };
    let op = make_operation(op_id, user_id.clone(), "upload_document", doc_id.as_str(), now);
    let doc = Document {
        id: doc_id,
        user_id,
        tenant_id,
        filename: input.filename,
        content_type: Some(input.content_type),
        file_size: Some(input.file_size),
        content_hash: Some(input.content_hash),
        local_path: Some(input.local_path),
        object_key: None,
        text_content: Some(
            match input.text_content {
                Some(t) => t,
                None => String::new(),
            },
        ),
        metadata,
        tags: match input.tags {
            Some(t) => t,
            None => Vec::new(),
        },
        status: DocumentStatus::Local,
        local_version: 1,
        server_version: 0,
        is_synced: false,
        needs_upload: true,
        needs_download: false,
        sync_error: None,
        last_synced_at: None,
        created_at: now.to_owned(),
        updated_at: now.to_owned(),
    };
    assert(doc@.tags =~= new_document(input@, doc@.id, old(state).db@.identity, now@).tags);
    assert(doc@ == new_document(input@, doc@.id, old(state).db@.identity, now@));
    let copy = doc.clone();
    proof {
        crate::store::lemma_add_document_wf(state.db@, doc@);
        crate::store::lemma_add_operation_wf(state.db@.add_document(doc@), op@);
    }
    let _ = state.db.insert_document(doc);
    let _ = state.db.insert_operation(op);
    Ok(copy)
}

/// Whether a record of either kind is kept under this identifier.
pub open spec fn taken(s: StoreView, id: Seq<char>) -> bool {
    s.has_document(id) || s.has_operation(id)
}

/// Creates a document under a fresh identifier and queues its upload. What
/// is kept is what [`create_document_as`] keeps for the identifiers and the
/// time that the machine supplied. It is refused only when a fresh
/// identifier happens to be taken already.
pub fn create_document(input: CreateDocumentInput, state: &mut AppState) -> (r: Result<
    Document,
    CommandError,
>)
    requires
        old(state).db.wf(),
    ensures
        final(state).db.wf(),
        final(state).sync == old(state).sync,
        r is Ok ==> exists|doc_id: Seq<char>, op_id: Seq<char>, now: Seq<char>|
            {
                &&& !old(state).db@.has_document(doc_id)
                &&& !old(state).db@.has_operation(op_id)
                &&& r->Ok_0@ == new_document(input@, doc_id, old(state).db@.identity, now)
                &&& final(state).db@ == #[trigger] store_after_create(
                    old(state).db@,
                    input@,
                    doc_id,
                    op_id,
                    now,
                )
            },
        r is Err ==> r->Err_0 == CommandError::DuplicateId && final(state).db@ == old(state).db@,
        r is Err ==> exists|id: Seq<char>| #[trigger] taken(old(state).db@, id),
{
    let doc_id = fresh_id();
    let op_id = fresh_id();
    let stamp = now();
    let ghost d = doc_id@;
    let ghost o = op_id@;
    let r = create_document_as(input, state, doc_id, op_id, stamp.as_str());
    proof {
        if r is Ok {
            assert(final(state).db@ == store_after_create(old(state).db@, input@, d, o, stamp@));
        } else if old(state).db@.has_document(d) {
            assert(taken(old(state).db@, d));
        } else {
            assert(taken(old(state).db@, o));
        }
    }
    r
}

/// The document with this identifier, tombstone or not.
pub fn get_document(id: &str, state: &AppState) -> (r: Result<Document, CommandError>)
    requires
        state.db.wf(),
    ensures
        r is Ok == state.db@.has_document(id@),
        r is Ok ==> Some(r->Ok_0@) == state.db@.document(id@),
        r is Err ==> r->Err_0 == CommandError::NotFound,
{
    match state.db.document(id) {
        Some(d) => Ok(d),
        None => Err(CommandError::NotFound),
    }
}

/// All documents that are not deleted, newest first.
pub fn get_documents(state: &AppState) -> (r: Vec<Document>)
    ensures
        document_views(r@) == listed(state.db@.documents),
{
    let docs = state.db.documents();
    let ghost all = document_views(docs@);
    let mut kept: Vec<Document> = Vec::new();
    let mut i: usize = 0;
    proof {
        if docs.len() > 0 {
            lemma_filter_next(all, is_listed(), 0);
        } else {
            reveal(Seq::filter);
        }
        assert(document_views(kept@) =~= Seq::empty());
    }
    while i < docs.len()
        invariant
            i <= docs.len(),
            all == document_views(docs@),
            document_views(kept@) == all.take(i as int).filter(is_listed()),
        decreases docs.len() - i,
    {
        proof {
            lemma_filter_next(all, is_listed(), i as int);
        }
        let ghost before = document_views(kept@);
        match docs[i].status {
            DocumentStatus::Deleted => {},
            _ => {
                kept.push(docs[i].clone());
                assert(document_views(kept@) =~= before.push(docs@[i as int]@));
            },
        }
        i = i + 1;
    }
    assert(all.take(docs.len() as int) =~= all);
    let ghost forward = document_views(kept@);
    let mut out: Vec<Document> = Vec::new();
    while kept.len() > 0
        invariant
            document_views(out@) + document_views(kept@).reverse() == forward.reverse(),
        decreases kept.len(),
    {
        let ghost k = document_views(kept@);
        let ghost o = document_views(out@);
        let d = kept.pop().unwrap();
        out.push(d);
        assert(document_views(out@) + document_views(kept@).reverse() =~= o + k.reverse());
    }
    assert(document_views(out@) =~= forward.reverse());
    out
}

/// The documents that a search shows, given the identifiers that the
/// full-text index matched, best match first: the matched documents that
/// are kept and not deleted, in the order of the matches.
pub open spec fn search_hits(s: StoreView, matches: Seq<Seq<char>>) -> Seq<DocumentView>
    decreases matches.len(),
{
    if matches.len() == 0 {
        Seq::empty()
    } else {
        let before = search_hits(s, matches.drop_last());
        match s.document(matches.last()) {
            Some(d) => if d.status != DocumentStatus::Deleted {
                before.push(d)
            } else {
                before
            },
            None => before,
        }
    }
}

/// The documents that a search shows. The matching itself is the work of
/// the full-text index; `matches` holds the identifiers that it found, best
/// match first. Tombstones and unknown identifiers are left out.
pub fn search_documents(matches: &Vec<String>, state: &AppState) -> (r: Vec<Document>)
    requires
        state.db.wf(),
    ensures
        document_views(r@) == search_hits(state.db@, texts(matches@)),
{
    let ghost all = texts(matches@);
    let mut out: Vec<Document> = Vec::new();
    let mut i: usize = 0;
    assert(all.take(0) =~= Seq::<Seq<char>>::empty());
    assert(document_views(out@) =~= Seq::empty());
    while i < matches.len()
        invariant
            state.db.wf(),
            i <= matches.len(),
            all == texts(matches@),
            document_views(out@) == search_hits(state.db@, all.take(i as int)),
        decreases matches.len() - i,
    {
        let ghost before = document_views(out@);
        proof {
            assert(all.take(i + 1).drop_last() =~= all.take(i as int));
            assert(all.take(i + 1).last() == matches@[i as int]@);
        }
        match state.db.document(matches[i].as_str()) {
            Some(doc) => {
                match doc.status {
                    DocumentStatus::Deleted => {},
                    _ => {
                        let ghost d = doc@;
                        out.push(doc);
                        assert(document_views(out@) =~= before.push(d));
                    },
                }
            },
            None => {},
        }
        i = i + 1;
    }
    assert(all.take(matches.len() as int) =~= all);
    out
}

/// Whether a rename request changes the store: a name is given and the
/// document is no tombstone.
pub open spec fn rename_applies(s: StoreView, id: Seq<char>, filename: Option<Seq<char>>) -> bool {
    filename is Some && s.has_document(id) && s.document(id)->0.status != DocumentStatus::Deleted
}

/// Why a rename request is refused, if it is.
pub open spec fn update_error(
    s: StoreView,
    id: Seq<char>,
    filename: Option<Seq<char>>,
    op_id: Seq<char>,
) -> Option<CommandError> {
    if !s.has_document(id) {
        Some(CommandError::NotFound)
    } else if !rename_applies(s, id, filename) {
        None
    } else if s.has_operation(op_id) {
        Some(CommandError::DuplicateId)
    } else if s.document(id)->0.local_version == i64::MAX {
        Some(CommandError::RevisionExhausted)
    } else {
        None
    }
}

/// The store after a rename request.
pub open spec fn store_after_update(
    s: StoreView,
    id: Seq<char>,
    filename: Option<Seq<char>>,
    op_id: Seq<char>,
    now: Seq<char>,
) -> StoreView {
    if rename_applies(s, id, filename) && update_error(s, id, filename, op_id) is None {
        store_after_rename(s, id, filename->0, op_id, now)
    } else {
        s
    }
}

/// Renames the document `id` when a new name is given, raising its local
/// revision and queueing its upload under `op_id`; then returns the record
/// as the store keeps it. A tombstone is never changed.
pub fn update_document_as(
    id: &str,
    filename: Option<String>,
    state: &mut AppState,
    op_id: String,
    now: &str,
) -> (r: Result<Document, CommandError>)
    requires
        old(state).db.wf(),
    ensures
        final(state).db.wf(),
        final(state).sync == old(state).sync,
        final(state).db@ == store_after_update(
            old(state).db@,
            id@,
            opt_text(filename),
            op_id@,
            now@,
        ),
        match r {
            Ok(d) => update_error(old(state).db@, id@, opt_text(filename), op_id@) is None && Some(
                d@,
            ) == final(state).db@.document(id@),
            Err(e) => update_error(old(state).db@, id@, opt_text(filename), op_id@) == Some(e),
        },
{
    let found = state.db.document(id);
    match found {
        None => Err(CommandError::NotFound),
        Some(mut doc) => {
            match filename {
                None => Ok(doc),
                Some(name) => {
                    match doc.status {
                        DocumentStatus::Deleted => Ok(doc),
                        _ => {
                            if state.db.find_operation(op_id.as_str()).is_some() {
                                return Err(CommandError::DuplicateId);
                            }
                            if doc.local_version == i64::MAX {
                                return Err(CommandError::RevisionExhausted);
                            }
                            let op = make_operation(
                                op_id,
                                doc.user_id.clone(),
                                "upload_document",
                                id,
                                now,
                            );
                            let ghost before = doc@;
                            doc.filename = name;
                            doc.local_version = doc.local_version + 1;
                            doc.needs_upload = true;
                            doc.is_synced = false;
                            doc.status = DocumentStatus::Local;
                            doc.updated_at = now.to_owned();
                            assert(doc@ == renamed(before, name@, now@));
                            let copy = doc.clone();
                            proof {
                                crate::store::lemma_put_document_wf(state.db@, id@, doc@);
                                crate::store::lemma_add_operation_wf(
                                    state.db@.put_document(id@, doc@),
                                    op@,
                                );
                            }
                            let _ = state.db.replace_document(doc);
                            let _ = state.db.insert_operation(op);
                            Ok(copy)
                        },
                    }
                },
            }
        },
    }
}

/// Renames a document as [`update_document_as`] does, under an operation
/// identifier and a time that the machine supplies.
pub fn update_document(id: &str, filename: Option<String>, state: &mut AppState) -> (r: Result<
    Document,
    CommandError,
>)
    requires
        old(state).db.wf(),
    ensures
        final(state).db.wf(),
        final(state).sync == old(state).sync,
        exists|op_id: Seq<char>, now: Seq<char>|
            {
                &&& final(state).db@ == #[trigger] store_after_update(
                    old(state).db@,
                    id@,
                    opt_text(filename),
                    op_id,
                    now,
                )
                &&& match r {
                    Ok(d) => update_error(old(state).db@, id@, opt_text(filename), op_id) is None
                        && Some(d@) == final(state).db@.document(id@),
                    Err(e) => update_error(old(state).db@, id@, opt_text(filename), op_id) == Some(
                        e,
                    ),
                }
            },
{
    let op_id = fresh_id();
    let stamp = now();
    let ghost o = op_id@;
    let r = update_document_as(id, filename, state, op_id, stamp.as_str());
    assert(final(state).db@ == store_after_update(
        old(state).db@,
        id@,
        opt_text(filename),
        o,
        stamp@,
    ));
    r
}

/// Why a delete request is refused, if it is.
pub open spec fn delete_error(s: StoreView, id: Seq<char>, op_id: Seq<char>) -> Option<
    CommandError,
> {
    if !s.has_document(id) {
        Some(CommandError::NotFound)
    } else if s.has_operation(op_id) {
        Some(CommandError::DuplicateId)
    } else {
        None
    }
}

/// Marks the document `id` deleted and queues the delete under `op_id`,
/// both in one step. The record stays readable by its identifier.
pub fn delete_document_as(id: &str, state: &mut AppState, op_id: String, now: &str) -> (r: Result<
    (),
    CommandError,
>)
    requires
        old(state).db.wf(),
    ensures
        final(state).db.wf(),
        final(state).sync == old(state).sync,
        match r {
            Ok(_) => delete_error(old(state).db@, id@, op_id@) is None && final(state).db@
                == store_after_delete(old(state).db@, id@, op_id@, now@),
            Err(e) => delete_error(old(state).db@, id@, op_id@) == Some(e) && final(state).db@
                == old(state).db@,
        },
{
    let found = state.db.document(id);
    match found {
        None => Err(CommandError::NotFound),
        Some(mut doc) => {
            if state.db.find_operation(op_id.as_str()).is_some() {
                return Err(CommandError::DuplicateId);
            }
            let op = make_operation(op_id, doc.user_id.clone(), "delete_document", id, now);
            let ghost before = doc@;
            doc.status = DocumentStatus::Deleted;
            doc.updated_at = now.to_owned();
            assert(doc@ == deleted_locally(before, now@));
            proof {
                crate::store::lemma_put_document_wf(state.db@, id@, doc@);
                crate::store::lemma_add_operation_wf(state.db@.put_document(id@, doc@), op@);
            }
            let _ = state.db.replace_document(doc);
            let _ = state.db.insert_operation(op);
            Ok(())
        },
    }
}

/// Deletes a document as [`delete_document_as`] does, under an operation
/// identifier and a time that the machine supplies.
pub fn delete_document(id: &str, state: &mut AppState) -> (r: Result<(), CommandError>)
    requires
        old(state).db.wf(),
    ensures
        final(state).db.wf(),
        final(state).sync == old(state).sync,
        exists|op_id: Seq<char>, now: Seq<char>|
            match r {
                Ok(_) => delete_error(old(state).db@, id@, op_id) is None && final(state).db@
                    == #[trigger] store_after_delete(old(state).db@, id@, op_id, now),
                Err(e) => delete_error(old(state).db@, id@, op_id) == Some(e) && final(state).db@
                    == old(state).db@,
            },
{
    let op_id = fresh_id();
    let stamp = now();
    let ghost o = op_id@;
    let r = delete_document_as(id, state, op_id, stamp.as_str());
    proof {
        if r is Ok {
            assert(final(state).db@ == store_after_delete(old(state).db@, id@, o, stamp@));
        } else {
            assert(delete_error(old(state).db@, id@, o) == Some(r->Err_0));
        }
    }
    r
}

} // verus!
