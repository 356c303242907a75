//! The pull pipeline: remote changes are decoded, applied to the local
//! store in the order of arrival, and the checkpoint moves only when every
//! change of the batch went in.

use crate::json::{elements, json_elements, json_member, json_text_member, member, text_member};
use crate::models::{Document, DocumentStatus, DocumentView, IdentityView};
use crate::store::{
    LocalStore, StoreView, lemma_add_document_wf, lemma_put_document_wf,
};
use crate::strings::{opt_text, text_eq, texts};
use vstd::prelude::*;

verus! {

/// The checkpoint of a store that has never completed a pull.
pub open spec fn epoch() -> Seq<char> {
    "2000-01-01T00:00:00Z"@
}

/// The boundary from which the next pull asks for changes.
pub open spec fn since_of(identity: IdentityView) -> Seq<char> {
    match identity.last_sync_at {
        Some(t) => t,
        None => epoch(),
    }
}

/// What one remote change carries, field by field, before any rule is
/// applied to it.
#[derive(Debug, PartialEq, Eq)]
pub struct RawChange {
    pub kind: Option<String>,
    pub id: Option<String>,
    pub user_id: Option<String>,
    pub tenant_id: Option<String>,
    pub filename: Option<String>,
    pub content_type: Option<String>,
    pub object_key: Option<String>,
}

/// What a [`RawChange`] holds, as plain mathematical values.
pub ghost struct RawChangeView {
    pub kind: Option<Seq<char>>,
    pub id: Option<Seq<char>>,
    pub user_id: Option<Seq<char>>,
    pub tenant_id: Option<Seq<char>>,
    pub filename: Option<Seq<char>>,
    pub content_type: Option<Seq<char>>,
    pub object_key: Option<Seq<char>>,
}

impl View for RawChange {
    type V = RawChangeView;

    open spec fn view(&self) -> RawChangeView {
        RawChangeView {
            kind: opt_text(self.kind),
            id: opt_text(self.id),
            user_id: opt_text(self.user_id),
            tenant_id: opt_text(self.tenant_id),
            filename: opt_text(self.filename),
            content_type: opt_text(self.content_type),
            object_key: opt_text(self.object_key),
        }
    }
}

/// A remote change, decoded.
#[derive(Debug, PartialEq, Eq)]
pub enum ServerChange {
    /// The remote service created or updated a document.
    Upsert {
        id: String,
        user_id: String,
        tenant_id: String,
        filename: String,
        content_type: String,
        object_key: String,
    },
    /// The remote service deleted a document.
    Delete { id: String },
    /// A change of a kind that this client does not know; it is ignored.
    Unknown { kind: String },
}

/// What a [`ServerChange`] holds, as plain mathematical values.
pub ghost enum ServerChangeView {
    Upsert {
        id: Seq<char>,
        user_id: Seq<char>,
        tenant_id: Seq<char>,
        filename: Seq<char>,
        content_type: Seq<char>,
        object_key: Seq<char>,
    },
    Delete { id: Seq<char> },
    Unknown { kind: Seq<char> },
}

impl View for ServerChange {
    type V = ServerChangeView;

    open spec fn view(&self) -> ServerChangeView {
        match *self {
            ServerChange::Upsert { id, user_id, tenant_id, filename, content_type, object_key } => {
                ServerChangeView::Upsert {
                    id: id@,
                    user_id: user_id@,
                    tenant_id: tenant_id@,
                    filename: filename@,
                    content_type: content_type@,
                    object_key: object_key@,
                }
            },
            ServerChange::Delete { id } => ServerChangeView::Delete { id: id@ },
            ServerChange::Unknown { kind } => ServerChangeView::Unknown { kind: kind@ },
        }
    }
}

/// Why a remote change could not be decoded.
#[derive(Clone, Copy, Debug, PartialEq, Eq, Structural)]
pub enum PullError {
    /// A change to a document does not say which document it is about.
    MissingId,
}

impl PullError {
    /// The message shown to the user.
    pub fn message(&self) -> (r: String)
        ensures
            r@ == "Change without a document id"@,
    {
        "Change without a document id".to_string()
    }
}

/// What applying one change did to the store.
#[derive(Clone, Copy, Debug, PartialEq, Eq, Structural)]
pub enum ChangeEffect {
    /// A record was added.
    Inserted,
    /// The record of a known document was brought up to date, or left alone
    /// because it is a tombstone.
    Updated,
    /// The change was of an unknown kind and nothing was done.
    Ignored,
}

/// The text of an optional field, or `fallback` where it is absent.
pub open spec fn or_text(o: Option<Seq<char>>, fallback: Seq<char>) -> Seq<char> {
    match o {
        Some(t) => t,
        None => fallback,
    }
}

/// The change that a raw change stands for. The identifier of the document
/// is required of every change to a document; the other fields fall back to
/// fixed texts.
pub open spec fn change_of(raw: RawChangeView) -> Result<ServerChangeView, PullError> {
    let kind = or_text(raw.kind, ""@);
    if kind == "document_updated"@ || kind == "document_created"@ {
        match raw.id {
            Some(id) => Ok(
                ServerChangeView::Upsert {
                    id,
                    user_id: or_text(raw.user_id, ""@),
                    tenant_id: or_text(raw.tenant_id, "default"@),
                    filename: or_text(raw.filename, ""@),
                    content_type: or_text(raw.content_type, ""@),
                    object_key: or_text(raw.object_key, ""@),
                },
            ),
            None => Err(PullError::MissingId),
        }
    } else if kind == "document_deleted"@ {
        match raw.id {
            Some(id) => Ok(ServerChangeView::Delete { id }),
            None => Err(PullError::MissingId),
        }
    } else {
        Ok(ServerChangeView::Unknown { kind })
    }
}

/// The `data` member of a change, or `null` where it has none.
pub open spec fn data_of(change: Seq<char>) -> Seq<char> {
    or_text(json_member(change, "data"@), "null"@)
}

/// The fields that the JSON text of one change carries.
pub open spec fn raw_change_of(change: Seq<char>) -> RawChangeView {
    let data = data_of(change);
    RawChangeView {
        kind: json_text_member(change, "type"@),
        id: json_text_member(data, "id"@),
        user_id: json_text_member(data, "user_id"@),
        tenant_id: json_text_member(data, "tenant_id"@),
        filename: json_text_member(data, "filename"@),
        content_type: json_text_member(data, "content_type"@),
        object_key: json_text_member(data, "object_key"@),
    }
}

/// The view of a decoding result.
pub open spec fn decoded_view(r: Result<ServerChange, PullError>) -> Result<
    ServerChangeView,
    PullError,
> {
    match r {
        Ok(c) => Ok(c@),
        Err(e) => Err(e),
    }
}

fn or_default(o: Option<String>, fallback: &str) -> (r: String)
    ensures
        r@ == or_text(opt_text(o), fallback@),
{
    match o {
        Some(t) => t,
        None => fallback.to_owned(),
    }
}

impl ServerChange {
    /// Applies the decoding rules to the fields of a change.
    pub fn from_raw(raw: RawChange) -> (r: Result<ServerChange, PullError>)
        ensures
            decoded_view(r) == change_of(raw@),
    {
        let kind = or_default(raw.kind, "");
        if text_eq(kind.as_str(), "document_updated") || text_eq(
            kind.as_str(),
            "document_created",
        ) {
            match raw.id {
                Some(id) => Ok(
                    ServerChange::Upsert {
                        id,
                        user_id: or_default(raw.user_id, ""),
                        tenant_id: or_default(raw.tenant_id, "default"),
                        filename: or_default(raw.filename, ""),
                        content_type: or_default(raw.content_type, ""),
                        object_key: or_default(raw.object_key, ""),
                    },
                ),
                None => Err(PullError::MissingId),
            }
        } else if text_eq(kind.as_str(), "document_deleted") {
            match raw.id {
                Some(id) => Ok(ServerChange::Delete { id }),
                None => Err(PullError::MissingId),
            }
        } else {
            Ok(ServerChange::Unknown { kind })
        }
    }
}

/// Reads the fields of one change from its JSON text.
pub fn read_change(change: &str) -> (r: RawChange)
    ensures
        r@ == raw_change_of(change@),
{
    let data = or_default(member(change, "data"), "null");
    RawChange {
        kind: text_member(change, "type"),
        id: text_member(data.as_str(), "id"),
        user_id: text_member(data.as_str(), "user_id"),
        tenant_id: text_member(data.as_str(), "tenant_id"),
        filename: text_member(data.as_str(), "filename"),
        content_type: text_member(data.as_str(), "content_type"),
        object_key: text_member(data.as_str(), "object_key"),
    }
}

/// Decodes one change from its JSON text.
pub fn decode_change(change: &str) -> (r: Result<ServerChange, PullError>)
    ensures
        decoded_view(r) == change_of(raw_change_of(change@)),
{
    ServerChange::from_raw(read_change(change))
}

/// The record kept for a document that the remote service reported and
/// that was not known here: synced, and waiting for its content.
pub open spec fn remote_document(
    id: Seq<char>,
    user_id: Seq<char>,
    tenant_id: Seq<char>,
    filename: Seq<char>,
    content_type: Seq<char>,
    object_key: Seq<char>,
    now: Seq<char>,
) -> DocumentView {
    DocumentView {
        id,
        user_id,
        tenant_id,
        filename,
        content_type: Some(content_type),
        file_size: None,
        content_hash: None,
        local_path: None,
        object_key: Some(object_key),
        text_content: None,
        metadata: "{}"@,
        tags: Seq::empty(),
        status: DocumentStatus::Synced,
        local_version: 1,
        server_version: 0,
        is_synced: true,
        needs_upload: false,
        needs_download: true,
        sync_error: None,
        last_synced_at: None,
        created_at: now,
        updated_at: now,
    }
}

/// The tombstone kept for a document that the remote service reported
/// deleted and that was never known here.
pub open spec fn remote_tombstone(id: Seq<char>, now: Seq<char>) -> DocumentView {
    DocumentView {
        id,
        user_id: ""@,
        tenant_id: "default"@,
        filename: ""@,
        content_type: None,
        file_size: None,
        content_hash: None,
        local_path: None,
        object_key: None,
        text_content: None,
        metadata: "{}"@,
        tags: Seq::empty(),
        status: DocumentStatus::Deleted,
        local_version: 1,
        server_version: 0,
        is_synced: true,
        needs_upload: false,
        needs_download: false,
        sync_error: None,
        last_synced_at: None,
        created_at: now,
        updated_at: now,
    }
}

/// A known document after the remote service reported it created or
/// updated: the remote side wins, whatever the local revision. A tombstone
/// stays as it is.
pub open spec fn merged(d: DocumentView, object_key: Seq<char>, now: Seq<char>) -> DocumentView {
    if d.status == DocumentStatus::Deleted {
        d
    } else {
        DocumentView {
            object_key: Some(object_key),
            status: DocumentStatus::Synced,
            is_synced: true,
            needs_upload: false,
            last_synced_at: Some(now),
            ..d
        }
    }
}

/// A known document after the remote service reported it deleted.
pub open spec fn tombstoned(d: DocumentView) -> DocumentView {
    DocumentView { status: DocumentStatus::Deleted, ..d }
}

/// The store after one change was applied.
pub open spec fn store_after_change(
    s: StoreView,
    c: ServerChangeView,
    now: Seq<char>,
) -> StoreView {
    match c {
        ServerChangeView::Upsert { id, user_id, tenant_id, filename, content_type, object_key } => {
            if s.has_document(id) {
                s.put_document(id, merged(s.document(id)->0, object_key, now))
            } else {
                s.add_document(
                    remote_document(id, user_id, tenant_id, filename, content_type, object_key, now),
                )
            }
        },
        ServerChangeView::Delete { id } => {
            if s.has_document(id) {
                s.put_document(id, tombstoned(s.document(id)->0))
            } else {
                s.add_document(remote_tombstone(id, now))
            }
        },
        ServerChangeView::Unknown { kind } => s,
    }
}

/// What applying one change does to the store.
pub open spec fn effect_of(s: StoreView, c: ServerChangeView) -> ChangeEffect {
    match c {
        ServerChangeView::Upsert { id, .. } => if s.has_document(id) {
            ChangeEffect::Updated
        } else {
            ChangeEffect::Inserted
        },
        ServerChangeView::Delete { id } => if s.has_document(id) {
            ChangeEffect::Updated
        } else {
            ChangeEffect::Inserted
        },
        ServerChangeView::Unknown { .. } => ChangeEffect::Ignored,
    }
}

/// Applying a change keeps the rules of the store.
pub proof fn lemma_change_keeps_wf(s: StoreView, c: ServerChangeView, now: Seq<char>)
    requires
        s.wf(),
    ensures
        store_after_change(s, c, now).wf(),
        store_after_change(s, c, now).operations == s.operations,
        store_after_change(s, c, now).identity == s.identity,
{
    match c {
        ServerChangeView::Upsert { id, user_id, tenant_id, filename, content_type, object_key } => {
            if s.has_document(id) {
                let k = s.document_index(id);
                lemma_put_document_wf(s, id, merged(s.document(id)->0, object_key, now));
            } else {
                lemma_add_document_wf(
                    s,
                    remote_document(id, user_id, tenant_id, filename, content_type, object_key, now),
                );
            }
        },
        ServerChangeView::Delete { id } => {
            if s.has_document(id) {
                lemma_put_document_wf(s, id, tombstoned(s.document(id)->0));
            } else {
                lemma_add_document_wf(s, remote_tombstone(id, now));
            }
        },
        ServerChangeView::Unknown { kind } => {},
    }
}

/// Applies one remote change. Creation and update merge into the record of a
/// known document or add a record for an unknown one; deletion marks the
/// record deleted, adding a tombstone where the document was unknown; a
/// change of an unknown kind does nothing.
pub fn apply_server_change(store: &mut LocalStore, change: &ServerChange, now: &str) -> (r:
    ChangeEffect)
    requires
        old(store).wf(),
    ensures
        final(store).wf(),
        final(store)@ == store_after_change(old(store)@, change@, now@),
        r == effect_of(old(store)@, change@),
{
    proof {
        lemma_change_keeps_wf(store@, change@, now@);
    }
    match change {
        ServerChange::Upsert { id, user_id, tenant_id, filename, content_type, object_key } => {
            match store.document(id.as_str()) {
                Some(mut doc) => {
                    match doc.status {
                        DocumentStatus::Deleted => {},
                        _ => {
                            doc.object_key = Some(object_key.clone());
                            doc.status = DocumentStatus::Synced;
                            doc.is_synced = true;
                            doc.needs_upload = false;
                            doc.last_synced_at = Some(now.to_owned());
                        },
                    }
                    let _ = store.replace_document(doc);
                    ChangeEffect::Updated
                },
                None => {
                    let doc = Document {
                        id: id.clone(),
                        user_id: user_id.clone(),
                        tenant_id: tenant_id.clone(),
                        filename: filename.clone(),
                        content_type: Some(content_type.clone()),
                        file_size: None,
                        content_hash: None,
                        local_path: None,
                        object_key: Some(object_key.clone()),
                        text_content: None,
                        metadata: "{}".to_string(),
                        tags: Vec::new(),
                        status: DocumentStatus::Synced,
                        local_version: 1,
                        server_version: 0,
                        is_synced: true,
                        needs_upload: false,
                        needs_download: true,
                        sync_error: None,
                        last_synced_at: None,
                        created_at: now.to_owned(),
                        updated_at: now.to_owned(),
                    };
                    assert(doc@.tags =~= Seq::empty());
                    let _ = store.insert_document(doc);
                    ChangeEffect::Inserted
                },
            }
        },
        ServerChange::Delete { id } => {
            match store.document(id.as_str()) {
                Some(mut doc) => {
                    doc.status = DocumentStatus::Deleted;
                    let _ = store.replace_document(doc);
                    ChangeEffect::Updated
                },
                None => {
                    let doc = Document {
                        id: id.clone(),
                        user_id: String::new(),
                        tenant_id: "default".to_string(),
                        filename: String::new(),
                        content_type: None,
                        file_size: None,
                        content_hash: None,
                        local_path: None,
                        object_key: None,
                        text_content: None,
                        metadata: "{}".to_string(),
                        tags: Vec::new(),
                        status: DocumentStatus::Deleted,
                        local_version: 1,
                        server_version: 0,
                        is_synced: true,
                        needs_upload: false,
                        needs_download: false,
                        sync_error: None,
                        last_synced_at: None,
                        created_at: now.to_owned(),
                        updated_at: now.to_owned(),
                    };
                    proof {
                        reveal_strlit("");
                    }
                    assert(doc@.tags =~= Seq::empty());
                    assert(doc@.user_id =~= ""@);
                    assert(doc@.filename =~= ""@);
                    let _ = store.insert_document(doc);
                    ChangeEffect::Inserted
                },
            }
        },
        ServerChange::Unknown { kind } => ChangeEffect::Ignored,
    }
}

/// The changes that the body of a reply carries: the elements of its
/// `changes` member, or none where it has no such list.
pub open spec fn changes_in(body: Seq<char>) -> Seq<Seq<char>> {
    match json_member(body, "changes"@) {
        Some(m) => match json_elements(m) {
            Some(items) => items,
            None => Seq::empty(),
        },
        None => Seq::empty(),
    }
}

/// How far a batch of changes got.
pub ghost struct Applied {
    /// The store after the changes that went in.
    pub store: StoreView,
    /// How many changes went in.
    pub count: nat,
    /// Why the batch stopped early, if it did.
    pub error: Option<PullError>,
}

/// Applies the changes in order and stops at the first that cannot be
/// decoded; the changes before it stay applied.
pub open spec fn after_changes(s: StoreView, items: Seq<Seq<char>>, now: Seq<char>) -> Applied
    decreases items.len(),
{
    if items.len() == 0 {
        Applied { store: s, count: 0, error: None }
    } else {
        match change_of(raw_change_of(items[0])) {
            Err(e) => Applied { store: s, count: 0, error: Some(e) },
            Ok(c) => {
                let rest = after_changes(store_after_change(s, c, now), items.drop_first(), now);
                Applied { count: rest.count + 1, ..rest }
            },
        }
    }
}

/// The store with its checkpoint moved to `now`.
pub open spec fn with_checkpoint(s: StoreView, now: Seq<char>) -> StoreView {
    s.with_identity(IdentityView { last_sync_at: Some(now), ..s.identity })
}

/// The store after a batch of changes: the checkpoint moves to `now` only if
/// every change went in.
pub open spec fn store_after_changes(
    s: StoreView,
    items: Seq<Seq<char>>,
    now: Seq<char>,
) -> StoreView {
    let done = after_changes(s, items, now);
    if done.error is None {
        with_checkpoint(done.store, now)
    } else {
        done.store
    }
}

/// The store after the body of a pull reply was worked through.
pub open spec fn store_after_pull(s: StoreView, body: Seq<char>, now: Seq<char>) -> StoreView {
    store_after_changes(s, changes_in(body), now)
}

/// A batch of changes keeps the rules of the store and leaves the queue
/// alone.
pub proof fn lemma_changes_keep_wf(s: StoreView, items: Seq<Seq<char>>, now: Seq<char>)
    requires
        s.wf(),
    ensures
        after_changes(s, items, now).store.wf(),
        after_changes(s, items, now).store.operations == s.operations,
        after_changes(s, items, now).store.identity == s.identity,
        after_changes(s, items, now).count <= items.len(),
        store_after_changes(s, items, now).wf(),
        store_after_changes(s, items, now).operations == s.operations,
    decreases items.len(),
{
    if items.len() > 0 {
        match change_of(raw_change_of(items[0])) {
            Err(e) => {},
            Ok(c) => {
                lemma_change_keeps_wf(s, c, now);
                lemma_changes_keep_wf(store_after_change(s, c, now), items.drop_first(), now);
            },
        }
    }
}

/// Splits the body of a pull reply into the JSON texts of its changes.
pub fn read_changes(body: &str) -> (r: Vec<String>)
    ensures
        texts(r@) == changes_in(body@),
{
    match member(body, "changes") {
        Some(m) => match elements(m.as_str()) {
            Some(items) => items,
            None => {
                let v: Vec<String> = Vec::new();
                assert(texts(v@) =~= Seq::empty());
                v
            },
        },
        None => {
            let v: Vec<String> = Vec::new();
            assert(texts(v@) =~= Seq::empty());
            v
        },
    }
}

/// Applies a batch of changes, given as JSON texts, in order. Stops at the
/// first change that cannot be decoded and reports it; the checkpoint moves
/// to `now` only when the whole batch went in. Returns how many changes
/// were applied.
pub fn apply_changes(store: &mut LocalStore, items: &Vec<String>, now: &str) -> (r: Result<
    usize,
    PullError,
>)
    requires
        old(store).wf(),
    ensures
        final(store).wf(),
        final(store)@ == store_after_changes(old(store)@, texts(items@), now@),
        match r {
            Ok(n) => after_changes(old(store)@, texts(items@), now@).error is None && n
                == items.len(),
            Err(e) => after_changes(old(store)@, texts(items@), now@).error == Some(e),
        },
{
    let ghost all = texts(items@);
    let ghost start = store@;
    let mut i: usize = 0;
    assert(all.skip(0) =~= all);
    while i < items.len()
        invariant
            i <= items.len(),
            all == texts(items@),
            start == old(store)@,
            store.wf(),
            after_changes(start, all, now@).error == after_changes(
                store@,
                all.skip(i as int),
                now@,
            ).error,
            after_changes(start, all, now@).store == after_changes(
                store@,
                all.skip(i as int),
                now@,
            ).store,
        decreases items.len() - i,
    {
        assert(all.skip(i as int)[0] == items@[i as int]@);
        assert(all.skip(i as int).drop_first() =~= all.skip(i + 1));
        match decode_change(items[i].as_str()) {
            Ok(c) => {
                apply_server_change(store, &c, now);
            },
            Err(e) => {
                return Err(e);
            },
        }
        i = i + 1;
    }
    let mut identity = store.identity().clone();
    identity.last_sync_at = Some(now.to_owned());
    store.set_identity(identity);
    Ok(items.len())
}

/// Works through the body of a pull reply: every change in it is applied in
/// order, and the checkpoint moves to `now` if none of them failed.
pub fn pull_server_changes(store: &mut LocalStore, body: &str, now: &str) -> (r: Result<
    usize,
    PullError,
>)
    requires
        old(store).wf(),
    ensures
        final(store).wf(),
        final(store)@ == store_after_pull(old(store)@, body@, now@),
        match r {
            Ok(n) => after_changes(old(store)@, changes_in(body@), now@).error is None && n
                == changes_in(body@).len(),
            Err(e) => after_changes(old(store)@, changes_in(body@), now@).error == Some(e),
        },
{
    let items = read_changes(body);
    apply_changes(store, &items, now)
}

/// The boundary that the next pull sends along: the checkpoint, or the
/// epoch where no pull has completed yet.
pub fn since(store: &LocalStore) -> (r: String)
    ensures
        r@ == since_of(store@.identity),
{
    match &store.identity().last_sync_at {
        Some(t) => t.clone(),
        None => "2000-01-01T00:00:00Z".to_string(),
    }
}

} // verus!
