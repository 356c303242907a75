//! What a record keeps for as long as it is kept: a deleted document stays
//! exactly as it is, the local revision of a document moves only when the
//! user changes it, an operation that is done stays exactly as it is, and
//! the retry count of an operation never drops while cycles run.

use crate::documents::{
    deleted_locally, new_operation, renamed,
    rename_applies, store_after_delete, store_after_update, update_error,
};
use crate::engine::{Begin, EngineView, Phase, ReplyView, Waiting, begin_of};
use crate::models::{DocumentStatus, DocumentView, OperationStatus, OperationView};
use crate::pull::{
    ServerChangeView, after_changes, change_of, changes_in, lemma_change_keeps_wf,
    lemma_changes_keep_wf, merged, raw_change_of, remote_document, remote_tombstone,
    store_after_change, store_after_changes, tombstoned,
};
use crate::push::{
    done, error_text, failed, lemma_outcomes_keep_wf, pending_batch, store_after_done,
    store_after_failure, store_after_upload, target_in, uploaded,
};
use crate::store::{
    StoreView, lemma_add_document_wf, lemma_add_operation_wf, lemma_operation_index,
    lemma_put_document_wf, lemma_put_operation_wf, reset, store_after_retry,
};
use vstd::prelude::*;

verus! {

/// What a cycle may do to a document: it keeps its identifier and its local
/// revision, and a deleted document stays exactly as it is.
pub open spec fn document_carried(before: DocumentView, after: DocumentView) -> bool {
    &&& after.id == before.id
    &&& after.local_version == before.local_version
    &&& before.status == DocumentStatus::Deleted ==> after == before
}

/// What a cycle may do to an operation: it keeps its identifier, its retry
/// count does not drop, and an operation that is done stays exactly as it
/// is.
pub open spec fn operation_carried(before: OperationView, after: OperationView) -> bool {
    &&& after.id == before.id
    &&& after.retry_count >= before.retry_count
    &&& before.status == OperationStatus::Done ==> after == before
}

/// Whether the document `id` is carried from one store to the other.
pub open spec fn carries_document(a: StoreView, b: StoreView, id: Seq<char>) -> bool {
    a.document(id) is Some ==> b.document(id) is Some && document_carried(
        a.document(id)->0,
        b.document(id)->0,
    )
}

/// Whether the operation `id` is carried from one store to the other.
pub open spec fn carries_operation(a: StoreView, b: StoreView, id: Seq<char>) -> bool {
    a.operation(id) is Some ==> b.operation(id) is Some && operation_carried(
        a.operation(id)->0,
        b.operation(id)->0,
    )
}

/// A recorded failure carries every operation.
pub proof fn lemma_failure_carries(s: StoreView, op_id: Seq<char>, message: Seq<char>, id: Seq<char>)
    requires
        s.wf(),
    ensures
        carries_operation(s, store_after_failure(s, op_id, message), id),
        store_after_failure(s, op_id, message).documents == s.documents,
        store_after_failure(s, op_id, message).identity == s.identity,
{
    if s.has_operation(op_id) {
        lemma_put_operation_wf(s, op_id, failed(s.operation(op_id)->0, message));
    }
}

/// A recorded success carries every operation.
pub proof fn lemma_done_carries(s: StoreView, op_id: Seq<char>, id: Seq<char>)
    requires
        s.wf(),
    ensures
        carries_operation(s, store_after_done(s, op_id), id),
        store_after_done(s, op_id).documents == s.documents,
        store_after_done(s, op_id).identity == s.identity,
{
    if s.has_operation(op_id) {
        lemma_put_operation_wf(s, op_id, done(s.operation(op_id)->0));
    }
}

/// A finished upload carries every document and leaves the queue alone.
pub proof fn lemma_upload_carries(
    s: StoreView,
    doc_id: Seq<char>,
    object_key: Seq<char>,
    now: Seq<char>,
    id: Seq<char>,
)
    requires
        s.wf(),
    ensures
        carries_document(s, store_after_upload(s, doc_id, object_key, now), id),
        store_after_upload(s, doc_id, object_key, now).operations == s.operations,
        store_after_upload(s, doc_id, object_key, now).identity == s.identity,
{
    if s.has_document(doc_id) {
        lemma_put_document_wf(s, doc_id, uploaded(s.document(doc_id)->0, object_key, now));
    }
}

/// Going through the batch carries every operation and leaves the
/// documents alone.
pub proof fn lemma_advance_carries(e: EngineView, s: StoreView, id: Seq<char>)
    requires
        s.wf(),
        e.cursor <= e.batch.len(),
        e.phase == Phase::Pushing,
    ensures
        carries_operation(s, e.advance(s).store, id),
        e.advance(s).store.documents == s.documents,
    decreases e.batch.len() - e.cursor,
{
    if e.cursor < e.batch.len() {
        let op = e.batch[e.cursor as int];
        match begin_of(s, op) {
            Begin::Fail { error } => {
                let s1 = store_after_failure(s, op.id, error_text(error));
                lemma_outcomes_keep_wf(s);
                lemma_failure_carries(s, op.id, error_text(error), id);
                lemma_advance_carries(e.settled(), s1, id);
            },
            Begin::Skip => {
                lemma_advance_carries(e.settled(), s, id);
            },
            _ => {},
        }
    }
}

/// One remote change carries every document and leaves the queue alone.
pub proof fn lemma_change_carries(s: StoreView, c: ServerChangeView, now: Seq<char>, id: Seq<char>)
    requires
        s.wf(),
    ensures
        carries_document(s, store_after_change(s, c, now), id),
        store_after_change(s, c, now).operations == s.operations,
{
    match c {
        ServerChangeView::Upsert {
            id: target,
            user_id,
            tenant_id,
            filename,
            content_type,
            object_key,
        } => {
            if s.has_document(target) {
                lemma_put_document_wf(s, target, merged(s.document(target)->0, object_key, now));
            } else {
                lemma_add_document_wf(
                    s,
                    remote_document(
                        target,
                        user_id,
                        tenant_id,
                        filename,
                        content_type,
                        object_key,
                        now,
                    ),
                );
            }
        },
        ServerChangeView::Delete { id: target } => {
            if s.has_document(target) {
                lemma_put_document_wf(s, target, tombstoned(s.document(target)->0));
            } else {
                lemma_add_document_wf(s, remote_tombstone(target, now));
            }
        },
        ServerChangeView::Unknown { kind } => {},
    }
}

/// A batch of remote changes carries every document and leaves the queue
/// alone, whether or not the whole batch went in.
pub proof fn lemma_changes_carry(s: StoreView, items: Seq<Seq<char>>, now: Seq<char>, id: Seq<char>)
    requires
        s.wf(),
    ensures
        carries_document(s, after_changes(s, items, now).store, id),
        carries_document(s, store_after_changes(s, items, now), id),
        store_after_changes(s, items, now).operations == s.operations,
    decreases items.len(),
{
    lemma_changes_keep_wf(s, items, now);
    if items.len() > 0 {
        match change_of(raw_change_of(items[0])) {
            Err(e) => {},
            Ok(c) => {
                let s1 = store_after_change(s, c, now);
                lemma_change_keeps_wf(s, c, now);
                lemma_change_carries(s, c, now, id);
                lemma_changes_carry(s1, items.drop_first(), now, id);
            },
        }
    }
}

/// No move of the engine revives a deleted document, changes it in any
/// way, or touches the local revision of any document.
pub proof fn law_cycle_carries_documents(
    e: EngineView,
    s: StoreView,
    reply: ReplyView,
    now: Seq<char>,
    id: Seq<char>,
)
    requires
        e.wf(),
        s.wf(),
    ensures
        carries_document(s, e.resume(s, reply, now).store, id),
{
    lemma_outcomes_keep_wf(s);
    match e.phase {
        Phase::Idle => {},
        Phase::Probing => {
            if reply is Success {
                let e1 = EngineView {
                    phase: Phase::Pushing,
                    batch: pending_batch(s.operations),
                    cursor: 0,
                    online: true,
                    ..e
                };
                lemma_advance_carries(e1, s, id);
            }
        },
        Phase::Pushing => {
            let op = e.batch[e.cursor as int];
            match reply {
                ReplyView::Failure { message } => {
                    let s1 = store_after_failure(s, op.id, message);
                    lemma_failure_carries(s, op.id, message, id);
                    lemma_advance_carries(e.settled(), s1, id);
                },
                ReplyView::Success { body } => {
                    match e.waiting {
                        Waiting::UploadTarget => {
                            if let Err(error) = target_in(body) {
                                let s1 = store_after_failure(s, op.id, error_text(error));
                                lemma_failure_carries(s, op.id, error_text(error), id);
                                lemma_advance_carries(e.settled(), s1, id);
                            }
                        },
                        Waiting::UploadApply => {
                            let s1 = store_after_upload(s, e.task.doc_id, e.task.object_key, now);
                            lemma_upload_carries(s, e.task.doc_id, e.task.object_key, now, id);
                            lemma_outcomes_keep_wf(s1);
                            let s2 = store_after_done(s1, op.id);
                            lemma_done_carries(s1, op.id, id);
                            lemma_advance_carries(e.settled(), s2, id);
                        },
                        Waiting::DeleteApply => {
                            let s2 = store_after_done(s, op.id);
                            lemma_done_carries(s, op.id, id);
                            lemma_advance_carries(e.settled(), s2, id);
                        },
                        _ => {},
                    }
                },
            }
        },
        Phase::Pulling => {
            if let ReplyView::Success { body } = reply {
                lemma_changes_carry(s, changes_in(body), now, id);
            }
        },
    }
}

/// The retry count of an operation moves on failure only: success leaves it
/// as it is, and a failure raises it by one, up to the largest number that
/// the counter holds.
pub proof fn law_retry_count_moves_on_failure_only(o: OperationView, message: Seq<char>)
    ensures
        done(o).retry_count == o.retry_count,
        o.status != OperationStatus::Done ==> failed(o, message).status == OperationStatus::Failed,
        o.status != OperationStatus::Done && o.retry_count < i32::MAX ==> failed(
            o,
            message,
        ).retry_count == o.retry_count + 1,
        failed(o, message).retry_count >= o.retry_count,
{
}

/// No move of the engine reopens an operation that is done or changes it in
/// any way, and none lowers a retry count.
pub proof fn law_cycle_carries_operations(
    e: EngineView,
    s: StoreView,
    reply: ReplyView,
    now: Seq<char>,
    id: Seq<char>,
)
    requires
        e.wf(),
        s.wf(),
    ensures
        carries_operation(s, e.resume(s, reply, now).store, id),
{
    lemma_outcomes_keep_wf(s);
    match e.phase {
        Phase::Idle => {},
        Phase::Probing => {
            if reply is Success {
                let e1 = EngineView {
                    phase: Phase::Pushing,
                    batch: pending_batch(s.operations),
                    cursor: 0,
                    online: true,
                    ..e
                };
                lemma_advance_carries(e1, s, id);
            }
        },
        Phase::Pushing => {
            let op = e.batch[e.cursor as int];
            match reply {
                ReplyView::Failure { message } => {
                    let s1 = store_after_failure(s, op.id, message);
                    lemma_failure_carries(s, op.id, message, id);
                    lemma_advance_carries(e.settled(), s1, id);
                },
                ReplyView::Success { body } => {
                    match e.waiting {
                        Waiting::UploadTarget => {
                            if let Err(error) = target_in(body) {
                                let s1 = store_after_failure(s, op.id, error_text(error));
                                lemma_failure_carries(s, op.id, error_text(error), id);
                                lemma_advance_carries(e.settled(), s1, id);
                            }
                        },
                        Waiting::UploadApply => {
                            let s1 = store_after_upload(s, e.task.doc_id, e.task.object_key, now);
                            lemma_upload_carries(s, e.task.doc_id, e.task.object_key, now, id);
                            lemma_outcomes_keep_wf(s1);
                            let s2 = store_after_done(s1, op.id);
                            lemma_done_carries(s1, op.id, id);
                            lemma_advance_carries(e.settled(), s2, id);
                        },
                        Waiting::DeleteApply => {
                            let s2 = store_after_done(s, op.id);
                            lemma_done_carries(s, op.id, id);
                            lemma_advance_carries(e.settled(), s2, id);
                        },
                        _ => {},
                    }
                },
            }
        },
        Phase::Pulling => {
            if let ReplyView::Success { body } = reply {
                lemma_changes_carry(s, changes_in(body), now, id);
            }
        },
    }
}

/// The commands of the user never change a deleted document other than by
/// deleting it again, which keeps it deleted; and a rename that goes through
/// raises the local revision of its document by exactly one and touches no
/// other document.
pub proof fn law_commands_respect_documents(
    s: StoreView,
    target: Seq<char>,
    filename: Option<Seq<char>>,
    op_id: Seq<char>,
    now: Seq<char>,
    id: Seq<char>,
)
    requires
        s.wf(),
        s.document(id) is Some,
    ensures
        ({
            let before = s.document(id)->0;
            let renamed_store = store_after_update(s, target, filename, op_id, now);
            &&& renamed_store.wf()
            &&& renamed_store.document(id) is Some
            &&& before.status == DocumentStatus::Deleted ==> renamed_store.document(id)->0 == before
            &&& renamed_store.document(id)->0.local_version == if id == target && renamed_store != s {
                before.local_version + 1
            } else {
                before.local_version as int
            }
            &&& s.has_document(target) && !s.has_operation(op_id) ==> {
                let deleted_store = store_after_delete(s, target, op_id, now);
                &&& deleted_store.wf()
                &&& deleted_store.document(id) is Some
                &&& deleted_store.document(id)->0.local_version == before.local_version
                &&& before.status == DocumentStatus::Deleted
                    ==> deleted_store.document(id)->0.status == DocumentStatus::Deleted
                &&& id == target ==> deleted_store.document(id)->0.status == DocumentStatus::Deleted
            }
        }),
{
    if rename_applies(s, target, filename) && update_error(s, target, filename, op_id) is None {
        let d = s.document(target)->0;
        let mid = s.put_document(target, renamed(d, filename->0, now));
        lemma_put_document_wf(s, target, renamed(d, filename->0, now));
        lemma_add_operation_wf(mid, new_operation(op_id, d.user_id, "upload_document"@, target, now));
        let out = store_after_update(s, target, filename, op_id, now);
        assert(out.documents == mid.documents);
        assert(out.document(id) == mid.document(id));
        assert(out != s) by {
            assert(out.operations.len() == s.operations.len() + 1);
        }
    }
    if s.has_document(target) && !s.has_operation(op_id) {
        let d = s.document(target)->0;
        let mid = s.put_document(target, deleted_locally(d, now));
        lemma_put_document_wf(s, target, deleted_locally(d, now));
        lemma_add_operation_wf(mid, new_operation(op_id, d.user_id, "delete_document"@, target, now));
        let out = store_after_delete(s, target, op_id, now);
        assert(out.documents == mid.documents);
        assert(out.document(id) == mid.document(id));
    }
}

/// A manual retry touches failed operations only: every operation stays
/// queued under its identifier, a failed one is pending again with its
/// count at zero, and any other, a done one among them, is exactly as it
/// was.
pub proof fn law_retry_resets_failed_only(s: StoreView, id: Seq<char>)
    requires
        s.wf(),
        s.operation(id) is Some,
    ensures
        store_after_retry(s).wf(),
        store_after_retry(s).documents == s.documents,
        store_after_retry(s).operation(id) == Some(reset(s.operation(id)->0)),
        s.operation(id)->0.status != OperationStatus::Failed ==> store_after_retry(s).operation(id)
            == s.operation(id),
        s.operation(id)->0.status == OperationStatus::Failed ==> {
            &&& store_after_retry(s).operation(id)->0.status == OperationStatus::Pending
            &&& store_after_retry(s).operation(id)->0.retry_count == 0
            &&& store_after_retry(s).operation(id)->0.error_msg is None
        },
{
    let out = store_after_retry(s);
    crate::store::lemma_retry_keeps_wf(s);
    let k = s.operation_index(id);
    assert(out.operations[k] == reset(s.operations[k]));
    assert(out.operations[k].id == id);
    lemma_operation_index(out, k);
}

/// Every document carries a local revision of at least one.
pub open spec fn revisions_positive(s: StoreView) -> bool {
    forall|i: int| 0 <= i < s.documents.len() ==> (#[trigger] s.documents[i]).local_version >= 1
}

/// A new document with a revision of at least one keeps the revisions at
/// one or above.
pub proof fn lemma_add_keeps_revisions(s: StoreView, d: DocumentView)
    requires
        revisions_positive(s),
        d.local_version >= 1,
    ensures
        revisions_positive(s.add_document(d)),
{
    let stamps = crate::store::document_stamps(s.documents);
    let p = crate::store::slot(stamps, d.created_at);
    crate::store::lemma_slot(stamps, d.created_at);
    let out = s.add_document(d);
    assert forall|i: int| 0 <= i < out.documents.len() implies (
    #[trigger] out.documents[i]).local_version >= 1 by {
        if i < p {
            assert(out.documents[i] == s.documents[i]);
        } else if i > p {
            assert(out.documents[i] == s.documents[i - 1]);
        }
    }
}

/// One remote change keeps every local revision at one or above.
pub proof fn lemma_change_keeps_revisions(s: StoreView, c: ServerChangeView, now: Seq<char>)
    requires
        revisions_positive(s),
    ensures
        revisions_positive(store_after_change(s, c, now)),
{
    match c {
        ServerChangeView::Upsert { id, user_id, tenant_id, filename, content_type, object_key } => {
            if !s.has_document(id) {
                lemma_add_keeps_revisions(
                    s,
                    remote_document(id, user_id, tenant_id, filename, content_type, object_key, now),
                );
            }
        },
        ServerChangeView::Delete { id } => {
            if !s.has_document(id) {
                lemma_add_keeps_revisions(s, remote_tombstone(id, now));
            }
        },
        ServerChangeView::Unknown { kind } => {},
    }
}

/// A batch of remote changes keeps every local revision at one or above.
pub proof fn lemma_changes_keep_revisions(s: StoreView, items: Seq<Seq<char>>, now: Seq<char>)
    requires
        revisions_positive(s),
    ensures
        revisions_positive(after_changes(s, items, now).store),
        revisions_positive(store_after_changes(s, items, now)),
    decreases items.len(),
{
    if items.len() > 0 {
        match change_of(raw_change_of(items[0])) {
            Err(e) => {},
            Ok(c) => {
                lemma_change_keeps_revisions(s, c, now);
                lemma_changes_keep_revisions(store_after_change(s, c, now), items.drop_first(), now);
            },
        }
    }
}

/// Where every document has a local revision of at least one, it has one
/// after every move of the engine; so a document that needs an upload has a
/// revision above zero.
pub proof fn law_cycle_keeps_revisions_positive(
    e: EngineView,
    s: StoreView,
    reply: ReplyView,
    now: Seq<char>,
)
    requires
        e.wf(),
        s.wf(),
        revisions_positive(s),
    ensures
        revisions_positive(e.resume(s, reply, now).store),
        forall|i: int|
            0 <= i < e.resume(s, reply, now).store.documents.len() && (
            #[trigger] e.resume(s, reply, now).store.documents[i]).needs_upload ==> e.resume(
                s,
                reply,
                now,
            ).store.documents[i].local_version > 0,
{
    lemma_outcomes_keep_wf(s);
    match e.phase {
        Phase::Idle => {},
        Phase::Probing => {
            if reply is Success {
                let e1 = EngineView {
                    phase: Phase::Pushing,
                    batch: pending_batch(s.operations),
                    cursor: 0,
                    online: true,
                    ..e
                };
                lemma_advance_carries(e1, s, Seq::empty());
            }
        },
        Phase::Pushing => {
            let op = e.batch[e.cursor as int];
            match reply {
                ReplyView::Failure { message } => {
                    let s1 = store_after_failure(s, op.id, message);
                    lemma_advance_carries(e.settled(), s1, Seq::empty());
                },
                ReplyView::Success { body } => {
                    match e.waiting {
                        Waiting::UploadTarget => {
                            if let Err(error) = target_in(body) {
                                let s1 = store_after_failure(s, op.id, error_text(error));
                                lemma_advance_carries(e.settled(), s1, Seq::empty());
                            }
                        },
                        Waiting::UploadApply => {
                            let s1 = store_after_upload(s, e.task.doc_id, e.task.object_key, now);
                            assert(revisions_positive(s1));
                            lemma_outcomes_keep_wf(s1);
                            let s2 = store_after_done(s1, op.id);
                            lemma_advance_carries(e.settled(), s2, Seq::empty());
                        },
                        Waiting::DeleteApply => {
                            let s2 = store_after_done(s, op.id);
                            lemma_advance_carries(e.settled(), s2, Seq::empty());
                        },
                        _ => {},
                    }
                },
            }
        },
        Phase::Pulling => {
            if let ReplyView::Success { body } = reply {
                lemma_changes_keep_revisions(s, changes_in(body), now);
            }
        },
    }
}

/// Where every document has a local revision of at least one, it has one
/// after every command of the user: a new document starts at one, and a
/// rename only raises the revision.
pub proof fn law_commands_keep_revisions_positive(
    s: StoreView,
    input: crate::documents::CreateDocumentInputView,
    target: Seq<char>,
    filename: Option<Seq<char>>,
    op_id: Seq<char>,
    now: Seq<char>,
)
    requires
        s.wf(),
        revisions_positive(s),
    ensures
        revisions_positive(crate::documents::store_after_create(s, input, target, op_id, now)),
        revisions_positive(store_after_update(s, target, filename, op_id, now)),
        s.has_document(target) ==> revisions_positive(store_after_delete(s, target, op_id, now)),
        revisions_positive(store_after_retry(s)),
{
    lemma_add_keeps_revisions(
        s,
        crate::documents::new_document(input, target, s.identity, now),
    );
    if rename_applies(s, target, filename) && update_error(s, target, filename, op_id) is None {
        let k = s.document_index(target);
        assert(s.documents[k].local_version >= 1);
    }
}

} // verus!
