//! What holds of the store and of the engine whatever they are given. Each
//! law is stated over the same functions as the contracts of the commands
//! and of the engine, and proved.

use crate::documents::{
    CreateDocumentInputView, deleted_locally, delete_error, new_document, new_operation, owner_of,
    payload_for, rename_applies, renamed, store_after_create, store_after_delete,
    store_after_update, update_error,
};
use crate::engine::{Begin, EngineView, Phase, ReplyView, Waiting, begin_of, lemma_advance_wf};
use crate::engine::CommandView;
use crate::models::{DocumentStatus, OperationStatus, OperationView};
use crate::pull::{
    ServerChangeView, after_changes, lemma_change_keeps_wf, lemma_changes_keep_wf, merged,
    since_of, store_after_change, store_after_changes, tombstoned,
};
use crate::push::{
    RETRY_CAP, done, eligible, error_text, failed, is_eligible, lemma_outcomes_keep_wf,
    pending_batch, store_after_done, store_after_failure, store_after_upload, target_in, uploaded,
};
use crate::store::{
    StoreView, ascending, lemma_add_document_wf, lemma_add_operation_wf, lemma_operation_index,
    lemma_put_document_wf, lemma_put_operation_wf, operation_stamps,
};
use vstd::prelude::*;

verus! {

/// Creating a document queues exactly one operation: the queue grows by
/// one, the new entry is a pending `upload_document` for the new document,
/// every other entry is as before, and the new document needs an upload.
pub proof fn law_create_queues_one_upload(
    s: StoreView,
    input: CreateDocumentInputView,
    doc_id: Seq<char>,
    op_id: Seq<char>,
    now: Seq<char>,
)
    requires
        s.wf(),
        !s.has_document(doc_id),
        !s.has_operation(op_id),
    ensures
        ({
            let after = store_after_create(s, input, doc_id, op_id, now);
            &&& after.wf()
            &&& after.operations.len() == s.operations.len() + 1
            &&& after.operation(op_id) == Some(
                new_operation(op_id, owner_of(s.identity), "upload_document"@, doc_id, now),
            )
            &&& after.operation(op_id)->0.status == OperationStatus::Pending
            &&& after.operation(op_id)->0.payload == payload_for(doc_id)
            &&& forall|other: Seq<char>|
                other != op_id ==> after.operation(other) == #[trigger] s.operation(other)
            &&& after.document(doc_id) == Some(new_document(input, doc_id, s.identity, now))
            &&& after.document(doc_id)->0.needs_upload
        }),
{
    let d = new_document(input, doc_id, s.identity, now);
    let o = new_operation(op_id, owner_of(s.identity), "upload_document"@, doc_id, now);
    let mid = s.add_document(d);
    let after = store_after_create(s, input, doc_id, op_id, now);
    lemma_add_document_wf(s, d);
    lemma_same_operations(s, mid, op_id);
    lemma_add_operation_wf(mid, o);
    lemma_same_documents(mid, after, doc_id);
    assert forall|other: Seq<char>| other != op_id implies after.operation(other)
        == #[trigger] s.operation(other) by {
        lemma_same_operations(s, mid, other);
    }
}

/// Deleting a document queues exactly one operation, in the same step in
/// which the document is marked: the queue grows by one, the new entry is a
/// pending `delete_document` for that document, every other entry is as
/// before, and the document is deleted from then on.
pub proof fn law_delete_queues_one_delete(
    s: StoreView,
    doc_id: Seq<char>,
    op_id: Seq<char>,
    now: Seq<char>,
)
    requires
        s.wf(),
        delete_error(s, doc_id, op_id) is None,
    ensures
        ({
            let after = store_after_delete(s, doc_id, op_id, now);
            &&& after.wf()
            &&& after.operations.len() == s.operations.len() + 1
            &&& after.documents.len() == s.documents.len()
            &&& after.operation(op_id) == Some(
                new_operation(
                    op_id,
                    s.document(doc_id)->0.user_id,
                    "delete_document"@,
                    doc_id,
                    now,
                ),
            )
            &&& forall|other: Seq<char>|
                other != op_id ==> after.operation(other) == #[trigger] s.operation(other)
            &&& after.document(doc_id) == Some(deleted_locally(s.document(doc_id)->0, now))
            &&& after.document(doc_id)->0.status == DocumentStatus::Deleted
        }),
{
    let d = s.document(doc_id)->0;
    let o = new_operation(op_id, d.user_id, "delete_document"@, doc_id, now);
    let mid = s.put_document(doc_id, deleted_locally(d, now));
    let after = store_after_delete(s, doc_id, op_id, now);
    lemma_put_document_wf(s, doc_id, deleted_locally(d, now));
    lemma_same_operations(s, mid, op_id);
    lemma_add_operation_wf(mid, o);
    lemma_same_documents(mid, after, doc_id);
    assert forall|other: Seq<char>| other != op_id implies after.operation(other)
        == #[trigger] s.operation(other) by {
        lemma_same_operations(s, mid, other);
    }
}

/// A rename that goes through queues exactly one operation, in the same
/// step in which the document is changed: the queue grows by one, the new
/// entry is a pending `upload_document` for that document, every other entry
/// is as before, and the document needs an upload.
pub proof fn law_rename_queues_one_upload(
    s: StoreView,
    doc_id: Seq<char>,
    filename: Seq<char>,
    op_id: Seq<char>,
    now: Seq<char>,
)
    requires
        s.wf(),
        rename_applies(s, doc_id, Some(filename)),
        update_error(s, doc_id, Some(filename), op_id) is None,
    ensures
        ({
            let after = store_after_update(s, doc_id, Some(filename), op_id, now);
            &&& after.wf()
            &&& after.operations.len() == s.operations.len() + 1
            &&& after.documents.len() == s.documents.len()
            &&& after.operation(op_id) == Some(
                new_operation(
                    op_id,
                    s.document(doc_id)->0.user_id,
                    "upload_document"@,
                    doc_id,
                    now,
                ),
            )
            &&& forall|other: Seq<char>|
                other != op_id ==> after.operation(other) == #[trigger] s.operation(other)
            &&& after.document(doc_id) == Some(renamed(s.document(doc_id)->0, filename, now))
            &&& after.document(doc_id)->0.needs_upload
            &&& after.document(doc_id)->0.local_version == s.document(doc_id)->0.local_version + 1
        }),
{
    let d = s.document(doc_id)->0;
    let o = new_operation(op_id, d.user_id, "upload_document"@, doc_id, now);
    let mid = s.put_document(doc_id, renamed(d, filename, now));
    let after = store_after_update(s, doc_id, Some(filename), op_id, now);
    lemma_put_document_wf(s, doc_id, renamed(d, filename, now));
    lemma_same_operations(s, mid, op_id);
    lemma_add_operation_wf(mid, o);
    lemma_same_documents(mid, after, doc_id);
    assert forall|other: Seq<char>| other != op_id implies after.operation(other)
        == #[trigger] s.operation(other) by {
        lemma_same_operations(s, mid, other);
    }
}

/// Whether this move of the engine completes an upload of the document
/// `doc_id`: the remote service has just confirmed it.
pub open spec fn completes_upload(e: EngineView, reply: ReplyView, doc_id: Seq<char>) -> bool {
    &&& e.phase == Phase::Pushing
    &&& e.waiting == Waiting::UploadApply
    &&& reply is Success
    &&& e.task.doc_id == doc_id
}

/// Going through the batch never reopens an operation that is done.
pub proof fn lemma_advance_keeps_done(e: EngineView, s: StoreView, op_id: Seq<char>)
    requires
        s.wf(),
        e.cursor <= e.batch.len(),
        e.phase == Phase::Pushing,
        s.operation(op_id) is Some,
        s.operation(op_id)->0.status == OperationStatus::Done,
    ensures
        e.advance(s).store.operation(op_id) is Some,
        e.advance(s).store.operation(op_id)->0.status == OperationStatus::Done,
    decreases e.batch.len() - e.cursor,
{
    if e.cursor < e.batch.len() {
        let op = e.batch[e.cursor as int];
        match begin_of(s, op) {
            Begin::Fail { error } => {
                let s1 = store_after_failure(s, op.id, error_text(error));
                lemma_outcomes_keep_wf(s);
                if s.has_operation(op.id) {
                    lemma_put_operation_wf(
                        s,
                        op.id,
                        failed(s.operation(op.id)->0, error_text(error)),
                    );
                }
                lemma_advance_keeps_done(e.settled(), s1, op_id);
            },
            Begin::Skip => {
                lemma_advance_keeps_done(e.settled(), s, op_id);
            },
            _ => {},
        }
    }
}

/// A document that needs an upload keeps needing it through every move of
/// the push pipeline, until a move completes an upload of that very
/// document; and the operation that was in hand at that move is done from
/// then on. (Remote changes are another matter: see
/// [`law_change_keeps_upload_flag`].)
pub proof fn law_upload_flag_stays_until_upload_done(
    e: EngineView,
    s: StoreView,
    reply: ReplyView,
    now: Seq<char>,
    doc_id: Seq<char>,
)
    requires
        e.wf(),
        s.wf(),
        e.phase != Phase::Pulling,
        s.document(doc_id) is Some,
        s.document(doc_id)->0.needs_upload,
    ensures
        ({
            let after = e.resume(s, reply, now).store;
            &&& after.document(doc_id) is Some
            &&& after.document(doc_id)->0.needs_upload || completes_upload(e, reply, doc_id)
            &&& completes_upload(e, reply, doc_id) && s.has_operation(
                e.batch[e.cursor as int].id,
            ) ==> {
                &&& after.operation(e.batch[e.cursor as int].id) is Some
                &&& after.operation(e.batch[e.cursor as int].id)->0.status == OperationStatus::Done
            }
        }),
{
    lemma_outcomes_keep_wf(s);
    match e.phase {
        Phase::Idle => {},
        Phase::Probing => {
            if reply is Success {
                let e1 = EngineView {
                    phase: Phase::Pushing,
                    batch: pending_batch(s.operations),
                    cursor: 0,
                    online: true,
                    ..e
                };
                lemma_advance_wf(e1, s);
                lemma_same_documents(s, e1.advance(s).store, doc_id);
            }
        },
        Phase::Pushing => {
            let op = e.batch[e.cursor as int];
            match reply {
                ReplyView::Failure { message } => {
                    let s1 = store_after_failure(s, op.id, message);
                    lemma_same_documents(s, s1, doc_id);
                    lemma_advance_wf(e.settled(), s1);
                    lemma_same_documents(s1, e.settled().advance(s1).store, doc_id);
                },
                ReplyView::Success { body } => {
                    match e.waiting {
                        Waiting::UploadTarget => {
                            if let Err(error) = target_in(body) {
                                let s1 = store_after_failure(s, op.id, error_text(error));
                                lemma_same_documents(s, s1, doc_id);
                                lemma_advance_wf(e.settled(), s1);
                                lemma_same_documents(s1, e.settled().advance(s1).store, doc_id);
                            }
                        },
                        Waiting::UploadApply => {
                            let s1 = store_after_upload(s, e.task.doc_id, e.task.object_key, now);
                            if s.has_document(e.task.doc_id) {
                                lemma_put_document_wf(
                                    s,
                                    e.task.doc_id,
                                    uploaded(
                                        s.document(e.task.doc_id)->0,
                                        e.task.object_key,
                                        now,
                                    ),
                                );
                            }
                            lemma_outcomes_keep_wf(s1);
                            let s2 = store_after_done(s1, op.id);
                            lemma_same_documents(s1, s2, doc_id);
                            lemma_advance_wf(e.settled(), s2);
                            lemma_same_documents(s2, e.settled().advance(s2).store, doc_id);
                            if s.has_operation(op.id) {
                                assert(s1.operations == s.operations);
                                lemma_same_operations(s, s1, op.id);
                                lemma_put_operation_wf(s1, op.id, done(s1.operation(op.id)->0));
                                lemma_advance_keeps_done(e.settled(), s2, op.id);
                            }
                        },
                        Waiting::DeleteApply => {
                            let s2 = store_after_done(s, op.id);
                            lemma_same_documents(s, s2, doc_id);
                            lemma_advance_wf(e.settled(), s2);
                            lemma_same_documents(s2, e.settled().advance(s2).store, doc_id);
                        },
                        _ => {},
                    }
                },
            }
        },
        Phase::Pulling => {},
    }
}

/// Stores with the same documents answer alike for every document.
pub proof fn lemma_same_documents(a: StoreView, b: StoreView, id: Seq<char>)
    requires
        a.documents == b.documents,
    ensures
        a.has_document(id) == b.has_document(id),
        a.document(id) == b.document(id),
{
}

/// Stores with the same queue answer alike for every operation.
pub proof fn lemma_same_operations(a: StoreView, b: StoreView, id: Seq<char>)
    requires
        a.operations == b.operations,
    ensures
        a.has_operation(id) == b.has_operation(id),
        a.operation(id) == b.operation(id),
{
}

/// A remote change leaves the upload flag of a document alone, unless it
/// reports that very document created or updated: then the remote side
/// wins and the flag is cleared, whether or not the upload went through.
pub proof fn law_change_keeps_upload_flag(
    s: StoreView,
    c: ServerChangeView,
    now: Seq<char>,
    doc_id: Seq<char>,
)
    requires
        s.wf(),
        s.document(doc_id) is Some,
        s.document(doc_id)->0.needs_upload,
        !(c matches ServerChangeView::Upsert { id, .. } && id == doc_id),
    ensures
        store_after_change(s, c, now).document(doc_id) is Some,
        store_after_change(s, c, now).document(doc_id)->0.needs_upload,
{
    match c {
        ServerChangeView::Upsert { id, user_id, tenant_id, filename, content_type, object_key } => {
            if s.has_document(id) {
                lemma_put_document_wf(s, id, merged(s.document(id)->0, object_key, now));
            } else {
                lemma_add_document_wf(
                    s,
                    crate::pull::remote_document(
                        id,
                        user_id,
                        tenant_id,
                        filename,
                        content_type,
                        object_key,
                        now,
                    ),
                );
            }
        },
        ServerChangeView::Delete { id } => {
            if s.has_document(id) {
                lemma_put_document_wf(s, id, tombstoned(s.document(id)->0));
            } else {
                lemma_add_document_wf(s, crate::pull::remote_tombstone(id, now));
            }
        },
        ServerChangeView::Unknown { kind } => {},
    }
}

/// Applying the same creation or update twice adds no second record: after
/// the first time the document is known, and the second time leaves the
/// number of documents and every other document as they are. What the second
/// time does to the document itself is what a merge does.
pub proof fn law_upsert_twice_adds_nothing(
    s: StoreView,
    c: ServerChangeView,
    first: Seq<char>,
    second: Seq<char>,
)
    requires
        s.wf(),
        c is Upsert,
    ensures
        ({
            let once = store_after_change(s, c, first);
            let twice = store_after_change(once, c, second);
            let id = c->Upsert_id;
            &&& once.wf() && twice.wf()
            &&& once.has_document(id)
            &&& twice.documents.len() == once.documents.len()
            &&& twice.document(id) == Some(merged(once.document(id)->0, c->Upsert_object_key, second))
            &&& forall|other: Seq<char>|
                other != id ==> twice.document(other) == #[trigger] once.document(other)
            &&& twice.operations == once.operations
            &&& twice.identity == once.identity
        }),
{
    let once = store_after_change(s, c, first);
    lemma_change_keeps_wf(s, c, first);
    lemma_change_keeps_wf(once, c, second);
    match c {
        ServerChangeView::Upsert { id, user_id, tenant_id, filename, content_type, object_key } => {
            if s.has_document(id) {
                lemma_put_document_wf(s, id, merged(s.document(id)->0, object_key, first));
            } else {
                lemma_add_document_wf(
                    s,
                    crate::pull::remote_document(
                        id,
                        user_id,
                        tenant_id,
                        filename,
                        content_type,
                        object_key,
                        first,
                    ),
                );
            }
            lemma_put_document_wf(once, id, merged(once.document(id)->0, object_key, second));
        },
        _ => {},
    }
}

/// Applying the same creation or update twice at the same time changes
/// nothing the second time, once the document has been merged: a document
/// that was known before the first time is the same after the second.
pub proof fn law_upsert_of_known_document_is_idempotent(
    s: StoreView,
    c: ServerChangeView,
    now: Seq<char>,
)
    requires
        s.wf(),
        c is Upsert,
        s.has_document(c->Upsert_id),
    ensures
        store_after_change(store_after_change(s, c, now), c, now) == store_after_change(s, c, now),
{
    let once = store_after_change(s, c, now);
    lemma_change_keeps_wf(s, c, now);
    match c {
        ServerChangeView::Upsert { id, user_id, tenant_id, filename, content_type, object_key } => {
            let d = merged(s.document(id)->0, object_key, now);
            lemma_put_document_wf(s, id, d);
            assert(merged(d, object_key, now) == d);
            let k = once.document_index(id);
            assert(once.documents.update(k, d) =~= once.documents);
        },
        _ => {},
    }
}

/// A reported delete of a document that is already deleted changes nothing.
pub proof fn law_delete_of_deleted_is_noop(s: StoreView, id: Seq<char>, now: Seq<char>)
    requires
        s.wf(),
        s.document(id) is Some,
        s.document(id)->0.status == DocumentStatus::Deleted,
    ensures
        store_after_change(s, ServerChangeView::Delete { id }, now) == s,
{
    let k = s.document_index(id);
    assert(tombstoned(s.documents[k]) == s.documents[k]);
    assert(s.documents.update(k, s.documents[k]) =~= s.documents);
}

/// A reported delete always ends with the document kept as deleted, known
/// before or not, and never adds a second record for it.
pub proof fn law_delete_ends_deleted(s: StoreView, id: Seq<char>, now: Seq<char>)
    requires
        s.wf(),
    ensures
        ({
            let after = store_after_change(s, ServerChangeView::Delete { id }, now);
            &&& after.wf()
            &&& after.document(id) is Some
            &&& after.document(id)->0.status == DocumentStatus::Deleted
            &&& after.documents.len() == s.documents.len() + (if s.has_document(id) {
                0int
            } else {
                1int
            })
        }),
{
    lemma_change_keeps_wf(s, ServerChangeView::Delete { id }, now);
    if s.has_document(id) {
        lemma_put_document_wf(s, id, tombstoned(s.document(id)->0));
    } else {
        lemma_add_document_wf(s, crate::pull::remote_tombstone(id, now));
    }
}

/// Whether `x` stands before `y` somewhere in `s`.
pub open spec fn in_order<A>(s: Seq<A>, x: A, y: A) -> bool {
    exists|i: int, j: int| 0 <= i < j < s.len() && s[i] == x && s[j] == y
}

/// What passes a filter keeps the order in which it stood: of two elements
/// of the result, the earlier one stood earlier in the source.
pub proof fn lemma_filter_keeps_order<A>(s: Seq<A>, p: spec_fn(A) -> bool)
    ensures
        forall|a: int| 0 <= a < s.filter(p).len() ==> s.contains(#[trigger] s.filter(p)[a]),
        forall|a: int, b: int|
            0 <= a < b < s.filter(p).len() ==> #[trigger] in_order(
                s,
                s.filter(p)[a],
                s.filter(p)[b],
            ),
    decreases s.len(),
{
    reveal(Seq::filter);
    if s.len() > 0 {
        let rest = s.drop_last();
        let f = s.filter(p);
        let g = rest.filter(p);
        lemma_filter_keeps_order(rest, p);
        assert forall|a: int| 0 <= a < f.len() implies s.contains(#[trigger] f[a]) by {
            if a < g.len() {
                assert(rest.contains(g[a]));
                let i = choose|i: int| 0 <= i < rest.len() && rest[i] == g[a];
                assert(s[i] == f[a]);
            } else {
                assert(s[s.len() - 1] == f[a]);
            }
        }
        assert forall|a: int, b: int| 0 <= a < b < f.len() implies #[trigger] in_order(
            s,
            f[a],
            f[b],
        ) by {
            if b < g.len() {
                assert(in_order(rest, g[a], g[b]));
                let (i, j) = choose|i: int, j: int|
                    0 <= i < j < rest.len() && rest[i] == g[a] && rest[j] == g[b];
                assert(s[i] == f[a] && s[j] == f[b]);
            } else {
                assert(rest.contains(g[a]));
                let i = choose|i: int| 0 <= i < rest.len() && rest[i] == g[a];
                assert(s[i] == f[a] && s[s.len() - 1] == f[b]);
            }
        }
    }
}

/// The batch of a cycle is first in, first out: of two operations in it, the
/// earlier one stands earlier in the queue, and no operation in it was
/// created after one that follows it. The engine takes the batch up from the
/// front.
pub proof fn law_batch_is_fifo(s: StoreView)
    requires
        s.wf(),
    ensures
        forall|a: int, b: int|
            0 <= a < b < pending_batch(s.operations).len() ==> #[trigger] in_order(
                s.operations,
                pending_batch(s.operations)[a],
                pending_batch(s.operations)[b],
            ),
        ascending(operation_stamps(pending_batch(s.operations))),
{
    let all = s.operations.filter(is_eligible());
    let batch = pending_batch(s.operations);
    lemma_filter_keeps_order(s.operations, is_eligible());
    assert forall|a: int, b: int| 0 <= a < b < batch.len() implies #[trigger] in_order(
        s.operations,
        batch[a],
        batch[b],
    ) by {
        assert(batch[a] == all[a] && batch[b] == all[b]);
        assert(in_order(s.operations, all[a], all[b]));
    }
    let stamps = operation_stamps(batch);
    assert forall|a: int, b: int| 0 <= a < b < stamps.len() implies crate::strings::text_le(
        stamps[a],
        stamps[b],
    ) by {
        assert(in_order(s.operations, batch[a], batch[b]));
        let (i, j) = choose|i: int, j: int|
            0 <= i < j < s.operations.len() && s.operations[i] == batch[a] && s.operations[j]
                == batch[b];
        assert(operation_stamps(s.operations)[i] == stamps[a]);
        assert(operation_stamps(s.operations)[j] == stamps[b]);
    }
}

/// Of two operations in a batch, the one that was created strictly earlier
/// is taken up first.
pub proof fn law_earlier_operation_is_taken_up_first(s: StoreView, a: int, b: int)
    requires
        s.wf(),
        0 <= a < pending_batch(s.operations).len(),
        0 <= b < pending_batch(s.operations).len(),
        !crate::strings::text_le(
            pending_batch(s.operations)[b].created_at,
            pending_batch(s.operations)[a].created_at,
        ),
    ensures
        a < b,
{
    let batch = pending_batch(s.operations);
    let stamps = operation_stamps(batch);
    law_batch_is_fifo(s);
    if b == a {
        crate::strings::lemma_text_le_refl(batch[a].created_at);
    } else if b < a {
        assert(crate::strings::text_le(stamps[b], stamps[a]));
    }
}

/// An operation that has failed as often as the cap allows is in no batch,
/// whatever its status.
pub proof fn law_capped_operation_is_not_selected(ops: Seq<OperationView>, i: int)
    requires
        0 <= i < pending_batch(ops).len(),
    ensures
        pending_batch(ops)[i].retry_count < RETRY_CAP,
        pending_batch(ops)[i].status == OperationStatus::Pending,
{
    let all = ops.filter(is_eligible());
    assert(pending_batch(ops)[i] == all[i]);
    ops.lemma_filter_pred(is_eligible(), i);
}

/// The operation `op_id` after five failures in a row.
pub open spec fn after_five_failures(s: StoreView, op_id: Seq<char>, m: Seq<Seq<char>>) -> StoreView
    recommends
        m.len() == 5,
{
    store_after_failure(
        store_after_failure(
            store_after_failure(
                store_after_failure(store_after_failure(s, op_id, m[0]), op_id, m[1]),
                op_id,
                m[2],
            ),
            op_id,
            m[3],
        ),
        op_id,
        m[4],
    )
}

/// An operation that fails five times in a row has reached the cap: it is
/// still queued, with the status `failed` and the last message, and the
/// next batch does not take it up.
pub proof fn law_five_failures_reach_the_cap(s: StoreView, op_id: Seq<char>, m: Seq<Seq<char>>)
    requires
        s.wf(),
        m.len() == 5,
        s.operation(op_id) is Some,
        s.operation(op_id)->0.status != OperationStatus::Done,
        s.operation(op_id)->0.retry_count >= 0,
    ensures
        ({
            let after = after_five_failures(s, op_id, m);
            &&& after.wf()
            &&& after.operations.len() == s.operations.len()
            &&& after.operation(op_id) is Some
            &&& after.operation(op_id)->0.status == OperationStatus::Failed
            &&& after.operation(op_id)->0.retry_count >= RETRY_CAP
            &&& after.operation(op_id)->0.error_msg == Some(m[4])
            &&& !eligible(after.operation(op_id)->0)
            &&& forall|i: int|
                0 <= i < pending_batch(after.operations).len() ==> (#[trigger] pending_batch(
                    after.operations,
                )[i]).id != op_id
        }),
{
    let s1 = store_after_failure(s, op_id, m[0]);
    lemma_put_operation_wf(s, op_id, failed(s.operation(op_id)->0, m[0]));
    let s2 = store_after_failure(s1, op_id, m[1]);
    lemma_put_operation_wf(s1, op_id, failed(s1.operation(op_id)->0, m[1]));
    let s3 = store_after_failure(s2, op_id, m[2]);
    lemma_put_operation_wf(s2, op_id, failed(s2.operation(op_id)->0, m[2]));
    let s4 = store_after_failure(s3, op_id, m[3]);
    lemma_put_operation_wf(s3, op_id, failed(s3.operation(op_id)->0, m[3]));
    let s5 = store_after_failure(s4, op_id, m[4]);
    lemma_put_operation_wf(s4, op_id, failed(s4.operation(op_id)->0, m[4]));
    let batch = pending_batch(s5.operations);
    lemma_filter_keeps_order(s5.operations, is_eligible());
    assert forall|i: int| 0 <= i < batch.len() implies (#[trigger] batch[i]).id != op_id by {
        let all = s5.operations.filter(is_eligible());
        assert(batch[i] == all[i]);
        s5.operations.lemma_filter_pred(is_eligible(), i);
        assert(s5.operations.contains(all[i]));
        let k = choose|k: int| 0 <= k < s5.operations.len() && s5.operations[k] == all[i];
        if batch[i].id == op_id {
            lemma_operation_index(s5, k);
        }
    }
}

/// When a change of a batch cannot be applied, the checkpoint stays where
/// it was, so the next pull asks from the same boundary again; when all of
/// them went in, the checkpoint is the time of this pull.
pub proof fn law_checkpoint_moves_only_after_whole_batch(
    s: StoreView,
    items: Seq<Seq<char>>,
    now: Seq<char>,
)
    requires
        s.wf(),
    ensures
        after_changes(s, items, now).error is Some ==> {
            &&& store_after_changes(s, items, now).identity == s.identity
            &&& since_of(store_after_changes(s, items, now).identity) == since_of(s.identity)
        },
        after_changes(s, items, now).error is None ==> since_of(
            store_after_changes(s, items, now).identity,
        ) == now,
{
    lemma_changes_keep_wf(s, items, now);
}

/// A failed probe ends the cycle at once: the store, and with it every
/// operation's status and the checkpoint, is as before, and nothing more is
/// asked of the driver.
pub proof fn law_failed_probe_changes_nothing(
    e: EngineView,
    s: StoreView,
    message: Seq<char>,
    now: Seq<char>,
)
    requires
        e.phase == Phase::Probing,
    ensures
        e.resume(s, ReplyView::Failure { message }, now).store == s,
        e.resume(s, ReplyView::Failure { message }, now).command == CommandView::Rest,
        e.resume(s, ReplyView::Failure { message }, now).engine.phase == Phase::Idle,
{
}

} // verus!
