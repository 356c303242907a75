//! The local store: the documents, the queue of offline operations and the
//! identity record, with the rules that every change to them keeps.

use crate::models::{
    Document, DocumentView, IdentityView, LocalIdentity, OfflineOperation,
    OperationStatus, OperationView, fresh_identity,
};
use crate::sequences::lemma_filter_next;
use crate::strings::{lemma_text_le_total, lemma_text_le_trans, text_at_or_before, text_le};
use vstd::prelude::*;

verus! {

/// Why the store refused a record.
#[derive(Clone, Copy, Debug, PartialEq, Eq, Structural)]
pub enum StoreError {
    /// A record with the same identifier is already kept.
    DuplicateId,
}

/// The creation stamps of a list of documents.
pub open spec fn document_stamps(docs: Seq<DocumentView>) -> Seq<Seq<char>> {
    Seq::new(docs.len(), |i: int| docs[i].created_at)
}

/// The creation stamps of a list of operations.
pub open spec fn operation_stamps(ops: Seq<OperationView>) -> Seq<Seq<char>> {
    Seq::new(ops.len(), |i: int| ops[i].created_at)
}

/// No stamp sorts after a later one.
pub open spec fn ascending(stamps: Seq<Seq<char>>) -> bool {
    forall|i: int, j: int| 0 <= i < j < stamps.len() ==> text_le(stamps[i], stamps[j])
}

/// Where a record stamped `t` enters a list with these stamps: behind the
/// last record whose stamp sorts at or before `t`, so that records with equal
/// stamps stay in the order in which they came.
pub open spec fn slot(stamps: Seq<Seq<char>>, t: Seq<char>) -> int
    decreases stamps.len(),
{
    if stamps.len() == 0 {
        0
    } else if text_le(stamps.last(), t) {
        stamps.len() as int
    } else {
        slot(stamps.drop_last(), t)
    }
}

/// What `slot` picks: everything before it sorts at or before `t` in an
/// ascending list, and everything from it on sorts strictly after `t`.
pub proof fn lemma_slot(stamps: Seq<Seq<char>>, t: Seq<char>)
    ensures
        0 <= slot(stamps, t) <= stamps.len(),
        forall|j: int| slot(stamps, t) <= j < stamps.len() ==> !text_le(#[trigger] stamps[j], t),
        slot(stamps, t) > 0 ==> text_le(stamps[slot(stamps, t) - 1], t),
    decreases stamps.len(),
{
    if stamps.len() > 0 && !text_le(stamps.last(), t) {
        let rest = stamps.drop_last();
        lemma_slot(rest, t);
        assert forall|j: int| slot(stamps, t) <= j < stamps.len() implies !text_le(
            #[trigger] stamps[j],
            t,
        ) by {
            if j < rest.len() {
                assert(rest[j] == stamps[j]);
            }
        }
        if slot(stamps, t) > 0 {
            assert(rest[slot(stamps, t) - 1] == stamps[slot(stamps, t) - 1]);
        }
    }
}

/// Entering a stamp at its slot keeps an ascending list ascending.
pub proof fn lemma_slot_keeps_ascending(stamps: Seq<Seq<char>>, t: Seq<char>)
    requires
        ascending(stamps),
    ensures
        ascending(stamps.insert(slot(stamps, t), t)),
{
    lemma_slot(stamps, t);
    let p = slot(stamps, t);
    let out = stamps.insert(p, t);
    assert forall|i: int, j: int| 0 <= i < j < out.len() implies text_le(out[i], out[j]) by {
        if j < p {
            assert(out[i] == stamps[i] && out[j] == stamps[j]);
        } else if j == p {
            assert(out[i] == stamps[i]);
            if i < p - 1 {
                lemma_text_le_trans(stamps[i], stamps[p - 1], t);
            }
        } else if i < p {
            assert(out[i] == stamps[i] && out[j] == stamps[j - 1]);
        } else if i == p {
            assert(out[j] == stamps[j - 1]);
            assert(!text_le(stamps[j - 1], t));
            lemma_text_le_total(stamps[j - 1], t);
        } else {
            assert(out[i] == stamps[i - 1] && out[j] == stamps[j - 1]);
        }
    }
}

/// What the store holds, as plain mathematical values.
pub ghost struct StoreView {
    pub documents: Seq<DocumentView>,
    pub operations: Seq<OperationView>,
    pub identity: IdentityView,
}

impl StoreView {
    /// The rules of the store: no identifier occurs twice, and both lists
    /// stand in the order of their creation stamps.
    pub open spec fn wf(self) -> bool {
        &&& forall|i: int, j: int|
            0 <= i < j < self.documents.len() ==> self.documents[i].id != self.documents[j].id
        &&& forall|i: int, j: int|
            0 <= i < j < self.operations.len() ==> self.operations[i].id != self.operations[j].id
        &&& ascending(document_stamps(self.documents))
        &&& ascending(operation_stamps(self.operations))
    }

    /// A store with nothing in it.
    pub open spec fn empty() -> StoreView {
        StoreView { documents: Seq::empty(), operations: Seq::empty(), identity: fresh_identity() }
    }

    /// Whether a document with this identifier is kept (tombstones count).
    pub open spec fn has_document(self, id: Seq<char>) -> bool {
        exists|i: int| 0 <= i < self.documents.len() && #[trigger] self.documents[i].id == id
    }

    /// The place of the document with this identifier.
    pub open spec fn document_index(self, id: Seq<char>) -> int {
        choose|i: int| 0 <= i < self.documents.len() && #[trigger] self.documents[i].id == id
    }

    /// The document with this identifier, if it is kept.
    pub open spec fn document(self, id: Seq<char>) -> Option<DocumentView> {
        if self.has_document(id) {
            Some(self.documents[self.document_index(id)])
        } else {
            None
        }
    }

    /// Whether an operation with this identifier is queued.
    pub open spec fn has_operation(self, id: Seq<char>) -> bool {
        exists|i: int| 0 <= i < self.operations.len() && #[trigger] self.operations[i].id == id
    }

    /// The place of the operation with this identifier.
    pub open spec fn operation_index(self, id: Seq<char>) -> int {
        choose|i: int| 0 <= i < self.operations.len() && #[trigger] self.operations[i].id == id
    }

    /// The operation with this identifier, if it is queued.
    pub open spec fn operation(self, id: Seq<char>) -> Option<OperationView> {
        if self.has_operation(id) {
            Some(self.operations[self.operation_index(id)])
        } else {
            None
        }
    }

    /// The store with one more document, entered by its creation stamp.
    pub open spec fn add_document(self, d: DocumentView) -> StoreView {
        StoreView {
            documents: self.documents.insert(
                slot(document_stamps(self.documents), d.created_at),
                d,
            ),
            ..self
        }
    }

    /// The store with one more queued operation, entered by its creation stamp.
    pub open spec fn add_operation(self, o: OperationView) -> StoreView {
        StoreView {
            operations: self.operations.insert(
                slot(operation_stamps(self.operations), o.created_at),
                o,
            ),
            ..self
        }
    }

    /// The store with the document of this identifier replaced by `d`;
    /// unchanged where no such document is kept.
    pub open spec fn put_document(self, id: Seq<char>, d: DocumentView) -> StoreView {
        if self.has_document(id) {
            StoreView { documents: self.documents.update(self.document_index(id), d), ..self }
        } else {
            self
        }
    }

    /// The store with the operation of this identifier replaced by `o`;
    /// unchanged where no such operation is queued.
    pub open spec fn put_operation(self, id: Seq<char>, o: OperationView) -> StoreView {
        if self.has_operation(id) {
            StoreView { operations: self.operations.update(self.operation_index(id), o), ..self }
        } else {
            self
        }
    }

    /// The store with another identity record.
    pub open spec fn with_identity(self, identity: IdentityView) -> StoreView {
        StoreView { identity, ..self }
    }
}

/// An operation after a manual retry was asked for: a failed one is pending
/// again, with its count at zero and its message gone; any other is as it
/// was.
pub open spec fn reset(o: OperationView) -> OperationView {
    if o.status == OperationStatus::Failed {
        OperationView { status: OperationStatus::Pending, retry_count: 0, error_msg: None, ..o }
    } else {
        o
    }
}

/// The test that a failed operation passes.
pub open spec fn is_failed() -> spec_fn(OperationView) -> bool {
    |o: OperationView| o.status == OperationStatus::Failed
}

/// The store after every failed operation was reset.
pub open spec fn store_after_retry(s: StoreView) -> StoreView {
    StoreView {
        operations: Seq::new(s.operations.len(), |i: int| reset(s.operations[i])),
        ..s
    }
}

/// Resetting the failed operations keeps the rules of the store.
pub proof fn lemma_retry_keeps_wf(s: StoreView)
    requires
        s.wf(),
    ensures
        store_after_retry(s).wf(),
{
    let out = store_after_retry(s);
    assert(operation_stamps(out.operations) =~= operation_stamps(s.operations));
}

/// In a well-formed store an identifier names one place only.
pub proof fn lemma_document_index(s: StoreView, i: int)
    requires
        s.wf(),
        0 <= i < s.documents.len(),
    ensures
        s.has_document(s.documents[i].id),
        s.document_index(s.documents[i].id) == i,
        s.document(s.documents[i].id) == Some(s.documents[i]),
{
    let id = s.documents[i].id;
    assert(s.has_document(id));
    let k = s.document_index(id);
    if k < i {
        assert(s.documents[k].id != s.documents[i].id);
    } else if i < k {
        assert(s.documents[i].id != s.documents[k].id);
    }
}

/// In a well-formed store an identifier names one place only.
pub proof fn lemma_operation_index(s: StoreView, i: int)
    requires
        s.wf(),
        0 <= i < s.operations.len(),
    ensures
        s.has_operation(s.operations[i].id),
        s.operation_index(s.operations[i].id) == i,
        s.operation(s.operations[i].id) == Some(s.operations[i]),
{
    let id = s.operations[i].id;
    assert(s.has_operation(id));
    let k = s.operation_index(id);
    if k < i {
        assert(s.operations[k].id != s.operations[i].id);
    } else if i < k {
        assert(s.operations[i].id != s.operations[k].id);
    }
}

/// A document with a new identifier keeps the store well formed.
pub proof fn lemma_add_document_wf(s: StoreView, d: DocumentView)
    requires
        s.wf(),
        !s.has_document(d.id),
    ensures
        s.add_document(d).wf(),
        s.add_document(d).has_document(d.id),
        s.add_document(d).document(d.id) == Some(d),
        s.add_document(d).documents.len() == s.documents.len() + 1,
        forall|id: Seq<char>|
            id != d.id ==> s.add_document(d).document(id) == #[trigger] s.document(id),
{
    let stamps = document_stamps(s.documents);
    let p = slot(stamps, d.created_at);
    lemma_slot(stamps, d.created_at);
    lemma_slot_keeps_ascending(stamps, d.created_at);
    let out = s.add_document(d);
    assert(document_stamps(out.documents) =~= stamps.insert(p, d.created_at));
    assert forall|i: int, j: int| 0 <= i < j < out.documents.len() implies out.documents[i].id
        != out.documents[j].id by {
        let a = if i < p { i } else { i - 1 };
        let b = if j < p { j } else { j - 1 };
        if i != p {
            assert(out.documents[i] == s.documents[a]);
        }
        if j != p {
            assert(out.documents[j] == s.documents[b]);
        }
    }
    assert(out.documents[p] == d);
    lemma_document_index(out, p);
    assert forall|id: Seq<char>| id != d.id implies out.document(id) == #[trigger] s.document(
        id,
    ) by {
        if s.has_document(id) {
            let k = s.document_index(id);
            let k2 = if k < p { k } else { k + 1 };
            assert(out.documents[k2] == s.documents[k]);
            lemma_document_index(out, k2);
        } else if out.has_document(id) {
            let k2 = out.document_index(id);
            let k = if k2 < p { k2 } else { k2 - 1 };
            assert(out.documents[k2] == s.documents[k]);
        }
    }
}

/// An operation with a new identifier keeps the store well formed.
pub proof fn lemma_add_operation_wf(s: StoreView, o: OperationView)
    requires
        s.wf(),
        !s.has_operation(o.id),
    ensures
        s.add_operation(o).wf(),
        s.add_operation(o).has_operation(o.id),
        s.add_operation(o).operation(o.id) == Some(o),
        s.add_operation(o).operations.len() == s.operations.len() + 1,
        forall|id: Seq<char>|
            id != o.id ==> s.add_operation(o).operation(id) == #[trigger] s.operation(id),
{
    let stamps = operation_stamps(s.operations);
    let p = slot(stamps, o.created_at);
    lemma_slot(stamps, o.created_at);
    lemma_slot_keeps_ascending(stamps, o.created_at);
    let out = s.add_operation(o);
    assert(operation_stamps(out.operations) =~= stamps.insert(p, o.created_at));
    assert forall|i: int, j: int| 0 <= i < j < out.operations.len() implies out.operations[i].id
        != out.operations[j].id by {
        let a = if i < p { i } else { i - 1 };
        let b = if j < p { j } else { j - 1 };
        if i != p {
            assert(out.operations[i] == s.operations[a]);
        }
        if j != p {
            assert(out.operations[j] == s.operations[b]);
        }
    }
    assert(out.operations[p] == o);
    lemma_operation_index(out, p);
    assert forall|id: Seq<char>| id != o.id implies out.operation(id) == #[trigger] s.operation(
        id,
    ) by {
        if s.has_operation(id) {
            let k = s.operation_index(id);
            let k2 = if k < p { k } else { k + 1 };
            assert(out.operations[k2] == s.operations[k]);
            lemma_operation_index(out, k2);
        } else if out.has_operation(id) {
            let k2 = out.operation_index(id);
            let k = if k2 < p { k2 } else { k2 - 1 };
            assert(out.operations[k2] == s.operations[k]);
        }
    }
}

/// Replacing a document by one with the same identifier and creation stamp
/// keeps the store well formed, and touches no other document.
pub proof fn lemma_put_document_wf(s: StoreView, id: Seq<char>, d: DocumentView)
    requires
        s.wf(),
        s.has_document(id),
        d.id == id,
        d.created_at == s.document(id)->0.created_at,
    ensures
        s.put_document(id, d).wf(),
        s.put_document(id, d).document(id) == Some(d),
        s.put_document(id, d).documents.len() == s.documents.len(),
        forall|other: Seq<char>|
            other != id ==> s.put_document(id, d).document(other) == #[trigger] s.document(other),
{
    let k = s.document_index(id);
    let out = s.put_document(id, d);
    assert(document_stamps(out.documents) =~= document_stamps(s.documents));
    assert forall|i: int, j: int| 0 <= i < j < out.documents.len() implies out.documents[i].id
        != out.documents[j].id by {
        assert(out.documents[i].id == s.documents[i].id);
        assert(out.documents[j].id == s.documents[j].id);
    }
    lemma_document_index(out, k);
    assert forall|other: Seq<char>| other != id implies out.document(other) == #[trigger] s.document(
        other,
    ) by {
        if s.has_document(other) {
            let m = s.document_index(other);
            assert(out.documents[m] == s.documents[m]);
            lemma_document_index(out, m);
        } else if out.has_document(other) {
            let m = out.document_index(other);
            assert(out.documents[m].id == s.documents[m].id);
        }
    }
}

/// Replacing an operation by one with the same identifier and creation stamp
/// keeps the store well formed, and touches no other operation.
pub proof fn lemma_put_operation_wf(s: StoreView, id: Seq<char>, o: OperationView)
    requires
        s.wf(),
        s.has_operation(id),
        o.id == id,
        o.created_at == s.operation(id)->0.created_at,
    ensures
        s.put_operation(id, o).wf(),
        s.put_operation(id, o).operation(id) == Some(o),
        s.put_operation(id, o).operations.len() == s.operations.len(),
        forall|other: Seq<char>|
            other != id ==> s.put_operation(id, o).operation(other) == #[trigger] s.operation(
                other,
            ),
{
    let k = s.operation_index(id);
    let out = s.put_operation(id, o);
    assert(operation_stamps(out.operations) =~= operation_stamps(s.operations));
    assert forall|i: int, j: int| 0 <= i < j < out.operations.len() implies out.operations[i].id
        != out.operations[j].id by {
        assert(out.operations[i].id == s.operations[i].id);
        assert(out.operations[j].id == s.operations[j].id);
    }
    lemma_operation_index(out, k);
    assert forall|other: Seq<char>| other != id implies out.operation(other)
        == #[trigger] s.operation(other) by {
        if s.has_operation(other) {
            let m = s.operation_index(other);
            assert(out.operations[m] == s.operations[m]);
            lemma_operation_index(out, m);
        } else if out.has_operation(other) {
            let m = out.operation_index(other);
            assert(out.operations[m].id == s.operations[m].id);
        }
    }
}

/// The views of a list of documents.
pub open spec fn document_views(v: Seq<Document>) -> Seq<DocumentView> {
    Seq::new(v.len(), |i: int| v[i]@)
}

/// The views of a list of operations.
pub open spec fn operation_views(v: Seq<OfflineOperation>) -> Seq<OperationView> {
    Seq::new(v.len(), |i: int| v[i]@)
}

/// The view of an optional document.
pub open spec fn opt_document(o: Option<Document>) -> Option<DocumentView> {
    match o {
        Some(d) => Some(d@),
        None => None,
    }
}

/// The view of an optional operation.
pub open spec fn opt_operation(o: Option<OfflineOperation>) -> Option<OperationView> {
    match o {
        Some(x) => Some(x@),
        None => None,
    }
}

/// The local store. Its records are reached through its methods, which keep
/// the rules of [`StoreView::wf`].
#[derive(Debug)]
pub struct LocalStore {
    documents: Vec<Document>,
    operations: Vec<OfflineOperation>,
    identity: LocalIdentity,
}

impl View for LocalStore {
    type V = StoreView;

    closed spec fn view(&self) -> StoreView {
        StoreView {
            documents: document_views(self.documents@),
            operations: operation_views(self.operations@),
            identity: self.identity@,
        }
    }
}

impl LocalStore {
    /// Whether the store keeps its rules.
    pub open spec fn wf(&self) -> bool {
        self@.wf()
    }

    /// A store of a first run: no document, no operation, a fresh identity.
    pub fn new() -> (s: LocalStore)
        ensures
            s@ == StoreView::empty(),
            s.wf(),
    {
        let s = LocalStore {
            documents: Vec::new(),
            operations: Vec::new(),
            identity: LocalIdentity::new(),
        };
        assert(s@.documents =~= Seq::empty());
        assert(s@.operations =~= Seq::empty());
        s
    }

    /// All documents, tombstones included, by creation stamp.
    pub fn documents(&self) -> (r: &Vec<Document>)
        ensures
            document_views(r@) == self@.documents,
    {
        &self.documents
    }

    /// All queued operations, by creation stamp.
    pub fn operations(&self) -> (r: &Vec<OfflineOperation>)
        ensures
            operation_views(r@) == self@.operations,
    {
        &self.operations
    }

    /// The identity record.
    pub fn identity(&self) -> (r: &LocalIdentity)
        ensures
            r@ == self@.identity,
    {
        &self.identity
    }

    /// Replaces the identity record.
    pub fn set_identity(&mut self, identity: LocalIdentity)
        ensures
            final(self)@ == old(self)@.with_identity(identity@),
    {
        self.identity = identity;
    }

    /// The place of the document with this identifier.
    pub fn find_document(&self, id: &str) -> (r: Option<usize>)
        requires
            self.wf(),
        ensures
            r is Some == self@.has_document(id@),
            r is Some ==> r->0 == self@.document_index(id@),
    {
        let wanted = id.to_owned();
        let mut i: usize = 0;
        while i < self.documents.len()
            invariant
                self.wf(),
                wanted@ == id@,
                i <= self.documents.len(),
                forall|j: int| 0 <= j < i ==> self@.documents[j].id != id@,
            decreases self.documents.len() - i,
        {
            if self.documents[i].id == wanted {
                proof {
                    assert(self@.documents[i as int].id == id@);
                    lemma_document_index(self@, i as int);
                }
                return Some(i);
            }
            i = i + 1;
        }
        None
    }

    /// The place of the operation with this identifier.
    pub fn find_operation(&self, id: &str) -> (r: Option<usize>)
        requires
            self.wf(),
        ensures
            r is Some == self@.has_operation(id@),
            r is Some ==> r->0 == self@.operation_index(id@),
    {
        let wanted = id.to_owned();
        let mut i: usize = 0;
        while i < self.operations.len()
            invariant
                self.wf(),
                wanted@ == id@,
                i <= self.operations.len(),
                forall|j: int| 0 <= j < i ==> self@.operations[j].id != id@,
            decreases self.operations.len() - i,
        {
            if self.operations[i].id == wanted {
                proof {
                    assert(self@.operations[i as int].id == id@);
                    lemma_operation_index(self@, i as int);
                }
                return Some(i);
            }
            i = i + 1;
        }
        None
    }

    /// A copy of the document with this identifier, tombstone or not.
    pub fn document(&self, id: &str) -> (r: Option<Document>)
        requires
            self.wf(),
        ensures
            opt_document(r) == self@.document(id@),
    {
        match self.find_document(id) {
            Some(i) => Some(self.documents[i].clone()),
            None => None,
        }
    }

    /// A copy of the queued operation with this identifier.
    pub fn operation(&self, id: &str) -> (r: Option<OfflineOperation>)
        requires
            self.wf(),
        ensures
            opt_operation(r) == self@.operation(id@),
    {
        match self.find_operation(id) {
            Some(i) => Some(self.operations[i].clone()),
            None => None,
        }
    }

    /// Keeps a new document, entered by its creation stamp. Refused, with
    /// the store unchanged, when its identifier is already kept.
    pub fn insert_document(&mut self, doc: Document) -> (r: Result<(), StoreError>)
        requires
            old(self).wf(),
        ensures
            final(self).wf(),
            r is Ok == !old(self)@.has_document(doc@.id),
            r is Ok ==> final(self)@ == old(self)@.add_document(doc@),
            r is Err ==> final(self)@ == old(self)@ && r->Err_0 == StoreError::DuplicateId,
    {
        if self.find_document(doc.id.as_str()).is_some() {
            return Err(StoreError::DuplicateId);
        }
        let ghost stamps = document_stamps(self@.documents);
        let mut p: usize = self.documents.len();
        assert(stamps.take(p as int) =~= stamps);
        while p > 0 && !text_at_or_before(
            self.documents[p - 1].created_at.as_str(),
            doc.created_at.as_str(),
        )
            invariant
                p <= self.documents.len(),
                stamps == document_stamps(self@.documents),
                slot(stamps, doc@.created_at) == slot(stamps.take(p as int), doc@.created_at),
            decreases p,
        {
            assert(stamps.take(p as int).drop_last() =~= stamps.take(p - 1));
            p = p - 1;
        }
        proof {
            lemma_add_document_wf(self@, doc@);
        }
        self.documents.insert(p, doc);
        assert(final(self)@.documents =~= old(self)@.add_document(doc@).documents);
        Ok(())
    }

    /// Queues a new operation, entered by its creation stamp. Refused, with
    /// the store unchanged, when its identifier is already queued.
    pub fn insert_operation(&mut self, op: OfflineOperation) -> (r: Result<(), StoreError>)
        requires
            old(self).wf(),
        ensures
            final(self).wf(),
            r is Ok == !old(self)@.has_operation(op@.id),
            r is Ok ==> final(self)@ == old(self)@.add_operation(op@),
            r is Err ==> final(self)@ == old(self)@ && r->Err_0 == StoreError::DuplicateId,
    {
        if self.find_operation(op.id.as_str()).is_some() {
            return Err(StoreError::DuplicateId);
        }
        let ghost stamps = operation_stamps(self@.operations);
        let mut p: usize = self.operations.len();
        assert(stamps.take(p as int) =~= stamps);
        while p > 0 && !text_at_or_before(
            self.operations[p - 1].created_at.as_str(),
            op.created_at.as_str(),
        )
            invariant
                p <= self.operations.len(),
                stamps == operation_stamps(self@.operations),
                slot(stamps, op@.created_at) == slot(stamps.take(p as int), op@.created_at),
            decreases p,
        {
            assert(stamps.take(p as int).drop_last() =~= stamps.take(p - 1));
            p = p - 1;
        }
        proof {
            lemma_add_operation_wf(self@, op@);
        }
        self.operations.insert(p, op);
        assert(final(self)@.operations =~= old(self)@.add_operation(op@).operations);
        Ok(())
    }

    /// Puts `doc` in the place of the document that has its identifier.
    pub fn replace_document(&mut self, doc: Document) -> (replaced: bool)
        requires
            old(self).wf(),
            old(self)@.has_document(doc@.id) ==> doc@.created_at == old(self)@.document(
                doc@.id,
            )->0.created_at,
        ensures
            final(self).wf(),
            replaced == old(self)@.has_document(doc@.id),
            final(self)@ == old(self)@.put_document(doc@.id, doc@),
    {
        match self.find_document(doc.id.as_str()) {
            Some(i) => {
                proof {
                    lemma_put_document_wf(self@, doc@.id, doc@);
                }
                self.documents[i] = doc;
                assert(final(self)@.documents =~= old(self)@.put_document(doc@.id, doc@).documents);
                true
            },
            None => false,
        }
    }

    /// Puts `op` in the place of the queued operation that has its identifier.
    pub fn replace_operation(&mut self, op: OfflineOperation) -> (replaced: bool)
        requires
            old(self).wf(),
            old(self)@.has_operation(op@.id) ==> op@.created_at == old(self)@.operation(
                op@.id,
            )->0.created_at,
        ensures
            final(self).wf(),
            replaced == old(self)@.has_operation(op@.id),
            final(self)@ == old(self)@.put_operation(op@.id, op@),
    {
        match self.find_operation(op.id.as_str()) {
            Some(i) => {
                proof {
                    lemma_put_operation_wf(self@, op@.id, op@);
                }
                self.operations[i] = op;
                assert(final(self)@.operations =~= old(self)@.put_operation(op@.id, op@).operations);
                true
            },
            None => false,
        }
    }

    /// Makes every failed operation pending again, with its retry count at
    /// zero and its message gone, and says how many there were.
    pub fn reset_failed(&mut self) -> (count: u64)
        requires
            old(self).wf(),
        ensures
            final(self).wf(),
            final(self)@ == store_after_retry(old(self)@),
            count == old(self)@.operations.filter(is_failed()).len(),
    {
        let ghost before = self@;
        let mut count: u64 = 0;
        let mut i: usize = 0;
        proof {
            lemma_retry_keeps_wf(before);
            if self.operations.len() > 0 {
                lemma_filter_next(before.operations, is_failed(), 0);
            } else {
                reveal(Seq::filter);
            }
        }
        while i < self.operations.len()
            invariant
                i <= self.operations.len(),
                self.operations.len() == before.operations.len(),
                self@.documents == before.documents,
                self@.identity == before.identity,
                forall|j: int| 0 <= j < i ==> self@.operations[j] == reset(before.operations[j]),
                forall|j: int|
                    i <= j < self.operations.len() ==> self@.operations[j] == before.operations[j],
                count == before.operations.take(i as int).filter(is_failed()).len(),
                count <= i,
            decreases self.operations.len() - i,
        {
            proof {
                lemma_filter_next(before.operations, is_failed(), i as int);
            }
            let failed = match self.operations[i].status {
                OperationStatus::Failed => true,
                _ => false,
            };
            let ghost mid = self@;
            assert(mid.operations[i as int] == before.operations[i as int]);
            if failed {
                let mut op = self.operations[i].clone();
                op.status = OperationStatus::Pending;
                op.retry_count = 0;
                op.error_msg = None;
                assert(op@ == reset(before.operations[i as int]));
                self.operations[i] = op;
                count = count + 1;
                assert forall|j: int| 0 <= j < self.operations.len() && j != i implies #[trigger]
                    self@.operations[j] == mid.operations[j] by {}
            }
            assert(self@.operations[i as int] == reset(before.operations[i as int]));
            i = i + 1;
        }
        assert(before.operations.take(i as int) =~= before.operations);
        assert(self@.operations =~= store_after_retry(before).operations);
        count
    }
}

} // verus!
