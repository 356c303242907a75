//! Rows as the database hands them out, and how a document is read from
//! one.

use crate::json::{
    canonical, elements, json_canonical, json_elements, json_of_texts, json_text, spell_texts,
    text as json_string,
};
use crate::models::{
    Document, DocumentStatus, DocumentView, IdentityView, LocalIdentity, OfflineOperation,
    OperationStatus, OperationView, document_status_of, document_status_text, fresh_identity,
    operation_status_of, operation_status_text,
};
use crate::strings::{clone_opt, opt_text, texts};
use vstd::prelude::*;

verus! {

/// One value of a row.
#[derive(Clone, Debug, PartialEq, Eq)]
pub enum Value {
    Null,
    Integer(i64),
    /// A floating-point value, kept as its 64 bits.
    Real { bits: u64 },
    Text(String),
    Blob(Vec<u8>),
}

/// One row of a result, column by column.
#[derive(Clone, Debug, PartialEq, Eq)]
pub struct Row {
    pub values: Vec<Value>,
}

/// The text in column `i`; `None` where the row has no such column or the
/// column holds no text.
pub open spec fn text_at(values: Seq<Value>, i: int) -> Option<Seq<char>> {
    if 0 <= i < values.len() {
        match values[i] {
            Value::Text(s) => Some(s@),
            _ => None,
        }
    } else {
        None
    }
}

/// The integer in column `i`; `None` where the row has no such column or
/// the column holds no integer.
pub open spec fn integer_at(values: Seq<Value>, i: int) -> Option<i64> {
    if 0 <= i < values.len() {
        match values[i] {
            Value::Integer(n) => Some(n),
            _ => None,
        }
    } else {
        None
    }
}

/// Reads the text in column `i` of a row.
pub fn text(row: &Row, i: i32) -> (r: Option<String>)
    ensures
        opt_text(r) == text_at(row.values@, i as int),
{
    if i < 0 {
        return None;
    }
    let k = i as usize;
    if k >= row.values.len() {
        return None;
    }
    match &row.values[k] {
        Value::Text(s) => Some(s.clone()),
        _ => None,
    }
}

/// Reads the integer in column `i` of a row.
pub fn integer(row: &Row, i: i32) -> (r: Option<i64>)
    ensures
        r == integer_at(row.values@, i as int),
{
    if i < 0 {
        return None;
    }
    let k = i as usize;
    if k >= row.values.len() {
        return None;
    }
    match &row.values[k] {
        Value::Integer(n) => Some(*n),
        _ => None,
    }
}

/// Why a row is no document.
#[derive(Clone, Copy, Debug, PartialEq, Eq, Structural)]
pub enum RowError {
    /// The status column holds a text that names no status.
    UnknownStatus,
}

/// The texts that the JSON array spelled by `doc` holds; none where `doc`
/// is not an array of strings.
pub open spec fn tags_in(doc: Seq<char>) -> Seq<Seq<char>> {
    match json_elements(doc) {
        Some(items) => if forall|i: int| 0 <= i < items.len() ==> json_text(
            #[trigger] items[i],
        ) is Some {
            Seq::new(items.len(), |i: int| json_text(items[i])->0)
        } else {
            Seq::empty()
        },
        None => Seq::empty(),
    }
}

/// Reads a list of tags from its JSON text.
pub fn read_tags(doc: &str) -> (r: Vec<String>)
    ensures
        texts(r@) == tags_in(doc@),
{
    let mut out: Vec<String> = Vec::new();
    match elements(doc) {
        None => {
            assert(texts(out@) =~= Seq::empty());
            out
        },
        Some(items) => {
            let ghost all = texts(items@);
            let mut i: usize = 0;
            while i < items.len()
                invariant
                    i <= items.len(),
                    all == texts(items@),
                    json_elements(doc@) == Some(all),
                    out.len() == i,
                    forall|j: int| 0 <= j < i ==> json_text(#[trigger] all[j]) == Some(out@[j]@),
                decreases items.len() - i,
            {
                match json_string(items[i].as_str()) {
                    Some(t) => {
                        out.push(t);
                    },
                    None => {
                        assert(json_text(all[i as int]) is None);
                        let none: Vec<String> = Vec::new();
                        assert(texts(none@) =~= Seq::empty());
                        return none;
                    },
                }
                i = i + 1;
            }
            assert(texts(out@) =~= tags_in(doc@));
            out
        },
    }
}

/// The value of a column that may be absent.
pub open spec fn or_zero(o: Option<i64>) -> i64 {
    match o {
        Some(n) => n,
        None => 0,
    }
}

/// The status that the status column stands for: `local` where the column
/// is empty, and nothing where its text names no status.
pub open spec fn status_in(column: Option<Seq<char>>) -> Option<DocumentStatus> {
    match column {
        Some(t) => document_status_of(t),
        None => Some(DocumentStatus::Local),
    }
}

/// The metadata that the metadata column stands for: its JSON in compact
/// spelling, or the empty map where the column is empty or holds no JSON.
pub open spec fn metadata_in(column: Option<Seq<char>>) -> Seq<char> {
    match column {
        Some(t) => match json_canonical(t) {
            Some(c) => c,
            None => "{}"@,
        },
        None => "{}"@,
    }
}

/// The text of a column, or the empty text where the column holds none.
pub open spec fn or_empty(o: Option<Seq<char>>) -> Seq<char> {
    match o {
        Some(t) => t,
        None => Seq::empty(),
    }
}

/// The document that a row of the documents table stands for, given its
/// status. The columns come in the order of the table.
pub open spec fn document_in(v: Seq<Value>, status: DocumentStatus) -> DocumentView {
    DocumentView {
        id: or_empty(text_at(v, 0)),
        user_id: or_empty(text_at(v, 1)),
        tenant_id: or_empty(text_at(v, 2)),
        filename: or_empty(text_at(v, 3)),
        content_type: text_at(v, 4),
        file_size: integer_at(v, 5),
        content_hash: text_at(v, 6),
        local_path: text_at(v, 7),
        object_key: text_at(v, 8),
        text_content: text_at(v, 9),
        metadata: metadata_in(text_at(v, 10)),
        tags: match text_at(v, 11) {
            Some(t) => tags_in(t),
            None => Seq::empty(),
        },
        status,
        local_version: or_zero(integer_at(v, 13)),
        server_version: or_zero(integer_at(v, 14)),
        is_synced: or_zero(integer_at(v, 15)) != 0,
        needs_upload: or_zero(integer_at(v, 16)) != 0,
        needs_download: or_zero(integer_at(v, 17)) != 0,
        sync_error: text_at(v, 18),
        last_synced_at: text_at(v, 19),
        created_at: or_empty(text_at(v, 20)),
        updated_at: or_empty(text_at(v, 21)),
    }
}

fn text_or_empty(row: &Row, i: i32) -> (r: String)
    ensures
        r@ == or_empty(text_at(row.values@, i as int)),
{
    match text(row, i) {
        Some(t) => t,
        None => String::new(),
    }
}

fn flag(row: &Row, i: i32) -> (r: bool)
    ensures
        r == (or_zero(integer_at(row.values@, i as int)) != 0),
{
    match integer(row, i) {
        Some(n) => n != 0,
        None => false,
    }
}

fn number(row: &Row, i: i32) -> (r: i64)
    ensures
        r == or_zero(integer_at(row.values@, i as int)),
{
    match integer(row, i) {
        Some(n) => n,
        None => 0,
    }
}

/// Reads a document from a row of the documents table. Columns that are
/// missing or of another type give the default of their field. The row is
/// refused only when its status names no status.
pub fn row_to_document(row: &Row) -> (r: Result<Document, RowError>)
    ensures
        r is Ok == status_in(text_at(row.values@, 12)) is Some,
        r is Ok ==> r->Ok_0@ == document_in(
            row.values@,
            status_in(text_at(row.values@, 12))->0,
        ),
        r is Err ==> r->Err_0 == RowError::UnknownStatus,
{
    let status = match text(row, 12) {
        Some(t) => match DocumentStatus::parse(t.as_str()) {
            Some(s) => s,
            None => {
                return Err(RowError::UnknownStatus);
            },
        },
        None => DocumentStatus::Local,
    };
    let metadata = match text(row, 10) {
        Some(t) => match canonical(t.as_str()) {
            Some(c) => c,
            None => "{}".to_string(),
        },
        None => "{}".to_string(),
    };
    let tags = match text(row, 11) {
        Some(t) => read_tags(t.as_str()),
        None => {
            let none: Vec<String> = Vec::new();
            assert(texts(none@) =~= Seq::empty());
            none
        },
    };
    Ok(
        Document {
            id: text_or_empty(row, 0),
            user_id: text_or_empty(row, 1),
            tenant_id: text_or_empty(row, 2),
            filename: text_or_empty(row, 3),
            content_type: text(row, 4),
            file_size: integer(row, 5),
            content_hash: text(row, 6),
            local_path: text(row, 7),
            object_key: text(row, 8),
            text_content: text(row, 9),
            metadata,
            tags,
            status,
            local_version: number(row, 13),
            server_version: number(row, 14),
            is_synced: flag(row, 15),
            needs_upload: flag(row, 16),
            needs_download: flag(row, 17),
            sync_error: text(row, 18),
            last_synced_at: text(row, 19),
            created_at: text_or_empty(row, 20),
            updated_at: text_or_empty(row, 21),
        },
    )
}

/// Whether a value of a row is the text `t`.
pub open spec fn holds_text(v: Value, t: Seq<char>) -> bool {
    v matches Value::Text(s) && s@ == t
}

/// Whether a value of a row is the text `o`, or empty where `o` is absent.
pub open spec fn holds_optional(v: Value, o: Option<Seq<char>>) -> bool {
    match o {
        Some(t) => holds_text(v, t),
        None => v is Null,
    }
}

/// Whether a value of a row is the integer `n`.
pub open spec fn holds_integer(v: Value, n: int) -> bool {
    v matches Value::Integer(k) && k == n
}

/// Whether a value of a row is the flag `b`, as one or zero.
pub open spec fn holds_flag(v: Value, b: bool) -> bool {
    holds_integer(
        v,
        if b {
            1
        } else {
            0
        },
    )
}

fn some_text(t: &String) -> (v: Value)
    ensures
        holds_text(v, t@),
{
    Value::Text(t.clone())
}

fn optional_text(o: &Option<String>) -> (v: Value)
    ensures
        holds_optional(v, opt_text(*o)),
{
    match o {
        Some(t) => Value::Text(t.clone()),
        None => Value::Null,
    }
}

fn some_flag(b: bool) -> (v: Value)
    ensures
        holds_flag(v, b),
{
    Value::Integer(
        if b {
            1
        } else {
            0
        },
    )
}

/// The text under which a list of tags is stored: a JSON array of strings,
/// or the empty array where the list cannot be spelled.
pub open spec fn stored_tags(tags: Seq<Seq<char>>) -> Seq<char> {
    match json_of_texts(tags) {
        Some(t) => t,
        None => "[]"@,
    }
}

/// Whether `v` is the row of the documents table that stands for `d`: the
/// fields in the order of the table, tags as a JSON array, flags as one or
/// zero, absent fields empty.
pub open spec fn is_document_row(v: Seq<Value>, d: DocumentView) -> bool {
    &&& v.len() == 22
    &&& holds_text(v[0], d.id)
    &&& holds_text(v[1], d.user_id)
    &&& holds_text(v[2], d.tenant_id)
    &&& holds_text(v[3], d.filename)
    &&& holds_optional(v[4], d.content_type)
    &&& match d.file_size {
        Some(n) => holds_integer(v[5], n as int),
        None => v[5] is Null,
    }
    &&& holds_optional(v[6], d.content_hash)
    &&& holds_optional(v[7], d.local_path)
    &&& holds_optional(v[8], d.object_key)
    &&& holds_optional(v[9], d.text_content)
    &&& holds_text(v[10], d.metadata)
    &&& holds_text(v[11], stored_tags(d.tags))
    &&& holds_text(v[12], document_status_text(d.status))
    &&& holds_integer(v[13], d.local_version as int)
    &&& holds_integer(v[14], d.server_version as int)
    &&& holds_flag(v[15], d.is_synced)
    &&& holds_flag(v[16], d.needs_upload)
    &&& holds_flag(v[17], d.needs_download)
    &&& holds_optional(v[18], d.sync_error)
    &&& holds_optional(v[19], d.last_synced_at)
    &&& holds_text(v[20], d.created_at)
    &&& holds_text(v[21], d.updated_at)
}

/// Writes a document as a row of the documents table.
pub fn document_to_row(doc: &Document) -> (r: Row)
    ensures
        is_document_row(r.values@, doc@),
{
    let mut values: Vec<Value> = Vec::new();
    values.push(some_text(&doc.id));
    values.push(some_text(&doc.user_id));
    values.push(some_text(&doc.tenant_id));
    values.push(some_text(&doc.filename));
    values.push(optional_text(&doc.content_type));
    values.push(
        match doc.file_size {
            Some(n) => Value::Integer(n),
            None => Value::Null,
        },
    );
    values.push(optional_text(&doc.content_hash));
    values.push(optional_text(&doc.local_path));
    values.push(optional_text(&doc.object_key));
    values.push(optional_text(&doc.text_content));
    values.push(some_text(&doc.metadata));
    values.push(
        Value::Text(
            match spell_texts(&doc.tags) {
                Some(t) => t,
                None => "[]".to_string(),
            },
        ),
    );
    values.push(Value::Text(doc.status.as_str().to_owned()));
    values.push(Value::Integer(doc.local_version));
    values.push(Value::Integer(doc.server_version));
    values.push(some_flag(doc.is_synced));
    values.push(some_flag(doc.needs_upload));
    values.push(some_flag(doc.needs_download));
    values.push(optional_text(&doc.sync_error));
    values.push(optional_text(&doc.last_synced_at));
    values.push(some_text(&doc.created_at));
    values.push(some_text(&doc.updated_at));
    Row { values }
}

/// A retry count read from a row: the integer, held within what the counter
/// can keep.
pub open spec fn count_in(n: i64) -> i32 {
    if n > i32::MAX {
        i32::MAX
    } else if n < i32::MIN {
        i32::MIN
    } else {
        n as i32
    }
}

/// The status that the status column of an operation stands for: `pending`
/// where the column is empty, and nothing where its text names no status.
pub open spec fn operation_status_in(column: Option<Seq<char>>) -> Option<OperationStatus> {
    match column {
        Some(t) => operation_status_of(t),
        None => Some(OperationStatus::Pending),
    }
}

/// The operation that a row of the operations table stands for, given its
/// status. The columns are: identifier, owner, type, payload, status, retry
/// count, error message, creation stamp.
pub open spec fn operation_in(v: Seq<Value>, status: OperationStatus) -> OperationView {
    OperationView {
        id: or_empty(text_at(v, 0)),
        user_id: or_empty(text_at(v, 1)),
        op_type: or_empty(text_at(v, 2)),
        payload: match text_at(v, 3) {
            Some(t) => t,
            None => "{}"@,
        },
        status,
        retry_count: count_in(or_zero(integer_at(v, 5))),
        error_msg: text_at(v, 6),
        created_at: or_empty(text_at(v, 7)),
    }
}

/// Reads a queued operation from a row of the operations table. Columns
/// that are missing or of another type give the default of their field. The
/// row is refused only when its status names no status.
pub fn row_to_operation(row: &Row) -> (r: Result<OfflineOperation, RowError>)
    ensures
        r is Ok == operation_status_in(text_at(row.values@, 4)) is Some,
        r is Ok ==> r->Ok_0@ == operation_in(
            row.values@,
            operation_status_in(text_at(row.values@, 4))->0,
        ),
        r is Err ==> r->Err_0 == RowError::UnknownStatus,
{
    let status = match text(row, 4) {
        Some(t) => match OperationStatus::parse(t.as_str()) {
            Some(s) => s,
            None => {
                return Err(RowError::UnknownStatus);
            },
        },
        None => OperationStatus::Pending,
    };
    let count = number(row, 5);
    let retry_count: i32 = if count > 0x7fff_ffffi64 {
        i32::MAX
    } else if count < -0x8000_0000i64 {
        i32::MIN
    } else {
        count as i32
    };
    Ok(
        OfflineOperation {
            id: text_or_empty(row, 0),
            user_id: text_or_empty(row, 1),
            op_type: text_or_empty(row, 2),
            payload: match text(row, 3) {
                Some(t) => t,
                None => "{}".to_string(),
            },
            status,
            retry_count,
            error_msg: text(row, 6),
            created_at: text_or_empty(row, 7),
        },
    )
}

/// Whether `v` is the row of the operations table that stands for `o`.
pub open spec fn is_operation_row(v: Seq<Value>, o: OperationView) -> bool {
    &&& v.len() == 8
    &&& holds_text(v[0], o.id)
    &&& holds_text(v[1], o.user_id)
    &&& holds_text(v[2], o.op_type)
    &&& holds_text(v[3], o.payload)
    &&& holds_text(v[4], operation_status_text(o.status))
    &&& holds_integer(v[5], o.retry_count as int)
    &&& holds_optional(v[6], o.error_msg)
    &&& holds_text(v[7], o.created_at)
}

/// Writes a queued operation as a row of the operations table.
pub fn operation_to_row(op: &OfflineOperation) -> (r: Row)
    ensures
        is_operation_row(r.values@, op@),
{
    let mut values: Vec<Value> = Vec::new();
    values.push(some_text(&op.id));
    values.push(some_text(&op.user_id));
    values.push(some_text(&op.op_type));
    values.push(some_text(&op.payload));
    values.push(Value::Text(op.status.as_str().to_owned()));
    values.push(Value::Integer(op.retry_count as i64));
    values.push(optional_text(&op.error_msg));
    values.push(some_text(&op.created_at));
    Row { values }
}

/// An operation that is written to a row and read back is the operation
/// that was written.
pub proof fn law_operation_survives_its_row(v: Seq<Value>, o: OperationView)
    requires
        is_operation_row(v, o),
    ensures
        operation_status_in(text_at(v, 4)) == Some(o.status),
        operation_in(v, o.status) == o,
{
    reveal_strlit("pending");
    reveal_strlit("failed");
    reveal_strlit("done");
    assert("pending"@[0] == 'p' && "failed"@[0] == 'f' && "done"@[0] == 'd');
    assert(operation_status_of(operation_status_text(o.status)) == Some(o.status));
}

/// The identity that a row of the identity table stands for. The columns
/// are: user, tenant, user name, e-mail, identifier, public key, account,
/// server, checkpoint. A missing tenant or server gives that of a first
/// run.
pub open spec fn identity_in(v: Seq<Value>) -> IdentityView {
    IdentityView {
        user_id: text_at(v, 0),
        tenant_id: match text_at(v, 1) {
            Some(t) => t,
            None => fresh_identity().tenant_id,
        },
        username: text_at(v, 2),
        email: text_at(v, 3),
        did: text_at(v, 4),
        did_public_key: text_at(v, 5),
        pleroma_account_id: text_at(v, 6),
        server_url: match text_at(v, 7) {
            Some(t) => t,
            None => fresh_identity().server_url,
        },
        last_sync_at: text_at(v, 8),
    }
}

/// Reads the identity record from its row.
pub fn row_to_identity(row: &Row) -> (r: LocalIdentity)
    ensures
        r@ == identity_in(row.values@),
{
    let fresh = LocalIdentity::new();
    LocalIdentity {
        user_id: text(row, 0),
        tenant_id: match text(row, 1) {
            Some(t) => t,
            None => fresh.tenant_id,
        },
        username: text(row, 2),
        email: text(row, 3),
        did: text(row, 4),
        did_public_key: text(row, 5),
        pleroma_account_id: text(row, 6),
        server_url: match text(row, 7) {
            Some(t) => t,
            None => fresh.server_url,
        },
        last_sync_at: text(row, 8),
    }
}

/// Whether `v` is the row of the identity table that stands for `i`.
pub open spec fn is_identity_row(v: Seq<Value>, i: IdentityView) -> bool {
    &&& v.len() == 9
    &&& holds_optional(v[0], i.user_id)
    &&& holds_text(v[1], i.tenant_id)
    &&& holds_optional(v[2], i.username)
    &&& holds_optional(v[3], i.email)
    &&& holds_optional(v[4], i.did)
    &&& holds_optional(v[5], i.did_public_key)
    &&& holds_optional(v[6], i.pleroma_account_id)
    &&& holds_text(v[7], i.server_url)
    &&& holds_optional(v[8], i.last_sync_at)
}

/// Writes the identity record as its row.
pub fn identity_to_row(identity: &LocalIdentity) -> (r: Row)
    ensures
        is_identity_row(r.values@, identity@),
{
    let mut values: Vec<Value> = Vec::new();
    values.push(optional_text(&identity.user_id));
    values.push(some_text(&identity.tenant_id));
    values.push(optional_text(&identity.username));
    values.push(optional_text(&identity.email));
    values.push(optional_text(&identity.did));
    values.push(optional_text(&identity.did_public_key));
    values.push(optional_text(&identity.pleroma_account_id));
    values.push(some_text(&identity.server_url));
    values.push(optional_text(&identity.last_sync_at));
    Row { values }
}

/// An identity that is written to a row and read back is the identity that
/// was written.
pub proof fn law_identity_survives_its_row(v: Seq<Value>, i: IdentityView)
    requires
        is_identity_row(v, i),
    ensures
        identity_in(v) == i,
{
}

/// A document that is written to a row and read back keeps every field
/// that is stored as it is; its metadata and its tags come back as the JSON
/// reader reads what was written.
pub proof fn law_document_survives_its_row(v: Seq<Value>, d: DocumentView)
    requires
        is_document_row(v, d),
    ensures
        status_in(text_at(v, 12)) == Some(d.status),
        document_in(v, d.status) == (DocumentView {
            metadata: metadata_in(Some(d.metadata)),
            tags: tags_in(stored_tags(d.tags)),
            ..d
        }),
{
    reveal_strlit("local");
    reveal_strlit("synced");
    reveal_strlit("deleted");
    assert("local"@[0] == 'l' && "synced"@[0] == 's' && "deleted"@[0] == 'd');
    assert(document_status_of(document_status_text(d.status)) == Some(d.status));
}

} // verus!
