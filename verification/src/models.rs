//! The records kept by the local store, each with the mathematical view that
//! the contracts of the crate speak of.

use crate::strings::{clone_opt, clone_texts, opt_text, text_eq, texts};
use vstd::prelude::*;

verus! {

/// Where a document stands in its life. `Deleted` is a tombstone: a record
/// that has reached it never leaves it.
#[derive(Clone, Copy, Debug, PartialEq, Eq, Structural)]
pub enum DocumentStatus {
    Local,
    Synced,
    Deleted,
}

/// Where a queued operation stands. `Done` is final.
#[derive(Clone, Copy, Debug, PartialEq, Eq, Structural)]
pub enum OperationStatus {
    Pending,
    Failed,
    Done,
}

/// The stored spelling of a document status.
pub open spec fn document_status_text(s: DocumentStatus) -> Seq<char> {
    match s {
        DocumentStatus::Local => "local"@,
        DocumentStatus::Synced => "synced"@,
        DocumentStatus::Deleted => "deleted"@,
    }
}

/// The status that a stored spelling stands for, if any.
pub open spec fn document_status_of(t: Seq<char>) -> Option<DocumentStatus> {
    if t == "local"@ {
        Some(DocumentStatus::Local)
    } else if t == "synced"@ {
        Some(DocumentStatus::Synced)
    } else if t == "deleted"@ {
        Some(DocumentStatus::Deleted)
    } else {
        None
    }
}

/// The stored spelling of an operation status.
pub open spec fn operation_status_text(s: OperationStatus) -> Seq<char> {
    match s {
        OperationStatus::Pending => "pending"@,
        OperationStatus::Failed => "failed"@,
        OperationStatus::Done => "done"@,
    }
}

/// The status that a stored spelling stands for, if any.
pub open spec fn operation_status_of(t: Seq<char>) -> Option<OperationStatus> {
    if t == "pending"@ {
        Some(OperationStatus::Pending)
    } else if t == "failed"@ {
        Some(OperationStatus::Failed)
    } else if t == "done"@ {
        Some(OperationStatus::Done)
    } else {
        None
    }
}

impl DocumentStatus {
    /// The spelling under which the status is stored and sent.
    pub fn as_str(&self) -> (r: &'static str)
        ensures
            r@ == document_status_text(*self),
    {
        match self {
            DocumentStatus::Local => "local",
            DocumentStatus::Synced => "synced",
            DocumentStatus::Deleted => "deleted",
        }
    }

    /// Reads a stored spelling; `None` for any other text.
    pub fn parse(t: &str) -> (r: Option<DocumentStatus>)
        ensures
            r == document_status_of(t@),
    {
        if text_eq(t, "local") {
            Some(DocumentStatus::Local)
        } else if text_eq(t, "synced") {
            Some(DocumentStatus::Synced)
        } else if text_eq(t, "deleted") {
            Some(DocumentStatus::Deleted)
        } else {
            None
        }
    }
}

impl OperationStatus {
    /// The spelling under which the status is stored and sent.
    pub fn as_str(&self) -> (r: &'static str)
        ensures
            r@ == operation_status_text(*self),
    {
        match self {
            OperationStatus::Pending => "pending",
            OperationStatus::Failed => "failed",
            OperationStatus::Done => "done",
        }
    }

    /// Reads a stored spelling; `None` for any other text.
    pub fn parse(t: &str) -> (r: Option<OperationStatus>)
        ensures
            r == operation_status_of(t@),
    {
        if text_eq(t, "pending") {
            Some(OperationStatus::Pending)
        } else if text_eq(t, "failed") {
            Some(OperationStatus::Failed)
        } else if text_eq(t, "done") {
            Some(OperationStatus::Done)
        } else {
            None
        }
    }
}

/// A user-owned file record.
#[derive(Debug, PartialEq, Eq)]
pub struct Document {
    pub id: String,
    pub user_id: String,
    pub tenant_id: String,
    pub filename: String,
    pub content_type: Option<String>,
    pub file_size: Option<i64>,
    pub content_hash: Option<String>,
    pub local_path: Option<String>,
    pub object_key: Option<String>,
    pub text_content: Option<String>,
    /// The metadata map, as JSON text.
    pub metadata: String,
    pub tags: Vec<String>,
    pub status: DocumentStatus,
    pub local_version: i64,
    pub server_version: i64,
    pub is_synced: bool,
    pub needs_upload: bool,
    pub needs_download: bool,
    pub sync_error: Option<String>,
    pub last_synced_at: Option<String>,
    pub created_at: String,
    pub updated_at: String,
}

/// What a [`Document`] holds, as plain mathematical values.
pub ghost struct DocumentView {
    pub id: Seq<char>,
    pub user_id: Seq<char>,
    pub tenant_id: Seq<char>,
    pub filename: Seq<char>,
    pub content_type: Option<Seq<char>>,
    pub file_size: Option<i64>,
    pub content_hash: Option<Seq<char>>,
    pub local_path: Option<Seq<char>>,
    pub object_key: Option<Seq<char>>,
    pub text_content: Option<Seq<char>>,
    pub metadata: Seq<char>,
    pub tags: Seq<Seq<char>>,
    pub status: DocumentStatus,
    pub local_version: i64,
    pub server_version: i64,
    pub is_synced: bool,
    pub needs_upload: bool,
    pub needs_download: bool,
    pub sync_error: Option<Seq<char>>,
    pub last_synced_at: Option<Seq<char>>,
    pub created_at: Seq<char>,
    pub updated_at: Seq<char>,
}

impl View for Document {
    type V = DocumentView;

    open spec fn view(&self) -> DocumentView {
        DocumentView {
            id: self.id@,
            user_id: self.user_id@,
            tenant_id: self.tenant_id@,
            filename: self.filename@,
            content_type: opt_text(self.content_type),
            file_size: self.file_size,
            content_hash: opt_text(self.content_hash),
            local_path: opt_text(self.local_path),
            object_key: opt_text(self.object_key),
            text_content: opt_text(self.text_content),
            metadata: self.metadata@,
            tags: texts(self.tags@),
            status: self.status,
            local_version: self.local_version,
            server_version: self.server_version,
            is_synced: self.is_synced,
            needs_upload: self.needs_upload,
            needs_download: self.needs_download,
            sync_error: opt_text(self.sync_error),
            last_synced_at: opt_text(self.last_synced_at),
            created_at: self.created_at@,
            updated_at: self.updated_at@,
        }
    }
}

impl Clone for Document {
    fn clone(&self) -> (r: Self)
        ensures
            r@ == self@,
    {
        Document {
            id: self.id.clone(),
            user_id: self.user_id.clone(),
            tenant_id: self.tenant_id.clone(),
            filename: self.filename.clone(),
            content_type: clone_opt(&self.content_type),
            file_size: self.file_size,
            content_hash: clone_opt(&self.content_hash),
            local_path: clone_opt(&self.local_path),
            object_key: clone_opt(&self.object_key),
            text_content: clone_opt(&self.text_content),
            metadata: self.metadata.clone(),
            tags: clone_texts(&self.tags),
            status: self.status,
            local_version: self.local_version,
            server_version: self.server_version,
            is_synced: self.is_synced,
            needs_upload: self.needs_upload,
            needs_download: self.needs_download,
            sync_error: clone_opt(&self.sync_error),
            last_synced_at: clone_opt(&self.last_synced_at),
            created_at: self.created_at.clone(),
            updated_at: self.updated_at.clone(),
        }
    }
}

/// A queued intent to carry one local mutation to the remote service.
#[derive(Debug, PartialEq, Eq)]
pub struct OfflineOperation {
    pub id: String,
    pub user_id: String,
    pub op_type: String,
    /// The operation's data, as JSON text.
    pub payload: String,
    pub status: OperationStatus,
    pub retry_count: i32,
    pub error_msg: Option<String>,
    pub created_at: String,
}

/// What an [`OfflineOperation`] holds, as plain mathematical values.
pub ghost struct OperationView {
    pub id: Seq<char>,
    pub user_id: Seq<char>,
    pub op_type: Seq<char>,
    pub payload: Seq<char>,
    pub status: OperationStatus,
    pub retry_count: i32,
    pub error_msg: Option<Seq<char>>,
    pub created_at: Seq<char>,
}

impl View for OfflineOperation {
    type V = OperationView;

    open spec fn view(&self) -> OperationView {
        OperationView {
            id: self.id@,
            user_id: self.user_id@,
            op_type: self.op_type@,
            payload: self.payload@,
            status: self.status,
            retry_count: self.retry_count,
            error_msg: opt_text(self.error_msg),
            created_at: self.created_at@,
        }
    }
}

impl Clone for OfflineOperation {
    fn clone(&self) -> (r: Self)
        ensures
            r@ == self@,
    {
        OfflineOperation {
            id: self.id.clone(),
            user_id: self.user_id.clone(),
            op_type: self.op_type.clone(),
            payload: self.payload.clone(),
            status: self.status,
            retry_count: self.retry_count,
            error_msg: clone_opt(&self.error_msg),
            created_at: self.created_at.clone(),
        }
    }
}

/// The single identity record: who is signed in, which server is spoken to,
/// and the checkpoint of the last completed pull.
#[derive(Debug, PartialEq, Eq)]
pub struct LocalIdentity {
    pub user_id: Option<String>,
    pub tenant_id: String,
    pub username: Option<String>,
    pub email: Option<String>,
    pub did: Option<String>,
    pub did_public_key: Option<String>,
    pub pleroma_account_id: Option<String>,
    pub server_url: String,
    pub last_sync_at: Option<String>,
}

/// What a [`LocalIdentity`] holds, as plain mathematical values.
pub ghost struct IdentityView {
    pub user_id: Option<Seq<char>>,
    pub tenant_id: Seq<char>,
    pub username: Option<Seq<char>>,
    pub email: Option<Seq<char>>,
    pub did: Option<Seq<char>>,
    pub did_public_key: Option<Seq<char>>,
    pub pleroma_account_id: Option<Seq<char>>,
    pub server_url: Seq<char>,
    pub last_sync_at: Option<Seq<char>>,
}

impl View for LocalIdentity {
    type V = IdentityView;

    open spec fn view(&self) -> IdentityView {
        IdentityView {
            user_id: opt_text(self.user_id),
            tenant_id: self.tenant_id@,
            username: opt_text(self.username),
            email: opt_text(self.email),
            did: opt_text(self.did),
            did_public_key: opt_text(self.did_public_key),
            pleroma_account_id: opt_text(self.pleroma_account_id),
            server_url: self.server_url@,
            last_sync_at: opt_text(self.last_sync_at),
        }
    }
}

impl Clone for LocalIdentity {
    fn clone(&self) -> (r: Self)
        ensures
            r@ == self@,
    {
        LocalIdentity {
            user_id: clone_opt(&self.user_id),
            tenant_id: self.tenant_id.clone(),
            username: clone_opt(&self.username),
            email: clone_opt(&self.email),
            did: clone_opt(&self.did),
            did_public_key: clone_opt(&self.did_public_key),
            pleroma_account_id: clone_opt(&self.pleroma_account_id),
            server_url: self.server_url.clone(),
            last_sync_at: clone_opt(&self.last_sync_at),
        }
    }
}

/// The identity of a store that nobody has signed in to yet.
pub open spec fn fresh_identity() -> IdentityView {
    IdentityView {
        user_id: None,
        tenant_id: "default"@,
        username: None,
        email: None,
        did: None,
        did_public_key: None,
        pleroma_account_id: None,
        server_url: "http://localhost:4000"@,
        last_sync_at: None,
    }
}

impl LocalIdentity {
    /// The identity record of a first run: default tenant, default server,
    /// no checkpoint.
    pub fn new() -> (r: LocalIdentity)
        ensures
            r@ == fresh_identity(),
    {
        LocalIdentity {
            user_id: None,
            tenant_id: "default".to_string(),
            username: None,
            email: None,
            did: None,
            did_public_key: None,
            pleroma_account_id: None,
            server_url: "http://localhost:4000".to_string(),
            last_sync_at: None,
        }
    }
}

/// A decentralised identifier with the public key it was derived from.
#[derive(Debug, PartialEq, Eq)]
pub struct DIDResult {
    pub did: String,
    pub public_key_multibase: String,
}

/// A summary of the queue and of the checkpoint.
#[derive(Debug, PartialEq, Eq)]
pub struct SyncStatus {
    pub is_syncing: bool,
    pub last_sync_at: Option<String>,
    pub pending_count: i64,
    pub failed_count: i64,
    pub connection_online: bool,
}

/// Whether somebody is signed in, and to which server.
#[derive(Debug, PartialEq, Eq)]
pub struct AuthResult {
    pub authenticated: bool,
    pub server_url: Option<String>,
    pub username: Option<String>,
}

} // verus!
